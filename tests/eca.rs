use eca::cells::{Cells, ParseCellsError};
use eca::rule::Rule;
use eca::run::Runner;
use eca::step::{step, EdgeHandling, Settings};

fn cells(text: &str) -> Cells {
    Cells::parse(text).unwrap()
}

fn bits(c: &Cells) -> String {
    c.0.iter().map(|&b| if b { '1' } else { '0' }).collect()
}

fn settings(code: u8, edge_handling: EdgeHandling, generations: u16) -> Settings {
    Settings { rule: Rule(code), edge_handling, generations, delay: 0 }
}

fn all_neighborhoods() -> Vec<[bool; 3]> {
    (0..8u8).map(|n| [n & 4 != 0, n & 2 != 0, n & 1 != 0]).collect()
}

fn step_once(text: &str, code: u8, edges: EdgeHandling) -> String {
    let (front, _) = step(cells(text), Cells(Vec::new()), &settings(code, edges, 1));
    bits(&front)
}

/// The next generation of a ring of cells, computed directly.
fn ring_step(c: &[bool], code: u8) -> Vec<bool> {
    let n = c.len();
    (0..n)
        .map(|i| Rule(code).apply([c[(i + n - 1) % n], c[i], c[(i + 1) % n]]))
        .collect()
}

#[test]
fn rule_255_is_always_live() {
    for nb in all_neighborhoods() {
        assert!(Rule(255).apply(nb));
    }
}

#[test]
fn rule_0_is_always_dead() {
    for nb in all_neighborhoods() {
        assert!(!Rule(0).apply(nb));
    }
}

#[test]
fn rule_2_sets_only_index_one() {
    for nb in all_neighborhoods() {
        assert_eq!(Rule(2).apply(nb), nb == [false, false, true]);
    }
}

#[test]
fn left_cell_is_most_significant() {
    // code 64 sets bit 6 only: the neighbourhood (live, live, dead)
    assert!(Rule(64).apply([true, true, false]));
    assert!(!Rule(64).apply([false, true, true]));
    // code 8 sets bit 3 only: (dead, live, live)
    assert!(Rule(8).apply([false, true, true]));
    assert!(!Rule(8).apply([true, true, false]));
}

#[test]
fn step_keeps_width() {
    for edges in [EdgeHandling::Copy, EdgeHandling::Crop, EdgeHandling::Wrap] {
        for text in ["101", "0110", "1001101110"] {
            for code in [0u8, 30, 90, 110, 255] {
                assert_eq!(step_once(text, code, edges).len(), text.len());
            }
        }
    }
}

#[test]
fn crop_reads_dead_left_neighbour() {
    // left edge: (dead, dead, live) has index 1, set in code 2
    assert_eq!(step_once("010", 2, EdgeHandling::Crop), "100");
}

#[test]
fn crop_reads_dead_right_neighbour() {
    // code 16 sets bit 4: (live, dead, dead)
    assert_eq!(step_once("010", 16, EdgeHandling::Crop), "001");
    assert_eq!(step_once("011", 16, EdgeHandling::Crop), "000");
}

#[test]
fn wrap_matches_ring_reference() {
    for text in ["101", "0110", "1001101", "0000001", "1000000"] {
        let c = cells(text);
        for code in [2u8, 30, 90, 110, 184] {
            let (front, _) = step(c.clone(), Cells(Vec::new()), &settings(code, EdgeHandling::Wrap, 1));
            assert_eq!(front.0, ring_step(&c.0, code));
        }
    }
}

#[test]
fn wrap_left_edge_reads_last_cell() {
    // code 16 sets bit 4: (live, dead, dead); the last cell wraps in on the left
    assert_eq!(step_once("0001", 16, EdgeHandling::Wrap), "1000");
}

#[test]
fn copy_keeps_edges() {
    for code in [0u8, 90, 255] {
        for text in ["101", "010", "10110", "01101"] {
            let next = step_once(text, code, EdgeHandling::Copy);
            assert_eq!(next.chars().next(), text.chars().next());
            assert_eq!(next.chars().last(), text.chars().last());
        }
    }
    assert_eq!(step_once("10101", 255, EdgeHandling::Copy), "11111");
    assert_eq!(step_once("10101", 0, EdgeHandling::Copy), "10001");
}

#[test]
fn step_swaps_buffers() {
    let front = cells("00100");
    let back = cells("11111");
    let (new_front, new_back) = step(front.clone(), back, &settings(90, EdgeHandling::Crop, 1));
    assert_eq!(new_back, front);
    assert_eq!(bits(&new_front), "01010");
}

#[test]
fn parse_101() {
    assert_eq!(cells("101").0, vec![true, false, true]);
}

#[test]
fn parse_through_from_str() {
    let c: Cells = "0011".parse().unwrap();
    assert_eq!(c.0, vec![false, false, true, true]);
}

#[test]
fn parse_rejects_invalid_character() {
    assert_eq!(Cells::parse("10x"), Err(ParseCellsError::InvalidCharacter));
    assert_eq!(Cells::parse("x01"), Err(ParseCellsError::InvalidCharacter));
    assert_eq!(Cells::parse("1 0"), Err(ParseCellsError::InvalidCharacter));
    assert_eq!(Cells::parse("10é1"), Err(ParseCellsError::InvalidCharacter));
}

#[test]
fn parse_rejects_short_text() {
    assert_eq!(Cells::parse("10"), Err(ParseCellsError::TooShort));
    assert_eq!(Cells::parse("1x"), Err(ParseCellsError::TooShort));
    assert_eq!(Cells::parse(""), Err(ParseCellsError::TooShort));
}

#[test]
fn error_messages_differ() {
    assert_ne!(ParseCellsError::TooShort.message(), ParseCellsError::InvalidCharacter.message());
    assert!(ParseCellsError::TooShort.message().contains("3"));
}

#[test]
fn render_uses_two_columns_per_cell() {
    assert_eq!(cells("101").render(), "██╶╴██");
    assert_eq!(cells("000").render().chars().count(), 6);
}

#[test]
fn new_random_has_requested_width() {
    for width in [3u16, 4, 40, 200] {
        assert_eq!(Cells::new_random(width).0.len(), width as usize);
    }
}

#[test]
fn neighborhoods_are_windows() {
    let c = cells("10110");
    assert_eq!(
        c.neighborhoods(),
        vec![[true, false, true], [false, true, true], [true, true, false]]
    );
    assert_eq!(c.neighborhood(1), [false, true, true]);
}

#[test]
fn edges_are_outer_pairs() {
    assert_eq!(cells("100110").edges(), [[true, false], [true, false]]);
    assert_eq!(cells("011").edges(), [[false, true], [true, true]]);
}

#[test]
fn rule_90_from_single_cell() {
    let s = settings(90, EdgeHandling::Crop, 2);
    let (g1, back) = step(cells("00100"), Cells(Vec::new()), &s);
    assert_eq!(bits(&g1), "01010");
    let (g2, _) = step(g1, back, &s);
    assert_eq!(bits(&g2), "10001");
}

#[test]
fn runner_shows_every_generation() {
    let mut runner = Runner::new(cells("00100"), settings(90, EdgeHandling::Crop, 2));
    let mut shown = Vec::new();
    while runner.is_running() {
        shown.push(bits(runner.front()));
        runner.advance();
        runner.record_poll(false);
    }
    assert_eq!(shown, vec!["00100", "01010"]);
    assert_eq!(bits(runner.front()), "10001");
}

#[test]
fn runner_stops_on_input() {
    let mut runner = Runner::new(cells("00100"), settings(90, EdgeHandling::Crop, 5));
    let mut steps = 0;
    while runner.is_running() {
        runner.advance();
        steps += 1;
        runner.record_poll(steps == 2);
    }
    assert_eq!(steps, 2);
    assert_eq!(bits(runner.front()), "10001");
}

#[test]
fn runner_with_no_generations_does_nothing() {
    let runner = Runner::new(cells("101"), settings(90, EdgeHandling::Wrap, 0));
    assert!(!runner.is_running());
    assert_eq!(runner.settings().generations, 0);
}
