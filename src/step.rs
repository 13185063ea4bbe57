use vstd::prelude::*;
use vstd::arithmetic::div_mod::{lemma_mod_multiples_vanish, lemma_mod_self_0, lemma_small_mod};
use crate::cells::Cells;
use crate::rule::{rule_output, Rule};

verus! {

/// How new values for the cells at the very edges are computed.
#[derive(Clone, Copy, Debug, PartialEq, Eq, Structural)]
pub enum EdgeHandling {
    /// The previous edge values are retained.
    Copy,
    /// Edge neighbours are taken to be dead.
    Crop,
    /// Edge neighbours wrap around to the other side.
    Wrap,
}

/// The settings of one run.
#[derive(Clone, Copy, Debug, PartialEq, Eq, Structural)]
pub struct Settings {
    pub rule: Rule,
    pub edge_handling: EdgeHandling,
    /// How many generations are shown.
    pub generations: u16,
    /// How long to wait for input after each generation, in milliseconds.
    pub delay: u64,
}

/// The new value of cell `i` of `c` under the rule with code `code` and the
/// edge handling `edges`. The first and last cells take their outside
/// neighbour from `edges`; every other cell reads its two neighbours.
pub open spec fn next_cell(code: u8, edges: EdgeHandling, c: Seq<bool>, i: int) -> bool {
    let n = c.len() as int;
    if i == 0 {
        match edges {
            EdgeHandling::Copy => c[0],
            EdgeHandling::Crop => rule_output(code, false, c[0], c[1]),
            EdgeHandling::Wrap => rule_output(code, c[n - 1], c[0], c[1]),
        }
    } else if i == n - 1 {
        match edges {
            EdgeHandling::Copy => c[n - 1],
            EdgeHandling::Crop => rule_output(code, c[n - 2], c[n - 1], false),
            EdgeHandling::Wrap => rule_output(code, c[n - 2], c[n - 1], c[0]),
        }
    } else {
        rule_output(code, c[i - 1], c[i], c[i + 1])
    }
}

/// The generation that follows `c`: each cell replaced by its new value.
pub open spec fn next_generation(code: u8, edges: EdgeHandling, c: Seq<bool>) -> Seq<bool> {
    Seq::new(c.len(), |i: int| next_cell(code, edges, c, i))
}

/// Computes the next generation from `front` into `back`, overwriting what
/// `back` held. Returns `(new front, new back)`: the buffer just written and
/// the buffer just read.
pub fn step(front: Cells, back: Cells, settings: &Settings) -> (r: (Cells, Cells))
    requires
        front.wf(),
    ensures
        r.0@ == next_generation(settings.rule.0, settings.edge_handling, front@),
        r.0@.len() == front@.len(),
        r.1 == front,
{
    let mut back = back;
    let rule = settings.rule;
    let len = front.0.len();
    let edges = front.edges();
    let (left_edge, right_edge) = match settings.edge_handling {
        EdgeHandling::Copy => (edges[0][0], edges[1][1]),
        EdgeHandling::Crop => (
            rule.apply([false, edges[0][0], edges[0][1]]),
            rule.apply([edges[1][0], edges[1][1], false]),
        ),
        EdgeHandling::Wrap => (
            rule.apply([edges[1][1], edges[0][0], edges[0][1]]),
            rule.apply([edges[1][0], edges[1][1], edges[0][0]]),
        ),
    };
    back.0.clear();
    back.0.push(left_edge);
    let mut i: usize = 0;
    while i + 2 < len
        invariant
            len == front@.len(),
            len >= 3,
            i + 2 <= len,
            back@.len() == i + 1,
            forall|j: int|
                0 <= j < i + 1 ==> #[trigger] back@[j] == next_cell(
                    rule.0,
                    settings.edge_handling,
                    front@,
                    j,
                ),
        decreases len - i,
    {
        let cell = rule.apply(front.neighborhood(i));
        back.0.push(cell);
        i = i + 1;
    }
    back.0.push(right_edge);
    assert(back@ =~= next_generation(rule.0, settings.edge_handling, front@));
    (back, front)
}

/// The value of cell `i` when `c` is read as a ring, each cell's neighbours
/// taken modulo the length.
pub open spec fn circular_next_cell(code: u8, c: Seq<bool>, i: int) -> bool {
    let n = c.len() as int;
    rule_output(code, c[(i + n - 1) % n], c[i], c[(i + 1) % n])
}

/// Stepping keeps the width: the next generation of `L >= 3` cells has `L`
/// cells, whatever the rule and the edge handling.
pub proof fn step_preserves_length(code: u8, edges: EdgeHandling, c: Seq<bool>)
    requires
        c.len() >= 3,
    ensures
        next_generation(code, edges, c).len() == c.len(),
{
}

/// Under `Crop` the missing neighbour beyond each edge is dead: the first cell
/// becomes the rule applied to `(dead, c0, c1)` and the last to
/// `(c(L-2), c(L-1), dead)`.
pub proof fn crop_edges_read_dead_neighbours(code: u8, c: Seq<bool>)
    requires
        c.len() >= 3,
    ensures
        next_generation(code, EdgeHandling::Crop, c)[0] == rule_output(code, false, c[0], c[1]),
        next_generation(code, EdgeHandling::Crop, c)[c.len() - 1] == rule_output(
            code,
            c[c.len() - 2],
            c[c.len() - 1],
            false,
        ),
{
}

/// Under `Wrap` the sequence is a ring: every cell of the next generation,
/// the two edge cells included, is the rule applied to the cell and its
/// neighbours taken modulo the length.
pub proof fn wrap_matches_ring(code: u8, c: Seq<bool>)
    requires
        c.len() >= 3,
    ensures
        forall|i: int|
            0 <= i < c.len() ==> #[trigger] next_generation(code, EdgeHandling::Wrap, c)[i]
                == circular_next_cell(code, c, i),
{
    let n = c.len() as int;
    assert forall|i: int| 0 <= i < n implies #[trigger] next_generation(
        code,
        EdgeHandling::Wrap,
        c,
    )[i] == circular_next_cell(code, c, i) by {
        if i == 0 {
            lemma_small_mod((n - 1) as nat, n as nat);
            lemma_small_mod(1, n as nat);
        } else if i == n - 1 {
            lemma_mod_multiples_vanish(1, n - 2, n);
            lemma_small_mod((n - 2) as nat, n as nat);
            lemma_mod_self_0(n);
        } else {
            lemma_mod_multiples_vanish(1, i - 1, n);
            lemma_small_mod((i - 1) as nat, n as nat);
            lemma_small_mod((i + 1) as nat, n as nat);
        }
    }
}

/// Under `Copy` the two edge cells keep their values, whatever the rule.
pub proof fn copy_keeps_edge_cells(code: u8, c: Seq<bool>)
    requires
        c.len() >= 3,
    ensures
        next_generation(code, EdgeHandling::Copy, c)[0] == c[0],
        next_generation(code, EdgeHandling::Copy, c)[c.len() - 1] == c[c.len() - 1],
{
}

} // verus!
