use vstd::prelude::*;
use vstd::string::StrSliceExecFns;
use vstd::string::StringExecFns;
use rand::Rng;

verus! {

/// Why a text is not a cell configuration.
#[derive(Clone, Copy, Debug, PartialEq, Eq, Structural)]
pub enum ParseCellsError {
    /// The text has fewer than 3 characters.
    TooShort,
    /// The text holds a character other than `'0'` or `'1'`.
    InvalidCharacter,
}

impl ParseCellsError {
    /// A sentence that explains the error to a user.
    pub fn message(&self) -> (r: &'static str)
        ensures
            *self == ParseCellsError::TooShort ==> r@
                == "Initial configuration must be at least 3 cells wide"@,
            *self == ParseCellsError::InvalidCharacter ==> r@
                == "Initial configuration must only contain '0' or '1'"@,
    {
        match self {
            ParseCellsError::TooShort => "Initial configuration must be at least 3 cells wide",
            ParseCellsError::InvalidCharacter => "Initial configuration must only contain '0' or '1'",
        }
    }
}

/// Whether `c` is one of the two cell markers.
pub open spec fn is_cell_char(c: char) -> bool {
    c == '0' || c == '1'
}

/// The cells that a text of cell markers stands for: `'1'` is a live cell.
pub open spec fn cells_of_text(s: Seq<char>) -> Seq<bool> {
    s.map_values(|c: char| c == '1')
}

/// The two characters that show one cell.
pub open spec fn glyph(cell: bool) -> Seq<char> {
    if cell {
        seq!['█', '█']
    } else {
        seq!['╶', '╴']
    }
}

/// The text that shows a sequence of cells, two characters per cell.
pub open spec fn rendered(cells: Seq<bool>) -> Seq<char>
    decreases cells.len(),
{
    if cells.len() == 0 {
        Seq::empty()
    } else {
        rendered(cells.drop_last()) + glyph(cells.last())
    }
}

/// The sequence of cells getting updated.
#[derive(Clone, Debug, PartialEq)]
pub struct Cells(pub Vec<bool>);

impl View for Cells {
    type V = Seq<bool>;

    open spec fn view(&self) -> Seq<bool> {
        self.0@
    }
}

/// Relies on rand's `thread_rng` and `Rng::fill` over a `[bool]` slice,
/// which overwrites each element in place: the result has `width` cells.
#[verifier::external_body]
fn random_bools(width: usize) -> (r: Vec<bool>)
    ensures
        r@.len() == width,
{
    let mut cells = vec![false; width];
    rand::thread_rng().fill(&mut cells[..]);
    cells
}

impl Cells {
    /// Whether the sequence is wide enough to run: at least 3 cells.
    pub open spec fn wf(&self) -> bool {
        self@.len() >= 3
    }

    /// A sequence of `width` random cells.
    pub fn new_random(width: u16) -> (r: Cells)
        requires
            width >= 3,
        ensures
            r@.len() == width,
            r.wf(),
    {
        Cells(random_bools(width as usize))
    }

    /// Parses a text of `'0'` and `'1'` as a cell configuration. A text of
    /// fewer than 3 characters is too short, whatever it holds.
    pub fn parse(s: &str) -> (r: Result<Cells, ParseCellsError>)
        ensures
            s@.len() < 3 <==> r == Err::<Cells, ParseCellsError>(ParseCellsError::TooShort),
            r == Err::<Cells, ParseCellsError>(ParseCellsError::InvalidCharacter) <==> (s@.len() >= 3
                && exists|i: int| 0 <= i < s@.len() && !is_cell_char(#[trigger] s@[i])),
            r is Ok <==> (s@.len() >= 3 && forall|i: int|
                0 <= i < s@.len() ==> is_cell_char(#[trigger] s@[i])),
            r matches Ok(c) ==> c@ == cells_of_text(s@) && c.wf(),
    {
        let n = s.unicode_len();
        if n < 3 {
            return Err(ParseCellsError::TooShort);
        }
        if !s.is_ascii() {
            proof {
                let i = choose|i: int| 0 <= i < s@.len() && !('\0' <= #[trigger] s@[i] <= '\u{7f}');
                assert(!is_cell_char(s@[i]));
            }
            return Err(ParseCellsError::InvalidCharacter);
        }
        let mut cells: Vec<bool> = Vec::with_capacity(n);
        let mut i: usize = 0;
        while i < n
            invariant
                n == s@.len(),
                n >= 3,
                s.is_ascii(),
                i <= n,
                cells@ == cells_of_text(s@.subrange(0, i as int)),
                forall|j: int| 0 <= j < i ==> is_cell_char(#[trigger] s@[j]),
            decreases n - i,
        {
            let b = s.get_ascii(i);
            proof {
                assert('\0' <= s@[i as int] <= '\u{7f}');
            }
            if b == 48u8 {
                assert(s@[i as int] == '0');
                cells.push(false);
            } else if b == 49u8 {
                assert(s@[i as int] == '1');
                cells.push(true);
            } else {
                assert(!is_cell_char(s@[i as int]));
                return Err(ParseCellsError::InvalidCharacter);
            }
            assert(s@.subrange(0, i + 1) == s@.subrange(0, i as int).push(s@[i as int]));
            i = i + 1;
        }
        assert(s@.subrange(0, n as int) == s@);
        Ok(Cells(cells))
    }

    /// The 3-cell window that starts at cell `i`: cells `i`, `i + 1` and `i + 2`.
    pub fn neighborhood(&self, i: usize) -> (r: [bool; 3])
        requires
            i + 2 < self@.len(),
        ensures
            r[0] == self@[i as int],
            r[1] == self@[i + 1],
            r[2] == self@[i + 2],
    {
        let len = self.0.len();
        assert(i + 2 < len);
        [self.0[i], self.0[i + 1], self.0[i + 2]]
    }

    /// All overlapping 3-cell windows, left to right: window `i` is cells
    /// `i`, `i + 1` and `i + 2`, so a sequence of `L >= 2` cells has `L - 2`.
    pub fn neighborhoods(&self) -> (r: Vec<[bool; 3]>)
        ensures
            self@.len() >= 2 ==> r@.len() == self@.len() - 2,
            self@.len() < 2 ==> r@.len() == 0,
            forall|i: int|
                0 <= i < r@.len() ==> (#[trigger] r@[i])[0] == self@[i] && r@[i][1] == self@[i + 1]
                    && r@[i][2] == self@[i + 2],
    {
        let len = self.0.len();
        let mut windows: Vec<[bool; 3]> = Vec::new();
        if len < 3 {
            return windows;
        }
        let mut i: usize = 0;
        while i + 2 < len
            invariant
                len == self@.len(),
                len >= 3,
                i + 2 <= len,
                windows@.len() == i,
                forall|j: int|
                    0 <= j < i ==> (#[trigger] windows@[j])[0] == self@[j] && windows@[j][1]
                        == self@[j + 1] && windows@[j][2] == self@[j + 2],
            decreases len - i,
        {
            windows.push(self.neighborhood(i));
            i = i + 1;
        }
        windows
    }

    /// The first two cells and the last two cells: `[[c0, c1], [c(L-2), c(L-1)]]`.
    pub fn edges(&self) -> (r: [[bool; 2]; 2])
        requires
            self@.len() >= 2,
        ensures
            r[0][0] == self@[0],
            r[0][1] == self@[1],
            r[1][0] == self@[self@.len() - 2],
            r[1][1] == self@[self@.len() - 1],
    {
        let len = self.0.len();
        [[self.0[0], self.0[1]], [self.0[len - 2], self.0[len - 1]]]
    }

    /// The text that shows the cells, two characters per cell: `██` for a
    /// live cell and `╶╴` for a dead one.
    pub fn render(&self) -> (r: String)
        ensures
            r@ == rendered(self@),
    {
        let mut text = String::new();
        let mut i: usize = 0;
        while i < self.0.len()
            invariant
                i <= self@.len(),
                text@ == rendered(self@.subrange(0, i as int)),
            decreases self@.len() - i,
        {
            proof {
                let prefix = self@.subrange(0, i + 1);
                assert(prefix.drop_last() == self@.subrange(0, i as int));
                assert(prefix.last() == self@[i as int]);
                reveal_strlit("██");
                reveal_strlit("╶╴");
            }
            if self.0[i] {
                text.append("██");
            } else {
                text.append("╶╴");
            }
            i = i + 1;
        }
        assert(self@.subrange(0, self@.len() as int) == self@);
        text
    }
}

impl std::str::FromStr for Cells {
    type Err = ParseCellsError;

    /// Parses a text of `'0'` and `'1'`, as [`Cells::parse`] does.
    fn from_str(s: &str) -> (r: Result<Cells, ParseCellsError>)
        ensures
            s@.len() < 3 <==> r == Err::<Cells, ParseCellsError>(ParseCellsError::TooShort),
            r == Err::<Cells, ParseCellsError>(ParseCellsError::InvalidCharacter) <==> (s@.len() >= 3
                && exists|i: int| 0 <= i < s@.len() && !is_cell_char(#[trigger] s@[i])),
            r is Ok <==> (s@.len() >= 3 && forall|i: int|
                0 <= i < s@.len() ==> is_cell_char(#[trigger] s@[i])),
            r matches Ok(c) ==> c@ == cells_of_text(s@) && c.wf(),
    {
        Cells::parse(s)
    }
}

} // verus!
