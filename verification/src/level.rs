use vstd::prelude::*;

verus! {

use crate::cell::Cell;
use crate::lines::chars_vec;
use crate::lines::lemma_line_len_bound;
use crate::lines::lemma_lines_count_bound;
use crate::lines::line_views;
use crate::lines::lines_of;
use crate::lines::split_lines;

/// Why a level layout failed to parse.
#[derive(Debug, Clone, Copy, PartialEq, Eq, Structural)]
pub enum ParseError {
    /// The layout held no line at all.
    EmptyInput,
    /// The layout held the given character, which is none of '#', 'S'
    /// and '.'. The first such character in scan order is reported.
    UnrecognizedCharacter(char),
}

/// A character a layout line may hold.
pub open spec fn valid_char(c: char) -> bool {
    c == '#' || c == 'S' || c == '.'
}

/// Every character of the line is one a layout may hold.
pub open spec fn line_ok(l: Seq<char>) -> bool {
    forall|j: int| 0 <= j < l.len() ==> valid_char(l[j])
}

/// Every line of the grid is well-formed.
pub open spec fn grid_ok(ls: Seq<Seq<char>>) -> bool {
    forall|i: int| 0 <= i < ls.len() ==> line_ok(ls[i])
}

/// The first invalid character of a line, scanning left to right.
pub open spec fn first_bad_in_line(l: Seq<char>) -> char
    decreases l.len(),
{
    if l.len() == 0 {
        arbitrary()
    } else if !valid_char(l[0]) {
        l[0]
    } else {
        first_bad_in_line(l.drop_first())
    }
}

/// The first invalid character of a grid, scanning rows top to bottom.
pub open spec fn first_bad_char(ls: Seq<Seq<char>>) -> char
    decreases ls.len(),
{
    if ls.len() == 0 {
        arbitrary()
    } else if !line_ok(ls[0]) {
        first_bad_in_line(ls[0])
    } else {
        first_bad_char(ls.drop_first())
    }
}

/// The wall cells contributed by the first `n` characters of a line at
/// height `y`, in scan order.
pub open spec fn line_walls(l: Seq<char>, y: int, n: int) -> Seq<(int, int)>
    decreases n,
{
    if n <= 0 {
        Seq::empty()
    } else if l[n - 1] == '#' {
        line_walls(l, y, n - 1).push((n - 1, y))
    } else {
        line_walls(l, y, n - 1)
    }
}

/// The wall cells contributed by the first `n` rows of a grid, in
/// row-major scan order. Row `r` of the text lies at height
/// `ls.len() - r - 1`: the topmost row has the highest `y`.
pub open spec fn grid_walls(ls: Seq<Seq<char>>, n: int) -> Seq<(int, int)>
    decreases n,
{
    if n <= 0 {
        Seq::empty()
    } else {
        grid_walls(ls, n - 1) + line_walls(ls[n - 1], ls.len() - n, (ls[n - 1].len()) as int)
    }
}

/// All wall cells of a grid, in scan order.
pub open spec fn walls_of_grid(ls: Seq<Seq<char>>) -> Seq<(int, int)> {
    grid_walls(ls, ls.len() as int)
}

/// The start recorded after the first `n` characters of a line at
/// height `y`, given the start `acc` recorded before the line: the last
/// 'S' wins, with no uniqueness check.
pub open spec fn line_start(l: Seq<char>, y: int, n: int, acc: (int, int)) -> (int, int)
    decreases n,
{
    if n <= 0 {
        acc
    } else if l[n - 1] == 'S' {
        (n - 1, y)
    } else {
        line_start(l, y, n - 1, acc)
    }
}

/// The start recorded after the first `n` rows of a grid; `(0, 0)` when
/// no 'S' occurs.
pub open spec fn grid_start(ls: Seq<Seq<char>>, n: int) -> (int, int)
    decreases n,
{
    if n <= 0 {
        (0, 0)
    } else {
        line_start(ls[n - 1], ls.len() - n, (ls[n - 1].len()) as int, grid_start(ls, n - 1))
    }
}

/// The start cell of a grid: the last 'S' in scan order, or `(0, 0)`.
pub open spec fn start_of_grid(ls: Seq<Seq<char>>) -> (int, int) {
    grid_start(ls, ls.len() as int)
}

proof fn lemma_first_bad_in_line_at(l: Seq<char>, j: int)
    requires
        0 <= j < l.len(),
        !valid_char(l[j]),
        forall|k: int| 0 <= k < j ==> valid_char(l[k]),
    ensures
        !line_ok(l),
        first_bad_in_line(l) == l[j],
    decreases j,
{
    if j > 0 {
        assert(forall|k: int| 0 <= k < j - 1 ==> l.drop_first()[k] == l[k + 1]);
        lemma_first_bad_in_line_at(l.drop_first(), j - 1);
    }
}

proof fn lemma_first_bad_at(ls: Seq<Seq<char>>, i: int, j: int)
    requires
        0 <= i < ls.len(),
        0 <= j < ls[i].len(),
        !valid_char(ls[i][j]),
        forall|k: int| 0 <= k < j ==> valid_char(ls[i][k]),
        forall|r: int| 0 <= r < i ==> line_ok(ls[r]),
    ensures
        !grid_ok(ls),
        first_bad_char(ls) == ls[i][j],
    decreases i,
{
    lemma_first_bad_in_line_at(ls[i], j);
    if i > 0 {
        assert(forall|r: int| 0 <= r < ls.drop_first().len() ==> ls.drop_first()[r] == ls[r + 1]);
        lemma_first_bad_at(ls.drop_first(), i - 1, j);
    }
}

/// The room the agent roams: an immutable set of wall cells, a start
/// cell, and a width/height pair establishing the valid bounds
/// `[0, width) x [0, height)` with `y` increasing upward.
#[derive(Debug)]
pub struct Level {
    walls: Vec<Cell>,
    start: Cell,
    width: usize,
    height: usize,
}

impl Level {
    /// The bounds fit the cell coordinate type, so that every in-bounds
    /// coordinate is representable as a `Cell`.
    #[verifier::type_invariant]
    pub open spec fn wf(self) -> bool {
        self.spec_width() <= i32::MAX && self.spec_height() <= i32::MAX
    }

    pub closed spec fn spec_width(self) -> int {
        self.width as int
    }

    pub closed spec fn spec_height(self) -> int {
        self.height as int
    }

    pub closed spec fn spec_start(self) -> (int, int) {
        self.start@
    }

    /// The wall cells, in insertion order from parsing.
    pub closed spec fn wall_seq(self) -> Seq<(int, int)> {
        self.walls@.map_values(|c: Cell| c@)
    }

    pub open spec fn spec_in_bounds(self, p: (int, int)) -> bool {
        0 <= p.0 < self.spec_width() && 0 <= p.1 < self.spec_height()
    }

    /// Whether the agent may occupy `p`: inside the bounds and not on a
    /// wall. Cells outside the bounds are uniformly blocked, never an
    /// error.
    pub open spec fn spec_has_space(self, p: (int, int)) -> bool {
        self.spec_in_bounds(p) && !self.wall_seq().contains(p)
    }

    /// Scan a multi-line layout: '#' records a wall, 'S' records the
    /// start (the last one wins), '.' is empty. The first line fixes the
    /// width, the line count fixes the height, and row 0 of the text is
    /// the topmost row, at the highest `y`. Any other character fails
    /// the parse, reporting the first offender; so does an empty input.
    pub fn parse(s: &str) -> (r: Result<Level, ParseError>)
        requires
            s@.len() <= i32::MAX,
        ensures
            ({
                let ls = lines_of(s@);
                match r {
                    Ok(level) => {
                        &&& ls.len() > 0
                        &&& grid_ok(ls)
                        &&& level.spec_width() == ls[0].len()
                        &&& level.spec_height() == ls.len()
                        &&& level.wall_seq() == walls_of_grid(ls)
                        &&& level.spec_start() == start_of_grid(ls)
                    },
                    Err(ParseError::EmptyInput) => ls.len() == 0,
                    Err(ParseError::UnrecognizedCharacter(c)) => {
                        &&& ls.len() > 0
                        &&& !grid_ok(ls)
                        &&& c == first_bad_char(ls)
                    },
                }
            }),
    {
        let cs = chars_vec(s);
        let lines = split_lines(&cs);
        let ghost ls = lines_of(s@);
        proof {
            lemma_lines_count_bound(s@);
        }

        if lines.len() == 0 {
            return Err(ParseError::EmptyInput);
        }

        let height = lines.len();
        let width = lines[0].len();
        proof {
            lemma_line_len_bound(s@, 0);
            assert(lines@[0]@ == ls[0]);
        }

        let mut walls: Vec<Cell> = Vec::new();
        let mut start = Cell { x: 0, y: 0 };
        proof {
            assert(walls@.map_values(|c: Cell| c@) =~= grid_walls(ls, 0));
        }

        let mut row: usize = 0;
        while row < height
            invariant
                0 <= row <= height,
                ls == lines_of(s@),
                s@.len() <= i32::MAX,
                height == ls.len(),
                height <= i32::MAX,
                line_views(lines@) == ls,
                lines@.len() == height,
                forall|r: int| 0 <= r < row ==> line_ok(ls[r]),
                walls@.map_values(|c: Cell| c@) == grid_walls(ls, row as int),
                start@ == grid_start(ls, row as int),
            decreases height - row,
        {
            let line = &lines[row];
            proof {
                lemma_line_len_bound(s@, row as int);
                assert(line@ == ls[row as int]);
            }
            let y = (height - 1 - row) as i32;

            let mut col: usize = 0;
            while col < line.len()
                invariant
                    0 <= row < height,
                    0 <= col <= line@.len(),
                    ls == lines_of(s@),
                    height == ls.len(),
                    height <= i32::MAX,
                    line@ == ls[row as int],
                    line@.len() <= i32::MAX,
                    y == height - 1 - row,
                    forall|r: int| 0 <= r < row ==> line_ok(ls[r]),
                    forall|k: int| 0 <= k < col ==> valid_char(ls[row as int][k]),
                    walls@.map_values(|c: Cell| c@) == grid_walls(ls, row as int) + line_walls(
                        ls[row as int],
                        y as int,
                        col as int,
                    ),
                    start@ == line_start(
                        ls[row as int],
                        y as int,
                        col as int,
                        grid_start(ls, row as int),
                    ),
                decreases line@.len() - col,
            {
                let ch = line[col];
                if ch == '#' {
                    let ghost before = walls@;
                    walls.push(Cell { x: col as i32, y });
                    proof {
                        assert(walls@.map_values(|c: Cell| c@) =~= before.map_values(
                            |c: Cell| c@,
                        ).push((col as int, y as int)));
                    }
                } else if ch == 'S' {
                    start = Cell { x: col as i32, y };
                } else if ch != '.' {
                    proof {
                        lemma_first_bad_at(ls, row as int, col as int);
                    }
                    return Err(ParseError::UnrecognizedCharacter(ch));
                }
                col += 1;
            }

            proof {
                assert(walls@.map_values(|c: Cell| c@) == grid_walls(ls, row as int + 1));
                assert(start@ == grid_start(ls, row as int + 1));
            }
            row += 1;
        }

        Ok(Level { walls, start, width, height })
    }

    /// Returns `(width, height)`.
    pub fn dimensions(&self) -> (r: (usize, usize))
        ensures
            r.0 == self.spec_width(),
            r.1 == self.spec_height(),
    {
        (self.width, self.height)
    }

    pub fn start(&self) -> (r: Cell)
        ensures
            r@ == self.spec_start(),
    {
        self.start
    }

    /// The wall cells, in row-major scan order from parsing.
    pub fn walls(&self) -> (r: &[Cell])
        ensures
            r@.map_values(|c: Cell| c@) == self.wall_seq(),
    {
        self.walls.as_slice()
    }

    /// Whether the agent may occupy `pt`. Total over in-bounds and
    /// out-of-bounds coordinates alike.
    pub fn has_space(&self, pt: Cell) -> (r: bool)
        ensures
            r == self.spec_has_space(pt@),
    {
        if pt.x < 0 || pt.y < 0 {
            return false;
        }
        if pt.x as usize >= self.width || pt.y as usize >= self.height {
            return false;
        }

        let mut i: usize = 0;
        while i < self.walls.len()
            invariant
                0 <= i <= self.walls@.len(),
                forall|k: int| 0 <= k < i ==> self.walls@[k]@ != pt@,
            decreases self.walls@.len() - i,
        {
            let w = self.walls[i];
            if w.x == pt.x && w.y == pt.y {
                proof {
                    assert(self.wall_seq().contains(pt@)) by {
                        assert(self.wall_seq()[i as int] == pt@);
                    }
                }
                return false;
            }
            i += 1;
        }
        proof {
            assert(!self.wall_seq().contains(pt@)) by {
                if self.wall_seq().contains(pt@) {
                    let k = choose|k: int|
                        0 <= k < self.wall_seq().len() && self.wall_seq()[k] == pt@;
                    assert(self.walls@[k]@ == pt@);
                }
            }
        }
        true
    }
}

impl Default for Level {
    /// An empty five-by-five room with the start at the origin.
    fn default() -> (r: Level)
        ensures
            r.spec_width() == 5,
            r.spec_height() == 5,
            r.wall_seq() == Seq::<(int, int)>::empty(),
            r.spec_start() == (0int, 0int),
    {
        let r = Level { walls: Vec::new(), start: Cell { x: 0, y: 0 }, width: 5, height: 5 };
        proof {
            assert(r.wall_seq() =~= Seq::<(int, int)>::empty());
        }
        r
    }
}

/// Law: every cell outside the level's bounds is blocked.
pub proof fn lemma_out_of_bounds_blocked(level: Level, p: (int, int))
    requires
        !level.spec_in_bounds(p),
    ensures
        !level.spec_has_space(p),
{
}

/// Law: every wall cell is blocked, inside the bounds or not.
pub proof fn lemma_wall_blocked(level: Level, p: (int, int))
    requires
        level.wall_seq().contains(p),
    ensures
        !level.spec_has_space(p),
{
}

} // verus!
