//! Geometry of the ASCII tree: its dimensions, where birds may perch on
//! its branches, and how it is placed on a screen of a given size.

use vstd::prelude::*;

verus! {

/// Characters the tree's wood is drawn with.
pub open spec fn is_branch_char(ch: char) -> bool {
    ch == '#' || ch == '%' || ch == '@' || ch == '='
}

/// Characters that leave room above a branch for a bird.
pub open spec fn is_open_char(ch: char) -> bool {
    ch == ' ' || ch == '*' || ch == '+' || ch == '.' || ch == '~'
}

/// The longest row of the first `n` rows.
pub open spec fn max_row_len(grid: Seq<Vec<char>>, n: nat) -> nat
    decreases n,
{
    if n == 0 {
        0
    } else {
        let prev = max_row_len(grid, (n - 1) as nat);
        let len = grid[n - 1]@.len();
        if len > prev {
            len
        } else {
            prev
        }
    }
}

/// The width of the art: its longest row, or 80 for an empty grid.
pub open spec fn art_width_of(grid: Seq<Vec<char>>) -> nat {
    if grid.len() == 0 {
        80
    } else {
        max_row_len(grid, grid.len())
    }
}

/// The room above cell `(r, c)`: open when the row above has an open
/// character there, or when there is no such cell.
pub open spec fn space_above(grid: Seq<Vec<char>>, r: int, c: int) -> bool {
    if r > 0 && c < grid[r - 1]@.len() {
        is_open_char(grid[r - 1]@[c])
    } else {
        true
    }
}

/// The first row of the band in which birds perch (30% of the height).
pub open spec fn perch_min_row(art_height: int) -> int {
    (art_height * 30) / 100
}

/// The row just past the perching band (80% of the height).
pub open spec fn perch_max_row(art_height: int) -> int {
    (art_height * 80) / 100
}

/// A cell a bird may perch on: a branch character in the perching band,
/// with room above it, in art more than ten rows high and wide.
pub open spec fn is_perch(grid: Seq<Vec<char>>, r: int, c: int) -> bool {
    &&& grid.len() > 10
    &&& art_width_of(grid) > 10
    &&& perch_min_row(grid.len() as int) <= r < perch_max_row(grid.len() as int)
    &&& 0 <= c < grid[r]@.len()
    &&& is_branch_char(grid[r]@[c])
    &&& space_above(grid, r, c)
}

/// Row-major order of cells.
pub open spec fn cell_before(a: (usize, usize), b: (usize, usize)) -> bool {
    a.0 < b.0 || (a.0 == b.0 && a.1 < b.1)
}

/// `perches` lists every perch of the grid exactly once, in row-major order.
pub open spec fn perches_of(grid: Seq<Vec<char>>, perches: Seq<(usize, usize)>) -> bool {
    &&& forall|k: int|
        0 <= k < perches.len() ==> is_perch(grid, #[trigger] perches[k].0 as int, perches[k].1 as int)
    &&& forall|k1: int, k2: int|
        0 <= k1 < k2 < perches.len() ==> cell_before(#[trigger] perches[k1], #[trigger] perches[k2])
    &&& forall|r: int, c: int|
        #[trigger] is_perch(grid, r, c) ==> exists|k: int|
            0 <= k < perches.len() && #[trigger] perches[k] == (r as usize, c as usize)
}

/// The longest of the first `n` rows: no row is longer, and one of them
/// is that long (or it is 0 when `n` is 0).
proof fn lemma_max_row_len(grid: Seq<Vec<char>>, n: nat)
    requires
        n <= grid.len(),
    ensures
        forall|r: int| 0 <= r < n ==> (#[trigger] grid[r])@.len() <= max_row_len(grid, n),
        n > 0 ==> exists|r: int| 0 <= r < n && (#[trigger] grid[r])@.len() == max_row_len(grid, n),
        n == 0 ==> max_row_len(grid, n) == 0,
    decreases n,
{
    if n > 0 {
        lemma_max_row_len(grid, (n - 1) as nat);
        if grid[n - 1]@.len() <= max_row_len(grid, (n - 1) as nat) && n > 1 {
            let r = choose|r: int| 0 <= r < n - 1 && (#[trigger] grid[r])@.len() == max_row_len(grid, (n - 1) as nat);
            assert(grid[r]@.len() == max_row_len(grid, n));
        } else {
            assert(grid[n - 1]@.len() == max_row_len(grid, n));
        }
    }
}

/// The art is as wide as its longest row: no row is wider and some row
/// is that wide; art with no rows counts as 80 columns wide.
pub proof fn lemma_art_width(grid: Seq<Vec<char>>)
    ensures
        grid.len() == 0 ==> art_width_of(grid) == 80,
        forall|r: int| 0 <= r < grid.len() ==> (#[trigger] grid[r])@.len() <= art_width_of(grid),
        grid.len() > 0 ==> exists|r: int| 0 <= r < grid.len() && (#[trigger] grid[r])@.len() == art_width_of(grid),
{
    lemma_max_row_len(grid, grid.len());
}

/// The width of the art: its longest row, or 80 when it has no rows.
pub fn art_width(grid: &Vec<Vec<char>>) -> (res: usize)
    ensures
        res == art_width_of(grid@),
{
    let n = grid.len();
    if n == 0 {
        return 80;
    }
    let mut best: usize = 0;
    let mut i: usize = 0;
    while i < n
        invariant
            n == grid@.len(),
            i <= n,
            best == max_row_len(grid@, i as nat),
        decreases n - i,
    {
        let len = grid[i].len();
        if len > best {
            best = len;
        }
        i = i + 1;
    }
    best
}

/// Whether a bird fits above cell `(r, c)`.
fn has_space_above(grid: &Vec<Vec<char>>, r: usize, c: usize) -> (res: bool)
    requires
        r < grid@.len(),
    ensures
        res == space_above(grid@, r as int, c as int),
{
    if r > 0 && c < grid[r - 1].len() {
        let ch = grid[r - 1][c];
        ch == ' ' || ch == '*' || ch == '+' || ch == '.' || ch == '~'
    } else {
        true
    }
}

/// Finds, in row-major order, every branch cell in the middle band of the
/// tree (30% to 80% of its height) with room above it for a bird. Art ten
/// rows high or narrower, or ten columns wide or narrower, has none.
pub fn branch_perches(grid: &Vec<Vec<char>>) -> (perches: Vec<(usize, usize)>)
    requires
        grid@.len() <= usize::MAX / 100,
    ensures
        perches_of(grid@, perches@),
{
    let art_height = grid.len();
    let width = art_width(grid);
    let mut perches: Vec<(usize, usize)> = Vec::new();
    if !(art_height > 10 && width > 10) {
        return perches;
    }
    let min_r = (art_height * 30) / 100;
    let max_r = (art_height * 80) / 100;
    let mut r = min_r;
    while r < max_r
        invariant
            art_height == grid@.len(),
            art_height > 10,
            width == art_width_of(grid@),
            width > 10,
            min_r == perch_min_row(art_height as int),
            max_r == perch_max_row(art_height as int),
            max_r <= art_height,
            min_r <= r,
            r <= max_r || r == min_r,
            forall|k: int|
                0 <= k < perches@.len() ==> is_perch(grid@, #[trigger] perches@[k].0 as int, perches@[k].1 as int)
                    && perches@[k].0 < r,
            forall|k1: int, k2: int|
                0 <= k1 < k2 < perches@.len() ==> cell_before(#[trigger] perches@[k1], #[trigger] perches@[k2]),
            forall|rr: int, c: int|
                #[trigger] is_perch(grid@, rr, c) && rr < r ==> exists|k: int|
                    0 <= k < perches@.len() && #[trigger] perches@[k] == (rr as usize, c as usize),
        decreases max_r - r,
    {
        let row = &grid[r];
        let row_len = row.len();
        let mut c: usize = 0;
        while c < row_len
            invariant
                art_height == grid@.len(),
                art_height > 10,
                width == art_width_of(grid@),
                width > 10,
                min_r == perch_min_row(art_height as int),
                max_r == perch_max_row(art_height as int),
                min_r <= r < max_r,
                max_r <= art_height,
                row == &grid@[r as int],
                row_len == row@.len(),
                c <= row_len,
                forall|k: int|
                    0 <= k < perches@.len() ==> is_perch(grid@, #[trigger] perches@[k].0 as int, perches@[k].1 as int)
                        && (perches@[k].0 < r || (perches@[k].0 == r && perches@[k].1 < c)),
                forall|k1: int, k2: int|
                    0 <= k1 < k2 < perches@.len() ==> cell_before(#[trigger] perches@[k1], #[trigger] perches@[k2]),
                forall|rr: int, cc: int|
                    #[trigger] is_perch(grid@, rr, cc) && (rr < r || (rr == r && cc < c)) ==> exists|k: int|
                        0 <= k < perches@.len() && #[trigger] perches@[k] == (rr as usize, cc as usize),
            decreases row_len - c,
        {
            let ch = row[c];
            let ghost old_perches = perches@;
            if (ch == '#' || ch == '%' || ch == '@' || ch == '=') && has_space_above(grid, r, c) {
                perches.push((r, c));
                assert forall|k: int|
                    0 <= k < perches@.len() implies is_perch(grid@, #[trigger] perches@[k].0 as int, perches@[k].1 as int)
                        && (perches@[k].0 < r || (perches@[k].0 == r && perches@[k].1 < c + 1)) by {
                    if k < old_perches.len() {
                        assert(perches@[k] == old_perches[k]);
                    }
                }
            }
            assert forall|rr: int, cc: int|
                #[trigger] is_perch(grid@, rr, cc) && (rr < r || (rr == r && cc < c + 1)) implies exists|k: int|
                    0 <= k < perches@.len() && #[trigger] perches@[k] == (rr as usize, cc as usize) by {
                if rr == r && cc == c {
                    assert(perches@[perches@.len() - 1] == (rr as usize, cc as usize));
                } else {
                    let k = choose|k: int|
                        0 <= k < old_perches.len() && #[trigger] old_perches[k] == (rr as usize, cc as usize);
                    assert(perches@[k] == old_perches[k]);
                }
            }
            c = c + 1;
        }
        assert forall|rr: int, cc: int|
            #[trigger] is_perch(grid@, rr, cc) && rr < r + 1 implies exists|k: int|
                0 <= k < perches@.len() && #[trigger] perches@[k] == (rr as usize, cc as usize) by {
            if rr == r {
                assert(cc < row_len);
            }
        }
        r = r + 1;
    }
    assert forall|rr: int, cc: int| #[trigger] is_perch(grid@, rr, cc) implies exists|k: int|
        0 <= k < perches@.len() && #[trigger] perches@[k] == (rr as usize, cc as usize) by {
        assert(rr < r);
    }
    perches
}

/// The rows above this one bend in the wind: the top 65% of the art.
pub open spec fn sway_limit(art_height: int) -> int {
    (art_height * 65) / 100
}

/// The tree's wood is its heavy characters (`#`, `%`, `@`) and `=`; a
/// bird needs an open character above the wood, and no wood is open.
pub proof fn lemma_wood_and_room(ch: char)
    ensures
        is_branch_char(ch) <==> (crate::shading::class_of(ch) == crate::shading::CharClass::Heavy || ch
            == '='),
        is_open_char(ch) ==> !is_branch_char(ch),
        is_open_char(ch) <==> (ch == ' ' || ch == '*' || ch == '+' || ch == '.' || ch == '~'),
{
}

/// The bands of a tree of `h` rows: birds perch from 30% to 80% of the
/// height, which starts below the top and ends above the bottom; rows
/// sway down to 65%, below the start of the perching band; and a taller
/// tree has every band reaching at least as far down.
pub proof fn lemma_tree_bands(h: int, taller: int)
    requires
        0 <= h <= taller,
    ensures
        0 <= perch_min_row(h) <= perch_max_row(h) <= h,
        perch_min_row(h) <= sway_limit(h) <= h,
        perch_min_row(h) <= perch_min_row(taller),
        perch_max_row(h) <= perch_max_row(taller),
        sway_limit(h) <= sway_limit(taller),
        perch_min_row(h) * 100 <= h * 30 < perch_min_row(h) * 100 + 100,
        perch_max_row(h) * 100 <= h * 80 < perch_max_row(h) * 100 + 100,
        sway_limit(h) * 100 <= h * 65 < sway_limit(h) * 100 + 100,
{
    assert(h * 30 <= taller * 30 && h * 80 <= taller * 80 && h * 65 <= taller * 65) by (nonlinear_arith)
        requires
            0 <= h <= taller,
    ;
    assert((h * 30) / 100 <= (taller * 30) / 100) by (nonlinear_arith)
        requires
            0 <= h * 30 <= taller * 30,
    ;
    assert((h * 80) / 100 <= (taller * 80) / 100) by (nonlinear_arith)
        requires
            0 <= h * 80 <= taller * 80,
    ;
    assert((h * 65) / 100 <= (taller * 65) / 100) by (nonlinear_arith)
        requires
            0 <= h * 65 <= taller * 65,
    ;
}

/// Whether row `r` of art `art_height` rows high bends in the wind; the
/// trunk below 65% of the height stands still.
pub fn row_sways(r: usize, art_height: usize) -> (res: bool)
    requires
        art_height <= usize::MAX / 100,
    ensures
        res == (r < sway_limit(art_height as int) && sway_limit(art_height as int) > 0),
{
    let limit = (art_height * 65) / 100;
    r < limit && limit > 0
}

} // verus!
