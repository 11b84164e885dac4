//! The ground under the tree: an undulating contour one or two rows above
//! the bottom of the screen, grass tufts placed by a fixed hash, and the
//! low-lying stretches where rain collects into puddles.

use vstd::prelude::*;

verus! {

/// A column of the ground lies low when it sits on the base row.
pub open spec fn is_low(heights: Seq<u16>, base_y: u16, x: int) -> bool {
    heights[x] >= base_y
}

/// `[start, end)` is a maximal stretch of low columns.
pub open spec fn low_run(heights: Seq<u16>, base_y: u16, start: int, end: int) -> bool {
    &&& 0 <= start < end <= heights.len()
    &&& forall|x: int| start <= x < end ==> #[trigger] is_low(heights, base_y, x)
    &&& (start == 0 || !is_low(heights, base_y, start - 1))
    &&& (end == heights.len() || !is_low(heights, base_y, end))
}

/// The shortest stretch of low ground that holds a puddle.
pub open spec fn min_puddle_len() -> int {
    4
}

/// `puddles` lists, from left to right, exactly the maximal low stretches
/// that are at least four columns long.
pub open spec fn puddles_of(heights: Seq<u16>, base_y: u16, puddles: Seq<(u16, u16)>) -> bool {
    &&& forall|k: int|
        0 <= k < puddles.len() ==> {
            &&& low_run(heights, base_y, #[trigger] puddles[k].0 as int, puddles[k].1 as int)
            &&& puddles[k].1 - puddles[k].0 >= min_puddle_len()
        }
    &&& forall|k1: int, k2: int|
        0 <= k1 < k2 < puddles.len() ==> #[trigger] puddles[k1].1 < #[trigger] puddles[k2].0
    &&& forall|s: int, e: int|
        #[trigger] low_run(heights, base_y, s, e) && e - s >= min_puddle_len() ==> exists|k: int|
            0 <= k < puddles.len() && #[trigger] puddles[k].0 == s && puddles[k].1 == e
}

/// Two maximal low stretches that end at the same column start there too.
proof fn lemma_low_run_unique_start(heights: Seq<u16>, base_y: u16, s1: int, s2: int, e: int)
    requires
        low_run(heights, base_y, s1, e),
        low_run(heights, base_y, s2, e),
    ensures
        s1 == s2,
{
    if s1 < s2 {
        assert(is_low(heights, base_y, s2 - 1));
    } else if s2 < s1 {
        assert(is_low(heights, base_y, s1 - 1));
    }
}

/// Finds the puddles of a ground profile: every maximal stretch of columns
/// on the base row that is at least four columns long, as `(start, end)`
/// with `end` exclusive, from left to right.
pub fn detect_puddles(heights: &Vec<u16>, base_y: u16) -> (puddles: Vec<(u16, u16)>)
    requires
        heights.len() <= u16::MAX,
    ensures
        puddles_of(heights@, base_y, puddles@),
{
    let ghost h = heights@;
    let n = heights.len();
    let mut puddles: Vec<(u16, u16)> = Vec::new();
    let mut in_puddle = false;
    let mut puddle_start: usize = 0;
    let mut x: usize = 0;
    while x < n
        invariant
            n == h.len(),
            h == heights@,
            n <= u16::MAX,
            x <= n,
            in_puddle <==> (x > 0 && is_low(h, base_y, x - 1)),
            in_puddle ==> {
                &&& puddle_start < x
                &&& forall|y: int| puddle_start <= y < x ==> #[trigger] is_low(h, base_y, y)
                &&& (puddle_start == 0 || !is_low(h, base_y, puddle_start - 1))
            },
            forall|k: int|
                0 <= k < puddles@.len() ==> {
                    &&& low_run(h, base_y, #[trigger] puddles@[k].0 as int, puddles@[k].1 as int)
                    &&& puddles@[k].1 - puddles@[k].0 >= min_puddle_len()
                    &&& puddles@[k].1 < x
                },
            forall|k1: int, k2: int|
                0 <= k1 < k2 < puddles@.len() ==> #[trigger] puddles@[k1].1
                    < #[trigger] puddles@[k2].0,
            forall|s: int, e: int|
                #[trigger] low_run(h, base_y, s, e) && e - s >= min_puddle_len() && e < x
                    ==> exists|k: int|
                    0 <= k < puddles@.len() && #[trigger] puddles@[k].0 == s && puddles@[k].1
                        == e,
        decreases n - x,
    {
        let ghost old_puddles = puddles@;
        if heights[x] >= base_y {
            if !in_puddle {
                in_puddle = true;
                puddle_start = x;
            }
            assert forall|s: int, e: int|
                #[trigger] low_run(h, base_y, s, e) && e - s >= min_puddle_len() && e < x + 1
                implies exists|k: int|
                0 <= k < puddles@.len() && #[trigger] puddles@[k].0 == s && puddles@[k].1 == e by {
                if e == x {
                    assert(!is_low(h, base_y, e));
                }
            }
        } else {
            if in_puddle {
                in_puddle = false;
                let len = x - puddle_start;
                assert(low_run(h, base_y, puddle_start as int, x as int));
                if len >= 4 {
                    proof {
                        assert forall|k: int| 0 <= k < puddles@.len() implies #[trigger] puddles@[k].1
                            < puddle_start by {
                            assert(low_run(h, base_y, puddles@[k].0 as int, puddles@[k].1 as int));
                            assert(!is_low(h, base_y, puddles@[k].1 as int));
                        }
                    }
                    puddles.push((puddle_start as u16, x as u16));
                    assert forall|k: int| 0 <= k < puddles@.len() implies {
                        &&& low_run(h, base_y, #[trigger] puddles@[k].0 as int, puddles@[k].1 as int)
                        &&& puddles@[k].1 - puddles@[k].0 >= min_puddle_len()
                        &&& puddles@[k].1 < x + 1
                    } by {
                        if k < old_puddles.len() {
                            assert(puddles@[k] == old_puddles[k]);
                        }
                    }
                }
                assert forall|s: int, e: int|
                    #[trigger] low_run(h, base_y, s, e) && e - s >= min_puddle_len() && e < x + 1
                    implies exists|k: int|
                    0 <= k < puddles@.len() && #[trigger] puddles@[k].0 == s && puddles@[k].1
                        == e by {
                    if e == x {
                        lemma_low_run_unique_start(h, base_y, s, puddle_start as int, e);
                        assert(puddles@[puddles@.len() - 1].0 == s);
                    } else {
                        let k = choose|k: int|
                            0 <= k < old_puddles.len() && #[trigger] old_puddles[k].0 == s
                                && old_puddles[k].1 == e;
                        assert(puddles@[k] == old_puddles[k]);
                    }
                }
            } else {
                assert forall|s: int, e: int|
                    #[trigger] low_run(h, base_y, s, e) && e - s >= min_puddle_len() && e < x + 1
                    implies exists|k: int|
                    0 <= k < puddles@.len() && #[trigger] puddles@[k].0 == s && puddles@[k].1
                        == e by {
                    if e == x {
                        assert(is_low(h, base_y, e - 1));
                    }
                }
            }
        }
        assert forall|k: int| 0 <= k < puddles@.len() implies #[trigger] puddles@[k].1 < x + 1 by {
            assert(low_run(h, base_y, puddles@[k].0 as int, puddles@[k].1 as int));
        }
        x = x + 1;
    }
    if in_puddle && n - puddle_start >= 4 {
        let ghost old_puddles = puddles@;
        assert(low_run(h, base_y, puddle_start as int, n as int));
        proof {
            assert forall|k: int| 0 <= k < puddles@.len() implies #[trigger] puddles@[k].1
                < puddle_start by {
                assert(low_run(h, base_y, puddles@[k].0 as int, puddles@[k].1 as int));
                assert(!is_low(h, base_y, puddles@[k].1 as int));
            }
        }
        puddles.push((puddle_start as u16, n as u16));
        assert forall|s: int, e: int|
            #[trigger] low_run(h, base_y, s, e) && e - s >= min_puddle_len() implies exists|k: int|
            0 <= k < puddles@.len() && #[trigger] puddles@[k].0 == s && puddles@[k].1 == e by {
            if e == n {
                lemma_low_run_unique_start(h, base_y, s, puddle_start as int, e);
                assert(puddles@[puddles@.len() - 1].0 == s);
            } else {
                let k = choose|k: int|
                    0 <= k < old_puddles.len() && #[trigger] old_puddles[k].0 == s
                        && old_puddles[k].1 == e;
                assert(puddles@[k] == old_puddles[k]);
            }
        }
    } else {
        assert forall|s: int, e: int|
            #[trigger] low_run(h, base_y, s, e) && e - s >= min_puddle_len() implies exists|k: int|
            0 <= k < puddles@.len() && #[trigger] puddles@[k].0 == s && puddles@[k].1 == e by {
            if e == n {
                if in_puddle {
                    lemma_low_run_unique_start(h, base_y, s, puddle_start as int, e);
                } else {
                    assert(is_low(h, base_y, e - 1));
                }
            }
        }
    }
    puddles
}

/// The base row of the ground: two rows above the bottom of the screen.
pub open spec fn base_row(height: u16) -> u16 {
    if height >= 2 {
        (height - 2) as u16
    } else {
        0
    }
}

/// The number of columns the ground is laid out over (at least one).
pub open spec fn profile_width(width: u16) -> int {
    if width == 0 {
        1
    } else {
        width as int
    }
}

/// The ground row of a column whose contour wave rounds to `offset`: the
/// base row moved by the offset, kept within one row above the base row.
pub open spec fn ground_height(base_y: u16, offset: i32) -> u16 {
    let low = if base_y >= 1 {
        base_y - 1
    } else {
        0
    };
    let v = base_y + offset;
    (if v < low {
        low
    } else if v > base_y {
        base_y as int
    } else {
        v
    }) as u16
}

/// The fixed hash, in `0..100`, that decides where grass grows.
pub open spec fn tuft_hash(x: u32) -> u32 {
    ((((x as nat * 2654435761nat) % 0x1_0000_0000nat) as u32) ^ (x >> 3u32)) % 100
}

/// Whether column `x` of a ground `width` columns wide carries a tuft.
pub open spec fn has_tuft(width: int, x: int) -> bool {
    &&& tuft_hash(x as u32) < 14
    &&& x > 2
    &&& x < width - 3
}

/// The glyphs grass tufts are drawn with.
pub open spec fn tuft_pattern(i: int) -> Seq<char> {
    if i == 0 {
        ",,"@
    } else if i == 1 {
        "\\//"@
    } else if i == 2 {
        ";;"@
    } else if i == 3 {
        ".."@
    } else if i == 4 {
        "||"@
    } else {
        "~"@
    }
}

/// A tuft of grass drawn just above the ground.
#[derive(Debug, Clone)]
pub struct GrassTuft {
    pub x: u16,
    pub y: u16,
    pub glyph: &'static str,
}

impl GrassTuft {
    /// The tuft as plain values: column, row and glyph.
    pub open spec fn view_parts(self) -> (u16, u16, Seq<char>) {
        (self.x, self.y, self.glyph@)
    }
}

/// The tuft that grows on column `x` of the given ground.
pub open spec fn tuft_at(heights: Seq<u16>, x: int) -> (u16, u16, Seq<char>) {
    let gy = heights[x];
    (x as u16, (if gy >= 1 { gy - 1 } else { 0 }) as u16, tuft_pattern((tuft_hash(x as u32) % 6) as int))
}

/// The tufts of the first `n` columns, from left to right.
pub open spec fn tufts_upto(heights: Seq<u16>, width: int, n: nat) -> Seq<(u16, u16, Seq<char>)>
    decreases n,
{
    if n == 0 {
        Seq::empty()
    } else {
        let prev = tufts_upto(heights, width, (n - 1) as nat);
        if has_tuft(width, n - 1) {
            prev.push(tuft_at(heights, n - 1))
        } else {
            prev
        }
    }
}

/// The tufts of a whole ground profile.
pub open spec fn tufts_of(heights: Seq<u16>) -> Seq<(u16, u16, Seq<char>)> {
    tufts_upto(heights, heights.len() as int, heights.len())
}

/// The plain values of a list of tufts.
pub open spec fn tuft_views(tufts: Seq<GrassTuft>) -> Seq<(u16, u16, Seq<char>)> {
    tufts.map_values(|t: GrassTuft| t.view_parts())
}

/// Computes the grass hash of a column.
pub fn grass_hash(x: u32) -> (res: u32)
    ensures
        res == tuft_hash(x),
        res < 100,
{
    (x.wrapping_mul(2654435761) ^ (x >> 3)) % 100
}

/// The glyph of tuft pattern `i`.
pub fn tuft_glyph(i: u32) -> (res: &'static str)
    requires
        i < 6,
    ensures
        res@ == tuft_pattern(i as int),
{
    if i == 0 {
        ",,"
    } else if i == 1 {
        "\\//"
    } else if i == 2 {
        ";;"
    } else if i == 3 {
        ".."
    } else if i == 4 {
        "||"
    } else {
        "~"
    }
}

/// The ground row of a column: the base row moved by the rounded contour
/// wave, clamped to the base row or the row just above it.
pub fn ground_row_for(base_y: u16, offset: i32) -> (res: u16)
    ensures
        res == ground_height(base_y, offset),
        res <= base_y,
        res + 1 >= base_y,
{
    let low: i64 = if base_y >= 1 {
        (base_y - 1) as i64
    } else {
        0
    };
    let v: i64 = base_y as i64 + offset as i64;
    if v < low {
        low as u16
    } else if v > base_y as i64 {
        base_y
    } else {
        v as u16
    }
}

/// The ground of the screen: the row of the contour in each column, the
/// grass tufts on it and the puddle stretches.
#[derive(Debug, Clone)]
pub struct TerrainProfile {
    pub width: u16,
    pub height: u16,
    pub ground_heights: Vec<u16>,
    pub grass_tufts: Vec<GrassTuft>,
    pub puddles: Vec<(u16, u16)>,
}

impl TerrainProfile {
    /// The base row of this ground.
    pub open spec fn base_y(&self) -> u16 {
        base_row(self.height)
    }

    /// The ground is laid out over its width, every column on the base row
    /// or one above it, with the tufts and puddles that its contour gives.
    pub open spec fn wf(&self) -> bool {
        &&& self.ground_heights@.len() == profile_width(self.width)
        &&& forall|x: int|
            0 <= x < self.ground_heights@.len() ==> #[trigger] self.ground_heights@[x] <= self.base_y()
                && self.ground_heights@[x] + 1 >= self.base_y()
        &&& tuft_views(self.grass_tufts@) == tufts_of(self.ground_heights@)
        &&& puddles_of(self.ground_heights@, self.base_y(), self.puddles@)
    }

    /// Each column's ground row is the one its contour wave gives.
    pub open spec fn shaped_by(&self, wave: Seq<i32>) -> bool {
        &&& self.ground_heights@.len() == wave.len()
        &&& forall|x: int|
            0 <= x < wave.len() ==> #[trigger] self.ground_heights@[x] == ground_height(
                self.base_y(),
                wave[x],
            )
    }

    /// The ground row under column `x`: the last column's row for columns
    /// past the right edge, the base row for an empty profile.
    pub open spec fn ground_y_at(&self, x: u16) -> u16 {
        let n = self.ground_heights@.len();
        if n == 0 {
            self.base_y()
        } else if x < n {
            self.ground_heights@[x as int]
        } else {
            self.ground_heights@[n - 1]
        }
    }

    /// Lays out a ground `width` columns wide for a screen `height` rows
    /// high; `wave` holds the rounded contour offset of each column.
    pub fn new(width: u16, height: u16, wave: &Vec<i32>) -> (res: Self)
        requires
            wave@.len() == profile_width(width),
        ensures
            res.width == width,
            res.height == height,
            res.wf(),
            res.shaped_by(wave@),
    {
        let mut terrain = TerrainProfile {
            width,
            height,
            ground_heights: Vec::new(),
            grass_tufts: Vec::new(),
            puddles: Vec::new(),
        };
        terrain.recalculate(wave);
        terrain
    }

    /// Lays the ground out anew for a screen of another size; the same size
    /// leaves it as it is.
    pub fn resize(&mut self, width: u16, height: u16, wave: &Vec<i32>)
        requires
            wave@.len() == profile_width(width),
        ensures
            width == old(self).width && height == old(self).height ==> *final(self) == *old(self),
            !(width == old(self).width && height == old(self).height) ==> {
                &&& final(self).width == width
                &&& final(self).height == height
                &&& final(self).wf()
                &&& final(self).shaped_by(wave@)
            },
    {
        if self.width != width || self.height != height {
            self.width = width;
            self.height = height;
            self.recalculate(wave);
        }
    }

    /// Recomputes the contour, the tufts and the puddles from the wave of
    /// the current width.
    pub fn recalculate(&mut self, wave: &Vec<i32>)
        requires
            wave@.len() == profile_width(old(self).width),
        ensures
            final(self).width == old(self).width,
            final(self).height == old(self).height,
            final(self).wf(),
            final(self).shaped_by(wave@),
    {
        let width: usize = if self.width == 0 {
            1
        } else {
            self.width as usize
        };
        let base_y: u16 = if self.height >= 2 {
            self.height - 2
        } else {
            0
        };
        let mut heights: Vec<u16> = Vec::new();
        let mut grass: Vec<GrassTuft> = Vec::new();
        let mut x: usize = 0;
        while x < width
            invariant
                width == wave@.len(),
                width <= u16::MAX,
                base_y == base_row(self.height),
                x <= width,
                heights@.len() == x,
                forall|j: int|
                    0 <= j < x ==> #[trigger] heights@[j] == ground_height(base_y, wave@[j]),
                tuft_views(grass@) == tufts_upto(heights@, width as int, x as nat),
            decreases width - x,
        {
            let gy = ground_row_for(base_y, wave[x]);
            let ghost prev_heights = heights@;
            heights.push(gy);
            proof {
                lemma_tufts_upto_prefix(prev_heights, heights@, width as int, x as nat);
            }
            let hash = grass_hash(x as u32);
            if hash < 14 && x > 2 && x < width.saturating_sub(3) {
                let ghost prev_grass = grass@;
                grass.push(GrassTuft { x: x as u16, y: gy.saturating_sub(1), glyph: tuft_glyph(hash % 6) });
                assert(tuft_views(grass@) =~= tuft_views(prev_grass).push(grass@.last().view_parts()));
            }
            x = x + 1;
        }
        proof {
            assert forall|j: int| 0 <= j < heights@.len() implies #[trigger] heights@[j] <= base_y
                && heights@[j] + 1 >= base_y by {
                assert(heights@[j] == ground_height(base_y, wave@[j]));
            }
        }
        let puddles = detect_puddles(&heights, base_y);
        self.ground_heights = heights;
        self.grass_tufts = grass;
        self.puddles = puddles;
    }

    /// The ground row under column `x`; columns past the right edge take the
    /// last column's row, and an empty profile gives the base row.
    pub fn get_ground_y(&self, x: u16) -> (res: u16)
        ensures
            res == self.ground_y_at(x),
    {
        let default_y = self.height.saturating_sub(2);
        let n = self.ground_heights.len();
        if n == 0 {
            return default_y;
        }
        let idx = if (x as usize) < n - 1 {
            x as usize
        } else {
            n - 1
        };
        self.ground_heights[idx]
    }
}

/// The glyph of the ground contour at column `x`: a slope where the ground
/// rises from the left or to the right, else a pattern of waves, dashes and
/// flats.
pub open spec fn contour_glyph_of(gy: u16, left_y: u16, right_y: u16, x: u16) -> char {
    if gy < left_y {
        '/'
    } else if gy < right_y {
        '\\'
    } else if (x + gy) % 4 == 0 {
        '~'
    } else if (x + gy) % 3 == 0 {
        '-'
    } else {
        '_'
    }
}

/// The contour draws `/` where the ground climbs from the left (this column
/// sits higher than its left neighbour), else `\` where it falls away to
/// the right, and on level ground one of `~`, `-` and `_`, chosen by
/// column and row alone.
pub proof fn lemma_contour_glyphs(gy: u16, left_y: u16, right_y: u16, x: u16, left2: u16, right2: u16)
    ensures
        contour_glyph_of(gy, left_y, right_y, x) == '/' <==> gy < left_y,
        contour_glyph_of(gy, left_y, right_y, x) == '\\' <==> (gy >= left_y && gy < right_y),
        gy >= left_y && gy >= right_y ==> {
            let c = contour_glyph_of(gy, left_y, right_y, x);
            &&& c == '~' || c == '-' || c == '_'
            &&& (gy >= left2 && gy >= right2 ==> c == contour_glyph_of(gy, left2, right2, x))
            &&& ((x + gy) % 4 == 0 <==> c == '~')
            &&& ((x + gy) % 4 != 0 && (x + gy) % 3 == 0 <==> c == '-')
        },
{
}

/// Grass grows in six shapes: `,,`, `\//`, `;;`, `..`, `||` and `~`.
pub proof fn lemma_tuft_shapes(i: int, j: int)
    ensures
        tuft_pattern(0) == ",,"@,
        tuft_pattern(1) == "\\//"@,
        tuft_pattern(2) == ";;"@,
        tuft_pattern(3) == ".."@,
        tuft_pattern(4) == "||"@,
        tuft_pattern(5) == "~"@,
        i >= 5 ==> tuft_pattern(i) == tuft_pattern(5),
{
}

/// One drawn cell of the ground contour.
#[derive(Debug, Clone, Copy, PartialEq, Eq, Structural)]
pub struct ContourCell {
    pub x: u16,
    pub y: u16,
    pub ch: char,
}

/// The contour cell of column `x` of a screen `width` columns wide.
pub open spec fn contour_cell_at(t: TerrainProfile, width: u16, x: u16) -> ContourCell {
    let gy = t.ground_y_at(x);
    let left = if x > 0 {
        t.ground_y_at((x - 1) as u16)
    } else {
        gy
    };
    let right = if x + 1 < width {
        t.ground_y_at((x + 1) as u16)
    } else {
        gy
    };
    ContourCell { x, y: gy, ch: contour_glyph_of(gy, left, right, x) }
}

/// The contour cells of the first `n` columns that lie above `limit`.
pub open spec fn contour_upto(t: TerrainProfile, width: u16, limit: u16, n: nat) -> Seq<ContourCell>
    decreases n,
{
    if n == 0 {
        Seq::empty()
    } else {
        let prev = contour_upto(t, width, limit, (n - 1) as nat);
        let cell = contour_cell_at(t, width, (n - 1) as u16);
        if cell.y < limit {
            prev.push(cell)
        } else {
            prev
        }
    }
}

/// The glyph of the ground contour at a column.
pub fn contour_glyph(gy: u16, left_y: u16, right_y: u16, x: u16) -> (res: char)
    ensures
        res == contour_glyph_of(gy, left_y, right_y, x),
{
    let sum: u32 = x as u32 + gy as u32;
    if gy < left_y {
        '/'
    } else if gy < right_y {
        '\\'
    } else if sum % 4 == 0 {
        '~'
    } else if sum % 3 == 0 {
        '-'
    } else {
        '_'
    }
}

/// The cells of the ground contour across a screen `width` columns wide,
/// from left to right, leaving out columns whose ground is at or below the
/// status bar row `height_limit`.
pub fn ground_contour(terrain: &TerrainProfile, width: u16, height_limit: u16) -> (res: Vec<ContourCell>)
    ensures
        res@ == contour_upto(*terrain, width, height_limit, width as nat),
{
    let mut cells: Vec<ContourCell> = Vec::new();
    let mut x: u16 = 0;
    while x < width
        invariant
            x <= width,
            cells@ == contour_upto(*terrain, width, height_limit, x as nat),
        decreases width - x,
    {
        let gy = terrain.get_ground_y(x);
        let left_y = if x > 0 {
            terrain.get_ground_y(x - 1)
        } else {
            gy
        };
        let right_y = if x < width - 1 {
            terrain.get_ground_y(x + 1)
        } else {
            gy
        };
        if gy < height_limit {
            cells.push(ContourCell { x, y: gy, ch: contour_glyph(gy, left_y, right_y, x) });
        }
        x = x + 1;
    }
    cells
}

/// The tufts of a prefix do not depend on the columns after it.
proof fn lemma_tufts_upto_prefix(h1: Seq<u16>, h2: Seq<u16>, width: int, n: nat)
    requires
        n <= h1.len(),
        n <= h2.len(),
        forall|j: int| 0 <= j < n ==> h1[j] == h2[j],
    ensures
        tufts_upto(h1, width, n) == tufts_upto(h2, width, n),
    decreases n,
{
    if n > 0 {
        lemma_tufts_upto_prefix(h1, h2, width, (n - 1) as nat);
    }
}

/// Every column of a laid-out ground is on the base row or the row just
/// above it, and under a puddle it is on the base row.
pub proof fn lemma_ground_rows(t: TerrainProfile, x: u16)
    requires
        t.wf(),
    ensures
        t.ground_y_at(x) <= t.base_y(),
        t.ground_y_at(x) + 1 >= t.base_y(),
        forall|k: int|
            0 <= k < t.puddles@.len() && #[trigger] t.puddles@[k].0 <= x < t.puddles@[k].1
                ==> t.ground_y_at(x) == t.base_y(),
{
    let n = t.ground_heights@.len();
    let i = if x < n {
        x as int
    } else {
        n - 1
    };
    assert(t.ground_heights@[i] <= t.base_y());
    assert forall|k: int|
        0 <= k < t.puddles@.len() && #[trigger] t.puddles@[k].0 <= x < t.puddles@[k].1 implies t.ground_y_at(
        x,
    ) == t.base_y() by {
        assert(low_run(t.ground_heights@, t.base_y(), t.puddles@[k].0 as int, t.puddles@[k].1 as int));
        assert(is_low(t.ground_heights@, t.base_y(), x as int));
    }
}

/// Grass grows only away from the edges (columns 3 to `width - 4`), one
/// row above the ground of its column, from left to right.
pub proof fn lemma_tufts_placement(heights: Seq<u16>, width: int, n: nat)
    requires
        n <= heights.len(),
        heights.len() <= u16::MAX,
    ensures
        forall|i: int|
            0 <= i < tufts_upto(heights, width, n).len() ==> {
                let t = #[trigger] tufts_upto(heights, width, n)[i];
                &&& 2 < t.0 < width - 3
                &&& t.0 < n
                &&& has_tuft(width, t.0 as int)
                &&& t.1 as int == (if heights[t.0 as int] >= 1 { heights[t.0 as int] - 1 } else { 0 })
            },
        forall|i: int, j: int|
            0 <= i < j < tufts_upto(heights, width, n).len() ==> #[trigger] tufts_upto(heights, width, n)[i].0
                < #[trigger] tufts_upto(heights, width, n)[j].0,
    decreases n,
{
    if n > 0 {
        lemma_tufts_placement(heights, width, (n - 1) as nat);
        let prev = tufts_upto(heights, width, (n - 1) as nat);
        let cur = tufts_upto(heights, width, n);
        if has_tuft(width, n - 1) {
            let t = tuft_at(heights, n - 1);
            assert(t.0 == n - 1);
            assert(cur == prev.push(t));
            assert forall|i: int| 0 <= i < prev.len() implies #[trigger] cur[i] == prev[i] by {}
            assert forall|i: int| 0 <= i < cur.len() implies {
                let t = #[trigger] cur[i];
                &&& 2 < t.0 < width - 3
                &&& t.0 < n
                &&& has_tuft(width, t.0 as int)
                &&& t.1 as int == (if heights[t.0 as int] >= 1 { heights[t.0 as int] - 1 } else { 0 })
            } by {
                if i < prev.len() {
                    assert(cur[i] == prev[i]);
                }
            }
            assert forall|i: int, j: int| 0 <= i < j < cur.len() implies #[trigger] cur[i].0 < #[trigger] cur[j].0 by {
                assert(cur[i] == prev[i]);
                if j < prev.len() {
                    assert(cur[j] == prev[j]);
                }
            }
        } else {
            assert(cur == prev);
        }
    }
}

} // verus!
