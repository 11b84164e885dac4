//! The discrete side of the particle simulation: states of petals and
//! birds, the glyph a tumbling petal shows, where the tree stands on the
//! screen, and where falling petals land.

use vstd::prelude::*;
use crate::random::{pick_glyph, random_index};
use crate::terrain::TerrainProfile;
use crate::tree::is_branch_char;
use crate::config::{Mood, Season};

verus! {

/// How a bird is moving.
#[derive(Debug, Clone, Copy, PartialEq, Eq, Structural)]
pub enum BirdFlightState {
    FlyingIn,
    Perched,
    FlyingOut,
}

/// The depth plane a petal drifts in.
#[derive(Debug, Clone, Copy, PartialEq, Eq, Structural)]
pub enum ParallaxLayer {
    Background,
    Foreground,
}

/// The life stage of a petal.
#[derive(Debug, Clone, Copy, PartialEq, Eq, Structural)]
pub enum LeafState {
    Attached,
    Falling,
    Settled,
    Fading,
}

/// The glyph of a falling petal turned to octant `octant` (of eight): the
/// foreground shows a different silhouette in each octant, the background
/// a simpler one that repeats every half turn.
pub open spec fn falling_glyph_of(layer: ParallaxLayer, octant: int) -> char {
    let o = octant % 8;
    match layer {
        ParallaxLayer::Foreground => if o == 0 {
            '*'
        } else if o == 1 {
            '/'
        } else if o == 2 {
            '|'
        } else if o == 3 {
            '\\'
        } else if o == 4 {
            '+'
        } else if o == 5 {
            '~'
        } else if o == 6 {
            '·'
        } else {
            '.'
        },
        ParallaxLayer::Background => if o == 0 || o == 4 {
            '.'
        } else if o == 1 || o == 5 {
            '·'
        } else if o == 2 || o == 6 {
            '~'
        } else {
            '+'
        },
    }
}

/// The glyph a petal is drawn with: falling petals show their tumbling
/// silhouette, the others their own glyph.
pub open spec fn leaf_glyph_of(state: LeafState, base_ch: char, layer: ParallaxLayer, octant: int) -> char {
    match state {
        LeafState::Falling => falling_glyph_of(layer, octant),
        _ => base_ch,
    }
}

/// The glyph of a petal in the given state, glyph, layer and rotation
/// octant (the octant is taken modulo eight).
pub fn current_glyph(state: LeafState, base_ch: char, layer: ParallaxLayer, octant: usize) -> (res: char)
    ensures
        res == leaf_glyph_of(state, base_ch, layer, octant as int),
{
    match state {
        LeafState::Falling => {
            let o = octant % 8;
            match layer {
                ParallaxLayer::Foreground => {
                    if o == 0 {
                        '*'
                    } else if o == 1 {
                        '/'
                    } else if o == 2 {
                        '|'
                    } else if o == 3 {
                        '\\'
                    } else if o == 4 {
                        '+'
                    } else if o == 5 {
                        '~'
                    } else if o == 6 {
                        '·'
                    } else {
                        '.'
                    }
                },
                ParallaxLayer::Background => {
                    if o == 0 || o == 4 {
                        '.'
                    } else if o == 1 || o == 5 {
                        '·'
                    } else if o == 2 || o == 6 {
                        '~'
                    } else {
                        '+'
                    }
                },
            }
        },
        _ => base_ch,
    }
}

/// A tumbling foreground petal shows eight different silhouettes over a
/// turn; a background petal shows four, each twice, half a turn apart, all
/// of them foreground silhouettes too; a full turn brings the same glyph
/// back; and a petal that is not falling keeps its own glyph.
pub proof fn lemma_tumbling_glyphs(layer: ParallaxLayer, o: int, p: int, state: LeafState, base_ch: char)
    ensures
        0 <= o < p < 8 ==> falling_glyph_of(ParallaxLayer::Foreground, o) != falling_glyph_of(
            ParallaxLayer::Foreground,
            p,
        ),
        0 <= o < 4 ==> falling_glyph_of(ParallaxLayer::Background, o) == falling_glyph_of(
            ParallaxLayer::Background,
            o + 4,
        ),
        0 <= o < p < 4 ==> falling_glyph_of(ParallaxLayer::Background, o) != falling_glyph_of(
            ParallaxLayer::Background,
            p,
        ),
        exists|q: int| 0 <= q < 8 && #[trigger] falling_glyph_of(ParallaxLayer::Foreground, q)
            == falling_glyph_of(ParallaxLayer::Background, o),
        o >= 0 ==> falling_glyph_of(layer, o + 8) == falling_glyph_of(layer, o),
        state != LeafState::Falling ==> leaf_glyph_of(state, base_ch, layer, o) == base_ch,
        state == LeafState::Falling ==> leaf_glyph_of(state, base_ch, layer, o) == falling_glyph_of(layer, o),
        seq![
            falling_glyph_of(ParallaxLayer::Foreground, 0),
            falling_glyph_of(ParallaxLayer::Foreground, 1),
            falling_glyph_of(ParallaxLayer::Foreground, 2),
            falling_glyph_of(ParallaxLayer::Foreground, 3),
            falling_glyph_of(ParallaxLayer::Foreground, 4),
            falling_glyph_of(ParallaxLayer::Foreground, 5),
            falling_glyph_of(ParallaxLayer::Foreground, 6),
            falling_glyph_of(ParallaxLayer::Foreground, 7),
        ] == seq!['*', '/', '|', '\\', '+', '~', '·', '.'],
        seq![
            falling_glyph_of(ParallaxLayer::Background, 0),
            falling_glyph_of(ParallaxLayer::Background, 1),
            falling_glyph_of(ParallaxLayer::Background, 2),
            falling_glyph_of(ParallaxLayer::Background, 3),
        ] == seq!['.', '·', '~', '+'],
{
    let b = falling_glyph_of(ParallaxLayer::Background, o);
    let oo = o % 8;
    if oo == 0 || oo == 4 {
        assert(falling_glyph_of(ParallaxLayer::Foreground, 7) == b);
    } else if oo == 1 || oo == 5 {
        assert(falling_glyph_of(ParallaxLayer::Foreground, 6) == b);
    } else if oo == 2 || oo == 6 {
        assert(falling_glyph_of(ParallaxLayer::Foreground, 5) == b);
    } else {
        assert(falling_glyph_of(ParallaxLayer::Foreground, 4) == b);
    }
    if o >= 0 {
        assert((o + 8) % 8 == o % 8);
    }
}

/// What moves a bird along: an arriving bird perches exactly when it has
/// arrived, a perched bird takes off exactly on a strong gust or when its
/// time is up, and a bird flying out keeps going.
pub proof fn lemma_flight_steps(arrived: bool, strong_gust: bool, perch_over: bool)
    ensures
        next_flight_of(BirdFlightState::FlyingIn, arrived, strong_gust, perch_over) == (if arrived {
            BirdFlightState::Perched
        } else {
            BirdFlightState::FlyingIn
        }),
        next_flight_of(BirdFlightState::Perched, arrived, strong_gust, perch_over) == (if strong_gust
            || perch_over {
            BirdFlightState::FlyingOut
        } else {
            BirdFlightState::Perched
        }),
        next_flight_of(BirdFlightState::FlyingOut, arrived, strong_gust, perch_over)
            == BirdFlightState::FlyingOut,
{
}

/// The next flight state of a bird: an arriving bird perches; a perched
/// bird flies off in a strong gust or when its time is up; a bird flying
/// out keeps going.
pub open spec fn next_flight_of(
    state: BirdFlightState,
    arrived: bool,
    strong_gust: bool,
    perch_over: bool,
) -> BirdFlightState {
    match state {
        BirdFlightState::FlyingIn => if arrived {
            BirdFlightState::Perched
        } else {
            BirdFlightState::FlyingIn
        },
        BirdFlightState::Perched => if strong_gust || perch_over {
            BirdFlightState::FlyingOut
        } else {
            BirdFlightState::Perched
        },
        BirdFlightState::FlyingOut => BirdFlightState::FlyingOut,
    }
}

/// The next flight state of a bird.
pub fn next_flight_state(
    state: BirdFlightState,
    arrived: bool,
    strong_gust: bool,
    perch_over: bool,
) -> (res: BirdFlightState)
    ensures
        res == next_flight_of(state, arrived, strong_gust, perch_over),
{
    match state {
        BirdFlightState::FlyingIn => {
            if arrived {
                BirdFlightState::Perched
            } else {
                BirdFlightState::FlyingIn
            }
        },
        BirdFlightState::Perched => {
            if strong_gust || perch_over {
                BirdFlightState::FlyingOut
            } else {
                BirdFlightState::Perched
            }
        },
        BirdFlightState::FlyingOut => BirdFlightState::FlyingOut,
    }
}

/// The flight state of a bird after a triggered gust: perched birds take
/// off, the others carry on.
pub open spec fn startled_of(state: BirdFlightState) -> BirdFlightState {
    if state == BirdFlightState::Perched {
        BirdFlightState::FlyingOut
    } else {
        state
    }
}

/// A triggered gust startles perched birds into flight and leaves the
/// others as they are.
pub fn startled(state: BirdFlightState) -> (res: BirdFlightState)
    ensures
        res == startled_of(state),
{
    if state == BirdFlightState::Perched {
        BirdFlightState::FlyingOut
    } else {
        state
    }
}

/// The order of flight: in, perched, out.
pub open spec fn flight_rank(s: BirdFlightState) -> int {
    match s {
        BirdFlightState::FlyingIn => 0,
        BirdFlightState::Perched => 1,
        BirdFlightState::FlyingOut => 2,
    }
}

/// A bird's flight only moves forward, one stage at a time: in, perched,
/// out; once it flies out it never comes back, gust or no gust.
pub proof fn lemma_flight_moves_forward(
    state: BirdFlightState,
    arrived: bool,
    strong_gust: bool,
    perch_over: bool,
)
    ensures
        flight_rank(state) <= flight_rank(next_flight_of(state, arrived, strong_gust, perch_over))
            <= flight_rank(state) + 1,
        state == BirdFlightState::FlyingOut ==> next_flight_of(state, arrived, strong_gust, perch_over)
            == BirdFlightState::FlyingOut,
        state == BirdFlightState::Perched && (strong_gust || perch_over) ==> next_flight_of(
            state,
            arrived,
            strong_gust,
            perch_over,
        ) == BirdFlightState::FlyingOut,
{
}

/// A triggered gust leaves no bird perched, and a second gust right after
/// changes nothing more.
pub proof fn lemma_gust_clears_perches(state: BirdFlightState)
    ensures
        startled_of(state) != BirdFlightState::Perched,
        startled_of(startled_of(state)) == startled_of(state),
        state == BirdFlightState::Perched ==> startled_of(state) == BirdFlightState::FlyingOut,
{
}

/// The first puddle that column `x` lies in.
pub open spec fn puddle_at(puddles: Seq<(u16, u16)>, x: u16) -> Option<(u16, u16)>
    decreases puddles.len(),
{
    if puddles.len() == 0 {
        None
    } else if puddles[0].0 <= x < puddles[0].1 {
        Some(puddles[0])
    } else {
        puddle_at(puddles.drop_first(), x)
    }
}

/// The puddle a petal landing on column `x` falls into, if any.
pub fn puddle_containing(puddles: &Vec<(u16, u16)>, x: u16) -> (res: Option<(u16, u16)>)
    ensures
        res == puddle_at(puddles@, x),
{
    let n = puddles.len();
    let mut i: usize = 0;
    assert(puddles@.subrange(0, n as int) =~= puddles@);
    while i < n
        invariant
            n == puddles@.len(),
            i <= n,
            puddle_at(puddles@, x) == puddle_at(puddles@.subrange(i as int, n as int), x),
        decreases n - i,
    {
        let (s, e) = puddles[i];
        assert(puddles@.subrange(i as int, n as int).drop_first() =~= puddles@.subrange(i + 1, n as int));
        if s <= x && x < e {
            return Some((s, e));
        }
        i = i + 1;
    }
    None
}

/// The column a settled petal is blown to: one step left or right, kept
/// on the screen.
pub open spec fn rustled_column(x: u16, right: bool, width: u16) -> u16 {
    let max = if width >= 1 {
        width - 1
    } else {
        0
    };
    let nx = if right {
        x + 1
    } else {
        x - 1
    };
    (if nx < 0 {
        0
    } else if nx > max {
        max as int
    } else {
        nx
    }) as u16
}

/// Where a settled petal lies after the wind moves it one column: the
/// column it is blown to and the row on the ground there, raised by the
/// height of its mound.
pub fn rustle(terrain: &TerrainProfile, x: u16, right: bool, width: u16, mound_layer: u8) -> (res: (u16, u16))
    ensures
        res.0 == rustled_column(x, right, width),
        res.1 as int == {
            let gy = terrain.ground_y_at(res.0);
            if gy >= mound_layer {
                gy - mound_layer
            } else {
                0
            }
        },
{
    let max: i32 = if width >= 1 {
        (width - 1) as i32
    } else {
        0
    };
    let nx: i32 = if right {
        x as i32 + 1
    } else {
        x as i32 - 1
    };
    let col: u16 = if nx < 0 {
        0
    } else if nx > max {
        max as u16
    } else {
        nx as u16
    };
    let gy = terrain.get_ground_y(col);
    (col, gy.saturating_sub(mound_layer as u16))
}

/// How the tree is placed on a screen: drawn cell for cell when it fits
/// above the status bar, else scaled down; `offset_x` centres it and
/// `offset_y` stands it on the bottom.
#[derive(Debug, Clone, Copy, PartialEq, Eq, Structural)]
pub struct TreeLayout {
    pub target_height: usize,
    pub one_to_one: bool,
    pub offset_x: usize,
    pub offset_y: usize,
}

/// The layout of art `art_width` by `art_height` on a screen.
pub open spec fn layout_of(width: u16, height: u16, art_width: usize, art_height: usize) -> TreeLayout {
    let target = if height >= 1 {
        height - 1
    } else {
        0
    };
    TreeLayout {
        target_height: target as usize,
        one_to_one: art_height <= target,
        offset_x: (if width >= art_width {
            (width - art_width) / 2
        } else {
            0
        }) as usize,
        offset_y: (if target >= art_height {
            target - art_height
        } else {
            0
        }) as usize,
    }
}

/// How art of the given size is placed on a screen of the given size.
pub fn tree_layout(width: u16, height: u16, art_width: usize, art_height: usize) -> (res: TreeLayout)
    ensures
        res == layout_of(width, height, art_width, art_height),
{
    let target_height = height.saturating_sub(1) as usize;
    TreeLayout {
        target_height,
        one_to_one: art_height <= target_height,
        offset_x: (width as usize).saturating_sub(art_width) / 2,
        offset_y: target_height.saturating_sub(art_height),
    }
}

/// The art cell under screen cell `(px, py)` when the tree is drawn cell
/// for cell.
pub fn tree_cell_at(layout: TreeLayout, px: usize, py: usize) -> (res: Option<(usize, usize)>)
    ensures
        res == (if px >= layout.offset_x && py >= layout.offset_y {
            Some(((py - layout.offset_y) as usize, (px - layout.offset_x) as usize))
        } else {
            None
        }),
{
    if px >= layout.offset_x && py >= layout.offset_y {
        Some((py - layout.offset_y, px - layout.offset_x))
    } else {
        None
    }
}

/// Whether art cell `(r, c)` is wood that deflects falling petals.
pub fn is_branch_at(grid: &Vec<Vec<char>>, r: usize, c: usize) -> (res: bool)
    ensures
        res == (r < grid@.len() && c < grid@[r as int]@.len() && is_branch_char(grid@[r as int]@[c as int])),
{
    if r < grid.len() && c < grid[r].len() {
        let ch = grid[r][c];
        ch == '#' || ch == '%' || ch == '@' || ch == '='
    } else {
        false
    }
}

/// The screen cell a bird perches on above art cell `(r, c)` when the tree
/// is drawn cell for cell: the same column, one row above.
pub fn perch_cell(layout: TreeLayout, r: usize, c: usize) -> (res: (usize, usize))
    requires
        layout.offset_x + c <= usize::MAX,
        layout.offset_y + r <= usize::MAX,
    ensures
        res.0 == layout.offset_x + c,
        res.1 == (if layout.offset_y + r >= 1 {
            layout.offset_y + r - 1
        } else {
            0
        }),
{
    (layout.offset_x + c, (layout.offset_y + r).saturating_sub(1))
}

/// The glyphs new petals are drawn from.
pub open spec fn petal_glyphs() -> Seq<char> {
    seq!['*', '+', '.', 'o', '%', '#', '·']
}

/// A glyph for a new petal, drawn at random.
pub fn new_petal_glyph() -> (res: char)
    ensures
        petal_glyphs().contains(res),
{
    let glyphs = vec!['*', '+', '.', 'o', '%', '#', '·'];
    assert(glyphs@ =~= petal_glyphs());
    pick_glyph(&glyphs)
}

/// The glyphs of wind streaks.
pub open spec fn streak_glyphs() -> Seq<char> {
    seq!['~', '≈', '>', '»', '-']
}

/// A glyph for a new wind streak, drawn at random.
pub fn new_streak_glyph() -> (res: char)
    ensures
        streak_glyphs().contains(res),
{
    let glyphs = vec!['~', '≈', '>', '»', '-'];
    assert(glyphs@ =~= streak_glyphs());
    pick_glyph(&glyphs)
}

/// The number of blossom colours a petal may take.
pub open spec fn petal_color_count() -> int {
    8
}

/// A blossom colour for a new petal, drawn at random: an index into the
/// season's eight colours.
pub fn new_petal_color_index() -> (res: usize)
    ensures
        res < petal_color_count(),
{
    random_index(8)
}

/// How long a feedback message stays on the status bar, in nanoseconds.
pub open spec fn feedback_nanos() -> int {
    1_600_000_000
}

/// Whether a feedback message shown `elapsed_nanos` ago is still shown.
pub fn feedback_is_fresh(elapsed_nanos: u128) -> (res: bool)
    ensures
        res == (elapsed_nanos < feedback_nanos()),
{
    elapsed_nanos < 1_600_000_000
}

/// The number of wind streaks a triggered gust sends across the screen.
pub open spec fn gust_streak_count() -> int {
    6
}

/// The glyphs of the streaks a triggered gust sends across the screen.
pub fn gust_streak_glyphs() -> (res: Vec<char>)
    ensures
        res@.len() == gust_streak_count(),
        forall|i: int| 0 <= i < res@.len() ==> streak_glyphs().contains(#[trigger] res@[i]),
{
    let mut out: Vec<char> = Vec::new();
    let mut k: usize = 0;
    while k < 6
        invariant
            k <= 6,
            out@.len() == k,
            forall|i: int| 0 <= i < out@.len() ==> streak_glyphs().contains(#[trigger] out@[i]),
        decreases 6 - k,
    {
        out.push(new_streak_glyph());
        k = k + 1;
    }
    out
}

/// How many of each thing the scene keeps at most: settled petals, petals
/// floating on puddles, fireflies, birds and wind streaks.
pub open spec fn settled_cap() -> int {
    180
}

/// At most this many petals float on puddles.
pub open spec fn floating_cap() -> int {
    40
}

/// At most this many fireflies glow at once.
pub open spec fn firefly_cap() -> int {
    22
}

/// At most this many birds visit the tree at once.
pub open spec fn bird_cap() -> int {
    2
}

/// At most this many wind streaks cross the screen at once.
pub open spec fn streak_cap() -> int {
    24
}

/// Whether another landed petal may settle on the ground.
pub fn room_to_settle(settled: usize) -> (res: bool)
    ensures
        res == (settled < settled_cap()),
{
    settled < 180
}

/// Whether another petal may float on a puddle.
pub fn room_to_float(floating: usize) -> (res: bool)
    ensures
        res == (floating < floating_cap()),
{
    floating < 40
}

/// Whether another firefly may appear.
pub fn room_for_firefly(fireflies: usize) -> (res: bool)
    ensures
        res == (fireflies < firefly_cap()),
{
    fireflies < 22
}

/// Whether another bird may fly in: there is room and a branch to perch on.
pub fn room_for_bird(birds: usize, perches: usize) -> (res: bool)
    ensures
        res == (birds < bird_cap() && perches > 0),
{
    birds < 2 && perches > 0
}

/// Whether another wind streak may start.
pub fn room_for_streak(streaks: usize) -> (res: bool)
    ensures
        res == (streaks < streak_cap()),
{
    streaks < 24
}

/// How many new petals bring the canopy back up to its target count.
pub fn petals_missing(current: usize, target: usize) -> (res: usize)
    ensures
        res == (if current < target {
            target - current
        } else {
            0
        }),
{
    if current < target {
        target - current
    } else {
        0
    }
}

/// A perch for a bird arriving at the tree, drawn at random.
pub fn choose_perch(perches: &Vec<(usize, usize)>) -> (res: (usize, usize))
    requires
        perches@.len() > 0,
    ensures
        perches@.contains(res),
{
    let i = random_index(perches.len());
    perches[i]
}

/// Fireflies come out on summer nights only.
pub fn fireflies_out(season: Season, mood: Mood) -> (res: bool)
    ensures
        res == (season == Season::Summer && mood == Mood::Night),
{
    season == Season::Summer && mood == Mood::Night
}

} // verus!
