//! Where the stars of the night sky are: a count that grows with the
//! screen, placed at random above the ground.

use vstd::prelude::*;
use crate::random::random_index;

verus! {

/// One star per forty cells of the screen, at least 20 and at most 150.
pub open spec fn star_count_of(width: u16, height: u16) -> int {
    let c = (width * height) / 40;
    if c < 20 {
        20
    } else if c > 150 {
        150
    } else {
        c
    }
}

/// A screen has between 20 and 150 stars, about one per forty cells in
/// between, and a larger screen never has fewer stars than a smaller one.
pub proof fn lemma_star_count_grows(w1: u16, h1: u16, w2: u16, h2: u16)
    ensures
        20 <= star_count_of(w1, h1) <= 150,
        w1 * h1 < 800 ==> star_count_of(w1, h1) == 20,
        w1 * h1 >= 6040 ==> star_count_of(w1, h1) == 150,
        800 <= w1 * h1 < 6040 ==> star_count_of(w1, h1) * 40 <= w1 * h1 < star_count_of(w1, h1) * 40
            + 40,
        w1 <= w2 && h1 <= h2 ==> star_count_of(w1, h1) <= star_count_of(w2, h2),
{
    if w1 <= w2 && h1 <= h2 {
        assert(w1 * h1 <= w2 * h2) by (nonlinear_arith)
            requires
                w1 <= w2,
                h1 <= h2,
        ;
    }
}

/// The columns stars may sit in: `0..max(width, 1)`.
pub open spec fn star_columns(width: u16) -> int {
    if width == 0 {
        1
    } else {
        width as int
    }
}

/// The rows stars may sit in: above the two bottom rows, at least one row.
pub open spec fn star_rows(height: u16) -> int {
    if height > 3 {
        height - 2
    } else {
        1
    }
}

/// The number of stars of a screen.
pub fn star_count(width: u16, height: u16) -> (res: usize)
    ensures
        res == star_count_of(width, height),
        20 <= res <= 150,
{
    assert(width as u32 * height as u32 <= 65535 * 65535) by (nonlinear_arith)
        requires
            width <= 65535,
            height <= 65535,
    ;
    let c: u32 = (width as u32 * height as u32) / 40;
    if c < 20 {
        20
    } else if c > 150 {
        150
    } else {
        c as usize
    }
}

/// The stars of a screen: their positions, and the size they were placed for.
pub struct StarrySky {
    pub stars: Vec<(u16, u16)>,
    pub width: u16,
    pub height: u16,
}

impl StarrySky {
    /// The stars suit the screen they were placed for: as many as it calls
    /// for, every one inside the area stars may take.
    pub open spec fn wf(&self) -> bool {
        &&& self.stars@.len() == star_count_of(self.width, self.height)
        &&& forall|i: int|
            0 <= i < self.stars@.len() ==> (#[trigger] self.stars@[i]).0 < star_columns(self.width)
                && self.stars@[i].1 < star_rows(self.height)
    }

    /// Places the stars of a screen at random.
    fn place(width: u16, height: u16) -> (res: Vec<(u16, u16)>)
        ensures
            res@.len() == star_count_of(width, height),
            forall|i: int|
                0 <= i < res@.len() ==> (#[trigger] res@[i]).0 < star_columns(width) && res@[i].1
                    < star_rows(height),
    {
        let count = star_count(width, height);
        let cols: u16 = if width == 0 {
            1
        } else {
            width
        };
        let rows: u16 = if height > 3 {
            height - 2
        } else {
            1
        };
        let mut stars: Vec<(u16, u16)> = Vec::new();
        let mut k: usize = 0;
        while k < count
            invariant
                count == star_count_of(width, height),
                cols as int == star_columns(width),
                rows as int == star_rows(height),
                k <= count,
                stars@.len() == k,
                forall|i: int|
                    0 <= i < stars@.len() ==> (#[trigger] stars@[i]).0 < cols && stars@[i].1 < rows,
            decreases count - k,
        {
            let x = random_index(cols as usize) as u16;
            let y = random_index(rows as usize) as u16;
            stars.push((x, y));
            k = k + 1;
        }
        stars
    }

    /// A sky for a screen of the given size.
    pub fn new(width: u16, height: u16) -> (res: Self)
        ensures
            res.width == width,
            res.height == height,
            res.wf(),
    {
        StarrySky { stars: Self::place(width, height), width, height }
    }

    /// Places the stars anew when the screen changes size, and tells
    /// whether it did; a screen of the same size keeps its stars.
    pub fn resize(&mut self, width: u16, height: u16) -> (regenerated: bool)
        ensures
            regenerated == !(width == old(self).width && height == old(self).height),
            !regenerated ==> *final(self) == *old(self),
            regenerated ==> final(self).width == width && final(self).height == height
                && final(self).wf(),
    {
        if self.width != width || self.height != height {
            self.width = width;
            self.height = height;
            self.stars = Self::place(width, height);
            true
        } else {
            false
        }
    }
}

} // verus!
