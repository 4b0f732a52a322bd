//! Which contiguous window of a level's entries fits in the display area.
use vstd::prelude::*;

verus! {

/// Total height of the entries `from .. to`.
pub open spec fn height_sum(heights: Seq<u32>, from: int, to: int) -> int
    decreases to - from,
{
    if to <= from {
        0
    } else {
        height_sum(heights, from, to - 1) + heights[to - 1]
    }
}

/// The first entry at or after `h` that is not a section; the number of
/// entries when there is none.
pub open spec fn first_selectable(sections: Seq<bool>, h: int) -> int
    decreases sections.len() - h,
{
    if h >= sections.len() {
        sections.len() as int
    } else if !sections[h] {
        h
    } else {
        first_selectable(sections, h + 1)
    }
}

/// How many entries are skipped before the window when entry `h` of `n` is
/// highlighted: one entry of context is kept above it, and the last entry
/// is shown below the one before it.
pub open spec fn skip_for(h: int, n: int) -> int {
    if n >= 2 && h == n - 1 {
        n - 2
    } else if h > 1 {
        h - 1
    } else {
        0
    }
}

/// A window of entries: `shown` entries starting at index `skip`, with the
/// entry at index `highlighted` drawn highlighted when it lies inside.
#[derive(Clone, Copy, PartialEq, Eq, Debug)]
pub struct Viewport {
    pub skip: usize,
    pub shown: usize,
    pub highlighted: usize,
}

/// `w` is the window for a level whose section entries are marked in
/// `sections`, with entry heights `heights`, the cursor at `h`, and
/// `available` pixels of height: the highlight moves past sections to the
/// first selectable entry, and the window holds as many whole entries from
/// `skip` on as fit.
pub open spec fn is_window(
    sections: Seq<bool>,
    heights: Seq<u32>,
    h: int,
    available: int,
    w: Viewport,
) -> bool {
    let n = sections.len() as int;
    let hh = first_selectable(sections, h);
    &&& w.highlighted == hh
    &&& w.skip == skip_for(hh, n)
    &&& w.skip + w.shown <= n
    &&& height_sum(heights, w.skip as int, w.skip + w.shown) <= available
    &&& (w.skip + w.shown == n || height_sum(heights, w.skip as int, w.skip + w.shown + 1)
        > available)
}

/// Computes the window of a level: see `is_window`.
pub fn viewport_window(
    sections: &Vec<bool>,
    heights: &Vec<u32>,
    highlighted: usize,
    available: u32,
) -> (w: Viewport)
    requires
        heights@.len() == sections@.len(),
        highlighted <= sections@.len(),
    ensures
        is_window(sections@, heights@, highlighted as int, available as int, w),
{
    let n = sections.len();
    let mut hh = highlighted;
    while hh < n && sections[hh]
        invariant
            highlighted <= hh <= n,
            n == sections@.len(),
            first_selectable(sections@, hh as int) == first_selectable(
                sections@,
                highlighted as int,
            ),
        decreases n - hh,
    {
        hh = hh + 1;
    }
    let skip = if n >= 2 && hh == n - 1 {
        n - 2
    } else if hh > 1 {
        hh - 1
    } else {
        0
    };
    let mut remaining = available;
    let mut shown: usize = 0;
    while skip + shown < n
        invariant
            skip <= n,
            skip + shown <= n,
            n == heights@.len(),
            remaining as int == available - height_sum(heights@, skip as int, skip + shown),
        ensures
            skip + shown <= n,
            remaining as int == available - height_sum(heights@, skip as int, skip + shown),
            skip + shown == n || heights@[skip + shown] > remaining,
        decreases n - skip - shown,
    {
        let height = heights[skip + shown];
        if height > remaining {
            break;
        }
        remaining = remaining - height;
        shown = shown + 1;
    }
    Viewport { skip, shown, highlighted: hh }
}

} // verus!
