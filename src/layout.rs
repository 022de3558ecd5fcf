//! Placing square tiles inside a board without overlap, by rejection
//! sampling.

use vstd::prelude::*;
use crate::random::draw_between;

verus! {

/// How many more positions are drawn for a tile whose first one overlaps.
pub const MAX_PLACEMENT_RETRIES: u32 = 100;

#[derive(Clone, Copy, Debug, PartialEq, Eq, Structural)]
pub struct Point {
    pub x: i64,
    pub y: i64,
}

/// A closed axis-aligned box: its edges belong to it.
#[derive(Clone, Copy, Debug, PartialEq, Eq, Structural)]
pub struct Rect {
    pub min_x: i64,
    pub min_y: i64,
    pub max_x: i64,
    pub max_y: i64,
}

/// A placed tile, and whether every retry for it still overlapped, so that
/// it was left where the last draw put it.
#[derive(Clone, Copy, Debug, PartialEq, Eq, Structural)]
pub struct Placement {
    pub at: Point,
    pub exhausted: bool,
}

/// Two boxes overlap unless one lies wholly to the left, right, below or
/// above the other.
pub open spec fn overlaps(a: Rect, b: Rect) -> bool {
    !(a.min_x > b.max_x || b.min_x > a.max_x || a.min_y > b.max_y || b.min_y > a.max_y)
}

/// The box of a tile of side `size` whose lower-left corner is `at`.
pub open spec fn tile_rect(at: Point, size: int) -> Rect {
    Rect {
        min_x: at.x,
        min_y: at.y,
        max_x: (at.x + size) as i64,
        max_y: (at.y + size) as i64,
    }
}

/// The lowest and highest lower-left coordinate on one axis for a tile of
/// side `size` between `lo` and `hi`. A tile wider than the span is held at
/// its low edge.
pub open spec fn corner_high(lo: int, hi: int, size: int) -> int {
    if hi - size >= lo {
        hi - size
    } else {
        lo
    }
}

/// `at` is a lower-left corner that keeps a tile of side `size` in `bounds`
/// (or at their low edge, where the tile is larger).
pub open spec fn corner_in(at: Point, bounds: Rect, size: int) -> bool {
    &&& bounds.min_x <= at.x <= corner_high(bounds.min_x as int, bounds.max_x as int, size)
    &&& bounds.min_y <= at.y <= corner_high(bounds.min_y as int, bounds.max_y as int, size)
}

/// `r` overlaps one of `rs`.
pub open spec fn overlaps_any(r: Rect, rs: Seq<Rect>) -> bool {
    exists|k: int| 0 <= k < rs.len() && overlaps(r, #[trigger] rs[k])
}

/// The boxes of the placements, in order.
pub open spec fn placed_rects(ps: Seq<Placement>, size: int) -> Seq<Rect> {
    ps.map_values(|p: Placement| tile_rect(p.at, size))
}

/// Coordinates and a tile size with which no sum below can overflow.
pub open spec fn layout_fits(bounds: Rect, size: int) -> bool {
    &&& 0 <= size
    &&& bounds.min_x <= bounds.max_x
    &&& bounds.min_y <= bounds.max_y
    &&& bounds.min_x + size <= i64::MAX
    &&& bounds.min_y + size <= i64::MAX
}

/// Whether two closed boxes share a point.
pub fn boxes_intersect(a: &Rect, b: &Rect) -> (r: bool)
    ensures
        r == overlaps(*a, *b),
{
    !(a.min_x > b.max_x || b.min_x > a.max_x || a.min_y > b.max_y || b.min_y > a.max_y)
}

/// The box of a tile of side `size` at `at`.
pub fn tile_box(at: Point, size: i64) -> (r: Rect)
    requires
        0 <= size,
        at.x + size <= i64::MAX,
        at.y + size <= i64::MAX,
    ensures
        r == tile_rect(at, size as int),
{
    Rect { min_x: at.x, min_y: at.y, max_x: at.x + size, max_y: at.y + size }
}

/// Whether `r` overlaps any of `rs`.
pub fn intersects_any(r: &Rect, rs: &Vec<Rect>) -> (hit: bool)
    ensures
        hit == overlaps_any(*r, rs@),
{
    let mut k: usize = 0;
    while k < rs.len()
        invariant
            k <= rs@.len(),
            forall|m: int| 0 <= m < k ==> !overlaps(*r, #[trigger] rs@[m]),
        decreases rs@.len() - k,
    {
        if boxes_intersect(r, &rs[k]) {
            return true;
        }
        k += 1;
    }
    false
}

/// One coordinate drawn uniformly among the lower-left corners that keep a
/// tile of side `size` between `lo` and `hi`.
fn draw_corner(rng: &mut rand::rngs::StdRng, lo: i64, hi: i64, size: i64) -> (c: i64)
    requires
        0 <= size,
        lo <= hi,
        lo + size <= i64::MAX,
    ensures
        lo <= c <= corner_high(lo as int, hi as int, size as int),
{
    let top: i64 = if hi as i128 - size as i128 >= lo as i128 {
        (hi as i128 - size as i128) as i64
    } else {
        lo
    };
    let span = (top as i128 - lo as i128) as u64;
    let d = draw_between(rng, 0, span);
    (lo as i128 + d as i128) as i64
}

/// A random corner for a tile of side `size` inside `bounds`.
fn draw_position(rng: &mut rand::rngs::StdRng, bounds: &Rect, size: i64) -> (p: Point)
    requires
        layout_fits(*bounds, size as int),
    ensures
        corner_in(p, *bounds, size as int),
{
    let x = draw_corner(rng, bounds.min_x, bounds.max_x, size);
    let y = draw_corner(rng, bounds.min_y, bounds.max_y, size);
    Point { x, y }
}

/// Places `count` tiles of side `size` in `bounds`, in order. Each tile gets
/// a random corner that keeps it inside the bounds; while its box overlaps
/// one of `existing` or of the tiles placed before it, a new corner is drawn,
/// up to `MAX_PLACEMENT_RETRIES` times. A tile still overlapping after the
/// last retry stays there, marked `exhausted`.
pub fn place(
    rng: &mut rand::rngs::StdRng,
    count: usize,
    size: i64,
    bounds: &Rect,
    existing: &Vec<Rect>,
) -> (ps: Vec<Placement>)
    requires
        layout_fits(*bounds, size as int),
    ensures
        ps@.len() == count,
        forall|i: int| 0 <= i < count ==> corner_in((#[trigger] ps@[i]).at, *bounds, size as int),
        forall|i: int|
            0 <= i < count && !(#[trigger] ps@[i]).exhausted ==> !overlaps_any(
                tile_rect(ps@[i].at, size as int),
                existing@,
            ),
        forall|i: int, j: int|
            0 <= j < i < count && !(#[trigger] ps@[i]).exhausted ==> !overlaps(
                tile_rect(ps@[i].at, size as int),
                tile_rect((#[trigger] ps@[j]).at, size as int),
            ),
{
    let mut ps: Vec<Placement> = Vec::new();
    let mut used: Vec<Rect> = Vec::new();
    let mut k: usize = 0;
    while k < existing.len()
        invariant
            k <= existing@.len(),
            used@ == existing@.take(k as int),
        decreases existing@.len() - k,
    {
        used.push(existing[k]);
        k += 1;
        assert(existing@.take(k as int) =~= existing@.take(k - 1).push(existing@[k - 1]));
    }
    assert(existing@.take(k as int) =~= existing@);
    let mut i: usize = 0;
    while i < count
        invariant
            layout_fits(*bounds, size as int),
            i <= count,
            ps@.len() == i,
            used@ == existing@ + placed_rects(ps@, size as int),
            forall|m: int| 0 <= m < i ==> corner_in((#[trigger] ps@[m]).at, *bounds, size as int),
            forall|m: int|
                0 <= m < i && !(#[trigger] ps@[m]).exhausted ==> !overlaps_any(
                    tile_rect(ps@[m].at, size as int),
                    existing@,
                ),
            forall|m: int, j: int|
                0 <= j < m < i && !(#[trigger] ps@[m]).exhausted ==> !overlaps(
                    tile_rect(ps@[m].at, size as int),
                    tile_rect((#[trigger] ps@[j]).at, size as int),
                ),
        decreases count - i,
    {
        let mut at = draw_position(rng, bounds, size);
        let mut rect = tile_box(at, size);
        let mut hit = intersects_any(&rect, &used);
        let mut tries: u32 = MAX_PLACEMENT_RETRIES;
        while hit && tries > 0
            invariant
                layout_fits(*bounds, size as int),
                corner_in(at, *bounds, size as int),
                rect == tile_rect(at, size as int),
                hit == overlaps_any(rect, used@),
            decreases tries,
        {
            at = draw_position(rng, bounds, size);
            rect = tile_box(at, size);
            hit = intersects_any(&rect, &used);
            tries -= 1;
        }
        let placed = Placement { at, exhausted: hit };
        proof {
            if !hit {
                assert forall|k: int| 0 <= k < existing@.len() implies !overlaps(
                    rect,
                    #[trigger] existing@[k],
                ) by {
                    assert(used@[k] == existing@[k]);
                }
                assert forall|j: int| 0 <= j < i implies !overlaps(
                    rect,
                    tile_rect((#[trigger] ps@[j]).at, size as int),
                ) by {
                    assert(used@[existing@.len() + j] == tile_rect(ps@[j].at, size as int));
                }
            }
        }
        ps.push(placed);
        used.push(rect);
        i += 1;
        assert(placed_rects(ps@, size as int) =~= placed_rects(ps@.drop_last(), size as int).push(
            rect,
        ));
        assert(ps@.drop_last() =~= ps@.take(i - 1));
    }
    ps
}

} // verus!
