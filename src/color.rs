//! Colours as integer channels, and palettes of decoys derived from one
//! correct colour.

use vstd::prelude::*;
use crate::random::draw_between;

verus! {

/// The channel value of full intensity: a channel of `CHANNEL_MAX` stands
/// for 1.0, one of 0 for 0.0.
pub const CHANNEL_MAX: u32 = 1_000_000;

/// The largest brightening of a decoy, exclusive: a tenth of full intensity.
pub const DEFAULT_JITTER_MAX: u32 = 100_000;

/// An RGBA colour. Decoys may rise above `CHANNEL_MAX`: channels are not
/// clamped.
#[derive(Clone, Copy, Debug, PartialEq, Eq, Structural)]
pub struct Color {
    pub r: u32,
    pub g: u32,
    pub b: u32,
    pub a: u32,
}

/// `d` is `c` with the same amount `j` added to each of red, green and blue,
/// and the same alpha.
pub open spec fn shifted_by(d: Color, c: Color, j: int) -> bool {
    &&& d.r == c.r + j
    &&& d.g == c.g + j
    &&& d.b == c.b + j
    &&& d.a == c.a
}

/// The colour's channels leave room for a brightening of `j`.
pub open spec fn can_shift(c: Color, j: int) -> bool {
    &&& c.r + j <= u32::MAX
    &&& c.g + j <= u32::MAX
    &&& c.b + j <= u32::MAX
}

/// `c` brightened by `j` on red, green and blue.
pub open spec fn brightened(c: Color, j: int) -> Color {
    Color { r: (c.r + j) as u32, g: (c.g + j) as u32, b: (c.b + j) as u32, a: c.a }
}

/// The palette made of `correct` followed by one decoy per jitter.
pub open spec fn jittered_palette(correct: Color, jitters: Seq<u32>) -> Seq<Color> {
    seq![correct] + jitters.map_values(|j: u32| brightened(correct, j as int))
}

/// A palette whose first colour is the correct one, each later colour being
/// that colour brightened on all three channels by one amount below
/// `jitter_max`.
pub open spec fn is_jittered_palette(p: Seq<Color>, jitter_max: int) -> bool {
    &&& p.len() >= 1
    &&& forall|i: int|
        1 <= i < p.len() ==> {
            &&& (#[trigger] p[i]).r - p[0].r == p[i].g - p[0].g
            &&& p[i].g - p[0].g == p[i].b - p[0].b
            &&& 0 <= p[i].r - p[0].r < jitter_max
            &&& p[i].a == p[0].a
        }
}

impl Color {
    /// An opaque colour.
    pub fn rgb(r: u32, g: u32, b: u32) -> (c: Color)
        ensures
            c == (Color { r, g, b, a: CHANNEL_MAX }),
    {
        Color { r, g, b, a: CHANNEL_MAX }
    }

    /// This colour brightened by `j` on red, green and blue.
    pub fn brighten(&self, j: u32) -> (c: Color)
        requires
            can_shift(*self, j as int),
        ensures
            c == brightened(*self, j as int),
            shifted_by(c, *self, j as int),
    {
        Color { r: self.r + j, g: self.g + j, b: self.b + j, a: self.a }
    }

    /// Channel-exact equality, the sense in which a tile holds the correct
    /// colour.
    pub fn same_as(&self, other: &Color) -> (r: bool)
        ensures
            r == (*self == *other),
    {
        self.r == other.r && self.g == other.g && self.b == other.b && self.a == other.a
    }
}

/// The palette of `correct` followed by one decoy for each jitter, in order.
pub fn palette_from_draws(correct: Color, jitters: &Vec<u32>) -> (p: Vec<Color>)
    requires
        forall|i: int| 0 <= i < jitters@.len() ==> can_shift(correct, jitters@[i] as int),
    ensures
        p@ == jittered_palette(correct, jitters@),
{
    let mut p: Vec<Color> = Vec::new();
    p.push(correct);
    let mut i: usize = 0;
    while i < jitters.len()
        invariant
            i <= jitters@.len(),
            forall|k: int| 0 <= k < jitters@.len() ==> can_shift(correct, jitters@[k] as int),
            p@ == jittered_palette(correct, jitters@.take(i as int)),
        decreases jitters@.len() - i,
    {
        let d = correct.brighten(jitters[i]);
        p.push(d);
        i += 1;
        assert(jitters@.take(i as int) =~= jitters@.take(i - 1).push(jitters@[i - 1]));
    }
    assert(jitters@.take(i as int) =~= jitters@);
    p
}

/// A random palette of `count` decoys around a random correct colour: each
/// channel of the correct colour is drawn between 0 and `CHANNEL_MAX`, and
/// each decoy adds one amount, drawn below `jitter_max`, to all three of its
/// colour channels.
pub fn generate_palette(rng: &mut rand::rngs::StdRng, count: usize, jitter_max: u32) -> (p: Vec<Color>)
    requires
        0 < jitter_max <= CHANNEL_MAX,
    ensures
        p@.len() == count + 1,
        is_jittered_palette(p@, jitter_max as int),
        p@[0].r <= CHANNEL_MAX && p@[0].g <= CHANNEL_MAX && p@[0].b <= CHANNEL_MAX,
        p@[0].a == CHANNEL_MAX,
{
    let r = draw_between(rng, 0, CHANNEL_MAX as u64) as u32;
    let g = draw_between(rng, 0, CHANNEL_MAX as u64) as u32;
    let b = draw_between(rng, 0, CHANNEL_MAX as u64) as u32;
    let correct = Color::rgb(r, g, b);
    let mut jitters: Vec<u32> = Vec::new();
    let mut i: usize = 0;
    while i < count
        invariant
            0 < jitter_max <= CHANNEL_MAX,
            i <= count,
            jitters@.len() == i,
            forall|k: int| 0 <= k < i ==> jitters@[k] < jitter_max,
        decreases count - i,
    {
        let j = draw_between(rng, 0, (jitter_max - 1) as u64) as u32;
        jitters.push(j);
        i += 1;
    }
    let p = palette_from_draws(correct, &jitters);
    assert forall|i: int| 1 <= i < p@.len() implies {
        &&& (#[trigger] p@[i]).r - p@[0].r == p@[i].g - p@[0].g
        &&& p@[i].g - p@[0].g == p@[i].b - p@[0].b
        &&& 0 <= p@[i].r - p@[0].r < jitter_max
        &&& p@[i].a == p@[0].a
    } by {
        assert(p@[i] == brightened(correct, jitters@[i - 1] as int));
    }
    p
}

} // verus!
