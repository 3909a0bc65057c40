//! A 2-D dimension value: an immutable pair of unsigned 32-bit extents,
//! convertible losslessly to and from the platform's image-extent
//! representation, a `[width, height, depth]` triple where a 2-D size has
//! depth 1.

use vstd::prelude::*;

verus! {

/// An immutable (width, height) pair.
#[derive(Copy, Clone, Debug, PartialEq, Eq, Structural)]
pub struct UVec2(pub u32, pub u32);

/// The extent triple that a (width, height) pair stands for.
pub open spec fn extent_of(v: UVec2) -> Seq<u32> {
    seq![v.0, v.1, 1u32]
}

/// The (width, height) pair that an extent triple stands for.
pub open spec fn uvec2_of_extent(e: Seq<u32>) -> UVec2 {
    UVec2(e[0], e[1])
}

impl UVec2 {
    /// The width component.
    pub open spec fn width(self) -> u32 {
        self.0
    }

    /// The height component.
    pub open spec fn height(self) -> u32 {
        self.1
    }

    /// Construct from a (width, height) pair.
    pub fn new(width: u32, height: u32) -> (r: UVec2)
        ensures
            r == UVec2(width, height),
    {
        UVec2(width, height)
    }

    /// Convert to the platform's image-extent triple: `[width, height, 1]`.
    pub fn into_extent(self) -> (r: [u32; 3])
        ensures
            r@ == extent_of(self),
    {
        let r: [u32; 3] = [self.0, self.1, 1u32];
        proof {
            assert(r@ =~= extent_of(self));
        }
        r
    }

    /// Read a (width, height) pair back out of an extent triple.
    pub fn from_extent(e: &[u32; 3]) -> (r: UVec2)
        ensures
            r == uvec2_of_extent(e@),
    {
        UVec2(e[0], e[1])
    }
}

impl From<(u32, u32)> for UVec2 {
    /// Construct from a (width, height) pair.
    fn from(v: (u32, u32)) -> (r: UVec2) {
        UVec2(v.0, v.1)
    }
}

impl vstd::std_specs::convert::FromSpecImpl<(u32, u32)> for UVec2 {
    open spec fn obeys_from_spec() -> bool {
        true
    }

    open spec fn from_spec(v: (u32, u32)) -> UVec2 {
        UVec2(v.0, v.1)
    }
}

/// Dimension conversion is lossless: any (width, height) pair with both
/// components positive, converted to the platform extent triple and back,
/// comes back unchanged.
pub proof fn lemma_extent_round_trip(w: u32, h: u32)
    requires
        w > 0,
        h > 0,
    ensures
        uvec2_of_extent(extent_of(UVec2(w, h))) == UVec2(w, h),
{
}

} // verus!
