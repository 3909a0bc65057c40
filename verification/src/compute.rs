//! Geometry of the one-shot compute dispatch.
//!
//! The compute shader runs in workgroups of 8 x 8 x 1 invocations over a
//! 2-D image, and the result is copied into a host-visible buffer of 4
//! bytes (one RGBA texel) per pixel. This module computes how many
//! workgroups to dispatch and how large the read-back buffer must be, and
//! checks a read-back against the shape the dispatch promises: the right
//! byte count, with every texel's alpha byte fully opaque.

use vstd::prelude::*;

use crate::vec2::UVec2;

verus! {

/// Workgroup size of the compute shader, per axis.
pub const LOCAL_SIZE: u32 = 8;

/// Bytes per RGBA texel.
pub const BYTES_PER_TEXEL: u32 = 4;

/// Number of bytes an RGBA image of these dimensions occupies.
pub open spec fn rgba_byte_len(dim: UVec2) -> int {
    dim.width() * dim.height() * BYTES_PER_TEXEL
}

/// Every texel's alpha byte (the fourth byte of each 4-byte texel) is 255.
pub open spec fn alpha_opaque(bytes: Seq<u8>) -> bool {
    forall|p: int| 0 <= p && 4 * p + 3 < bytes.len() ==> #[trigger] bytes[4 * p + 3] == 255
}

/// How many workgroups to dispatch per axis: the image dimensions divided
/// by the shader's workgroup size (rounding down; the demo's image sizes
/// are whole multiples of it), and one layer deep.
pub fn dispatch_group_counts(dim: UVec2) -> (r: [u32; 3])
    ensures
        r@ == seq![
            (dim.width() / LOCAL_SIZE) as u32,
            (dim.height() / LOCAL_SIZE) as u32,
            1u32,
        ],
{
    let r: [u32; 3] = [dim.0 / LOCAL_SIZE, dim.1 / LOCAL_SIZE, 1u32];
    proof {
        assert(r@ =~= seq![
            (dim.width() / LOCAL_SIZE) as u32,
            (dim.height() / LOCAL_SIZE) as u32,
            1u32,
        ]);
    }
    r
}

/// Size in bytes of the host buffer that receives the image: width times
/// height times 4, or `None` where that does not fit the platform's size
/// type.
pub fn output_byte_len(dim: UVec2) -> (r: Option<usize>)
    ensures
        rgba_byte_len(dim) <= usize::MAX ==> r == Some(rgba_byte_len(dim) as usize),
        rgba_byte_len(dim) > usize::MAX ==> r is None,
{
    proof {
        assert(dim.0 as int * dim.1 as int <= u32::MAX as int * u32::MAX as int)
            by (nonlinear_arith)
            requires
                dim.0 <= u32::MAX,
                dim.1 <= u32::MAX,
        ;
    }
    let pixels: u64 = (dim.0 as u64) * (dim.1 as u64);
    match pixels.checked_mul(BYTES_PER_TEXEL as u64) {
        Some(bytes) => {
            if bytes <= usize::MAX as u64 {
                Some(bytes as usize)
            } else {
                None
            }
        },
        None => None,
    }
}

/// Check a read-back of the dispatch's output: it is well-formed for the
/// requested dimensions exactly when it holds width times height RGBA
/// texels and every texel's alpha byte is 255.
pub fn rgba_output_well_formed(bytes: &Vec<u8>, dim: UVec2) -> (r: bool)
    ensures
        r == (bytes@.len() == rgba_byte_len(dim) && alpha_opaque(bytes@)),
{
    let blen = bytes.len();
    let expected = match output_byte_len(dim) {
        Some(n) => n,
        None => {
            return false;
        },
    };
    if blen != expected {
        return false;
    }
    let n: usize = blen / 4;
    let mut p: usize = 0;
    while p < n
        invariant
            n == blen / 4,
            blen == bytes@.len(),
            forall|q: int| 0 <= q < p ==> #[trigger] bytes@[4 * q + 3] == 255,
            p <= n,
        decreases n - p,
    {
        proof {
            assert(4 * p + 3 < blen);
        }
        if bytes[4 * p + 3] != 255 {
            assert(!alpha_opaque(bytes@));
            return false;
        }
        p = p + 1;
    }
    proof {
        assert forall|q: int| 0 <= q && 4 * q + 3 < bytes@.len() implies #[trigger] bytes@[4 * q
            + 3] == 255 by {
            assert(q < n);
        }
    }
    true
}

} // verus!
