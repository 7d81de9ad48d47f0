//! Sizes the demos hand to the driver: the swapchain's image count, the
//! compute dispatch's workgroup grid, and the byte length of the readback
//! buffer behind the demo's 8-bit RGBA image.

use vstd::prelude::*;
use vstd::arithmetic::div_mod::lemma_fundamental_div_mod;
use vstd::arithmetic::mul::lemma_mul_is_commutative;

verus! {

/// The triangle demo asks the swapchain for one image more than the
/// surface's minimum, so one image can be drawn while another is presented.
pub fn desired_swapchain_images(min_image_count: u32) -> (r: u32)
    requires
        min_image_count < u32::MAX,
    ensures
        r == min_image_count + 1,
{
    min_image_count + 1
}

/// How many workgroups a dispatch needs along one axis whose extent is an
/// exact multiple of the workgroup's local size, as the compute demo's
/// 1024-pixel axes are of its 8-wide workgroups.
pub fn workgroup_count(extent: u32, local_size: u32) -> (r: u32)
    requires
        local_size > 0,
        extent % local_size == 0,
    ensures
        r == extent / local_size,
        r * local_size == extent,
{
    proof {
        lemma_fundamental_div_mod(extent as int, local_size as int);
        lemma_mul_is_commutative(local_size as int, (extent as int) / (local_size as int));
    }
    extent / local_size
}

/// The workgroup grid of one compute dispatch.
#[derive(Clone, Copy, PartialEq, Eq, Structural, Debug)]
pub struct DispatchSize {
    pub x: u32,
    pub y: u32,
    pub z: u32,
}

/// The grid the compute demo dispatches over a width-by-height image with
/// square workgroups of side `local_size`: one workgroup per tile, a single
/// layer deep.
pub fn dispatch_size(width: u32, height: u32, local_size: u32) -> (r: DispatchSize)
    requires
        local_size > 0,
        width % local_size == 0,
        height % local_size == 0,
    ensures
        r.x == width / local_size,
        r.y == height / local_size,
        r.x * local_size == width,
        r.y * local_size == height,
        r.z == 1,
{
    DispatchSize {
        x: workgroup_count(width, local_size),
        y: workgroup_count(height, local_size),
        z: 1,
    }
}

/// The exact byte length of a tightly packed 8-bit RGBA image.
pub open spec fn rgba_len(width: int, height: int) -> int {
    width * height * 4
}

/// Byte length of the buffer the compute demo reads a width-by-height RGBA
/// image back into. `None` exactly when the length does not fit in 64 bits.
pub fn rgba_byte_len(width: u32, height: u32) -> (r: Option<u64>)
    ensures
        match r {
            Some(n) => n == rgba_len(width as int, height as int),
            None => rgba_len(width as int, height as int) > u64::MAX,
        },
{
    proof {
        assert((width as int) * (height as int) <= 0xffff_ffff * 0xffff_ffff)
            by (nonlinear_arith)
            requires
                width <= 0xffff_ffff,
                height <= 0xffff_ffff,
        ;
    }
    let pixels: u64 = (width as u64) * (height as u64);
    if pixels > u64::MAX / 4 {
        None
    } else {
        Some(pixels * 4)
    }
}

/// The all-zero bytes the compute demo fills its staging buffer with before
/// the device writes the image into it.
pub fn zeroed_bytes(len: usize) -> (r: Vec<u8>)
    ensures
        r@.len() == len,
        forall|i: int| 0 <= i < len ==> r@[i] == 0u8,
{
    let mut v: Vec<u8> = Vec::new();
    while v.len() < len
        invariant
            v@.len() <= len,
            forall|i: int| 0 <= i < v@.len() ==> v@[i] == 0u8,
        decreases len - v@.len(),
    {
        v.push(0u8);
    }
    v
}

/// Whether a readback buffer of `len` bytes is large enough to hold a
/// width-by-height 8-bit RGBA image: the condition under which the demo's
/// image container accepts the raw bytes for saving.
pub fn buffer_holds_rgba(len: u64, width: u32, height: u32) -> (r: bool)
    ensures
        r == (len >= rgba_len(width as int, height as int)),
{
    match rgba_byte_len(width, height) {
        Some(n) => len >= n,
        None => false,
    }
}

} // verus!
