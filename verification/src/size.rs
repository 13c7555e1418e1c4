//! Pixel sizes of render targets.
use vstd::prelude::*;

verus! {

/// Ratio, per axis, between the presentation size and the size of the blur buffers.
pub const BLUR_SIZE_FACTOR: u32 = 4;

/// The size obtained from `size` by dividing each axis by `factor`, rounding down.
pub open spec fn downscale(size: [u32; 2], factor: u32) -> [u32; 2] {
    [(size[0] / factor) as u32, (size[1] / factor) as u32]
}

/// Divides each axis of `size` by `factor`, rounding down.
pub fn downscaled_size(size: [u32; 2], factor: u32) -> (scaled: [u32; 2])
    requires
        factor > 0,
    ensures
        scaled == downscale(size, factor),
        scaled[0] == size[0] / factor,
        scaled[1] == size[1] / factor,
{
    let scaled: [u32; 2] = [size[0] / factor, size[1] / factor];
    assert(scaled =~= downscale(size, factor));
    scaled
}

/// The size of the blur buffers that go with a presentation surface of `size`.
pub fn blur_buffer_size(size: [u32; 2]) -> (scaled: [u32; 2])
    ensures
        scaled == downscale(size, BLUR_SIZE_FACTOR),
        scaled[0] == size[0] / BLUR_SIZE_FACTOR,
        scaled[1] == size[1] / BLUR_SIZE_FACTOR,
{
    downscaled_size(size, BLUR_SIZE_FACTOR)
}

} // verus!
