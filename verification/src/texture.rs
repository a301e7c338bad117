use vstd::prelude::*;

verus! {

/// The shader-visible binding slot of the sampled texture.
pub const TEXTURE_SLOT: u32 = 0;

/// The shader-visible binding slot of its sampler.
pub const SAMPLER_SLOT: u32 = 1;

/// Bytes per pixel of the decoded image payload: four channels, one byte
/// each.
pub const BYTES_PER_PIXEL: u32 = 4;

/// One texture binding of the registry: a decoded image of the given pixel
/// size, bound together with its sampler under the fixed slots above. The
/// pixel payload itself is opaque to this model and is written to the
/// device by the host with the layout computed below.
#[derive(Clone, Copy, Debug, PartialEq, Eq, Structural)]
pub struct TextureBinding {
    pub width: u32,
    pub height: u32,
}

/// The byte layout of one texture upload: bytes per row and the total
/// payload size, `width x bytes-per-pixel x height`. The upload is refused
/// when the image is empty or a row does not fit the device's 32-bit
/// row-stride argument; a refused upload is fatal at startup, so nothing
/// partial is ever retained.
pub fn texture_upload_layout(width: u32, height: u32) -> (r: Option<(u32, u64)>)
    ensures
        r is Some <==> (width > 0 && height > 0 && BYTES_PER_PIXEL * width <= u32::MAX),
        r matches Some(l) ==> {
            &&& l.0 == BYTES_PER_PIXEL * width
            &&& l.1 == BYTES_PER_PIXEL * width * height
        },
{
    if width == 0 || height == 0 {
        return None;
    }
    if width > u32::MAX / BYTES_PER_PIXEL {
        return None;
    }
    let bytes_per_row: u32 = BYTES_PER_PIXEL * width;
    proof {
        assert(bytes_per_row as int * height as int <= 0xffff_ffff * 0xffff_ffff)
            by (nonlinear_arith)
            requires
                bytes_per_row as int <= 0xffff_ffff,
                height as int <= 0xffff_ffff,
        ;
    }
    let total: u64 = (bytes_per_row as u64) * (height as u64);
    Some((bytes_per_row, total))
}

} // verus!
