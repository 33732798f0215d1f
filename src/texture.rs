use vstd::prelude::*;
use crate::surface::InitError;

verus! {

/// Bytes in one RGBA8 pixel.
pub const BYTES_PER_PIXEL: u32 = 4;

/// How a decoded image is laid out for upload into a texture of exactly its
/// size: tightly packed RGBA8 rows, `4 * width` bytes each.
#[derive(Clone, Copy, Debug, PartialEq, Eq, Structural)]
pub struct TextureLayout {
    pub width: u32,
    pub height: u32,
    pub bytes_per_row: u32,
}

/// Whether a pixel buffer of `byte_len` bytes holds exactly a tightly packed
/// RGBA8 image of `width` by `height` pixels.
pub open spec fn valid_image(width: u32, height: u32, byte_len: usize) -> bool {
    byte_len as int == width as int * height as int * 4
}

/// Whether the row stride `4 * width` fits in the 32 bits a texture copy
/// gives it.
pub open spec fn stride_fits(width: u32) -> bool {
    width as int * 4 <= u32::MAX as int
}

/// What `texture_layout` returns, as a value.
pub open spec fn texture_layout_spec(width: u32, height: u32, byte_len: usize) -> Result<TextureLayout, InitError> {
    if !valid_image(width, height, byte_len) {
        Err(InitError::InvalidImageData)
    } else if !stride_fits(width) {
        Err(InitError::ResourceCreationFailed)
    } else {
        Ok(TextureLayout { width, height, bytes_per_row: (4 * width as int) as u32 })
    }
}

/// The upload layout of a decoded image. A buffer whose length is not
/// `width * height * 4` gives `InvalidImageData`; a buffer of the right
/// length whose row stride `4 * width` does not fit in 32 bits cannot be
/// uploaded, and gives `ResourceCreationFailed`.
pub fn texture_layout(width: u32, height: u32, byte_len: usize) -> (r: Result<TextureLayout, InitError>)
    ensures
        r == texture_layout_spec(width, height, byte_len),
        r == Err::<TextureLayout, InitError>(InitError::InvalidImageData) <==> !valid_image(width, height, byte_len),
        r == Err::<TextureLayout, InitError>(InitError::ResourceCreationFailed) <==> (valid_image(width, height, byte_len)
            && !stride_fits(width)),
        r is Ok ==> r->Ok_0 == (TextureLayout {
            width,
            height,
            bytes_per_row: (4 * width as int) as u32,
        }),
{
    let w: u128 = width as u128;
    let h: u128 = height as u128;
    assert(w * h <= 0xffff_ffff_ffff_ffffu128) by (nonlinear_arith)
        requires
            w <= 0xffff_ffff,
            h <= 0xffff_ffff,
    ;
    let needed: u128 = w * h * 4;
    if needed != byte_len as u128 {
        return Err(InitError::InvalidImageData);
    }
    if width > 0x3fff_ffff {
        return Err(InitError::ResourceCreationFailed);
    }
    Ok(TextureLayout { width, height, bytes_per_row: 4 * width })
}

/// Checks a decoded image's pixel buffer against its dimensions.
pub fn check_image(width: u32, height: u32, pixels: &Vec<u8>) -> (r: Result<TextureLayout, InitError>)
    ensures
        r == texture_layout_spec(width, height, pixels@.len() as usize),
{
    texture_layout(width, height, pixels.len())
}

} // verus!
