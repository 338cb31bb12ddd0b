//! Turning an extracted bitmap into PNG bytes, and the small decisions of
//! icon extraction that do not need the native graphics calls.
use vstd::prelude::*;
use image::ImageEncoder;
use crate::text::{starts_with_ignore_ascii_case, starts_with_lowered};

verus! {

/// Why an extraction produced no image.
#[derive(Debug)]
pub enum RasterError {
    /// The bitmap handle was null.
    NullBitmap,
    /// The bitmap's description could not be read.
    BitmapInfo,
    /// The bitmap has no pixels, or too many to copy out.
    InvalidSize,
    /// The pixel copy delivered no scan line.
    NoScanLines,
    /// The PNG encoder refused the pixels.
    Encode,
    /// No icon is registered for the path.
    IconNotFound,
    /// The icon has no colour bitmap.
    NoColorBitmap,
    /// A native call failed, with its message.
    Native(String),
}

/// Relies on image's declaration of its error type.
#[verifier::external_type_specification]
#[verifier::external_body]
pub struct ExImageError(image::ImageError);

/// The PNG encoding that image's encoder produces for 8-bit RGBA pixels.
pub uninterp spec fn png_of(rgba: Seq<u8>, width: u32, height: u32) -> Seq<u8>;

/// Relies on image's `PngEncoder::write_image` with `Rgba8`: on success the
/// written bytes are the PNG image. It panics unless the buffer holds exactly
/// four bytes per pixel; with such a buffer into a `Vec` its only refusals are
/// a zero width or height.
#[verifier::external_body]
fn encode_png_rgba(rgba: &[u8], width: u32, height: u32) -> (r: Result<Vec<u8>, image::ImageError>)
    requires
        rgba@.len() == width as nat * height as nat * 4,
    ensures
        r matches Ok(png) ==> png@ == png_of(rgba@, width, height),
        width > 0 && height > 0 ==> r is Ok,
{
    let mut png = Vec::new();
    image::codecs::png::PngEncoder::new(&mut png)
        .write_image(rgba, width, height, image::ExtendedColorType::Rgba8)
        .map(|_| png)
}

/// The largest pixel buffer copied out of a bitmap, in bytes.
pub const MAX_PIXEL_BYTES: u64 = 0x7fff_ffff;

/// The byte length of a 32-bit-per-pixel buffer for the given dimensions,
/// when both are positive and the buffer is not over `MAX_PIXEL_BYTES`.
pub open spec fn pixel_len_spec(width: i32, height: i32) -> Option<nat> {
    if width > 0 && height > 0 && width as nat * height as nat * 4 <= MAX_PIXEL_BYTES {
        Some(width as nat * height as nat * 4)
    } else {
        None
    }
}

/// The byte length of the buffer that receives a `width` by `height` bitmap.
pub fn pixel_buffer_len(width: i32, height: i32) -> (r: Result<usize, RasterError>)
    ensures
        match pixel_len_spec(width, height) {
            Some(n) => r matches Ok(len) && len == n,
            None => r matches Err(RasterError::InvalidSize),
        },
{
    if width <= 0 || height <= 0 {
        return Err(RasterError::InvalidSize);
    }
    let w = width as u64;
    let h = height as u64;
    if w > MAX_PIXEL_BYTES / 4 / h {
        proof {
            assert(w * h * 4 > MAX_PIXEL_BYTES) by (nonlinear_arith)
                requires
                    w > MAX_PIXEL_BYTES / 4 / h,
                    h > 0,
            ;
        }
        return Err(RasterError::InvalidSize);
    }
    proof {
        assert(w * h * 4 <= MAX_PIXEL_BYTES) by (nonlinear_arith)
            requires
                w <= MAX_PIXEL_BYTES / 4 / h,
                h > 0,
        ;
    }
    Ok((w * h * 4) as usize)
}

/// The pixels with the first and third byte of every whole four-byte group
/// exchanged (blue-green-red-alpha to red-green-blue-alpha); a trailing
/// partial group is kept as it is.
pub open spec fn swap_red_blue(px: Seq<u8>) -> Seq<u8> {
    Seq::new(
        px.len(),
        |i: int|
            if i - i % 4 + 4 > px.len() {
                px[i]
            } else if i % 4 == 0 {
                px[i + 2]
            } else if i % 4 == 2 {
                px[i - 2]
            } else {
                px[i]
            },
    )
}

/// Reorders blue-green-red-alpha pixels to red-green-blue-alpha in place.
pub fn bgra_to_rgba(px: &mut Vec<u8>)
    ensures
        final(px)@ == swap_red_blue(old(px)@),
{
    let ghost orig = px@;
    let n = px.len();
    let mut i: usize = 0;
    while i < n && n - i >= 4
        invariant
            n == px@.len(),
            orig.len() == n,
            i % 4 == 0,
            i <= n,
            forall|j: int| 0 <= j < i ==> px@[j] == #[trigger] swap_red_blue(orig)[j],
            forall|j: int| i <= j < n ==> px@[j] == orig[j],
        decreases n - i,
    {
        let b = px[i];
        let r = px[i + 2];
        px.set(i, r);
        px.set(i + 2, b);
        i = i + 4;
    }
    proof {
        assert(px@ =~= swap_red_blue(orig));
    }
}

/// Turns the pixels copied out of a bitmap into PNG bytes. `scan_lines` is
/// the number of rows the copy reported; none is an error.
pub fn bitmap_to_png(bgra: Vec<u8>, width: i32, height: i32, scan_lines: i32) -> (r: Result<
    Vec<u8>,
    RasterError,
>)
    ensures
        pixel_len_spec(width, height) is None ==> r matches Err(RasterError::InvalidSize),
        pixel_len_spec(width, height) matches Some(n) && bgra@.len() != n ==> r matches Err(
            RasterError::InvalidSize,
        ),
        pixel_len_spec(width, height) matches Some(n) && bgra@.len() == n && scan_lines == 0 ==> r matches Err(
            RasterError::NoScanLines,
        ),
        pixel_len_spec(width, height) matches Some(n) && bgra@.len() == n && scan_lines != 0 ==> (r matches Ok(
            png,
        ) && png@ == png_of(swap_red_blue(bgra@), width as u32, height as u32)),
{
    let expected = match pixel_buffer_len(width, height) {
        Ok(n) => n,
        Err(e) => return Err(e),
    };
    if bgra.len() != expected {
        return Err(RasterError::InvalidSize);
    }
    if scan_lines == 0 {
        return Err(RasterError::NoScanLines);
    }
    let mut rgba = bgra;
    bgra_to_rgba(&mut rgba);
    match encode_png_rgba(rgba.as_slice(), width as u32, height as u32) {
        Ok(png) => Ok(png),
        Err(_) => Err(RasterError::Encode),
    }
}

/// Whether the path names an entry of the shell's applications folder, whose
/// image comes from the shell item factory rather than from the file's icon.
pub fn is_apps_folder_path(path: &str) -> (r: bool)
    ensures
        r == starts_with_lowered(path@, "shell:appsfolder\\"@),
{
    starts_with_ignore_ascii_case(path, "shell:appsfolder\\")
}

/// Which of the two system icon sizes an extraction asks for.
#[derive(Debug)]
pub enum IconSizeClass {
    Small,
    Large,
}

/// Sizes above sixteen pixels ask for the large icon.
pub fn icon_size_class(size: u32) -> (r: IconSizeClass)
    ensures
        (r is Large) == (size > 16),
{
    if size > 16 {
        IconSizeClass::Large
    } else {
        IconSizeClass::Small
    }
}

} // verus!
