use vstd::prelude::*;

use crate::options::AppOptions;

verus! {

/// Glyphs per row of a font sheet.
pub const GLYPHS_PER_ROW: u32 = 16;

/// Glyph rows of a font sheet.
pub const GLYPH_ROWS: u32 = 16;

/// What decoding `data` as an image of any format that the decoder is built
/// with (format guessed from the bytes) and converting it to 8-bit RGBA gives:
/// width, height and pixel bytes, or nothing where the bytes are no image of
/// such a format.
pub uninterp spec fn rgba_decoding(data: Seq<u8>) -> Option<(u32, u32, Seq<u8>)>;

/// Relies on `image::load_from_memory` (guesses the format from the bytes and
/// decodes them) and `DynamicImage::to_rgba8` (converts to 8-bit RGBA into a
/// fresh buffer of four bytes per pixel); the result depends on the bytes
/// alone.
///
/// Not excluded by the contract, since no condition on the bytes short of
/// decoding them rules it out: a crafted header can make the decoder panic or
/// run out of memory. A farbfeld header with width 0x80000000 and height
/// 0x20000000 passes the farbfeld reader's only size check
/// (`check_dimension_overflow`), and `decoder_to_vec` then asks `vec!` for
/// more than `isize::MAX` bytes and panics with a capacity overflow; on 32-bit
/// targets its `usize::try_from(..).unwrap()` panics for any image of 4 GiB or
/// more. Headers within those sizes can still ask for more memory than the
/// machine has, and the allocation then aborts the process.
#[verifier::external_body]
fn decode_rgba(data: &[u8]) -> (r: Option<(u32, u32, Vec<u8>)>)
    ensures
        match r {
            Some((w, h, px)) => {
                &&& rgba_decoding(data@) == Some((w, h, px@))
                &&& px@.len() == 4 * w * h
            },
            None => rgba_decoding(data@).is_none(),
        },
{
    match image::load_from_memory(data) {
        Ok(img) => {
            let rgba = img.to_rgba8();
            let (w, h) = rgba.dimensions();
            Some((w, h, rgba.into_raw()))
        },
        Err(_) => None,
    }
}

/// Pixel metrics of a font sheet on a console.
#[derive(Clone, Copy, Debug, PartialEq, Eq, Structural)]
pub struct FontLayout {
    /// Width of the font image, in pixels.
    pub font_width: u32,
    /// Height of the font image, in pixels.
    pub font_height: u32,
    /// Width of one glyph cell, in pixels.
    pub char_width: u32,
    /// Height of one glyph cell, in pixels.
    pub char_height: u32,
    /// Width of the window that shows the whole console, in pixels.
    pub screen_width: u32,
    /// Height of the window that shows the whole console, in pixels.
    pub screen_height: u32,
}

/// Why a font could not be set up.
#[derive(Clone, Copy, Debug, PartialEq, Eq, Structural)]
pub enum FontError {
    /// The bytes are no image of a format the decoder is built with, or are
    /// malformed.
    Decode,
    /// The window that the console needs is wider or taller than `u32::MAX` pixels.
    WindowTooLarge,
    /// A font is already bound; its window and texture stay as they are.
    AlreadyBound,
}

/// The layout of a `font_width` x `font_height` glyph sheet on a console of
/// `console_width` x `console_height` cells, if the window size fits in `u32`.
pub open spec fn layout_of(
    font_width: u32,
    font_height: u32,
    console_width: u32,
    console_height: u32,
) -> Option<FontLayout> {
    let cw = font_width / GLYPHS_PER_ROW;
    let ch = font_height / GLYPH_ROWS;
    if console_width * cw > u32::MAX || console_height * ch > u32::MAX {
        None
    } else {
        Some(
            FontLayout {
                font_width,
                font_height,
                char_width: cw,
                char_height: ch,
                screen_width: (console_width * cw) as u32,
                screen_height: (console_height * ch) as u32,
            },
        )
    }
}

/// Cell size and window size for a font image of the given size on a
/// console of the given size.
pub fn font_layout(font_width: u32, font_height: u32, console_width: u32, console_height: u32) -> (r:
    Result<FontLayout, FontError>)
    ensures
        match layout_of(font_width, font_height, console_width, console_height) {
            Some(l) => r == Ok::<FontLayout, FontError>(l),
            None => r == Err::<FontLayout, FontError>(FontError::WindowTooLarge),
        },
{
    let char_width = font_width / GLYPHS_PER_ROW;
    let char_height = font_height / GLYPH_ROWS;
    let sw = console_width.checked_mul(char_width);
    let sh = console_height.checked_mul(char_height);
    match (sw, sh) {
        (Some(screen_width), Some(screen_height)) => Ok(
            FontLayout {
                font_width,
                font_height,
                char_width,
                char_height,
                screen_width,
                screen_height,
            },
        ),
        _ => Err(FontError::WindowTooLarge),
    }
}

/// A decoded font sheet: its layout on the console and its RGBA pixels.
#[derive(Debug)]
pub struct FontImage {
    pub layout: FontLayout,
    /// Pixel bytes, four per pixel, row by row.
    pub pixels: Vec<u8>,
}

/// What setting up a font from `data` gives on a console of the given size:
/// the layout of the decoded image, or why there is none.
pub open spec fn font_outcome(data: Seq<u8>, console_width: u32, console_height: u32) -> Result<
    (FontLayout, Seq<u8>),
    FontError,
> {
    match rgba_decoding(data) {
        None => Err(FontError::Decode),
        Some((w, h, px)) => match layout_of(w, h, console_width, console_height) {
            Some(l) => Ok((l, px)),
            None => Err(FontError::WindowTooLarge),
        },
    }
}

/// Decodes the font image in `image_data` and derives its layout on the
/// console that `options` describes. Bytes that are no image of a format the
/// decoder is built with give an
/// error value.
pub fn load_font_bytes(options: &AppOptions, image_data: &[u8]) -> (r: Result<FontImage, FontError>)
    ensures
        match font_outcome(image_data@, options.console_width, options.console_height) {
            Ok((l, px)) => match r {
                Ok(f) => {
                    &&& f.layout == l
                    &&& f.pixels@ == px
                    &&& f.pixels@.len() == 4 * l.font_width * l.font_height
                },
                Err(_) => false,
            },
            Err(e) => r == Err::<FontImage, FontError>(e),
        },
{
    match decode_rgba(image_data) {
        None => Err(FontError::Decode),
        Some((w, h, pixels)) => match font_layout(
            w,
            h,
            options.console_width,
            options.console_height,
        ) {
            Ok(layout) => Ok(FontImage { layout, pixels }),
            Err(e) => Err(e),
        },
    }
}

} // verus!
