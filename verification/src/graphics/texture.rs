use vstd::prelude::*;
use crate::graphics::gl::{self, GlCall, PixelSource};

verus! {

#[verifier::external_type_specification]
#[verifier::external_body]
pub struct ExImageError(image::ImageError);

/// What decoding `bytes` as an image file gives, converted to 8-bit RGBA:
/// width, height and pixel bytes, or `None` when decoding fails.
pub uninterp spec fn decoded_rgba8(bytes: Seq<u8>) -> Option<(u32, u32, Seq<u8>)>;

/// What decoding `bytes`, read from the file at `path`, gives when the
/// format is taken from the path's extension, converted to 8-bit RGBA:
/// width, height and pixel bytes, or `None` when decoding fails (also when
/// the extension names no format the decoder knows).
pub uninterp spec fn decoded_file_rgba8(path: Seq<char>, bytes: Seq<u8>) -> Option<(u32, u32, Seq<u8>)>;

/// Decodes the contents `bytes` of the image file at `path` as
/// `image::io::Reader::open(path)` followed by `decode` does: the format is
/// `image::ImageFormat::from_path(path)` when that succeeds, and none
/// otherwise (decoding then fails); the result is converted with
/// `DynamicImage::into_rgba8`. Claimed: the outcome is a function of the
/// path and the bytes alone, and a decoded image holds four bytes per
/// pixel.
#[verifier::external_body]
fn load_file_rgba8(path: &str, bytes: &[u8]) -> (res: Result<DecodedImage, image::ImageError>)
    ensures
        match res {
            Ok(img) => {
                &&& decoded_file_rgba8(path@, bytes@) == Some((img.width, img.height, img.rgba@))
                &&& img.rgba@.len() == 4 * img.width * img.height
            },
            Err(_) => decoded_file_rgba8(path@, bytes@) is None,
        },
{
    let mut reader = image::io::Reader::new(std::io::Cursor::new(bytes));
    if let Ok(format) = image::ImageFormat::from_path(path) {
        reader.set_format(format);
    }
    let rgba = reader.decode()?.into_rgba8();
    Ok(DecodedImage { width: rgba.width(), height: rgba.height(), rgba: rgba.into_raw() })
}

/// An image converted to 8-bit RGBA, row by row.
#[derive(Debug)]
pub struct DecodedImage {
    pub width: u32,
    pub height: u32,
    pub rgba: Vec<u8>,
}

/// Decodes an image held in memory with `image::load_from_memory`,
/// which guesses the format from the leading bytes, and converts the
/// result with `DynamicImage::into_rgba8`. Claimed: the outcome is a
/// function of the bytes alone, and a decoded image holds four bytes per
/// pixel.
#[verifier::external_body]
fn load_rgba8(bytes: &[u8]) -> (res: Result<DecodedImage, image::ImageError>)
    ensures
        match res {
            Ok(img) => {
                &&& decoded_rgba8(bytes@) == Some((img.width, img.height, img.rgba@))
                &&& img.rgba@.len() == 4 * img.width * img.height
            },
            Err(_) => decoded_rgba8(bytes@) is None,
        },
{
    let rgba = image::load_from_memory(bytes)?.into_rgba8();
    Ok(DecodedImage { width: rgba.width(), height: rgba.height(), rgba: rgba.into_raw() })
}

/// Why a texture could not be made.
#[derive(Debug)]
pub enum TextureError {
    /// The image file could not be decoded.
    Decode(image::ImageError),
}

/// A texture object of the driver, by name.
#[derive(Clone, Copy, Debug, PartialEq, Eq)]
pub struct Texture {
    pub gl_id: u32,
}

impl Default for Texture {
    fn default() -> (res: Self)
        ensures
            res.gl_id == 0,
    {
        Texture { gl_id: 0 }
    }
}

/// The calls that fill texture `gl_id` with an image of the given size.
pub open spec fn upload_calls(gl_id: u32, width: u32, height: u32) -> Seq<GlCall> {
    seq![
        GlCall::BindTexture { target: gl::TEXTURE_2D, texture: gl_id },
        GlCall::TexParameter { target: gl::TEXTURE_2D, param: gl::TEXTURE_MIN_FILTER, value: gl::NEAREST },
        GlCall::TexParameter { target: gl::TEXTURE_2D, param: gl::TEXTURE_MAG_FILTER, value: gl::LINEAR },
        GlCall::TexImage2D {
            target: gl::TEXTURE_2D,
            level: 0,
            internal_format: gl::RGBA8,
            width,
            height,
            border: 0,
            format: gl::RGBA,
            ty: gl::UNSIGNED_BYTE,
            pixels: PixelSource::ImageRgba8,
        },
    ]
}

impl Texture {
    /// Decodes an image held in memory, the format guessed from its leading
    /// bytes, for upload as a texture.
    pub fn decode(bytes: &[u8]) -> (res: Result<DecodedImage, TextureError>)
        ensures
            match res {
                Ok(img) => {
                    &&& decoded_rgba8(bytes@) == Some((img.width, img.height, img.rgba@))
                    &&& img.rgba@.len() == 4 * img.width * img.height
                },
                Err(_) => decoded_rgba8(bytes@) is None,
            },
    {
        match load_rgba8(bytes) {
            Ok(img) => Ok(img),
            Err(e) => Err(TextureError::Decode(e)),
        }
    }

    /// The texture named `gl_id`, with the calls that fill it with `image`:
    /// the `TexImage2D` call passes the image's RGBA bytes (`PixelSource::
    /// ImageRgba8`), which hold exactly four bytes for each of its pixels.
    pub fn from_image(gl_id: u32, image: &DecodedImage) -> (res: (Texture, Vec<GlCall>))
        requires
            image.rgba@.len() == 4 * image.width * image.height,
        ensures
            res.0.gl_id == gl_id,
            res.1@ == upload_calls(gl_id, image.width, image.height),
    {
        let mut calls: Vec<GlCall> = Vec::new();
        calls.push(GlCall::BindTexture { target: gl::TEXTURE_2D, texture: gl_id });
        calls.push(GlCall::TexParameter { target: gl::TEXTURE_2D, param: gl::TEXTURE_MIN_FILTER, value: gl::NEAREST });
        calls.push(GlCall::TexParameter { target: gl::TEXTURE_2D, param: gl::TEXTURE_MAG_FILTER, value: gl::LINEAR });
        calls.push(GlCall::TexImage2D {
            target: gl::TEXTURE_2D,
            level: 0,
            internal_format: gl::RGBA8,
            width: image.width,
            height: image.height,
            border: 0,
            format: gl::RGBA,
            ty: gl::UNSIGNED_BYTE,
            pixels: PixelSource::ImageRgba8,
        });
        assert(calls@ =~= upload_calls(gl_id, image.width, image.height));
        (Texture { gl_id }, calls)
    }

    /// Decodes the contents `bytes` of the image file at `path`, the format
    /// taken from the path's extension.
    pub fn decode_file(path: &str, bytes: &[u8]) -> (res: Result<DecodedImage, TextureError>)
        ensures
            match res {
                Ok(img) => {
                    &&& decoded_file_rgba8(path@, bytes@) == Some((img.width, img.height, img.rgba@))
                    &&& img.rgba@.len() == 4 * img.width * img.height
                },
                Err(_) => decoded_file_rgba8(path@, bytes@) is None,
            },
    {
        match load_file_rgba8(path, bytes) {
            Ok(img) => Ok(img),
            Err(e) => Err(TextureError::Decode(e)),
        }
    }

    /// Binds the texture as the current 2D texture.
    pub fn bind(&self) -> (res: GlCall)
        ensures
            res == (GlCall::BindTexture { target: gl::TEXTURE_2D, texture: self.gl_id }),
    {
        GlCall::BindTexture { target: gl::TEXTURE_2D, texture: self.gl_id }
    }
}

/// The upload binds the texture being filled as the 2D texture, sets
/// nearest-neighbour minification and linear magnification, and uploads
/// the image's RGBA bytes at the image's own width and height, as 8-bit
/// RGBA at level 0 without border.
pub proof fn lemma_upload_at_image_size(gl_id: u32, width: u32, height: u32)
    ensures
        upload_calls(gl_id, width, height).len() == 4,
        upload_calls(gl_id, width, height)[0] == (GlCall::BindTexture { target: 0xDE1, texture: gl_id }),
        upload_calls(gl_id, width, height)[1] == (GlCall::TexParameter {
            target: 0xDE1,
            param: 0x2801,
            value: 0x2600,
        }),
        upload_calls(gl_id, width, height)[2] == (GlCall::TexParameter {
            target: 0xDE1,
            param: 0x2800,
            value: 0x2601,
        }),
        upload_calls(gl_id, width, height)[3] == (GlCall::TexImage2D {
            target: 0xDE1,
            level: 0,
            internal_format: 0x8058,
            width: width,
            height: height,
            border: 0,
            format: 0x1908,
            ty: 0x1401,
            pixels: PixelSource::ImageRgba8,
        }),
{
}

} // verus!
