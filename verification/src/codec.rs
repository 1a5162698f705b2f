use vstd::prelude::*;

use crate::pixel::Image;

verus! {

/// A file format that the encoder can be asked to produce.
#[derive(Clone, Copy, Debug, PartialEq, Eq, Structural)]
pub enum EncodeFormat {
    Png,
    Jpeg,
    Bmp,
    Ico,
    Pnm,
    Tiff,
    Exr,
}

/// Why a codec operation failed.
#[derive(Clone, Copy, Debug, PartialEq, Eq, Structural)]
pub enum CodecError {
    /// The input bytes are not a recognized or parseable image format.
    Decode,
    /// The requested format is unsupported or refuses the pixel data.
    Encode,
}

#[verifier::external_type_specification]
#[verifier::external_body]
pub struct ExImageError(image::ImageError);

/// The decoded form of an encoded image: its RGBA8 bytes, width and height —
/// or `None` where the bytes are not a parseable image.
pub uninterp spec fn decoded_image(bytes: Seq<u8>) -> Option<(Seq<u8>, u32, u32)>;

/// Relies on image::load_from_memory and image::DynamicImage::to_rgba8: what
/// they decode is a function of the input bytes alone, and the RGBA8 buffer
/// they produce holds 4 bytes per pixel of the reported dimensions.
#[verifier::external_body]
fn decode_rgba(bytes: &[u8]) -> (r: Result<(Vec<u8>, u32, u32), image::ImageError>)
    ensures
        match r {
            Ok(d) => decoded_image(bytes@) == Some((d.0@, d.1, d.2)) && d.0@.len() == d.1 * d.2
                * 4,
            Err(_) => decoded_image(bytes@) is None,
        },
{
    match image::load_from_memory(bytes) {
        Ok(img) => {
            let (w, h) = (img.width(), img.height());
            Ok((img.to_rgba8().into_raw(), w, h))
        }
        Err(e) => Err(e),
    }
}

/// The encoded form of an RGBA8 pixel buffer in the given format — or `None`
/// where the encoder rejects the request.
pub uninterp spec fn encoded_image(
    pixels: Seq<u8>,
    width: u32,
    height: u32,
    format: EncodeFormat,
) -> Option<Seq<u8>>;

/// Relies on image::write_buffer_with_format: what it writes is a function of
/// the pixel bytes, the dimensions and the format alone. It panics when the
/// buffer length does not match the dimensions, so that input is kept out.
#[verifier::external_body]
fn encode_rgba(pixels: &Vec<u8>, width: u32, height: u32, format: EncodeFormat) -> (r: Result<
    Vec<u8>,
    image::ImageError,
>)
    requires
        pixels@.len() == width * height * 4,
    ensures
        match r {
            Ok(out) => encoded_image(pixels@, width, height, format) == Some(out@),
            Err(_) => encoded_image(pixels@, width, height, format) is None,
        },
{
    let f = match format {
        EncodeFormat::Png => image::ImageFormat::Png,
        EncodeFormat::Jpeg => image::ImageFormat::Jpeg,
        EncodeFormat::Bmp => image::ImageFormat::Bmp,
        EncodeFormat::Ico => image::ImageFormat::Ico,
        EncodeFormat::Pnm => image::ImageFormat::Pnm,
        EncodeFormat::Tiff => image::ImageFormat::Tiff,
        EncodeFormat::Exr => image::ImageFormat::OpenExr,
    };
    let mut out = std::io::Cursor::new(Vec::new());
    image::write_buffer_with_format(
        &mut out, pixels, width, height, image::ExtendedColorType::Rgba8, f)?;
    Ok(out.into_inner())
}

impl Image {
    /// Decode an encoded image held in memory — the format is guessed from
    /// the bytes — into an RGBA8 pixel buffer.
    pub fn load_from_memory(bytes: &[u8]) -> (r: Result<Image, CodecError>)
        ensures
            match r {
                Ok(img) => {
                    &&& img.wf()
                    &&& decoded_image(bytes@) == Some(
                        (img.bytes(), img.spec_width(), img.spec_height()),
                    )
                },
                Err(e) => e == CodecError::Decode && decoded_image(bytes@) is None,
            },
    {
        match decode_rgba(bytes) {
            Ok(d) => {
                let (pix, w, h) = d;
                Ok(Image::from_bytes(pix, w, h))
            },
            Err(_) => Err(CodecError::Decode),
        }
    }

    /// Encode the pixel buffer into the given file format, in memory.
    pub fn encode(&self, format: EncodeFormat) -> (r: Result<Vec<u8>, CodecError>)
        requires
            self.wf(),
        ensures
            match r {
                Ok(out) => encoded_image(self.bytes(), self.spec_width(), self.spec_height(), format)
                    == Some(out@),
                Err(e) => e == CodecError::Encode && encoded_image(
                    self.bytes(),
                    self.spec_width(),
                    self.spec_height(),
                    format,
                ) is None,
            },
    {
        let w = self.width();
        let h = self.height();
        match encode_rgba(self.as_bytes(), w, h, format) {
            Ok(out) => Ok(out),
            Err(_) => Err(CodecError::Encode),
        }
    }
}

} // verus!
