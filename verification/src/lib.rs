mod codec;
mod pixel;

pub use codec::CodecError;
pub use codec::EncodeFormat;
pub use codec::decoded_image;
pub use codec::encoded_image;
pub use pixel::Color;
pub use pixel::Image;
pub use pixel::lemma_pixels_determine_bytes;
pub use pixel::lemma_uniform_fill_unique;
