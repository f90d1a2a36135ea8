//! A marshalling boundary between a raw-image decoder and callers that only
//! understand a fixed, flat record: fixed-width text, a flat decoded-image
//! record, tagged pixel storage, and the decisions of one decode call.
//!
//! The decoder itself is not part of this crate. A caller asks
//! [`decode_buffer`] what to do first, performs each [`DecodeAction`] against
//! the decoder, and hands what the decoder did to [`Decoding::advance`] until
//! the action is to return.

pub mod barrier;
pub mod boundary;
pub mod builder;
pub mod error;
pub mod image;
pub mod pixels;
pub mod source;
pub mod text;

pub use barrier::DecodeAction;
pub use barrier::DecoderEvent;
pub use barrier::Decoding;
pub use barrier::ErrorSlot;
pub use barrier::Response;
pub use barrier::Stage;
pub use boundary::decode_buffer;
pub use boundary::free_image;
pub use error::DecodeError;
pub use image::Exif;
pub use image::Metadata;
pub use image::RawImage;
pub use pixels::DataType;
pub use pixels::PixelData;
