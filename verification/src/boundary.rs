//! The two entry points: decode and free.

use vstd::prelude::*;
use crate::barrier::is_decoded;
use crate::barrier::is_failure;
use crate::barrier::DecodeAction;
use crate::barrier::Decoding;
use crate::barrier::Response;
use crate::barrier::Stage;
use crate::error::DecodeError;
use crate::image::RawImage;
use crate::pixels::PixelData;
use crate::source::SourceImage;
use crate::source::SourceMetadata;

verus! {

/// Whether a caller gave nothing to decode: no buffer, or an empty one.
pub open spec fn is_empty_input(buffer: Option<&[u8]>) -> bool {
    match buffer {
        Some(bytes) => bytes@.len() == 0,
        None => true,
    }
}

/// Begins a decode call on `buffer`.
///
/// Without a buffer, or with an empty one, the call ends at once with
/// `EmptyInput` and nothing is asked of the decoder. Otherwise the first
/// thing to do is to look up a decoder; `Decoding::advance` takes it from
/// there.
pub fn decode_buffer(buffer: Option<&[u8]>, error_requested: bool) -> (step: (
    Decoding,
    DecodeAction,
))
    ensures
        step.0.error_requested == error_requested,
        is_empty_input(buffer) ==> {
            &&& step.0.stage == Stage::Finished
            &&& step.1 matches DecodeAction::Return(response)
            &&& is_failure(response, DecodeError::EmptyInput, error_requested)
        },
        !is_empty_input(buffer) ==> {
            &&& step.0.stage == Stage::FindingDecoder
            &&& step.1 == DecodeAction::FindDecoder
        },
{
    let empty = match buffer {
        Some(bytes) => bytes.len() == 0,
        None => true,
    };
    if empty {
        Decoding::fail(DecodeError::EmptyInput, error_requested)
    } else {
        (Decoding { stage: Stage::FindingDecoder, error_requested }, DecodeAction::FindDecoder)
    }
}

/// Takes a decoded image back and gives its pixel buffer to the caller, to
/// be dropped. Nothing is done for no image.
pub fn free_image(image: Option<RawImage>) -> (released: Option<PixelData>)
    ensures
        match image {
            Some(record) => released == Some(record.data),
            None => released is None,
        },
{
    match image {
        Some(record) => Some(record.data),
        None => None,
    }
}

/// The image that a call answers with owns the very buffer the decoder
/// gave, under that buffer's tag and count: what `free_image` gives back for
/// it is what the decoder handed over, no more and no less.
pub proof fn decoded_image_owns_the_decoders_buffer(
    response: Response,
    source: SourceImage,
    fetched: Option<SourceMetadata>,
    error_requested: bool,
)
    requires
        is_decoded(response, source, fetched, error_requested),
        response.image is Some,
    ensures
        response.image->Some_0.data == source.data,
        response.image->Some_0.data_type == source.data.tag(),
        response.image->Some_0.data_len == source.data.count(),
{
}

} // verus!
