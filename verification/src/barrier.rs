//! The decisions of one decode call: what to ask of the decoder next, and
//! what to answer once it has given an image, refused, or broken off.

use vstd::prelude::*;
use vstd::string::*;
use crate::builder::build_image;
use crate::builder::is_flat_image;
use crate::builder::matrix_is_whole;
use crate::error::DecodeError;
use crate::image::RawImage;
use crate::source::reference_matrix;
use crate::source::SourceImage;
use crate::source::SourceMetadata;
use crate::source::MATRIX_ENTRIES;
use crate::text::c_string;
use crate::text::string_to_c_char;

verus! {

/// What a decode call does to the place the caller gave for an error text.
#[derive(PartialEq, Eq, Debug)]
pub enum ErrorSlot {
    /// The caller gave no place: nothing is written.
    Untouched,
    /// The call gave an image: the place is set to null.
    Cleared,
    /// The call gave no image: the place gets this C string, terminator
    /// included, which the caller then owns.
    Message(Vec<u8>),
}

/// What a decode call answers.
#[derive(PartialEq, Eq, Debug)]
pub struct Response {
    /// The decoded image, or nothing where the call failed.
    pub image: Option<RawImage>,
    pub error: ErrorSlot,
}

/// Whether `slot` is what a call that failed with `error` does to the error
/// place: the diagnostic text where one was asked for, nothing else.
pub open spec fn reports(slot: ErrorSlot, error: DecodeError, error_requested: bool) -> bool {
    if error_requested {
        slot matches ErrorSlot::Message(text) && text@ == c_string(error.message_text())
    } else {
        slot is Untouched
    }
}

/// Whether `response` is the answer of a call that failed with `error`: no
/// image, and the diagnostic text where one was asked for.
pub open spec fn is_failure(response: Response, error: DecodeError, error_requested: bool) -> bool {
    response.image is None && reports(response.error, error, error_requested)
}

/// Whether `response` is the answer of a call that gave `image`: the image,
/// and an error place set to null where one was given.
pub open spec fn is_success(response: Response, image: RawImage, error_requested: bool) -> bool {
    &&& response.image == Some(image)
    &&& response.error == if error_requested {
        ErrorSlot::Cleared
    } else {
        ErrorSlot::Untouched
    }
}

/// Whether `response` is the answer for `outcome`.
pub open spec fn answers(
    response: Response,
    outcome: Result<RawImage, DecodeError>,
    error_requested: bool,
) -> bool {
    match outcome {
        Ok(image) => is_success(response, image, error_requested),
        Err(error) => is_failure(response, error, error_requested),
    }
}

/// Whether `response` is the answer of a call whose decoder gave `source`
/// and whose metadata fetch gave `fetched`: the flat record of both, or an
/// internal fault where the source's colour matrix lacks entries.
pub open spec fn is_decoded(
    response: Response,
    source: SourceImage,
    fetched: Option<SourceMetadata>,
    error_requested: bool,
) -> bool {
    if matrix_is_whole(reference_matrix(source.color_matrices@)) {
        &&& response.image matches Some(image)
        &&& is_flat_image(image, source, fetched)
        &&& is_success(response, image, error_requested)
    } else {
        is_failure(response, DecodeError::InternalFault, error_requested)
    }
}

/// Turns the outcome of a decode into the answer of the call. An image is
/// handed on whole; an error leaves no image and, where the caller asked for
/// one, its diagnostic text.
pub fn respond(outcome: Result<RawImage, DecodeError>, error_requested: bool) -> (response:
    Response)
    ensures
        answers(response, outcome, error_requested),
{
    match outcome {
        Ok(image) => Response {
            image: Some(image),
            error: if error_requested {
                ErrorSlot::Cleared
            } else {
                ErrorSlot::Untouched
            },
        },
        Err(error) => Response {
            image: None,
            error: if error_requested {
                let message = error.message();
                ErrorSlot::Message(string_to_c_char(message.as_str()))
            } else {
                ErrorSlot::Untouched
            },
        },
    }
}

/// How far a decode call has come.
#[derive(PartialEq, Eq, Debug)]
pub enum Stage {
    /// A decoder for the buffer is being looked up.
    FindingDecoder,
    /// The decoder found is decoding the image.
    DecodingImage,
    /// The image is there; its metadata is being fetched.
    FetchingMetadata(SourceImage),
    /// The call has answered.
    Finished,
}

/// The state of one decode call.
#[derive(PartialEq, Eq, Debug)]
pub struct Decoding {
    pub stage: Stage,
    /// Whether the caller gave a place for an error text.
    pub error_requested: bool,
}

/// What the decoder did when asked.
#[derive(PartialEq, Eq, Debug)]
pub enum DecoderEvent {
    /// A decoder knows the format.
    DecoderFound,
    /// No decoder knows the format; the text says why.
    DecoderMissing(String),
    /// The decoder gave an image.
    ImageDecoded(SourceImage),
    /// The decoder gave no image; the text says why.
    ImageFailed(String),
    /// The metadata fetch gave metadata.
    MetadataFetched(SourceMetadata),
    /// The metadata fetch failed.
    MetadataFailed,
    /// The decoder broke off in a way it does not report.
    Fault,
}

/// What to do next in a decode call.
#[derive(PartialEq, Eq, Debug)]
pub enum DecodeAction {
    /// Ask for a decoder for the buffer.
    FindDecoder,
    /// Ask the decoder for the image.
    DecodeImage,
    /// Ask the decoder for the metadata.
    FetchMetadata,
    /// Answer the caller.
    Return(Response),
}

/// Whether `next` and `action` follow from `state` and `event`.
///
/// An explicit failure of the decoder lookup or of the decode ends the call
/// with that failure. A fault ends it with an internal fault at any stage,
/// and so does an event that does not belong to the stage. A failed metadata
/// fetch ends it like a successful one, with zero metadata.
pub open spec fn is_step(
    state: Decoding,
    event: DecoderEvent,
    next: Decoding,
    action: DecodeAction,
) -> bool {
    &&& next.error_requested == state.error_requested
    &&& match (state.stage, event) {
        (Stage::FindingDecoder, DecoderEvent::DecoderFound) => {
            &&& next.stage == Stage::DecodingImage
            &&& action == DecodeAction::DecodeImage
        },
        (Stage::FindingDecoder, DecoderEvent::DecoderMissing(detail)) => {
            &&& next.stage == Stage::Finished
            &&& action matches DecodeAction::Return(response)
            &&& is_failure(response, DecodeError::NoDecoderFound(detail), state.error_requested)
        },
        (Stage::DecodingImage, DecoderEvent::ImageDecoded(source)) => {
            &&& next.stage == Stage::FetchingMetadata(source)
            &&& action == DecodeAction::FetchMetadata
        },
        (Stage::DecodingImage, DecoderEvent::ImageFailed(detail)) => {
            &&& next.stage == Stage::Finished
            &&& action matches DecodeAction::Return(response)
            &&& is_failure(response, DecodeError::DecodeFailed(detail), state.error_requested)
        },
        (Stage::FetchingMetadata(source), DecoderEvent::MetadataFetched(metadata)) => {
            &&& next.stage == Stage::Finished
            &&& action matches DecodeAction::Return(response)
            &&& is_decoded(response, source, Some(metadata), state.error_requested)
        },
        (Stage::FetchingMetadata(source), DecoderEvent::MetadataFailed) => {
            &&& next.stage == Stage::Finished
            &&& action matches DecodeAction::Return(response)
            &&& is_decoded(response, source, None, state.error_requested)
        },
        _ => {
            &&& next.stage == Stage::Finished
            &&& action matches DecodeAction::Return(response)
            &&& is_failure(response, DecodeError::InternalFault, state.error_requested)
        },
    }
}

impl Decoding {
    /// The end of a call that failed with `error`.
    pub fn fail(error: DecodeError, error_requested: bool) -> (step: (Decoding, DecodeAction))
        ensures
            step.0.stage == Stage::Finished,
            step.0.error_requested == error_requested,
            step.1 matches DecodeAction::Return(response) && is_failure(
                response,
                error,
                error_requested,
            ),
    {
        (
            Decoding { stage: Stage::Finished, error_requested },
            DecodeAction::Return(respond(Err(error), error_requested)),
        )
    }

    /// The end of a call whose decoder gave `source` and whose metadata
    /// fetch gave `fetched`.
    fn finish(source: SourceImage, fetched: Option<SourceMetadata>, error_requested: bool) -> (step:
        (Decoding, DecodeAction))
        ensures
            step.0.stage == Stage::Finished,
            step.0.error_requested == error_requested,
            step.1 matches DecodeAction::Return(response) && is_decoded(
                response,
                source,
                fetched,
                error_requested,
            ),
    {
        let built = build_image(source, fetched);
        (
            Decoding { stage: Stage::Finished, error_requested },
            DecodeAction::Return(respond(built, error_requested)),
        )
    }

    /// Takes what the decoder did and says what to do next.
    pub fn advance(self, event: DecoderEvent) -> (step: (Decoding, DecodeAction))
        ensures
            is_step(self, event, step.0, step.1),
    {
        let error_requested = self.error_requested;
        match (self.stage, event) {
            (Stage::FindingDecoder, DecoderEvent::DecoderFound) => (
                Decoding { stage: Stage::DecodingImage, error_requested },
                DecodeAction::DecodeImage,
            ),
            (Stage::FindingDecoder, DecoderEvent::DecoderMissing(detail)) => Decoding::fail(
                DecodeError::NoDecoderFound(detail),
                error_requested,
            ),
            (Stage::DecodingImage, DecoderEvent::ImageDecoded(source)) => (
                Decoding { stage: Stage::FetchingMetadata(source), error_requested },
                DecodeAction::FetchMetadata,
            ),
            (Stage::DecodingImage, DecoderEvent::ImageFailed(detail)) => Decoding::fail(
                DecodeError::DecodeFailed(detail),
                error_requested,
            ),
            (Stage::FetchingMetadata(source), DecoderEvent::MetadataFetched(metadata)) => {
                Decoding::finish(source, Some(metadata), error_requested)
            },
            (Stage::FetchingMetadata(source), DecoderEvent::MetadataFailed) => {
                Decoding::finish(source, None, error_requested)
            },
            _ => Decoding::fail(
                DecodeError::InternalFault,
                error_requested,
            ),
        }
    }
}

/// A fault ends a call at any stage: the answer holds no image, and the
/// diagnostic text of an internal fault where one was asked for.
pub proof fn fault_ends_in_internal_fault(state: Decoding, next: Decoding, action: DecodeAction)
    requires
        is_step(state, DecoderEvent::Fault, next, action),
    ensures
        next.stage == Stage::Finished,
        action matches DecodeAction::Return(response) && is_failure(
            response,
            DecodeError::InternalFault,
            state.error_requested,
        ),
{
}

/// Whatever the decoder did, a call answers with an image only when its
/// metadata fetch has ended, and the image is then the flat record of what
/// the decoder gave; every other answer holds no image. An answer that holds
/// no image holds a diagnostic text where one was asked for.
pub proof fn answer_is_whole_or_none(
    state: Decoding,
    event: DecoderEvent,
    next: Decoding,
    action: DecodeAction,
)
    requires
        is_step(state, event, next, action),
    ensures
        action matches DecodeAction::Return(response) ==> {
            &&& next.stage == Stage::Finished
            &&& response.image matches Some(image) ==> {
                &&& state.stage matches Stage::FetchingMetadata(source)
                &&& response.error !is Message
                &&& image.descriptor_matches()
                &&& event matches DecoderEvent::MetadataFetched(metadata) ==> is_flat_image(
                    image,
                    source,
                    Some(metadata),
                )
                &&& event is MetadataFailed ==> is_flat_image(image, source, None)
                &&& event is MetadataFailed ==> image.metadata.is_zero()
            }
            &&& response.image is None ==> (state.error_requested <==> response.error is Message)
        },
{
}

} // verus!
