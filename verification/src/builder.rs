//! Building the flat record from what the decoder hands over.

use vstd::prelude::*;
use vstd::string::*;
use crate::error::DecodeError;
use crate::image::Exif;
use crate::image::Metadata;
use crate::image::RawImage;
use crate::pixels::transfer;
use crate::source::find_reference_matrix;
use crate::source::reference_matrix;
use crate::source::Camera;
use crate::source::Rational;
use crate::source::SRational;
use crate::source::SourceExif;
use crate::source::SourceImage;
use crate::source::SourceMetadata;
use crate::source::MATRIX_ENTRIES;
use crate::text::text_field;
use crate::text::text_field_of;
use crate::text::zero_text;

verus! {

/// Numerator and denominator of `value`, or two zeros where there is none.
pub open spec fn flat_rational(value: Option<Rational>) -> Seq<u32> {
    match value {
        Some(r) => seq![r.n, r.d],
        None => seq![0u32, 0u32],
    }
}

/// Numerator and denominator of `value`, or two zeros where there is none.
pub open spec fn flat_srational(value: Option<SRational>) -> Seq<i32> {
    match value {
        Some(r) => seq![r.n, r.d],
        None => seq![0i32, 0i32],
    }
}

/// The field that holds `value`, or the zero field where there is none.
pub open spec fn flat_text(value: Option<String>) -> Seq<u8> {
    match value {
        Some(s) => text_field(s@),
        None => zero_text(),
    }
}

/// `value`, or zero where there is none.
pub open spec fn flat_number(value: Option<u16>) -> u16 {
    match value {
        Some(v) => v,
        None => 0,
    }
}

/// Whether `exif` shows each field of `source` that is present, and zero for
/// each that is absent.
pub open spec fn is_flat_exif(exif: Exif, source: SourceExif) -> bool {
    &&& exif.orientation == flat_number(source.orientation)
    &&& exif.exposure_time@ == flat_rational(source.exposure_time)
    &&& exif.fnumber@ == flat_rational(source.fnumber)
    &&& exif.iso_speed_ratings == flat_number(source.iso_speed_ratings)
    &&& exif.date_time_original@ == flat_text(source.date_time_original)
    &&& exif.brightness_value@ == flat_srational(source.brightness_value)
    &&& exif.exposure_bias@ == flat_srational(source.exposure_bias)
    &&& exif.focal_length@ == flat_rational(source.focal_length)
    &&& exif.lens_make@ == flat_text(source.lens_make)
    &&& exif.lens_model@ == flat_text(source.lens_model)
}

/// Whether `record` is the metadata record for `camera` and for what the
/// metadata fetch gave: all zero where it gave nothing.
pub open spec fn is_flat_metadata(
    record: Metadata,
    camera: Camera,
    fetched: Option<SourceMetadata>,
) -> bool {
    match fetched {
        Some(metadata) => {
            &&& record.make@ == text_field(camera.make@)
            &&& record.model@ == text_field(camera.model@)
            &&& record.clean_make@ == text_field(camera.clean_make@)
            &&& record.clean_model@ == text_field(camera.clean_model@)
            &&& is_flat_exif(record.exif, metadata.exif)
        },
        None => record.is_zero(),
    }
}

/// The colour matrix a record shows for `found`: its first nine entries, or
/// nine zeros where there is none.
pub open spec fn flat_matrix(found: Option<Seq<u32>>) -> Seq<u32> {
    match found {
        Some(coefficients) => coefficients.take(MATRIX_ENTRIES as int),
        None => Seq::new(MATRIX_ENTRIES as nat, |i: int| 0u32),
    }
}

/// Whether a record can show the colour matrix `found`: there is none, or it
/// has all its entries.
pub open spec fn matrix_is_whole(found: Option<Seq<u32>>) -> bool {
    found matches Some(coefficients) ==> coefficients.len() >= MATRIX_ENTRIES
}

/// Whether `image` is the flat record of `source` and of what the metadata
/// fetch gave.
pub open spec fn is_flat_image(
    image: RawImage,
    source: SourceImage,
    fetched: Option<SourceMetadata>,
) -> bool {
    &&& image.width == source.width as u32
    &&& image.height == source.height as u32
    &&& image.cpp == source.cpp as u32
    &&& image.bps == source.bps as u32
    &&& image.cfa@ == text_field(source.camera.cfa_name@)
    &&& image.black_levels == source.black_levels
    &&& image.white_levels == source.white_levels
    &&& image.wb_coeffs == source.wb_coeffs
    &&& image.color_matrix@ == flat_matrix(reference_matrix(source.color_matrices@))
    &&& is_flat_metadata(image.metadata, source.camera, fetched)
    &&& image.data_type == source.data.tag()
    &&& image.data == source.data
    &&& image.data_len == source.data.count()
}

/// Whether `built` is what building the record of `source` gives: the flat
/// record where the colour matrix for the reference illuminant is whole or
/// missing, an internal fault where it lacks entries.
pub open spec fn is_build_of(
    built: Result<RawImage, DecodeError>,
    source: SourceImage,
    fetched: Option<SourceMetadata>,
) -> bool {
    match built {
        Ok(image) => matrix_is_whole(reference_matrix(source.color_matrices@)) && is_flat_image(
            image,
            source,
            fetched,
        ),
        Err(error) => !matrix_is_whole(reference_matrix(source.color_matrices@)) && error
            == DecodeError::InternalFault,
    }
}

fn rational_pair(value: &Option<Rational>) -> (pair: [u32; 2])
    ensures
        pair@ == flat_rational(*value),
{
    let pair = match value {
        Some(r) => [r.n, r.d],
        None => [0u32, 0u32],
    };
    assert(pair@ =~= flat_rational(*value));
    pair
}

fn srational_pair(value: &Option<SRational>) -> (pair: [i32; 2])
    ensures
        pair@ == flat_srational(*value),
{
    let pair = match value {
        Some(r) => [r.n, r.d],
        None => [0i32, 0i32],
    };
    assert(pair@ =~= flat_srational(*value));
    pair
}

fn optional_text_field(value: &Option<String>) -> (field: [u8; 32])
    ensures
        field@ == flat_text(*value),
{
    match value {
        Some(s) => text_field_of(s.as_str()),
        None => {
            let field = [0u8; 32];
            assert(field@ =~= zero_text());
            field
        },
    }
}

fn number_or_zero(value: &Option<u16>) -> (number: u16)
    ensures
        number == flat_number(*value),
{
    match value {
        Some(v) => *v,
        None => 0,
    }
}

/// The flat photographic metadata of `source`: each field that is present,
/// zero for each that is absent.
pub fn build_exif(source: &SourceExif) -> (exif: Exif)
    ensures
        is_flat_exif(exif, *source),
{
    Exif {
        orientation: number_or_zero(&source.orientation),
        exposure_time: rational_pair(&source.exposure_time),
        fnumber: rational_pair(&source.fnumber),
        iso_speed_ratings: number_or_zero(&source.iso_speed_ratings),
        date_time_original: optional_text_field(&source.date_time_original),
        brightness_value: srational_pair(&source.brightness_value),
        exposure_bias: srational_pair(&source.exposure_bias),
        focal_length: rational_pair(&source.focal_length),
        lens_make: optional_text_field(&source.lens_make),
        lens_model: optional_text_field(&source.lens_model),
    }
}

/// The metadata record for `camera` and for what the metadata fetch gave.
/// Where the fetch gave nothing the whole record is zero.
pub fn build_metadata(camera: &Camera, fetched: &Option<SourceMetadata>) -> (record: Metadata)
    ensures
        is_flat_metadata(record, *camera, *fetched),
{
    match fetched {
        Some(metadata) => Metadata {
            make: text_field_of(camera.make.as_str()),
            model: text_field_of(camera.model.as_str()),
            clean_make: text_field_of(camera.clean_make.as_str()),
            clean_model: text_field_of(camera.clean_model.as_str()),
            exif: build_exif(&metadata.exif),
        },
        None => Metadata::zeroed(),
    }
}

/// The colour matrix a record shows for the matrix `found`.
fn build_color_matrix(found: Option<&Vec<u32>>) -> (matrix: [u32; 9])
    requires
        found matches Some(coefficients) ==> coefficients@.len() >= MATRIX_ENTRIES,
    ensures
        matrix@ == flat_matrix(
            match found {
                Some(coefficients) => Some(coefficients@),
                None => None,
            },
        ),
{
    let mut matrix = [0u32; 9];
    match found {
        Some(coefficients) => {
            let mut i: usize = 0;
            while i < MATRIX_ENTRIES
                invariant
                    i <= MATRIX_ENTRIES,
                    coefficients@.len() >= MATRIX_ENTRIES,
                    forall|k: int| 0 <= k < i ==> matrix@[k] == coefficients@[k],
                decreases MATRIX_ENTRIES - i,
            {
                matrix[i] = coefficients[i];
                i += 1;
            }
            assert(matrix@ =~= coefficients@.take(MATRIX_ENTRIES as int));
        },
        None => {
            assert(matrix@ =~= Seq::new(MATRIX_ENTRIES as nat, |i: int| 0u32));
        },
    }
    matrix
}

/// Builds the flat record of `source` and of what the metadata fetch gave.
///
/// A missing metadata fetch never fails the record: its metadata is then all
/// zero. A colour matrix for the reference illuminant that lacks entries is a
/// fault of the decoder, and no record is built from it.
pub fn build_image(source: SourceImage, fetched: Option<SourceMetadata>) -> (built: Result<
    RawImage,
    DecodeError,
>)
    ensures
        is_build_of(built, source, fetched),
        built is Ok <==> matrix_is_whole(reference_matrix(source.color_matrices@)),
        built matches Ok(image) ==> image.descriptor_matches(),
        built matches Ok(image) ==> (reference_matrix(source.color_matrices@) is None
            ==> forall|i: int| 0 <= i < MATRIX_ENTRIES ==> image.color_matrix@[i] == 0),
{
    let color_matrix = match find_reference_matrix(&source.color_matrices) {
        Some(at) => {
            let coefficients = &source.color_matrices[at].coefficients;
            if coefficients.len() < MATRIX_ENTRIES {
                return Err(DecodeError::InternalFault);
            }
            build_color_matrix(Some(coefficients))
        },
        None => build_color_matrix(None),
    };
    let metadata = build_metadata(&source.camera, &fetched);
    let cfa = text_field_of(source.camera.cfa_name.as_str());
    let width: u32 = #[verifier::truncate] (source.width as u32);
    let height: u32 = #[verifier::truncate] (source.height as u32);
    let cpp: u32 = #[verifier::truncate] (source.cpp as u32);
    let bps: u32 = #[verifier::truncate] (source.bps as u32);
    let (data_type, data, data_len) = transfer(source.data);
    Ok(
        RawImage {
            width,
            height,
            cpp,
            bps,
            cfa,
            black_levels: source.black_levels,
            white_levels: source.white_levels,
            wb_coeffs: source.wb_coeffs,
            color_matrix,
            metadata,
            data_type,
            data,
            data_len,
        },
    )
}

/// A flat record shows the tag and the count of the buffer it owns. Built
/// from a source whose dimensions fit the record's fields and whose buffer
/// holds one sample for each component of each pixel, it shows a count that
/// is width times height times components per pixel.
pub proof fn flat_image_covers_all_pixels(
    image: RawImage,
    source: SourceImage,
    fetched: Option<SourceMetadata>,
)
    requires
        is_flat_image(image, source, fetched),
        source.width <= u32::MAX,
        source.height <= u32::MAX,
        source.cpp <= u32::MAX,
        source.data.count() == source.width * source.height * source.cpp,
    ensures
        image.descriptor_matches(),
        image.data_type == source.data.tag(),
        image.covers_all_pixels(),
{
}

/// The flat record of a source and of what its metadata fetch gave is one
/// record and no other.
pub proof fn flat_image_is_unique(
    first: RawImage,
    second: RawImage,
    source: SourceImage,
    fetched: Option<SourceMetadata>,
)
    requires
        is_flat_image(first, source, fetched),
        is_flat_image(second, source, fetched),
    ensures
        first == second,
{
    assert(first.cfa =~= second.cfa);
    assert(first.color_matrix =~= second.color_matrix);
    assert(first.metadata.make =~= second.metadata.make);
    assert(first.metadata.model =~= second.metadata.model);
    assert(first.metadata.clean_make =~= second.metadata.clean_make);
    assert(first.metadata.clean_model =~= second.metadata.clean_model);
    assert(first.metadata.exif.exposure_time =~= second.metadata.exif.exposure_time);
    assert(first.metadata.exif.fnumber =~= second.metadata.exif.fnumber);
    assert(first.metadata.exif.date_time_original =~= second.metadata.exif.date_time_original);
    assert(first.metadata.exif.brightness_value =~= second.metadata.exif.brightness_value);
    assert(first.metadata.exif.exposure_bias =~= second.metadata.exif.exposure_bias);
    assert(first.metadata.exif.focal_length =~= second.metadata.exif.focal_length);
    assert(first.metadata.exif.lens_make =~= second.metadata.exif.lens_make);
    assert(first.metadata.exif.lens_model =~= second.metadata.exif.lens_model);
}

/// What the metadata fetch gave shows in the metadata record alone: two
/// records of one source agree in every other field, whatever was fetched.
pub proof fn metadata_leaves_the_image_alone(
    first: RawImage,
    second: RawImage,
    source: SourceImage,
    fetched_first: Option<SourceMetadata>,
    fetched_second: Option<SourceMetadata>,
)
    requires
        is_flat_image(first, source, fetched_first),
        is_flat_image(second, source, fetched_second),
    ensures
        first.width == second.width,
        first.height == second.height,
        first.cpp == second.cpp,
        first.bps == second.bps,
        first.cfa == second.cfa,
        first.black_levels == second.black_levels,
        first.white_levels == second.white_levels,
        first.wb_coeffs == second.wb_coeffs,
        first.color_matrix == second.color_matrix,
        first.data_type == second.data_type,
        first.data == second.data,
        first.data_len == second.data_len,
{
    assert(first.cfa =~= second.cfa);
    assert(first.color_matrix =~= second.color_matrix);
}

/// A colour matrix that a record shows is never filled in part: it is the
/// first nine entries of the source's matrix for the reference illuminant, or
/// nine zeros.
pub proof fn matrix_is_whole_or_zero(
    image: RawImage,
    source: SourceImage,
    fetched: Option<SourceMetadata>,
)
    requires
        is_build_of(Ok(image), source, fetched),
    ensures
        image.color_matrix@.len() == MATRIX_ENTRIES,
        match reference_matrix(source.color_matrices@) {
            Some(coefficients) => forall|i: int|
                0 <= i < MATRIX_ENTRIES ==> image.color_matrix@[i] == coefficients[i],
            None => forall|i: int| 0 <= i < MATRIX_ENTRIES ==> image.color_matrix@[i] == 0,
        },
{
}

} // verus!
