//! What the decoder hands over, as plain values.

use vstd::prelude::*;
use crate::pixels::PixelData;

verus! {

/// The illuminant whose colour matrix a decoded image shows: standard
/// illuminant D65, by its EXIF light source code.
pub const REFERENCE_ILLUMINANT: u16 = 21;

/// Entries of a colour matrix, row by row.
pub const MATRIX_ENTRIES: usize = 9;

/// An exact unsigned fraction.
#[derive(Clone, Copy, PartialEq, Eq, Debug)]
pub struct Rational {
    pub n: u32,
    pub d: u32,
}

/// An exact signed fraction.
#[derive(Clone, Copy, PartialEq, Eq, Debug)]
pub struct SRational {
    pub n: i32,
    pub d: i32,
}

/// Photographic metadata as the decoder has it: every field may be absent.
#[derive(PartialEq, Eq, Debug)]
pub struct SourceExif {
    pub orientation: Option<u16>,
    pub exposure_time: Option<Rational>,
    pub fnumber: Option<Rational>,
    pub iso_speed_ratings: Option<u16>,
    pub date_time_original: Option<String>,
    pub brightness_value: Option<SRational>,
    pub exposure_bias: Option<SRational>,
    pub focal_length: Option<Rational>,
    pub lens_make: Option<String>,
    pub lens_model: Option<String>,
}

/// What a metadata fetch gives.
#[derive(PartialEq, Eq, Debug)]
pub struct SourceMetadata {
    pub exif: SourceExif,
}

/// Camera identification of a decoded image.
#[derive(PartialEq, Eq, Debug)]
pub struct Camera {
    pub make: String,
    pub model: String,
    pub clean_make: String,
    pub clean_model: String,
    /// Name of the colour filter array pattern.
    pub cfa_name: String,
}

/// The colour matrix for one illuminant. Coefficients are held as the 32
/// bits of their IEEE 754 encoding.
#[derive(PartialEq, Eq, Debug)]
pub struct ColorMatrix {
    /// EXIF light source code.
    pub illuminant: u16,
    pub coefficients: Vec<u32>,
}

/// A decoded image as the decoder has it. Levels and coefficients are held
/// as the 32 bits of their IEEE 754 encoding.
#[derive(PartialEq, Eq, Debug)]
pub struct SourceImage {
    pub width: usize,
    pub height: usize,
    pub cpp: usize,
    pub bps: usize,
    pub camera: Camera,
    pub black_levels: [u32; 4],
    pub white_levels: [u32; 4],
    pub wb_coeffs: [u32; 4],
    pub color_matrices: Vec<ColorMatrix>,
    pub data: PixelData,
}

/// The coefficients of the first matrix in `matrices` that is for the
/// reference illuminant.
pub open spec fn reference_matrix(matrices: Seq<ColorMatrix>) -> Option<Seq<u32>>
    decreases matrices.len(),
{
    if matrices.len() == 0 {
        None
    } else if matrices[0].illuminant == REFERENCE_ILLUMINANT {
        Some(matrices[0].coefficients@)
    } else {
        reference_matrix(matrices.drop_first())
    }
}

/// Where in `matrices` the matrix for the reference illuminant stands.
pub fn find_reference_matrix(matrices: &Vec<ColorMatrix>) -> (found: Option<usize>)
    ensures
        match found {
            Some(at) => at < matrices@.len() && matrices@[at as int].illuminant
                == REFERENCE_ILLUMINANT && reference_matrix(matrices@) == Some(
                matrices@[at as int].coefficients@,
            ),
            None => reference_matrix(matrices@) is None,
        },
        forall|k: int|
            0 <= k < matrices@.len() && (found matches Some(at) ==> k < at)
                ==> matrices@[k].illuminant != REFERENCE_ILLUMINANT,
{
    let mut i: usize = 0;
    assert(matrices@.skip(0) =~= matrices@);
    while i < matrices.len()
        invariant
            i <= matrices@.len(),
            reference_matrix(matrices@) == reference_matrix(matrices@.skip(i as int)),
            forall|k: int| 0 <= k < i ==> matrices@[k].illuminant != REFERENCE_ILLUMINANT,
        decreases matrices@.len() - i,
    {
        if matrices[i].illuminant == REFERENCE_ILLUMINANT {
            return Some(i);
        }
        assert(matrices@.skip(i as int).drop_first() =~= matrices@.skip(i + 1));
        i += 1;
    }
    None
}

/// Whether no illuminant has two matrices in `matrices`, as in the map the
/// decoder keeps them in.
pub open spec fn has_distinct_illuminants(matrices: Seq<ColorMatrix>) -> bool {
    forall|i: int, j: int|
        0 <= i < j < matrices.len() ==> matrices[i].illuminant != matrices[j].illuminant
}

/// Where no illuminant has two matrices, a matrix for the reference
/// illuminant is the reference matrix wherever it stands.
pub proof fn reference_matrix_is_the_only_one(matrices: Seq<ColorMatrix>, at: int)
    requires
        has_distinct_illuminants(matrices),
        0 <= at < matrices.len(),
        matrices[at].illuminant == REFERENCE_ILLUMINANT,
    ensures
        reference_matrix(matrices) == Some(matrices[at].coefficients@),
    decreases matrices.len(),
{
    if at > 0 {
        assert(matrices[0].illuminant != matrices[at].illuminant);
        let rest = matrices.drop_first();
        assert(has_distinct_illuminants(rest)) by {
            assert forall|i: int, j: int| 0 <= i < j < rest.len() implies rest[i].illuminant
                != rest[j].illuminant by {
                assert(rest[i] == matrices[i + 1]);
                assert(rest[j] == matrices[j + 1]);
            }
        }
        assert(rest[at - 1] == matrices[at]);
        reference_matrix_is_the_only_one(rest, at - 1);
    }
}

/// There is a reference matrix exactly where some matrix is for the
/// reference illuminant.
pub proof fn reference_matrix_is_found_where_one_stands(matrices: Seq<ColorMatrix>)
    ensures
        reference_matrix(matrices) is Some <==> exists|at: int|
            0 <= at < matrices.len() && #[trigger] matrices[at].illuminant
                == REFERENCE_ILLUMINANT,
    decreases matrices.len(),
{
    if matrices.len() > 0 {
        let rest = matrices.drop_first();
        reference_matrix_is_found_where_one_stands(rest);
        if matrices[0].illuminant != REFERENCE_ILLUMINANT {
            if reference_matrix(rest) is Some {
                let at = choose|at: int|
                    0 <= at < rest.len() && #[trigger] rest[at].illuminant
                        == REFERENCE_ILLUMINANT;
                assert(matrices[at + 1].illuminant == REFERENCE_ILLUMINANT);
            }
            if exists|at: int|
                0 <= at < matrices.len() && #[trigger] matrices[at].illuminant
                    == REFERENCE_ILLUMINANT {
                let at = choose|at: int|
                    0 <= at < matrices.len() && #[trigger] matrices[at].illuminant
                        == REFERENCE_ILLUMINANT;
                assert(rest[at - 1].illuminant == REFERENCE_ILLUMINANT);
            }
        }
    }
}

} // verus!
