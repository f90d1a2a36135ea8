//! The flat decoded-image record that crosses the boundary.

use vstd::prelude::*;
use crate::pixels::DataType;
use crate::pixels::PixelData;
use crate::text::zero_text;

verus! {

/// Photographic metadata. A field the source does not have holds zero, so an
/// absent field and a true zero look alike.
#[derive(PartialEq, Eq, Debug)]
pub struct Exif {
    pub orientation: u16,
    /// Numerator and denominator.
    pub exposure_time: [u32; 2],
    pub fnumber: [u32; 2],
    pub iso_speed_ratings: u16,
    pub date_time_original: [u8; 32],
    pub brightness_value: [i32; 2],
    pub exposure_bias: [i32; 2],
    pub focal_length: [u32; 2],
    pub lens_make: [u8; 32],
    pub lens_model: [u8; 32],
}

/// Camera identification and photographic metadata.
#[derive(PartialEq, Eq, Debug)]
pub struct Metadata {
    /// Camera make as encoded in the file.
    pub make: [u8; 32],
    /// Camera model as encoded in the file.
    pub model: [u8; 32],
    /// Make cleaned up to be consistent and short.
    pub clean_make: [u8; 32],
    /// Model cleaned up to be consistent and short.
    pub clean_model: [u8; 32],
    pub exif: Exif,
}

/// A decoded image as the foreign side sees it. Every floating-point value
/// is held as the 32 bits of its IEEE 754 encoding; the pixel buffer stands
/// where the foreign record has its address.
#[derive(PartialEq, Eq, Debug)]
pub struct RawImage {
    /// Width of the full image.
    pub width: u32,
    /// Height of the full image.
    pub height: u32,
    /// Components per pixel.
    pub cpp: u32,
    /// Bits per pixel.
    pub bps: u32,
    /// Name of the colour filter array pattern.
    pub cfa: [u8; 32],
    pub black_levels: [u32; 4],
    pub white_levels: [u32; 4],
    /// White balance coefficients in RGBE order.
    pub wb_coeffs: [u32; 4],
    /// Colour matrix for the reference illuminant, row by row.
    pub color_matrix: [u32; 9],
    pub metadata: Metadata,
    /// Sample type of the pixel buffer.
    pub data_type: DataType,
    /// The pixel buffer.
    pub data: PixelData,
    /// Number of samples in the pixel buffer.
    pub data_len: usize,
}

impl Exif {
    /// Whether every field holds zero.
    pub open spec fn is_zero(&self) -> bool {
        &&& self.orientation == 0
        &&& self.exposure_time@ == seq![0u32, 0u32]
        &&& self.fnumber@ == seq![0u32, 0u32]
        &&& self.iso_speed_ratings == 0
        &&& self.date_time_original@ == zero_text()
        &&& self.brightness_value@ == seq![0i32, 0i32]
        &&& self.exposure_bias@ == seq![0i32, 0i32]
        &&& self.focal_length@ == seq![0u32, 0u32]
        &&& self.lens_make@ == zero_text()
        &&& self.lens_model@ == zero_text()
    }

    /// The record in which every field holds zero.
    pub fn zeroed() -> (exif: Exif)
        ensures
            exif.is_zero(),
    {
        let exif = Exif {
            orientation: 0,
            exposure_time: [0u32; 2],
            fnumber: [0u32; 2],
            iso_speed_ratings: 0,
            date_time_original: [0u8; 32],
            brightness_value: [0i32; 2],
            exposure_bias: [0i32; 2],
            focal_length: [0u32; 2],
            lens_make: [0u8; 32],
            lens_model: [0u8; 32],
        };
        assert(exif.exposure_time@ =~= seq![0u32, 0u32]);
        assert(exif.fnumber@ =~= seq![0u32, 0u32]);
        assert(exif.focal_length@ =~= seq![0u32, 0u32]);
        assert(exif.brightness_value@ =~= seq![0i32, 0i32]);
        assert(exif.exposure_bias@ =~= seq![0i32, 0i32]);
        assert(exif.date_time_original@ =~= zero_text());
        assert(exif.lens_make@ =~= zero_text());
        assert(exif.lens_model@ =~= zero_text());
        exif
    }
}

impl Metadata {
    /// Whether every field holds zero.
    pub open spec fn is_zero(&self) -> bool {
        &&& self.make@ == zero_text()
        &&& self.model@ == zero_text()
        &&& self.clean_make@ == zero_text()
        &&& self.clean_model@ == zero_text()
        &&& self.exif.is_zero()
    }

    /// The record in which every field holds zero.
    pub fn zeroed() -> (metadata: Metadata)
        ensures
            metadata.is_zero(),
    {
        let metadata = Metadata {
            make: [0u8; 32],
            model: [0u8; 32],
            clean_make: [0u8; 32],
            clean_model: [0u8; 32],
            exif: Exif::zeroed(),
        };
        assert(metadata.make@ =~= zero_text());
        assert(metadata.model@ =~= zero_text());
        assert(metadata.clean_make@ =~= zero_text());
        assert(metadata.clean_model@ =~= zero_text());
        metadata
    }
}

impl RawImage {
    /// Whether the tag and the count that the record shows are those of the
    /// pixel buffer it owns.
    pub open spec fn descriptor_matches(&self) -> bool {
        &&& self.data_type == self.data.tag()
        &&& self.data_len == self.data.count()
    }

    /// Whether the pixel buffer holds one sample for each component of each
    /// pixel.
    pub open spec fn covers_all_pixels(&self) -> bool {
        self.data_len == self.width * self.height * self.cpp
    }
}

} // verus!
