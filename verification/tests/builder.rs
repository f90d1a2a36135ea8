use raw_boundary::builder::build_exif;
use raw_boundary::builder::build_image;
use raw_boundary::builder::build_metadata;
use raw_boundary::source::find_reference_matrix;
use raw_boundary::source::Camera;
use raw_boundary::source::ColorMatrix;
use raw_boundary::source::Rational;
use raw_boundary::source::SRational;
use raw_boundary::source::SourceExif;
use raw_boundary::source::SourceImage;
use raw_boundary::source::SourceMetadata;
use raw_boundary::source::MATRIX_ENTRIES;
use raw_boundary::source::REFERENCE_ILLUMINANT;
use raw_boundary::DataType;
use raw_boundary::DecodeError;
use raw_boundary::Exif;
use raw_boundary::Metadata;
use raw_boundary::PixelData;

fn field(text: &str) -> [u8; 32] {
    let mut out = [0u8; 32];
    out[..text.len()].copy_from_slice(text.as_bytes());
    out
}

fn bits(values: &[f32]) -> Vec<u32> {
    values.iter().map(|v| v.to_bits()).collect()
}

fn camera() -> Camera {
    Camera {
        make: "NIKON CORPORATION".to_string(),
        model: "NIKON D750".to_string(),
        clean_make: "Nikon".to_string(),
        clean_model: "D750".to_string(),
        cfa_name: "RGGB".to_string(),
    }
}

fn no_exif() -> SourceExif {
    SourceExif {
        orientation: None,
        exposure_time: None,
        fnumber: None,
        iso_speed_ratings: None,
        date_time_original: None,
        brightness_value: None,
        exposure_bias: None,
        focal_length: None,
        lens_make: None,
        lens_model: None,
    }
}

fn full_exif() -> SourceExif {
    SourceExif {
        orientation: Some(6),
        exposure_time: Some(Rational { n: 1, d: 250 }),
        fnumber: Some(Rational { n: 28, d: 10 }),
        iso_speed_ratings: Some(400),
        date_time_original: Some("2021:07:04 12:30:00".to_string()),
        brightness_value: Some(SRational { n: -7, d: 3 }),
        exposure_bias: Some(SRational { n: 1, d: -3 }),
        focal_length: Some(Rational { n: 50, d: 1 }),
        lens_make: Some("Nikon".to_string()),
        lens_model: Some("AF-S NIKKOR 50mm f/1.8G".to_string()),
    }
}

fn d65_matrix() -> Vec<f32> {
    vec![0.9, -0.3, -0.1, -0.5, 1.3, 0.2, -0.1, 0.2, 0.7]
}

fn source(matrices: Vec<ColorMatrix>, data: PixelData) -> SourceImage {
    SourceImage {
        width: 4,
        height: 3,
        cpp: 1,
        bps: 14,
        camera: camera(),
        black_levels: [
            600.0f32.to_bits(),
            601.0f32.to_bits(),
            602.0f32.to_bits(),
            603.0f32.to_bits(),
        ],
        white_levels: [
            16383.0f32.to_bits(),
            16383.0f32.to_bits(),
            16383.0f32.to_bits(),
            16383.0f32.to_bits(),
        ],
        wb_coeffs: [
            2.1f32.to_bits(),
            1.0f32.to_bits(),
            1.6f32.to_bits(),
            f32::NAN.to_bits(),
        ],
        color_matrices: matrices,
        data,
    }
}

fn twelve_samples() -> PixelData {
    PixelData::Integer((0u16..12).collect())
}

#[test]
fn reference_illuminant_is_d65() {
    assert_eq!(REFERENCE_ILLUMINANT, 21);
    assert_eq!(MATRIX_ENTRIES, 9);
}

#[test]
fn image_fields_are_copied() {
    let matrices = vec![ColorMatrix { illuminant: 21, coefficients: bits(&d65_matrix()) }];
    let src = source(matrices, twelve_samples());
    let image = build_image(src, Some(SourceMetadata { exif: full_exif() })).unwrap();
    assert_eq!(image.width, 4);
    assert_eq!(image.height, 3);
    assert_eq!(image.cpp, 1);
    assert_eq!(image.bps, 14);
    assert_eq!(image.cfa, field("RGGB"));
    assert_eq!(image.black_levels.map(f32::from_bits), [600.0, 601.0, 602.0, 603.0]);
    assert_eq!(image.white_levels.map(f32::from_bits), [16383.0; 4]);
    assert_eq!(image.wb_coeffs[0], 2.1f32.to_bits());
    assert_eq!(image.wb_coeffs[1], 1.0f32.to_bits());
    assert_eq!(image.wb_coeffs[2], 1.6f32.to_bits());
    assert_eq!(image.wb_coeffs[3], f32::NAN.to_bits());
    assert_eq!(image.color_matrix.to_vec(), bits(&d65_matrix()));
    assert_eq!(image.data_type, DataType::Integer);
    assert_eq!(image.data, twelve_samples());
    assert_eq!(image.data_len, 12);
}

#[test]
fn element_count_is_width_times_height_times_components() {
    let src = SourceImage {
        width: 5,
        height: 2,
        cpp: 3,
        ..source(vec![], PixelData::Float(bits(&[0.25f32; 30])))
    };
    let image = build_image(src, None).unwrap();
    assert_eq!(image.data_type, DataType::Float);
    assert_eq!(image.data_len, 30);
    assert_eq!(image.data_len, (image.width * image.height * image.cpp) as usize);
    assert_eq!(image.data, PixelData::Float(vec![0.25f32.to_bits(); 30]));
}

#[test]
fn camera_and_exif_are_copied_when_metadata_is_fetched() {
    let src = source(vec![], twelve_samples());
    let image = build_image(src, Some(SourceMetadata { exif: full_exif() })).unwrap();
    assert_eq!(image.metadata.make, field("NIKON CORPORATION"));
    assert_eq!(image.metadata.model, field("NIKON D750"));
    assert_eq!(image.metadata.clean_make, field("Nikon"));
    assert_eq!(image.metadata.clean_model, field("D750"));
    let exif = &image.metadata.exif;
    assert_eq!(exif.orientation, 6);
    assert_eq!(exif.exposure_time, [1, 250]);
    assert_eq!(exif.fnumber, [28, 10]);
    assert_eq!(exif.iso_speed_ratings, 400);
    assert_eq!(exif.date_time_original, field("2021:07:04 12:30:00"));
    assert_eq!(exif.brightness_value, [-7, 3]);
    assert_eq!(exif.exposure_bias, [1, -3]);
    assert_eq!(exif.focal_length, [50, 1]);
    assert_eq!(exif.lens_make, field("Nikon"));
    assert_eq!(exif.lens_model, field("AF-S NIKKOR 50mm f/1.8G"));
}

#[test]
fn failed_metadata_fetch_leaves_the_metadata_record_zero() {
    let src = source(vec![], twelve_samples());
    let image = build_image(src, None).unwrap();
    assert_eq!(image.metadata, Metadata::zeroed());
    assert_eq!(image.metadata.make, [0u8; 32]);
    assert_eq!(image.metadata.exif, Exif::zeroed());
    // the image itself is whole
    assert_eq!(image.width, 4);
    assert_eq!(image.cfa, field("RGGB"));
    assert_eq!(image.data_len, 12);
}

#[test]
fn fetched_metadata_changes_the_metadata_record_only() {
    let with = build_image(
        source(vec![], twelve_samples()),
        Some(SourceMetadata { exif: full_exif() }),
    )
    .unwrap();
    let without = build_image(source(vec![], twelve_samples()), None).unwrap();
    assert_ne!(with.metadata, without.metadata);
    assert_eq!(with.width, without.width);
    assert_eq!(with.height, without.height);
    assert_eq!(with.cpp, without.cpp);
    assert_eq!(with.bps, without.bps);
    assert_eq!(with.cfa, without.cfa);
    assert_eq!(with.black_levels, without.black_levels);
    assert_eq!(with.white_levels, without.white_levels);
    assert_eq!(with.wb_coeffs, without.wb_coeffs);
    assert_eq!(with.color_matrix, without.color_matrix);
    assert_eq!(with.data_type, without.data_type);
    assert_eq!(with.data, without.data);
    assert_eq!(with.data_len, without.data_len);
}

#[test]
fn absent_exif_fields_are_zero() {
    let exif = build_exif(&no_exif());
    assert_eq!(exif, Exif::zeroed());
    assert_eq!(exif.orientation, 0);
    assert_eq!(exif.exposure_time, [0, 0]);
    assert_eq!(exif.brightness_value, [0, 0]);
    assert_eq!(exif.date_time_original, [0u8; 32]);
}

#[test]
fn present_exif_fields_are_copied_one_by_one() {
    let src = SourceExif {
        iso_speed_ratings: Some(100),
        focal_length: Some(Rational { n: 35, d: 1 }),
        lens_model: Some("a lens model whose name is longer than the field".to_string()),
        ..no_exif()
    };
    let exif = build_exif(&src);
    assert_eq!(exif.orientation, 0);
    assert_eq!(exif.exposure_time, [0, 0]);
    assert_eq!(exif.fnumber, [0, 0]);
    assert_eq!(exif.iso_speed_ratings, 100);
    assert_eq!(exif.date_time_original, [0u8; 32]);
    assert_eq!(exif.brightness_value, [0, 0]);
    assert_eq!(exif.exposure_bias, [0, 0]);
    assert_eq!(exif.focal_length, [35, 1]);
    assert_eq!(exif.lens_make, [0u8; 32]);
    assert_eq!(&exif.lens_model[..31], &b"a lens model whose name is longer than the field"[..31]);
    assert_eq!(exif.lens_model[31], 0);
}

#[test]
fn exif_zero_is_kept_apart_from_nothing_only_in_the_source() {
    let src = SourceExif { orientation: Some(0), ..no_exif() };
    assert_eq!(build_exif(&src), build_exif(&no_exif()));
}

#[test]
fn rationals_keep_numerator_and_denominator() {
    let src = SourceExif {
        exposure_time: Some(Rational { n: u32::MAX, d: 3 }),
        exposure_bias: Some(SRational { n: i32::MIN, d: i32::MAX }),
        ..no_exif()
    };
    let exif = build_exif(&src);
    assert_eq!(exif.exposure_time, [u32::MAX, 3]);
    assert_eq!(exif.exposure_bias, [i32::MIN, i32::MAX]);
}

#[test]
fn metadata_record_without_fetch_is_zero() {
    assert_eq!(build_metadata(&camera(), &None), Metadata::zeroed());
}

#[test]
fn metadata_record_with_fetch_holds_the_camera() {
    let record = build_metadata(&camera(), &Some(SourceMetadata { exif: no_exif() }));
    assert_eq!(record.make, field("NIKON CORPORATION"));
    assert_eq!(record.model, field("NIKON D750"));
    assert_eq!(record.clean_make, field("Nikon"));
    assert_eq!(record.clean_model, field("D750"));
    assert_eq!(record.exif, Exif::zeroed());
}

#[test]
fn missing_color_matrix_gives_nine_zeros() {
    let image = build_image(source(vec![], twelve_samples()), None).unwrap();
    assert_eq!(image.color_matrix, [0u32; 9]);
    assert_eq!(image.color_matrix.map(f32::from_bits), [0.0f32; 9]);
}

#[test]
fn matrix_for_another_illuminant_gives_nine_zeros() {
    let matrices = vec![
        ColorMatrix { illuminant: 17, coefficients: bits(&d65_matrix()) },
        ColorMatrix { illuminant: 23, coefficients: bits(&d65_matrix()) },
    ];
    let image = build_image(source(matrices, twelve_samples()), None).unwrap();
    assert_eq!(image.color_matrix, [0u32; 9]);
}

#[test]
fn reference_matrix_is_picked_among_several() {
    let other: Vec<f32> = vec![1.0; 9];
    let matrices = vec![
        ColorMatrix { illuminant: 17, coefficients: bits(&other) },
        ColorMatrix { illuminant: 21, coefficients: bits(&d65_matrix()) },
        ColorMatrix { illuminant: 23, coefficients: bits(&other) },
    ];
    assert_eq!(find_reference_matrix(&matrices), Some(1));
    let image = build_image(source(matrices, twelve_samples()), None).unwrap();
    assert_eq!(image.color_matrix.to_vec(), bits(&d65_matrix()));
}

#[test]
fn reference_matrix_is_not_found_where_there_is_none() {
    assert_eq!(find_reference_matrix(&vec![]), None);
    let matrices = vec![ColorMatrix { illuminant: 20, coefficients: vec![] }];
    assert_eq!(find_reference_matrix(&matrices), None);
}

#[test]
fn first_of_two_reference_matrices_is_found() {
    let matrices = vec![
        ColorMatrix { illuminant: 21, coefficients: vec![1; 9] },
        ColorMatrix { illuminant: 21, coefficients: vec![2; 9] },
    ];
    assert_eq!(find_reference_matrix(&matrices), Some(0));
    let image = build_image(source(matrices, twelve_samples()), None).unwrap();
    assert_eq!(image.color_matrix, [1u32; 9]);
}

#[test]
fn longer_matrix_gives_its_first_nine_entries() {
    let coefficients: Vec<u32> = (1u32..=12).collect();
    let matrices = vec![ColorMatrix { illuminant: 21, coefficients }];
    let image = build_image(source(matrices, twelve_samples()), None).unwrap();
    assert_eq!(image.color_matrix, [1, 2, 3, 4, 5, 6, 7, 8, 9]);
}

#[test]
fn short_reference_matrix_is_an_internal_fault() {
    let matrices = vec![ColorMatrix { illuminant: 21, coefficients: vec![1; 8] }];
    let built = build_image(source(matrices, twelve_samples()), None);
    assert_eq!(built, Err(DecodeError::InternalFault));
}

#[test]
fn short_matrix_for_another_illuminant_does_no_harm() {
    let matrices = vec![ColorMatrix { illuminant: 17, coefficients: vec![1; 3] }];
    let built = build_image(source(matrices, twelve_samples()), None);
    assert!(built.is_ok());
}

#[test]
fn dimensions_that_do_not_fit_are_narrowed() {
    let wide: u64 = (1u64 << 32) + 5;
    let src = SourceImage { width: wide as usize, ..source(vec![], twelve_samples()) };
    let image = build_image(src, None).unwrap();
    assert_eq!(image.width, wide as usize as u32);
    assert_eq!(image.height, 3);
}

#[test]
fn largest_dimension_that_fits_is_kept() {
    let src = SourceImage { bps: u32::MAX as usize, ..source(vec![], twelve_samples()) };
    let image = build_image(src, None).unwrap();
    assert_eq!(image.bps, u32::MAX);
}

#[test]
fn camera_text_with_a_nul_inside_is_written_as_empty() {
    let mut src = source(vec![], twelve_samples());
    src.camera.make = "NI\0KON".to_string();
    src.camera.cfa_name = "RG\0GB".to_string();
    let image = build_image(src, Some(SourceMetadata { exif: no_exif() })).unwrap();
    assert_eq!(image.metadata.make, [0u8; 32]);
    assert_eq!(image.cfa, [0u8; 32]);
    assert_eq!(image.metadata.model, field("NIKON D750"));
}
