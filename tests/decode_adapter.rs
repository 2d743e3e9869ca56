use gpr_converter::config::{ConversionConfig, OutputFormat};
use gpr_converter::converter::{floor_sqrt_u64, select_shape, ConvertError, GprConverter, PixelLayout, RgbBuffer};

#[test]
fn four_bytes_per_pixel_is_rgba() {
    let s = select_shape(4 * 5 * 4, 4, 5);
    assert_eq!(s.layout, PixelLayout::Rgba);
    assert_eq!((s.width, s.height, s.bytes_per_pixel), (4, 5, 4));
}

#[test]
fn three_bytes_per_pixel_is_rgb() {
    let s = select_shape(4 * 5 * 3, 4, 5);
    assert_eq!(s.layout, PixelLayout::Rgb);
    assert_eq!((s.width, s.height, s.bytes_per_pixel), (4, 5, 3));
}

#[test]
fn mismatched_length_is_inferred() {
    let s = select_shape(100, 4, 5);
    assert_eq!(s.layout, PixelLayout::Inferred);
    // 100 / 3 = 33 pixels: 5 columns, 6 rows.
    assert_eq!((s.width, s.height, s.bytes_per_pixel), (5, 6, 3));
    assert!(5 * 6 * 3 <= 100);
}

#[test]
fn tiny_buffer_infers_an_empty_plane() {
    let s = select_shape(2, 4, 5);
    assert_eq!(s.layout, PixelLayout::Inferred);
    assert_eq!((s.width, s.height), (0, 0));
}

#[test]
fn floor_sqrt_values() {
    assert_eq!(floor_sqrt_u64(0), 0);
    assert_eq!(floor_sqrt_u64(15), 3);
    assert_eq!(floor_sqrt_u64(16), 4);
    assert_eq!(floor_sqrt_u64(u64::MAX), 4_294_967_295);
    assert_eq!(floor_sqrt_u64(4_294_967_296u64 * 4_294_967_295 - 1), 4_294_967_295);
}

#[test]
fn full_size_rgb_decode_keeps_its_dimensions() {
    let len = 4000usize * 3000 * 3;
    let s = select_shape(len, 4000, 3000);
    assert_eq!(s.layout, PixelLayout::Rgb);
    assert_eq!((s.width, s.height, s.bytes_per_pixel), (4000, 3000, 3));
    let data: Vec<u8> = (0..len).map(|i| (i % 251) as u8).collect();
    let plane = GprConverter::rgb_buffer_to_image(&data, 4000, 3000).unwrap();
    assert_eq!((plane.width, plane.height), (4000, 3000));
    assert_eq!(plane.data, data);
}

#[test]
fn full_size_mismatched_decode_takes_the_inference_path() {
    let len = 4000usize * 3000 * 3 + 7;
    let s = select_shape(len, 4000, 3000);
    assert_eq!(s.layout, PixelLayout::Inferred);
    let pixels = len / 3;
    let w = (pixels as f64).sqrt() as usize;
    assert_eq!(s.width as usize, w);
    assert_eq!(s.height as usize, pixels / w);
    assert!(s.width as usize * s.height as usize * 3 <= len);
}

#[test]
fn rgba_alpha_is_dropped() {
    let data = vec![1, 2, 3, 255, 4, 5, 6, 255];
    let plane = GprConverter::rgb_buffer_to_image(&data, 2, 1).unwrap();
    assert_eq!((plane.width, plane.height), (2, 1));
    assert_eq!(plane.data, vec![1, 2, 3, 4, 5, 6]);
}

#[test]
fn short_buffer_is_too_small() {
    let data = vec![0u8; 5];
    let r = GprConverter::rgb_buffer_to_image_with_size(&data, 2, 2, 3);
    assert!(matches!(r, Err(ConvertError::BufferTooSmall { expected: 12, actual: 5 })));
    let e = ConvertError::BufferTooSmall { expected: 12, actual: 5 };
    assert_eq!(e.describe(), "RGB buffer too small: need 12 bytes, got 5");
}

#[test]
fn unparsed_container_is_a_metadata_error() {
    let config = ConversionConfig::default();
    let r = GprConverter::convert(false, None, &config);
    assert!(matches!(r, Err(ConvertError::MetadataParse)));
    assert_eq!(ConvertError::MetadataParse.describe(), "Failed to parse GPR metadata");
}

#[test]
fn missing_decoder_output_is_a_decode_error() {
    let config = ConversionConfig::default();
    let r = GprConverter::convert(true, None, &config);
    assert!(matches!(r, Err(ConvertError::Decode)));
}

#[test]
fn empty_jpeg_is_an_encode_error() {
    let config = ConversionConfig::default();
    let b = RgbBuffer { data: vec![], width: 0, height: 0 };
    let r = GprConverter::convert(true, Some(b), &config);
    assert!(matches!(r, Err(ConvertError::Encode)));
}

fn sample_plane() -> Vec<u8> {
    (0..4 * 3 * 3).map(|i| (i * 7 % 256) as u8).collect()
}

#[test]
fn png_round_trip_is_lossless() {
    let mut config = ConversionConfig::default();
    config.output_format = OutputFormat::Png;
    let data = sample_plane();
    let bytes = GprConverter::convert(true, Some(RgbBuffer { data: data.clone(), width: 4, height: 3 }), &config).unwrap();
    assert_eq!(&bytes[..4], &[0x89, b'P', b'N', b'G']);
    let img = image::load_from_memory(&bytes).unwrap().to_rgb8();
    assert_eq!((img.width(), img.height()), (4, 3));
    assert_eq!(img.into_raw(), data);
}

#[test]
fn jpeg_round_trip_is_close() {
    let config = ConversionConfig::default();
    let data: Vec<u8> = vec![200; 8 * 8 * 3];
    let bytes = GprConverter::convert(true, Some(RgbBuffer { data: data.clone(), width: 8, height: 8 }), &config).unwrap();
    assert_eq!(&bytes[..2], &[0xFF, 0xD8]);
    let img = image::load_from_memory(&bytes).unwrap().to_rgb8();
    assert_eq!((img.width(), img.height()), (8, 8));
    for (a, b) in img.into_raw().iter().zip(data.iter()) {
        assert!((*a as i32 - *b as i32).abs() <= 8);
    }
}

#[test]
fn output_path_beside_source() {
    let f = gpr_converter::files::GprFile::new("/photos/GOPR0001.GPR".to_string(), 1);
    let config = ConversionConfig::default();
    let p = GprConverter::determine_output_path(&f, &config).unwrap();
    assert_eq!(p, "/photos/GOPR0001.jpg");
}

#[test]
fn output_path_in_configured_directory() {
    let f = gpr_converter::files::GprFile::new("/photos/GOPR0001.GPR".to_string(), 1);
    let mut config = ConversionConfig::default();
    config.output_format = OutputFormat::Png;
    config.output_directory = Some("/exports".to_string());
    let p = GprConverter::determine_output_path(&f, &config).unwrap();
    assert_eq!(p, "/exports/GOPR0001.png");
}

#[test]
fn output_path_needs_a_parent() {
    let f = gpr_converter::files::GprFile::new(String::new(), 1);
    let config = ConversionConfig::default();
    let r = GprConverter::determine_output_path(&f, &config);
    assert!(matches!(r, Err(ConvertError::OutputPath)));
}

#[test]
fn batch_keeps_going_after_a_failure() {
    let outcomes = vec![
        ("a.gpr".to_string(), Ok("/o/a.jpg".to_string())),
        ("b.gpr".to_string(), Err(ConvertError::Decode)),
        ("c.gpr".to_string(), Ok("/o/c.jpg".to_string())),
    ];
    let report = GprConverter::collect_batch(outcomes);
    assert_eq!(report.outputs, vec!["/o/a.jpg".to_string(), "/o/c.jpg".to_string()]);
    assert_eq!(report.failures, vec![("b.gpr".to_string(), ConvertError::Decode)]);
}
