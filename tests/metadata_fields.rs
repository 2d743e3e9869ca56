use gpr_converter::metadata::{
    camera_model, metadata_from_fields, read_metadata, trim_quotes, ExifFields, FieldValue, GpsCoordinate,
    MetadataError, Rational,
};

fn empty_fields() -> ExifFields {
    ExifFields {
        make: None,
        model: None,
        image_width: None,
        image_length: None,
        photographic_sensitivity: None,
        iso_speed: None,
        exposure_time: None,
        f_number: None,
        focal_length: None,
        date_time_original: None,
        date_time: None,
        gps_latitude: None,
        gps_latitude_ref: None,
        gps_longitude: None,
        gps_longitude_ref: None,
    }
}

fn dms(d: u32, m: u32, s: u32) -> FieldValue {
    FieldValue::Rational(vec![
        Rational { num: d, denom: 1 },
        Rational { num: m, denom: 1 },
        Rational { num: s, denom: 1 },
    ])
}

fn as_degrees(c: &GpsCoordinate) -> f64 {
    let (n, d) = c.decimal_degrees();
    n as f64 / d as f64
}

#[test]
fn southern_latitude_is_negative() {
    let mut f = empty_fields();
    f.gps_latitude = Some(dms(10, 30, 0));
    f.gps_latitude_ref = Some(FieldValue::Ascii(vec![b"S".to_vec()]));
    let m = metadata_from_fields(&f);
    let lat = m.gps_latitude.unwrap();
    assert!((as_degrees(&lat) - (-10.5)).abs() < 1e-9);
}

#[test]
fn western_longitude_is_negative_and_eastern_positive() {
    let mut f = empty_fields();
    f.gps_longitude = Some(dms(122, 15, 36));
    f.gps_longitude_ref = Some(FieldValue::Ascii(vec![b"W".to_vec()]));
    f.gps_latitude = Some(dms(37, 0, 0));
    f.gps_latitude_ref = Some(FieldValue::Ascii(vec![b"N".to_vec()]));
    let m = metadata_from_fields(&f);
    assert!((as_degrees(&m.gps_longitude.unwrap()) - (-122.26)).abs() < 1e-9);
    assert!((as_degrees(&m.gps_latitude.unwrap()) - 37.0).abs() < 1e-9);
}

#[test]
fn coordinate_without_reference_or_parts_is_omitted() {
    let mut f = empty_fields();
    f.gps_latitude = Some(dms(10, 30, 0));
    f.gps_longitude = Some(FieldValue::Rational(vec![Rational { num: 1, denom: 1 }]));
    f.gps_longitude_ref = Some(FieldValue::Ascii(vec![b"E".to_vec()]));
    let m = metadata_from_fields(&f);
    assert!(m.gps_latitude.is_none());
    assert!(m.gps_longitude.is_none());
}

#[test]
fn missing_make_and_model_is_unknown_camera() {
    let m = metadata_from_fields(&empty_fields());
    assert_eq!(m.camera_model, "Unknown Camera");
    assert_eq!((m.width, m.height), (0, 0));
    assert!(m.iso.is_none() && m.exposure_time.is_none() && m.date_taken.is_none());
}

#[test]
fn camera_model_joins_trimmed_parts() {
    assert_eq!(camera_model(&Some(" GoPro ".to_string()), &Some("HERO12 Black ".to_string())), "GoPro HERO12 Black");
    assert_eq!(camera_model(&None, &Some(" HERO ".to_string())), "HERO");
    assert_eq!(camera_model(&Some("GoPro\t".to_string()), &None), "GoPro");
}

#[test]
fn fields_are_formatted() {
    let mut f = empty_fields();
    f.image_width = Some(FieldValue::Long(vec![4000]));
    f.image_length = Some(FieldValue::Short(vec![3000]));
    f.iso_speed = Some(FieldValue::Short(vec![400]));
    f.exposure_time = Some("1/120 s".to_string());
    f.f_number = Some("2.8".to_string());
    f.focal_length = Some("\"3\"".to_string());
    f.date_time = Some("\"2024-05-01 10:00:00\"".to_string());
    let m = metadata_from_fields(&f);
    assert_eq!((m.width, m.height), (4000, 3000));
    assert_eq!(m.iso, Some(400));
    assert_eq!(m.exposure_time.as_deref(), Some("1/120 s"));
    assert_eq!(m.f_number.as_deref(), Some("f/2.8"));
    assert_eq!(m.focal_length.as_deref(), Some("3 mm"));
    assert_eq!(m.date_taken.as_deref(), Some("2024-05-01 10:00:00"));
}

#[test]
fn first_present_sensitivity_field_wins() {
    let mut f = empty_fields();
    f.photographic_sensitivity = Some(FieldValue::Long(vec![100]));
    f.iso_speed = Some(FieldValue::Short(vec![400]));
    assert_eq!(metadata_from_fields(&f).iso, None);
    f.photographic_sensitivity = Some(FieldValue::Short(vec![200]));
    assert_eq!(metadata_from_fields(&f).iso, Some(200));
}

#[test]
fn original_capture_time_is_preferred() {
    let mut f = empty_fields();
    f.date_time_original = Some("2024-01-01 00:00:00".to_string());
    f.date_time = Some("2025-01-01 00:00:00".to_string());
    assert_eq!(metadata_from_fields(&f).date_taken.as_deref(), Some("2024-01-01 00:00:00"));
}

#[test]
fn quotes_are_trimmed_at_both_ends() {
    assert_eq!(trim_quotes("\"abc\""), "abc");
    assert_eq!(trim_quotes("\"\"a\"b\"\""), "a\"b");
    assert_eq!(trim_quotes("\"\"\""), "");
    assert_eq!(trim_quotes("plain"), "plain");
}

#[test]
fn unreadable_bytes_are_a_parse_error() {
    let r = read_metadata(b"not an image at all".to_vec());
    assert!(matches!(r, Err(MetadataError::Parse)));
}

fn tiff_with_make() -> Vec<u8> {
    // Little-endian TIFF with one IFD entry: Make = "GoPro".
    let mut v = vec![b'I', b'I', 42, 0, 8, 0, 0, 0];
    v.extend_from_slice(&[1, 0]);
    v.extend_from_slice(&[0x0f, 0x01, 2, 0, 6, 0, 0, 0, 26, 0, 0, 0]);
    v.extend_from_slice(&[0, 0, 0, 0]);
    v.extend_from_slice(b"GoPro\0");
    v
}

#[test]
fn metadata_is_read_from_tiff_bytes() {
    let m = read_metadata(tiff_with_make()).unwrap();
    assert_eq!(m.camera_model, "\"GoPro\"");
    assert_eq!((m.width, m.height), (0, 0));
    assert!(m.gps_latitude.is_none());
}
