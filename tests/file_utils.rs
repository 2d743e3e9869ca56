use gpr_converter::files::{format_file_size, is_gpr_file, GprFile};

#[test]
fn test_is_gpr_file() {
    assert!(is_gpr_file("test.gpr"));
    assert!(is_gpr_file("test.GPR"));
    assert!(!is_gpr_file("test.jpg"));
    assert!(!is_gpr_file("test"));
}

#[test]
fn test_format_file_size() {
    assert_eq!(format_file_size(500), "500 B");
    assert_eq!(format_file_size(1024), "1.00 KB");
    assert_eq!(format_file_size(1024 * 1024), "1.00 MB");
    assert_eq!(format_file_size(1024 * 1024 * 1024), "1.00 GB");
}

#[test]
fn format_file_size_edges() {
    assert_eq!(format_file_size(0), "0 B");
    assert_eq!(format_file_size(1023), "1023 B");
    assert_eq!(format_file_size(1536), "1.50 KB");
    assert_eq!(format_file_size(1024 * 1024 - 1), "1024.00 KB");
    assert_eq!(format_file_size(5 * 1024 * 1024 + 1024 * 1024 / 4), "5.25 MB");
    assert_eq!(format_file_size(u64::MAX), "17179869184.00 GB");
}

#[test]
fn format_file_size_matches_float_formatting() {
    let samples: [u64; 8] = [1025, 1035, 2047, 10_000, 123_456_789, 1_073_741_823, 5_000_000_000, (1u64 << 53) + 12345];
    for b in samples {
        let expected = if b < 1024 {
            format!("{} B", b)
        } else if b < 1024 * 1024 {
            format!("{:.2} KB", b as f64 / 1024.0)
        } else if b < 1024 * 1024 * 1024 {
            format!("{:.2} MB", b as f64 / (1024.0 * 1024.0))
        } else {
            format!("{:.2} GB", b as f64 / (1024.0 * 1024.0 * 1024.0))
        };
        assert_eq!(format_file_size(b), expected);
    }
}

#[test]
fn gpr_extension_in_mixed_case() {
    assert!(is_gpr_file("/photos/GOPR0001.GpR"));
    assert!(!is_gpr_file("/photos/archive.gpr.zip"));
    assert!(!is_gpr_file("/photos/.gpr"));
}

#[test]
fn gpr_file_new_takes_the_final_component() {
    let f = GprFile::new("/photos/day1/GOPR0042.GPR".to_string(), 2048);
    assert_eq!(f.filename, "GOPR0042.GPR");
    assert_eq!(f.size, 2048);
    assert!(f.metadata.is_none());
    assert_eq!(f.format_size(), "2.00 KB");
}

#[test]
fn gpr_file_without_name_is_unknown() {
    let f = GprFile::new("/".to_string(), 0);
    assert_eq!(f.filename, "Unknown");
}
