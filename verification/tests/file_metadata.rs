use fv::fs::size::{compact_size_str, format_bytes, format_size, unit_size, verbose_size_str, GB, MB, TB};

#[test]
fn unit_size_is_none_below_one_kilobyte() {
    assert_eq!(unit_size(0), None);
    assert_eq!(unit_size(1023), None);
}

#[test]
fn unit_size_climbs_the_ladder_at_each_threshold() {
    assert_eq!(unit_size(1024).as_deref(), Some("1.0 KB"));
    assert_eq!(unit_size(MB).as_deref(), Some("1.0 MB"));
    assert_eq!(unit_size(GB).as_deref(), Some("1.0 GB"));
    assert_eq!(unit_size(TB).as_deref(), Some("1.0 TB"));
}

#[test]
fn unit_size_extends_beyond_gigabytes_to_terabytes() {
    assert_eq!(unit_size(2 * TB).as_deref(), Some("2.0 TB"));
}

#[test]
fn compact_size_uses_bare_byte_count_below_one_kilobyte() {
    assert_eq!(compact_size_str(0), "0 B");
    assert_eq!(compact_size_str(512), "512 B");
    assert_eq!(compact_size_str(1023), "1023 B");
}

#[test]
fn compact_size_uses_units_at_and_above_one_kilobyte() {
    assert_eq!(compact_size_str(1024), "1.0 KB");
    assert_eq!(compact_size_str(5 * MB), "5.0 MB");
    assert_eq!(compact_size_str(2 * TB), "2.0 TB");
}

#[test]
fn verbose_size_omits_parentheses_below_one_kilobyte() {
    assert_eq!(verbose_size_str(512), "512 bytes");
    assert_eq!(verbose_size_str(1023), "1,023 bytes");
}

#[test]
fn verbose_size_leads_with_unit_then_raw_bytes() {
    assert_eq!(verbose_size_str(1024), "1.0 KB (1,024 bytes)");
    assert_eq!(verbose_size_str(1_288_490_189), "1.2 GB (1,288,490,189 bytes)");
}

#[test]
fn unit_size_rounds_like_one_decimal_float_formatting() {
    for bytes in [1024u64, 1075, 1126, 1280, 1536, 1587, 2047, 3 * 1024 * 1024 + 5, 1_288_490_189, 7 * GB + 12345, 5 * TB - 1] {
        let (unit, name) = if bytes >= TB {
            (TB, "TB")
        } else if bytes >= GB {
            (GB, "GB")
        } else if bytes >= MB {
            (MB, "MB")
        } else {
            (1024, "KB")
        };
        let expected = format!("{:.1} {}", bytes as f64 / unit as f64, name);
        assert_eq!(unit_size(bytes), Some(expected), "bytes = {bytes}");
    }
}

#[test]
fn format_bytes_tops_out_at_gigabytes() {
    assert_eq!(format_bytes(512), "512 B");
    assert_eq!(format_bytes(1536), "1.5 KB");
    assert_eq!(format_bytes(2 * TB), "2048.0 GB");
}

#[test]
fn format_size_leads_with_grouped_bytes() {
    assert_eq!(format_size(999), "999 bytes");
    assert_eq!(format_size(2048), "2,048 bytes (2.0 KB)");
    assert_eq!(format_size(3 * GB), "3,221,225,472 bytes (3.0 GB)");
}
