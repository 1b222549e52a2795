use rs_dosdate2str::{
    dosdate_to_day, dosdate_to_dosyear, dosdate_to_month, dosdate_to_str, dosdate_to_year,
    dostime2str, dostime_to_str, dosymd2dosdate, ymd2dosdate,
};

#[test]
fn extract_fields_of_known_date() {
    // 2024-12-30: offset 44, so (44 << 9) | (12 << 5) | 30.
    let dosdate: u16 = (44 << 9) | (12 << 5) | 30;
    assert_eq!(dosdate_to_dosyear(dosdate), 44);
    assert_eq!(dosdate_to_year(dosdate), 2024);
    assert_eq!(dosdate_to_month(dosdate), 12);
    assert_eq!(dosdate_to_day(dosdate), 30);
}

#[test]
fn extract_fields_of_all_zero_bits() {
    assert_eq!(dosdate_to_dosyear(0), 0);
    assert_eq!(dosdate_to_year(0), 1980);
    assert_eq!(dosdate_to_month(0), 0);
    assert_eq!(dosdate_to_day(0), 0);
}

#[test]
fn extract_fields_of_all_one_bits() {
    assert_eq!(dosdate_to_dosyear(0xffff), 127);
    assert_eq!(dosdate_to_year(0xffff), 2107);
    assert_eq!(dosdate_to_month(0xffff), 15);
    assert_eq!(dosdate_to_day(0xffff), 31);
}

#[test]
fn compose_packs_the_fields() {
    assert_eq!(dosymd2dosdate(44, 12, 30), (44 << 9) | (12 << 5) | 30);
    assert_eq!(dosymd2dosdate(0, 0, 0), 0);
    assert_eq!(dosymd2dosdate(127, 15, 31), 0xffff);
}

#[test]
fn compose_then_extract_round_trip() {
    for &(y, m, d) in &[(0u8, 0u8, 0u8), (0, 1, 1), (44, 12, 30), (127, 15, 31)] {
        let v: u16 = dosymd2dosdate(y, m, d);
        assert_eq!(dosdate_to_dosyear(v), y);
        assert_eq!(dosdate_to_month(v), m);
        assert_eq!(dosdate_to_day(v), d);
        // Re-composing the extracted fields reproduces the value bit-for-bit.
        assert_eq!(
            dosymd2dosdate(dosdate_to_dosyear(v), dosdate_to_month(v), dosdate_to_day(v)),
            v
        );
    }
}

#[test]
fn calendar_year_round_trip() {
    for &(y, m, d) in &[(1980u16, 1u8, 1u8), (2024, 12, 30), (2107, 15, 31)] {
        let v: u16 = ymd2dosdate(y, m, d);
        assert_eq!(dosdate_to_year(v), y);
        assert_eq!(dosdate_to_month(v), m);
        assert_eq!(dosdate_to_day(v), d);
    }
}

#[test]
fn years_below_range_clamp_to_1980() {
    assert_eq!(ymd2dosdate(1979, 6, 15), ymd2dosdate(1980, 6, 15));
    assert_eq!(ymd2dosdate(0, 6, 15), ymd2dosdate(1980, 6, 15));
    assert_eq!(dosdate_to_year(ymd2dosdate(1900, 6, 15)), 1980);
}

#[test]
fn years_above_range_clamp_to_2107() {
    assert_eq!(ymd2dosdate(2108, 6, 15), ymd2dosdate(2107, 6, 15));
    assert_eq!(ymd2dosdate(u16::MAX, 6, 15), ymd2dosdate(2107, 6, 15));
    assert_eq!(dosdate_to_year(ymd2dosdate(3000, 6, 15)), 2107);
}

#[test]
fn datetime_render_uses_only_the_date_half() {
    let dosdate: u16 = ymd2dosdate(2024, 12, 30);
    let with_time: u32 = ((dosdate as u32) << 16) | 0xbeef;
    let without_time: u32 = (dosdate as u32) << 16;
    assert_eq!(dostime_to_str(with_time), dosdate_to_str(dosdate));
    assert_eq!(dostime_to_str(without_time), dosdate_to_str(dosdate));
    assert_eq!(dostime_to_str(with_time).to_be_bytes(), *b"20241230");
}

#[test]
fn datetime_render_over_arbitrary_bit_patterns() {
    for &x in &[0u32, 1, 0xffff, 0x1234_5678, 0xffff_ffff] {
        assert_eq!(dostime_to_str(x), dosdate_to_str((x >> 16) as u16));
        assert_eq!(dostime2str(x), dostime_to_str(x));
    }
}
