//! Decoding, encoding and rendering of the DOS date bitfield format used by
//! FAT filesystems and ZIP archives.
//!
//! A DOS date is a 16-bit value packed as `[year-offset:7][month:4][day:5]`
//! from most- to least-significant bit, where the year-offset counts years
//! since 1980. A DOS datetime is a 32-bit value whose upper 16 bits are a DOS
//! date. Dates render as a 64-bit integer whose big-endian bytes spell the
//! eight ASCII characters `YYYYMMDD`.
//!
//! Decoding is deliberately permissive: no field is range-validated, and
//! arbitrary bit patterns decode and render literally (month 13 renders as
//! the digits "13"). Archive readers rely on this tolerance of corrupt
//! on-disk fields, so no validation is added anywhere.

use vstd::prelude::*;

verus! {

/// The 7-bit year-offset field: bits 15-9 of a DOS date, years since 1980.
pub open spec fn spec_year_offset(dosdate: u16) -> u8 {
    (dosdate >> 9) as u8
}

/// The absolute calendar year a DOS date denotes: its year-offset plus 1980.
pub open spec fn spec_calendar_year(dosdate: u16) -> int {
    spec_year_offset(dosdate) + 1980
}

/// The 4-bit month field: bits 8-5 of a DOS date, not validated against 1-12.
pub open spec fn spec_month(dosdate: u16) -> u8 {
    ((dosdate >> 5) & 0x0f) as u8
}

/// The 5-bit day field: bits 4-0 of a DOS date, not validated against 1-31.
pub open spec fn spec_day(dosdate: u16) -> u8 {
    (dosdate & 0x1f) as u8
}

/// Packing year-offset, month and day into a 16-bit DOS date. No masking:
/// oversized month or day bits bleed into the neighbouring fields, exactly as
/// the shifts and ors place them.
pub open spec fn spec_pack(dosyear: u8, month: u8, day: u8) -> u16 {
    ((dosyear as u16) << 9) | ((month as u16) << 5) | (day as u16)
}

/// The year-offset that a calendar year maps to, saturating at the ends of
/// the representable range 1980-2107.
pub open spec fn spec_clamped_offset(year: u16) -> u8 {
    if year < 1980 {
        0
    } else if year > 2107 {
        127
    } else {
        (year - 1980) as u8
    }
}

/// Extracts the raw 7-bit year-offset (0-127) from a DOS date.
pub fn dosdate_to_dosyear(dosdate: u16) -> (r: u8)
    ensures
        r == spec_year_offset(dosdate),
        r <= 127,
{
    proof {
        assert(dosdate >> 9 <= 127) by (bit_vector);
    }
    (dosdate >> 9) as u8
}

/// Extracts the absolute calendar year (1980-2107) from a DOS date.
pub fn dosdate_to_year(dosdate: u16) -> (r: u16)
    ensures
        r == spec_calendar_year(dosdate),
        1980 <= r <= 2107,
{
    let dosyear: u8 = dosdate_to_dosyear(dosdate);
    let year: u16 = dosyear as u16;
    year + 1980
}

/// Extracts the 4-bit month field (0-15) from a DOS date.
pub fn dosdate_to_month(dosdate: u16) -> (r: u8)
    ensures
        r == spec_month(dosdate),
        r <= 15,
{
    proof {
        assert((dosdate >> 5) & 0x0f <= 15) by (bit_vector);
    }
    let month: u16 = dosdate >> 5;
    let m: u16 = month & 0x0f;
    m as u8
}

/// Extracts the 5-bit day field (0-31) from a DOS date.
pub fn dosdate_to_day(dosdate: u16) -> (r: u8)
    ensures
        r == spec_day(dosdate),
        r <= 31,
{
    proof {
        assert(dosdate & 0x1f <= 31) by (bit_vector);
    }
    let day: u16 = dosdate & 0x1f;
    day as u8
}

/// Packs year-offset, month and day into a 16-bit DOS date. The caller must
/// keep month within 4 bits and day within 5; oversized values are not
/// masked and silently corrupt the neighbouring fields.
pub fn dosymd2dosdate(dosyear: u8, month: u8, day: u8) -> (r: u16)
    ensures
        r == spec_pack(dosyear, month, day),
{
    let y: u16 = dosyear as u16;
    let m: u16 = month as u16;
    let d: u16 = day as u16;
    (y << 9) | (m << 5) | d
}

/// Packs an absolute calendar year, month and day into a DOS date, clamping
/// the year into 1980-2107 before taking its offset. Years outside the range
/// saturate rather than fail.
pub fn ymd2dosdate(year: u16, month: u8, day: u8) -> (r: u16)
    ensures
        r == spec_pack(spec_clamped_offset(year), month, day),
{
    let bound: u16 = if year < 1980 {
        1980
    } else if year > 2107 {
        2107
    } else {
        year
    };
    let sub: u16 = bound - 1980;
    let s: u8 = sub as u8;
    dosymd2dosdate(s, month, day)
}

/// The two ASCII decimal digits of a value below 100, zero-padded, as a
/// big-endian 16-bit integer: the tens digit in the high byte, the ones
/// digit in the low byte.
pub open spec fn spec_two_digits(n: u8) -> u16
    recommends
        n < 100,
{
    (((0x30 + n / 10) * 0x100 + (0x30 + n % 10)) as u16)
}

/// The four ASCII decimal digits of the calendar year that a year-offset
/// denotes (offset plus 1980), zero-padded, as a big-endian 32-bit integer.
pub open spec fn spec_year_digits(dosyear: u8) -> u32
    recommends
        dosyear <= 127,
{
    let year: int = dosyear + 1980;
    (((0x30 + year / 1000 % 10) * 0x1000000 + (0x30 + year / 100 % 10) * 0x10000 + (0x30 + year
        / 10 % 10) * 0x100 + (0x30 + year % 10)) as u32)
}

/// The rendering of a DOS date: eight ASCII digit bytes spelling
/// `YYYYMMDD`, packed big-endian into a 64-bit integer. Four bytes for the
/// calendar year, then two for the month field, then two for the day field,
/// whatever those fields hold.
pub open spec fn spec_render(dosdate: u16) -> u64 {
    ((spec_year_digits(spec_year_offset(dosdate)) as u64) << 32) | (
    (spec_two_digits(spec_month(dosdate)) as u64) << 16) | (spec_two_digits(
        spec_day(dosdate),
    ) as u64)
}

/// Renders a value below 100 as its two zero-padded ASCII digits, packed
/// big-endian into a 16-bit integer.
fn two_digit_str(n: u8) -> (r: u16)
    requires
        n < 100,
    ensures
        r == spec_two_digits(n),
{
    let tens: u8 = n / 10;
    let ones: u8 = n % 10;
    let hi: u16 = 0x30 + tens as u16;
    let lo: u16 = 0x30 + ones as u16;
    hi * 0x100 + lo
}

/// Renders the calendar year of a year-offset (offset plus 1980) as its four
/// zero-padded ASCII digits, packed big-endian into a 32-bit integer.
fn dosyear_str(dosyear: u8) -> (r: u32)
    requires
        dosyear <= 127,
    ensures
        r == spec_year_digits(dosyear),
{
    let year: u16 = dosyear as u16 + 1980;
    let d0: u16 = year / 1000 % 10;
    let d1: u16 = year / 100 % 10;
    let d2: u16 = year / 10 % 10;
    let d3: u16 = year % 10;
    let b0: u32 = 0x30 + d0 as u32;
    let b1: u32 = 0x30 + d1 as u32;
    let b2: u32 = 0x30 + d2 as u32;
    let b3: u32 = 0x30 + d3 as u32;
    b0 * 0x1000000 + b1 * 0x10000 + b2 * 0x100 + b3
}

/// Renders a DOS date as the 64-bit integer whose big-endian bytes spell
/// `YYYYMMDD`. Total over all 16-bit inputs: semantically invalid month or
/// day fields render their digits literally.
pub fn dosdate_to_str(dosdate: u16) -> (r: u64)
    ensures
        r == spec_render(dosdate),
{
    let m: u8 = dosdate_to_month(dosdate);
    let d: u8 = dosdate_to_day(dosdate);
    let y: u8 = dosdate_to_dosyear(dosdate);

    let day: u16 = two_digit_str(d);
    let mon: u16 = two_digit_str(m);
    let yer: u32 = dosyear_str(y);

    ((yer as u64) << 32) | ((mon as u64) << 16) | (day as u64)
}

/// Renders the date half of a 32-bit DOS datetime as `YYYYMMDD` digits; the
/// time-of-day in the low 16 bits is discarded.
pub fn dostime_to_str(dostime: u32) -> (r: u64)
    ensures
        r == spec_render((dostime >> 16) as u16),
{
    let dosdate: u32 = dostime >> 16;
    dosdate_to_str(dosdate as u16)
}

/// Renders the date half of a 32-bit DOS datetime, as `dostime_to_str` does.
pub fn dostime2str(dostime: u32) -> (r: u64)
    ensures
        r == spec_render((dostime >> 16) as u16),
{
    dostime_to_str(dostime)
}

/// Extracting the fields of a packed DOS date recovers them exactly, for
/// any field values within their declared bit widths.
pub proof fn lemma_pack_extract(dosyear: u8, month: u8, day: u8)
    requires
        dosyear <= 127,
        month <= 15,
        day <= 31,
    ensures
        spec_year_offset(spec_pack(dosyear, month, day)) == dosyear,
        spec_month(spec_pack(dosyear, month, day)) == month,
        spec_day(spec_pack(dosyear, month, day)) == day,
{
    assert(spec_year_offset(spec_pack(dosyear, month, day)) == dosyear && spec_month(
        spec_pack(dosyear, month, day),
    ) == month && spec_day(spec_pack(dosyear, month, day)) == day) by (bit_vector)
        requires
            dosyear <= 127,
            month <= 15,
            day <= 31,
    ;
}

/// Re-composing the fields extracted from a packed DOS date reproduces the
/// packed 16-bit value bit-for-bit, for any field values within their
/// declared bit widths.
pub proof fn lemma_recompose(dosyear: u8, month: u8, day: u8)
    requires
        dosyear <= 127,
        month <= 15,
        day <= 31,
    ensures
        spec_pack(
            spec_year_offset(spec_pack(dosyear, month, day)),
            spec_month(spec_pack(dosyear, month, day)),
            spec_day(spec_pack(dosyear, month, day)),
        ) == spec_pack(dosyear, month, day),
{
    lemma_pack_extract(dosyear, month, day);
}

/// Composing from a calendar year in 1980-2107 and extracting again yields
/// the same year, month and day, for any month and day within their bit
/// widths.
pub proof fn lemma_calendar_round_trip(year: u16, month: u8, day: u8)
    requires
        1980 <= year <= 2107,
        month <= 15,
        day <= 31,
    ensures
        spec_calendar_year(spec_pack(spec_clamped_offset(year), month, day)) == year,
        spec_month(spec_pack(spec_clamped_offset(year), month, day)) == month,
        spec_day(spec_pack(spec_clamped_offset(year), month, day)) == day,
{
    lemma_pack_extract(spec_clamped_offset(year), month, day);
}

/// A calendar year below 1980 composes to the same DOS date as 1980 itself.
pub proof fn lemma_clamp_low(year: u16, month: u8, day: u8)
    requires
        year < 1980,
    ensures
        spec_pack(spec_clamped_offset(year), month, day) == spec_pack(
            spec_clamped_offset(1980),
            month,
            day,
        ),
{
}

/// A calendar year above 2107 composes to the same DOS date as 2107 itself.
pub proof fn lemma_clamp_high(year: u16, month: u8, day: u8)
    requires
        year > 2107,
    ensures
        spec_pack(spec_clamped_offset(year), month, day) == spec_pack(
            spec_clamped_offset(2107),
            month,
            day,
        ),
{
}

/// Two DOS datetimes that agree on their date half render identically: the
/// low 16 time-of-day bits never influence the rendering.
pub proof fn lemma_time_bits_ignored(a: u32, b: u32)
    requires
        a >> 16 == b >> 16,
    ensures
        spec_render((a >> 16) as u16) == spec_render((b >> 16) as u16),
{
}

} // verus!
