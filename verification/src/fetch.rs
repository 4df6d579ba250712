//! HRRR file locations, `.idx` sidecar parsing and byte-range selection.
//!
//! HRRR data is on AWS S3 at `noaa-hrrr-bdp-pds` (no auth required). Each
//! GRIB2 file has a `.idx` sidecar listing the byte offset of every field;
//! this module parses that listing and picks the byte range of a field.
//! The downloads themselves are made by the application.

use vstd::prelude::*;
use vstd::utf8::{encode_utf8, is_char_boundary};
use crate::text::{
    chars_of, contains_chars, contains_seq, decimal_string, padded_decimal, parse_signed,
    parse_unsigned, push_decimal, push_str, signed_decimal, split_chars, split_on, str_equal,
    string_of, trim_bounds, trimmed, unsigned_decimal,
};

verus! {

/// An entry parsed from a HRRR `.idx` file.
#[derive(Debug, Clone)]
pub struct IdxEntry {
    pub line_num: u32,
    pub byte_offset: u64,
    pub date: String,
    pub field_name: String,
    pub level: String,
    pub forecast: String,
}

/// The content of an `.idx` entry, its strings taken as characters.
#[verifier::ext_equal]
pub struct IdxRecord {
    pub line_num: u32,
    pub byte_offset: u64,
    pub date: Seq<char>,
    pub field_name: Seq<char>,
    pub level: Seq<char>,
    pub forecast: Seq<char>,
}

impl View for IdxEntry {
    type V = IdxRecord;

    open spec fn view(&self) -> IdxRecord {
        IdxRecord {
            line_num: self.line_num,
            byte_offset: self.byte_offset,
            date: self.date@,
            field_name: self.field_name@,
            level: self.level@,
            forecast: self.forecast@,
        }
    }
}

/// The records of a sequence of entries.
pub open spec fn records(entries: Seq<IdxEntry>) -> Seq<IdxRecord> {
    entries.map_values(|e: IdxEntry| e@)
}

/// `s` without any number of leading `d=` (as `trim_start_matches("d=")`).
pub open spec fn strip_date_prefix(s: Seq<char>) -> Seq<char>
    decreases s.len(),
{
    if s.len() >= 2 && s[0] == 'd' && s[1] == '=' {
        strip_date_prefix(s.skip(2))
    } else {
        s
    }
}

/// The unsigned number written in `s` if it is one and at most `max`, else 0.
pub open spec fn number_or_zero(s: Seq<char>, max: nat) -> nat {
    match unsigned_decimal(s) {
        Some(v) => if v <= max {
            v
        } else {
            0
        },
        None => 0,
    }
}

/// The record that one line of an `.idx` file describes: the trimmed line
/// split at `:` must have at least six parts
/// (`linenum:byte_offset:d=YYYYMMDDHH:FIELD:level:fcst`). A number that does
/// not parse counts as 0.
pub open spec fn idx_record_of_line(line: Seq<char>) -> Option<IdxRecord> {
    let parts = split_on(trimmed(line), ':');
    if parts.len() < 6 {
        None
    } else {
        Some(
            IdxRecord {
                line_num: number_or_zero(parts[0], u32::MAX as nat) as u32,
                byte_offset: number_or_zero(parts[1], u64::MAX as nat) as u64,
                date: strip_date_prefix(parts[2]),
                field_name: parts[3],
                level: parts[4],
                forecast: parts[5],
            },
        )
    }
}

/// The records described by `lines`, in order, skipping lines that describe none.
pub open spec fn idx_records(lines: Seq<Seq<char>>) -> Seq<IdxRecord>
    decreases lines.len(),
{
    if lines.len() == 0 {
        Seq::empty()
    } else {
        let before = idx_records(lines.drop_last());
        match idx_record_of_line(lines.last()) {
            Some(r) => before.push(r),
            None => before,
        }
    }
}

/// Why an `.idx` lookup failed.
#[derive(Debug, Clone, Copy, PartialEq, Eq, Structural)]
pub enum FetchError {
    /// No entry carries the requested field name.
    FieldNotFound,
}

/// The characters `from..` of `s` after dropping every leading `d=`.
fn date_start(s: &[char]) -> (r: usize)
    ensures
        r <= s@.len(),
        s@.skip(r as int) == strip_date_prefix(s@),
{
    let mut k: usize = 0;
    assert(s@.skip(0) =~= s@);
    while s.len() - k >= 2 && s[k] == 'd' && s[k + 1] == '='
        invariant
            k <= s@.len(),
            strip_date_prefix(s@) == strip_date_prefix(s@.skip(k as int)),
        decreases s@.len() - k,
    {
        assert(s@.skip(k as int).skip(2) =~= s@.skip(k + 2));
        k = k + 2;
    }
    k
}

/// The entry that one `.idx` line describes, if any.
fn idx_entry_of_line(line: &[char]) -> (r: Option<IdxEntry>)
    ensures
        match r {
            Some(e) => idx_record_of_line(line@) == Some(e@),
            None => idx_record_of_line(line@) is None,
        },
{
    let (a, b) = trim_bounds(line);
    let parts = split_chars(line, a, b, ':');
    let ghost spec_parts = split_on(trimmed(line@), ':');
    if parts.len() < 6 {
        return None;
    }
    let p0 = parts[0].as_slice();
    let p1 = parts[1].as_slice();
    let p2 = parts[2].as_slice();
    let p3 = parts[3].as_slice();
    let p4 = parts[4].as_slice();
    let p5 = parts[5].as_slice();
    assert(p0@ == spec_parts[0]);
    assert(p1@ == spec_parts[1]);
    assert(p2@ == spec_parts[2]);
    assert(p3@ == spec_parts[3]);
    assert(p4@ == spec_parts[4]);
    assert(p5@ == spec_parts[5]);
    let line_num: u32 = match parse_unsigned(p0, 0, p0.len(), 0xffff_ffff) {
        Some(v) => v as u32,
        None => 0,
    };
    let byte_offset: u64 = match parse_unsigned(p1, 0, p1.len(), 0xffff_ffff_ffff_ffff) {
        Some(v) => v,
        None => 0,
    };
    assert(p0@.subrange(0, p0@.len() as int) =~= p0@);
    assert(p1@.subrange(0, p1@.len() as int) =~= p1@);
    let ds = date_start(p2);
    let date = string_of(p2, ds, p2.len());
    assert(p2@.subrange(ds as int, p2@.len() as int) =~= p2@.skip(ds as int));
    let field_name = string_of(p3, 0, p3.len());
    let level = string_of(p4, 0, p4.len());
    let forecast = string_of(p5, 0, p5.len());
    assert(p3@.subrange(0, p3@.len() as int) =~= p3@);
    assert(p4@.subrange(0, p4@.len() as int) =~= p4@);
    assert(p5@.subrange(0, p5@.len() as int) =~= p5@);
    let e = IdxEntry { line_num, byte_offset, date, field_name, level, forecast };
    assert(idx_record_of_line(line@) == Some(e@));
    Some(e)
}

/// Parses `.idx` file contents, one entry per line of the form
/// `linenum:byte_offset:d=YYYYMMDDHH:FIELD:level:fcst`; blank lines and lines
/// with fewer than six `:`-separated parts are skipped.
pub fn parse_idx(text: &str) -> (r: Result<Vec<IdxEntry>, FetchError>)
    ensures
        r matches Ok(entries) && records(entries@) == idx_records(split_on(text@, '\n')),
{
    let cs = chars_of(text);
    let lines = split_chars(cs.as_slice(), 0, cs.len(), '\n');
    let ghost spec_lines = split_on(text@, '\n');
    assert(cs@.subrange(0, cs@.len() as int) =~= text@);
    let mut entries: Vec<IdxEntry> = Vec::new();
    let mut i: usize = 0;
    assert(spec_lines.take(0) =~= Seq::<Seq<char>>::empty());
    while i < lines.len()
        invariant
            i <= lines@.len(),
            lines@.len() == spec_lines.len(),
            forall|k: int| 0 <= k < lines@.len() ==> #[trigger] lines@[k]@ == spec_lines[k],
            records(entries@) == idx_records(spec_lines.take(i as int)),
        decreases lines@.len() - i,
    {
        let line = lines[i].as_slice();
        assert(spec_lines.take(i + 1).drop_last() =~= spec_lines.take(i as int));
        assert(spec_lines.take(i + 1).last() == line@);
        match idx_entry_of_line(line) {
            Some(e) => {
                entries.push(e);
                assert(records(entries@) =~= idx_records(spec_lines.take(i + 1)));
            },
            None => {},
        }
        i = i + 1;
    }
    assert(spec_lines.take(lines@.len() as int) =~= spec_lines);
    Ok(entries)
}

/// Whether `e` is the field `name` at a level whose text contains `level`.
pub open spec fn exact_match(e: IdxRecord, name: Seq<char>, level: Seq<char>) -> bool {
    e.field_name == name && contains_seq(e.level, level)
}

/// Whether `e` is the field `name`, at any level.
pub open spec fn name_match(e: IdxRecord, name: Seq<char>) -> bool {
    e.field_name == name
}

/// Whether `i` is the entry chosen for field `name` at `level`: the first
/// exact match, or, when there is none, the first entry of that name.
pub open spec fn chosen_index(recs: Seq<IdxRecord>, name: Seq<char>, level: Seq<char>, i: int) -> bool {
    0 <= i < recs.len() && if exists|k: int| 0 <= k < recs.len() && #[trigger] exact_match(recs[k], name, level) {
        exact_match(recs[i], name, level) && forall|k: int| 0 <= k < i ==> !#[trigger] exact_match(recs[k], name, level)
    } else {
        name_match(recs[i], name) && forall|k: int| 0 <= k < i ==> !#[trigger] name_match(recs[k], name)
    }
}

/// Whether some entry is the field `name`.
pub open spec fn has_field(recs: Seq<IdxRecord>, name: Seq<char>) -> bool {
    exists|k: int| 0 <= k < recs.len() && #[trigger] name_match(recs[k], name)
}

/// The byte range of entry `i`: from its offset to just before the next
/// entry's offset (inclusive end), or open-ended for the last entry.
pub open spec fn entry_range(recs: Seq<IdxRecord>, i: int) -> (u64, Option<u64>) {
    (recs[i].byte_offset, if i + 1 < recs.len() {
        Some((recs[i + 1].byte_offset - 1) as u64)
    } else {
        None
    })
}

/// Whether entry `e` is the field `name` at a level containing `level`.
fn entry_matches(e: &IdxEntry, name: &[char], level: &[char], exact: bool) -> (r: bool)
    ensures
        r == if exact {
            exact_match(e@, name@, level@)
        } else {
            name_match(e@, name@)
        },
{
    let field = chars_of(e.field_name.as_str());
    if !crate::text::chars_equal(field.as_slice(), name) {
        return false;
    }
    if !exact {
        return true;
    }
    let lv = chars_of(e.level.as_str());
    contains_chars(lv.as_slice(), level)
}

/// The index of the first entry that matches (exactly, or by name alone).
fn first_match(entries: &[IdxEntry], name: &[char], level: &[char], exact: bool) -> (r: Option<usize>)
    ensures
        match r {
            Some(i) => i < entries@.len() && (if exact {
                exact_match(entries@[i as int]@, name@, level@)
            } else {
                name_match(entries@[i as int]@, name@)
            }) && forall|k: int|
                0 <= k < i ==> !(if exact {
                    exact_match(#[trigger] entries@[k]@, name@, level@)
                } else {
                    name_match(entries@[k]@, name@)
                }),
            None => forall|k: int|
                0 <= k < entries@.len() ==> !(if exact {
                    exact_match(#[trigger] entries@[k]@, name@, level@)
                } else {
                    name_match(entries@[k]@, name@)
                }),
        },
{
    let mut i: usize = 0;
    while i < entries.len()
        invariant
            i <= entries@.len(),
            forall|k: int|
                0 <= k < i ==> !(if exact {
                    exact_match(#[trigger] entries@[k]@, name@, level@)
                } else {
                    name_match(entries@[k]@, name@)
                }),
        decreases entries@.len() - i,
    {
        if entry_matches(&entries[i], name, level, exact) {
            return Some(i);
        }
        i = i + 1;
    }
    None
}

/// The index of the entry for field `idx_name` at `level`: the first entry
/// of that name whose level contains `level`, or else the first entry of
/// that name; `None` when no entry has that name.
pub fn find_field_index(entries: &[IdxEntry], idx_name: &str, level: &str) -> (r: Option<usize>)
    ensures
        match r {
            Some(i) => chosen_index(records(entries@), idx_name@, level@, i as int),
            None => !has_field(records(entries@), idx_name@),
        },
{
    let ghost recs = records(entries@);
    let name = chars_of(idx_name);
    let lv = chars_of(level);
    match first_match(entries, name.as_slice(), lv.as_slice(), true) {
        Some(i) => {
            assert(exact_match(recs[i as int], idx_name@, level@));
            assert forall|k: int| 0 <= k < i implies !#[trigger] exact_match(recs[k], idx_name@, level@) by {
                assert(recs[k] == entries@[k]@);
            }
            Some(i)
        },
        None => {
            assert forall|k: int| 0 <= k < recs.len() implies !#[trigger] exact_match(recs[k], idx_name@, level@) by {
                assert(recs[k] == entries@[k]@);
            }
            match first_match(entries, name.as_slice(), lv.as_slice(), false) {
                Some(i) => {
                    assert(name_match(recs[i as int], idx_name@));
                    assert forall|k: int| 0 <= k < i implies !#[trigger] name_match(recs[k], idx_name@) by {
                        assert(recs[k] == entries@[k]@);
                    }
                    Some(i)
                },
                None => {
                    assert forall|k: int| 0 <= k < recs.len() implies !#[trigger] name_match(recs[k], idx_name@) by {
                        assert(recs[k] == entries@[k]@);
                    }
                    None
                },
            }
        },
    }
}

/// Finds the byte range of field `idx_name` at `level` in the idx entries:
/// `(start_byte, end_byte)` where `end_byte` is inclusive, or `None` for the
/// last entry. An entry whose level contains `level` is preferred; otherwise
/// the first entry with that field name is used.
pub fn find_field_range(entries: &[IdxEntry], idx_name: &str, level: &str) -> (r: Result<
    (u64, Option<u64>),
    FetchError,
>)
    requires
        forall|i: int|
            chosen_index(records(entries@), idx_name@, level@, i) && i + 1 < entries@.len()
                ==> entries@[i + 1].byte_offset >= 1,
    ensures
        r is Err <==> !has_field(records(entries@), idx_name@),
        r matches Err(e) ==> e == FetchError::FieldNotFound,
        r matches Ok(range) ==> exists|i: int|
            chosen_index(records(entries@), idx_name@, level@, i) && range == entry_range(
                records(entries@),
                i,
            ),
{
    let ghost recs = records(entries@);
    match find_field_index(entries, idx_name, level) {
        Some(i) => {
            let start = entries[i].byte_offset;
            let end = if i + 1 < entries.len() {
                assert(recs[i + 1] == entries@[i + 1]@);
                Some(entries[i + 1].byte_offset - 1)
            } else {
                None
            };
            proof {
                assert(recs[i as int] == entries@[i as int]@);
                if exists|k: int| 0 <= k < recs.len() && #[trigger] exact_match(recs[k], idx_name@, level@) {
                    assert(name_match(recs[i as int], idx_name@));
                }
                assert(has_field(recs, idx_name@));
                assert((start, end) == entry_range(recs, i as int));
            }
            Ok((start, end))
        },
        None => Err(FetchError::FieldNotFound),
    }
}

/// Where HRRR files are served from.
pub open spec fn hrrr_base_url() -> Seq<char> {
    "https://noaa-hrrr-bdp-pds.s3.amazonaws.com"@
}

/// The URL of the HRRR surface GRIB2 file of run `run_hour` on `date`, forecast
/// hour `forecast_hour`:
/// `{base}/hrrr.{date}/conus/hrrr.t{HH}z.wrfsfcf{FF}.grib2`.
pub open spec fn grib2_url_text(date: Seq<char>, run_hour: nat, forecast_hour: nat) -> Seq<char> {
    hrrr_base_url() + "/hrrr."@ + date + "/conus/hrrr.t"@ + padded_decimal(run_hour, 2)
        + "z.wrfsfcf"@ + padded_decimal(forecast_hour, 2) + ".grib2"@
}

/// Builds the URL for a HRRR GRIB2 file.
pub fn grib2_url(date: &str, run_hour: u8, forecast_hour: u8) -> (r: String)
    ensures
        r@ == grib2_url_text(date@, run_hour as nat, forecast_hour as nat),
{
    let mut s = String::new();
    push_str(&mut s, "https://noaa-hrrr-bdp-pds.s3.amazonaws.com");
    push_str(&mut s, "/hrrr.");
    push_str(&mut s, date);
    push_str(&mut s, "/conus/hrrr.t");
    push_decimal(&mut s, run_hour as u64, 2);
    push_str(&mut s, "z.wrfsfcf");
    push_decimal(&mut s, forecast_hour as u64, 2);
    push_str(&mut s, ".grib2");
    s
}

/// Builds the URL for the `.idx` sidecar file: the GRIB2 URL with `.idx` appended.
pub fn idx_url(date: &str, run_hour: u8, forecast_hour: u8) -> (r: String)
    ensures
        r@ == grib2_url_text(date@, run_hour as nat, forecast_hour as nat) + ".idx"@,
{
    let mut s = grib2_url(date, run_hour, forecast_hour);
    push_str(&mut s, ".idx");
    s
}

/// The HTTP `Range` header value for bytes `start..=end`, or from `start` to
/// the end of the file.
pub open spec fn range_header_text(start: nat, end: Option<u64>) -> Seq<char> {
    "bytes="@ + decimal_string(start) + "-"@ + match end {
        Some(e) => decimal_string(e as nat),
        None => Seq::empty(),
    }
}

/// Builds the HTTP `Range` header value of a byte range.
pub fn byte_range_header(start: u64, end: Option<u64>) -> (r: String)
    ensures
        r@ == range_header_text(start as nat, end),
{
    let mut s = String::new();
    push_str(&mut s, "bytes=");
    push_decimal(&mut s, start, 0);
    push_str(&mut s, "-");
    match end {
        Some(e) => {
            push_decimal(&mut s, e, 0);
        },
        None => {
            assert(s@ =~= s@ + Seq::<char>::empty());
        },
    }
    s
}

/// Whether a ranged download answered with HTTP status `status` succeeded:
/// any 2xx status (206 Partial Content among them).
pub fn range_status_ok(status: u16) -> (r: bool)
    ensures
        r == (200 <= status <= 299),
{
    200 <= status && status <= 299
}

/// Why a run specification was refused.
#[derive(Debug, Clone, Copy, PartialEq, Eq, Structural)]
pub enum RunError {
    /// Not `latest` and not ten bytes long.
    BadLength,
    /// The last two characters are not an hour number.
    InvalidHour,
    /// The hour is over 23.
    HourOutOfRange { hour: u8 },
    /// The first four characters are not a year number.
    InvalidYear,
    /// Characters five and six are not a month number.
    InvalidMonth,
    /// Characters seven and eight are not a day number.
    InvalidDay,
    /// `latest` was asked for, and the clock reads a time without a calendar date.
    ClockOutOfRange,
}

/// The bytes of a string read one character per byte, as `str::parse` reads
/// a number: an ASCII byte is its own character, any other byte is a
/// character that is neither a digit nor a sign.
pub open spec fn byte_text(b: Seq<u8>) -> Seq<char> {
    b.map_values(|x: u8| x as char)
}

/// The hour written in bytes 8..10 of a run specification, if it is a `u8`.
pub open spec fn run_hour(b: Seq<u8>) -> Option<nat> {
    match unsigned_decimal(byte_text(b.subrange(8, 10))) {
        Some(h) => if h <= u8::MAX {
            Some(h)
        } else {
            None
        },
        None => None,
    }
}

/// Whether bytes 0..4 of a run specification are an `i32` year number.
pub open spec fn run_year_ok(b: Seq<u8>) -> bool {
    match signed_decimal(byte_text(b.subrange(0, 4))) {
        Some(y) => i32::MIN <= y <= i32::MAX,
        None => false,
    }
}

/// Whether bytes `from..to` are a `u32` number.
pub open spec fn u32_number_at(b: Seq<u8>, from: int, to: int) -> bool {
    match unsigned_decimal(byte_text(b.subrange(from, to))) {
        Some(v) => v <= u32::MAX,
        None => false,
    }
}

/// What a `YYYYMMDDHH` run specification with bytes `b` gives: its hour, or why
/// it is refused. The checks come in this order: length, hour, hour range,
/// year, month, day.
pub open spec fn run_outcome(b: Seq<u8>) -> Result<u8, RunError> {
    if b.len() != 10 {
        Err(RunError::BadLength)
    } else {
        match run_hour(b) {
            None => Err(RunError::InvalidHour),
            Some(h) => if h > 23 {
                Err(RunError::HourOutOfRange { hour: h as u8 })
            } else if !run_year_ok(b) {
                Err(RunError::InvalidYear)
            } else if !u32_number_at(b, 4, 6) {
                Err(RunError::InvalidMonth)
            } else if !u32_number_at(b, 6, 8) {
                Err(RunError::InvalidDay)
            } else {
                Ok(h as u8)
            },
        }
    }
}

/// Whether the specification can be cut where it is read: the date and hour
/// parts at byte 8, and, once the hour is good, the year at byte 4 and, once
/// the year is good, the month at byte 6, each at a character boundary.
pub open spec fn run_cuts_ok(b: Seq<u8>) -> bool {
    b.len() == 10 ==> {
        &&& is_char_boundary(b, 8)
        &&& (run_hour(b) matches Some(h) && h <= 23) ==> is_char_boundary(b, 4)
        &&& (run_hour(b) matches Some(h) && h <= 23 && run_year_ok(b)) ==> is_char_boundary(b, 6)
    }
}

/// `byte_text` of bytes `from..to` of `b`.
fn byte_chars(b: &[u8], from: usize, to: usize) -> (r: Vec<char>)
    requires
        from <= to <= b@.len(),
    ensures
        r@ == byte_text(b@.subrange(from as int, to as int)),
{
    let mut out: Vec<char> = Vec::new();
    let mut i = from;
    while i < to
        invariant
            from <= i <= to <= b@.len(),
            out@ == byte_text(b@.subrange(from as int, i as int)),
        decreases to - i,
    {
        out.push(b[i] as char);
        assert(byte_text(b@.subrange(from as int, i + 1)) =~= byte_text(b@.subrange(from as int, i as int)).push(b@[i as int] as char));
        i = i + 1;
    }
    out
}

/// The seconds of a Unix time past the last midnight, divided into hours.
pub open spec fn utc_hour(secs: int) -> int {
    (secs % 86400) / 3600
}

/// The UTC calendar date of Unix time `secs`, written `YYYYMMDD` by chrono.
pub uninterp spec fn utc_calendar_date(secs: int) -> Seq<char>;

/// `DateTime::<Utc>::from_timestamp(secs, 0)` formatted with `%Y%m%d`: the
/// UTC calendar date of Unix time `secs`, a function of `secs` alone.
/// chrono has a date for every time within its range of years
/// (about ±262000), so for every time within 2^40 seconds (about 34800
/// years) of the epoch.
#[verifier::external_body]
fn utc_date_digits(secs: i64) -> (r: Option<String>)
    ensures
        -0x100_0000_0000 <= secs <= 0x100_0000_0000 ==> r is Some,
        r matches Some(d) ==> d@ == utc_calendar_date(secs as int),
{
    match chrono::DateTime::from_timestamp(secs, 0) {
        Some(t) => Some(t.format("%Y%m%d").to_string()),
        None => None,
    }
}

/// `SystemTime::elapsed` of `UNIX_EPOCH`: the system clock's whole seconds
/// since the Unix epoch, or `None` when the clock reads a time before the
/// epoch. It depends on when it is read, so nothing more is stated of it.
#[verifier::external_body]
fn unix_clock_seconds() -> (r: Option<u64>) {
    match std::time::UNIX_EPOCH.elapsed() {
        Ok(d) => Some(d.as_secs()),
        Err(_) => None,
    }
}

/// The latest HRRR run that can be expected to be available at Unix time
/// `now_secs`: HRRR runs every hour with about 1.5 hours of delay, so the run
/// two hours back, as `(YYYYMMDD, hour)`. `None` when that time has no
/// calendar date.
pub fn resolve_latest_at(now_secs: i64) -> (r: Option<(String, u8)>)
    ensures
        -0x100_0000_0000 <= now_secs - 7200 <= 0x100_0000_0000 ==> r is Some,
        r matches Some((d, h)) ==> d@ == utc_calendar_date(now_secs - 7200) && h == utc_hour(
            now_secs - 7200,
        ),
{
    let run = match now_secs.checked_sub(7200) {
        Some(t) => t,
        None => {
            return None;
        },
    };
    let day_secs = match run.checked_rem_euclid(86400) {
        Some(m) => m,
        None => {
            return None;
        },
    };
    let hour = (day_secs / 3600) as u8;
    match utc_date_digits(run) {
        Some(d) => Some((d, hour)),
        None => None,
    }
}

/// Resolves `latest` to a `(date, run_hour)` pair from the system clock: the
/// run two hours before now. `None` when the clock reads a time before the
/// Unix epoch or one without a calendar date.
pub fn resolve_latest() -> (r: Option<(String, u8)>)
    ensures
        r matches Some((d, h)) ==> exists|t: int| d@ == utc_calendar_date(t) && h == utc_hour(t),
{
    let now: i64 = match unix_clock_seconds() {
        Some(secs) => if secs <= 0x7fff_ffff_ffff_ffff {
            secs as i64
        } else {
            return None;
        },
        None => {
            return None;
        },
    };
    let r = resolve_latest_at(now);
    proof {
        if r is Some {
            let t = now - 7200;
            let (d, h) = r->0;
            assert(d@ == utc_calendar_date(t) && h == utc_hour(t));
        }
    }
    r
}

/// Whether `parse_run` can cut `run` where it reads it (see `run_cuts_ok`).
pub fn run_cuts_valid(run: &str) -> (r: bool)
    ensures
        r == (run@ != "latest"@ ==> run_cuts_ok(encode_utf8(run@))),
{
    if str_equal(run, "latest") {
        return true;
    }
    let b = run.as_bytes();
    if b.len() != 10 {
        return true;
    }
    if !run.is_char_boundary(8) {
        return false;
    }
    let hour_text = byte_chars(b, 8, 10);
    assert(hour_text@.subrange(0, 2) =~= hour_text@);
    let hour_ok = match parse_unsigned(hour_text.as_slice(), 0, 2, 255) {
        Some(h) => h <= 23,
        None => false,
    };
    if !hour_ok {
        return true;
    }
    if !run.is_char_boundary(4) {
        return false;
    }
    let year_text = byte_chars(b, 0, 4);
    assert(year_text@.subrange(0, 4) =~= year_text@);
    if parse_signed(year_text.as_slice(), 0, 4, -2147483648, 2147483647).is_none() {
        return true;
    }
    run.is_char_boundary(6)
}

/// Parses a run specification: `latest`, or `YYYYMMDDHH` (ten bytes: a year,
/// month and day number and an hour from 0 to 23) into `(YYYYMMDD, hour)`.
pub fn parse_run(run: &str) -> (r: Result<(String, u8), RunError>)
    requires
        run@ != "latest"@ ==> run_cuts_ok(encode_utf8(run@)),
    ensures
        run@ != "latest"@ ==> match run_outcome(encode_utf8(run@)) {
            Ok(h) => r matches Ok((d, hh)) && hh == h && encode_utf8(d@) == encode_utf8(run@).take(8),
            Err(e) => r == Err::<(String, u8), RunError>(e),
        },
        run@ == "latest"@ ==> match r {
            Ok((d, h)) => exists|t: int| d@ == utc_calendar_date(t) && h == utc_hour(t),
            Err(e) => e == RunError::ClockOutOfRange,
        },
{
    if str_equal(run, "latest") {
        return match resolve_latest() {
            Some(p) => Ok(p),
            None => Err(RunError::ClockOutOfRange),
        };
    }
    let b = run.as_bytes();
    if b.len() != 10 {
        return Err(RunError::BadLength);
    }
    let hour_text = byte_chars(b, 8, 10);
    assert(hour_text@.subrange(0, 2) =~= hour_text@);
    let hour: u8 = match parse_unsigned(hour_text.as_slice(), 0, 2, 255) {
        Some(h) => h as u8,
        None => {
            return Err(RunError::InvalidHour);
        },
    };
    if hour > 23 {
        return Err(RunError::HourOutOfRange { hour });
    }
    let year_text = byte_chars(b, 0, 4);
    assert(year_text@.subrange(0, 4) =~= year_text@);
    if parse_signed(year_text.as_slice(), 0, 4, -2147483648, 2147483647).is_none() {
        return Err(RunError::InvalidYear);
    }
    let month_text = byte_chars(b, 4, 6);
    assert(month_text@.subrange(0, 2) =~= month_text@);
    if parse_unsigned(month_text.as_slice(), 0, 2, 0xffff_ffff).is_none() {
        return Err(RunError::InvalidMonth);
    }
    let day_text = byte_chars(b, 6, 8);
    assert(day_text@.subrange(0, 2) =~= day_text@);
    if parse_unsigned(day_text.as_slice(), 0, 2, 0xffff_ffff).is_none() {
        return Err(RunError::InvalidDay);
    }
    let (date, _) = run.split_at(8);
    Ok((date.to_owned(), hour))
}

/// An accepted run specification names an hour of the day, 0 to 23.
pub proof fn law_accepted_run_hour_in_day(b: Seq<u8>)
    ensures
        run_outcome(b) matches Ok(h) ==> h <= 23,
{
}

/// The hour resolved for `latest` is an hour of the day, 0 to 23.
pub proof fn law_utc_hour_in_day(secs: int)
    ensures
        0 <= utc_hour(secs) < 24,
{
    assert(0 <= secs % 86400 < 86400);
}

/// The `.idx` URL is the GRIB2 URL with `.idx` appended.
pub proof fn law_idx_url_extends_grib2_url(date: Seq<char>, run_hour: nat, forecast_hour: nat)
    ensures
        (grib2_url_text(date, run_hour, forecast_hour) + ".idx"@).take(
            grib2_url_text(date, run_hour, forecast_hour).len() as int,
        ) == grib2_url_text(date, run_hour, forecast_hour),
{
    let g = grib2_url_text(date, run_hour, forecast_hour);
    assert((g + ".idx"@).take(g.len() as int) =~= g);
}

/// A field's byte range ends just before the next entry starts, so the
/// ranges of consecutive entries abut.
pub proof fn law_range_ends_before_next_entry(recs: Seq<IdxRecord>, i: int)
    requires
        0 <= i,
        i + 1 < recs.len(),
        recs[i + 1].byte_offset >= 1,
    ensures
        entry_range(recs, i).0 == recs[i].byte_offset,
        entry_range(recs, i).1 matches Some(end) && end + 1 == recs[i + 1].byte_offset,
{
}

/// The chosen entry carries the requested field name, and when some entry
/// also matches the level, the chosen one does.
pub proof fn law_chosen_entry_is_requested_field(recs: Seq<IdxRecord>, name: Seq<char>, level: Seq<char>, i: int)
    requires
        chosen_index(recs, name, level, i),
    ensures
        recs[i].field_name == name,
        (exists|k: int| 0 <= k < recs.len() && #[trigger] exact_match(recs[k], name, level))
            ==> contains_seq(recs[i].level, level),
{
}

/// The chosen entry comes first among its kind: no entry before it has the
/// requested name at a matching level, and when no entry matches the level,
/// no entry before it has the requested name; so two entries that both match
/// are never chosen past the earlier one.
pub proof fn law_chosen_entry_is_first(recs: Seq<IdxRecord>, name: Seq<char>, level: Seq<char>, i: int, k: int)
    requires
        chosen_index(recs, name, level, i),
        0 <= k < recs.len(),
    ensures
        recs[k].field_name == name && contains_seq(recs[k].level, level) ==> i <= k,
        recs[k].field_name == name && !(exists|j: int|
            0 <= j < recs.len() && recs[j].field_name == name && #[trigger] contains_seq(recs[j].level, level))
            ==> i <= k,
{
    if recs[k].field_name == name && contains_seq(recs[k].level, level) {
        assert(exact_match(recs[k], name, level));
    }
    if !(exists|j: int| 0 <= j < recs.len() && recs[j].field_name == name && #[trigger] contains_seq(recs[j].level, level)) {
        assert forall|j: int| 0 <= j < recs.len() implies !#[trigger] exact_match(recs[j], name, level) by {
            if exact_match(recs[j], name, level) {
                assert(contains_seq(recs[j].level, level));
            }
        }
        assert(!exists|j: int| 0 <= j < recs.len() && #[trigger] exact_match(recs[j], name, level));
        if recs[k].field_name == name {
            assert(name_match(recs[k], name));
        }
    }
}

} // verus!
