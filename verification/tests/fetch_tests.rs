use hrrr_render::fetch::{
    byte_range_header, find_field_index, find_field_range, grib2_url, idx_url, parse_idx,
    parse_run, range_status_ok, resolve_latest, resolve_latest_at, FetchError, IdxEntry, RunError,
};

fn entry(line_num: u32, byte_offset: u64, field_name: &str, level: &str) -> IdxEntry {
    IdxEntry {
        line_num,
        byte_offset,
        date: "2024031512".into(),
        field_name: field_name.into(),
        level: level.into(),
        forecast: "anl".into(),
    }
}

#[test]
fn test_parse_idx() {
    let idx_text = r#"1:0:d=2024031512:REFC:entire atmosphere:anl:
2:5765388:d=2024031512:RETOP:cloud top:anl:
3:8914498:d=2024031512:VIS:surface:anl:
4:16968498:d=2024031512:TMP:2 m above ground:anl:
5:22003498:d=2024031512:DPT:2 m above ground:anl:
"#;
    let entries = parse_idx(idx_text).unwrap();
    assert_eq!(entries.len(), 5);
    assert_eq!(entries[0].field_name, "REFC");
    assert_eq!(entries[0].byte_offset, 0);
    assert_eq!(entries[3].field_name, "TMP");
    assert_eq!(entries[3].level, "2 m above ground");
}

#[test]
fn test_find_field_range() {
    let entries = vec![
        IdxEntry { line_num: 1, byte_offset: 0, date: "2024031512".into(), field_name: "REFC".into(), level: "entire atmosphere".into(), forecast: "anl".into() },
        IdxEntry { line_num: 2, byte_offset: 5000, date: "2024031512".into(), field_name: "TMP".into(), level: "2 m above ground".into(), forecast: "anl".into() },
        IdxEntry { line_num: 3, byte_offset: 10000, date: "2024031512".into(), field_name: "DPT".into(), level: "2 m above ground".into(), forecast: "anl".into() },
    ];
    let (start, end) = find_field_range(&entries, "TMP", "2 m above ground").unwrap();
    assert_eq!(start, 5000);
    assert_eq!(end, Some(9999));
}

#[test]
fn test_parse_run() {
    let (date, hour) = parse_run("2024031512").unwrap();
    assert_eq!(date, "20240315");
    assert_eq!(hour, 12);
}

#[test]
fn parse_idx_reads_every_part_of_a_line() {
    let entries = parse_idx("  7:123:d=2024031512:HGT:500 mb:6 hour fcst:extra:more  \n").unwrap();
    assert_eq!(entries.len(), 1);
    let e = &entries[0];
    assert_eq!(e.line_num, 7);
    assert_eq!(e.byte_offset, 123);
    assert_eq!(e.date, "2024031512");
    assert_eq!(e.field_name, "HGT");
    assert_eq!(e.level, "500 mb");
    assert_eq!(e.forecast, "6 hour fcst");
}

#[test]
fn parse_idx_skips_blank_and_short_lines() {
    let text = "\n   \n1:0:d=2024031512:REFC:entire atmosphere\r\n2:10:d=2024031512:VIS:surface:anl\r\n\r\n";
    let entries = parse_idx(text).unwrap();
    assert_eq!(entries.len(), 1);
    assert_eq!(entries[0].field_name, "VIS");
    assert_eq!(entries[0].forecast, "anl");
}

#[test]
fn parse_idx_bad_numbers_count_as_zero() {
    let entries = parse_idx("x:-5:d=2024031512:TMP:surface:anl:\n4294967296:18446744073709551616:d=1:A:b:c\n").unwrap();
    assert_eq!(entries.len(), 2);
    assert_eq!(entries[0].line_num, 0);
    assert_eq!(entries[0].byte_offset, 0);
    // Numbers past the integer range do not parse either.
    assert_eq!(entries[1].line_num, 0);
    assert_eq!(entries[1].byte_offset, 0);
}

#[test]
fn parse_idx_strips_every_date_prefix() {
    let entries = parse_idx("1:0:d=d=2024031512:TMP:surface:anl\n2:0:2024031512:TMP:surface:anl\n").unwrap();
    assert_eq!(entries[0].date, "2024031512");
    assert_eq!(entries[1].date, "2024031512");
}

#[test]
fn parse_idx_of_empty_text_is_empty() {
    assert!(parse_idx("").unwrap().is_empty());
}

#[test]
fn find_field_range_last_entry_is_open_ended() {
    let entries = vec![entry(1, 0, "REFC", "entire atmosphere"), entry(2, 5000, "TMP", "2 m above ground")];
    assert_eq!(find_field_range(&entries, "TMP", "2 m above ground"), Ok((5000, None)));
}

#[test]
fn find_field_range_level_is_a_substring_match() {
    let entries = vec![
        entry(1, 0, "TMP", "500 mb"),
        entry(2, 100, "TMP", "2 m above ground"),
        entry(3, 300, "DPT", "2 m above ground"),
    ];
    assert_eq!(find_field_range(&entries, "TMP", "above ground"), Ok((100, Some(299))));
}

#[test]
fn find_field_range_falls_back_to_first_entry_of_the_name() {
    let entries = vec![
        entry(1, 0, "REFC", "entire atmosphere"),
        entry(2, 100, "TMP", "500 mb"),
        entry(3, 300, "TMP", "700 mb"),
    ];
    assert_eq!(find_field_range(&entries, "TMP", "2 m above ground"), Ok((100, Some(299))));
    assert_eq!(find_field_index(&entries, "TMP", "2 m above ground"), Some(1));
    assert_eq!(find_field_index(&entries, "TMP", "700"), Some(2));
}

#[test]
fn find_field_range_reports_a_missing_field() {
    let entries = vec![entry(1, 0, "REFC", "entire atmosphere")];
    assert_eq!(find_field_range(&entries, "TMP", "2 m above ground"), Err(FetchError::FieldNotFound));
    assert_eq!(find_field_range(&[], "TMP", "2 m above ground"), Err(FetchError::FieldNotFound));
    assert_eq!(find_field_index(&entries, "REF", ""), None);
}

#[test]
fn consecutive_ranges_abut() {
    let entries = vec![entry(1, 0, "A", "x"), entry(2, 77, "B", "x"), entry(3, 200, "C", "x")];
    let (_, end_a) = find_field_range(&entries, "A", "x").unwrap();
    let (start_b, _) = find_field_range(&entries, "B", "x").unwrap();
    assert_eq!(end_a.unwrap() + 1, start_b);
}

#[test]
fn parse_run_reports_each_error() {
    assert_eq!(parse_run("202403151"), Err(RunError::BadLength));
    assert_eq!(parse_run("20240315123"), Err(RunError::BadLength));
    assert_eq!(parse_run(""), Err(RunError::BadLength));
    assert_eq!(parse_run("20240315xx"), Err(RunError::InvalidHour));
    assert_eq!(parse_run("20240315-1"), Err(RunError::InvalidHour));
    assert_eq!(parse_run("2024031524"), Err(RunError::HourOutOfRange { hour: 24 }));
    assert_eq!(parse_run("2024031599"), Err(RunError::HourOutOfRange { hour: 99 }));
    assert_eq!(parse_run("abcd031512"), Err(RunError::InvalidYear));
    assert_eq!(parse_run("2024ab1512"), Err(RunError::InvalidMonth));
    assert_eq!(parse_run("202403ab12"), Err(RunError::InvalidDay));
}

#[test]
fn parse_run_accepts_what_integer_parsing_accepts() {
    // A sign before the hour, or a negative year, parses as a number.
    assert_eq!(parse_run("20240315+7"), Ok(("20240315".to_string(), 7)));
    assert_eq!(parse_run("-12301+100"), Ok(("-12301+1".to_string(), 0)));
    assert_eq!(parse_run("2024000000"), Ok(("20240000".to_string(), 0)));
}

#[test]
fn parse_run_latest_gives_an_hour_of_the_day() {
    let (date, hour) = parse_run("latest").unwrap();
    assert!(hour < 24);
    assert_eq!(date.len(), 8);
    let (date2, hour2) = resolve_latest().unwrap();
    assert!(hour2 < 24);
    assert_eq!(date2.len(), 8);
}

#[test]
fn resolve_latest_goes_two_hours_back() {
    // 2024-03-15 12:00:00 UTC.
    assert_eq!(resolve_latest_at(1710504000), Some(("20240315".to_string(), 10)));
    // 2024-03-16 01:30:00 UTC: two hours earlier is the previous day.
    assert_eq!(resolve_latest_at(1710552600), Some(("20240315".to_string(), 23)));
    // Before the epoch the hour still counts from midnight.
    assert_eq!(resolve_latest_at(0), Some(("19691231".to_string(), 22)));
    assert_eq!(resolve_latest_at(i64::MIN), None);
}

#[test]
fn urls_follow_the_bucket_layout() {
    assert_eq!(
        grib2_url("20240315", 12, 6),
        "https://noaa-hrrr-bdp-pds.s3.amazonaws.com/hrrr.20240315/conus/hrrr.t12z.wrfsfcf06.grib2"
    );
    assert_eq!(
        idx_url("20240315", 3, 18),
        "https://noaa-hrrr-bdp-pds.s3.amazonaws.com/hrrr.20240315/conus/hrrr.t03z.wrfsfcf18.grib2.idx"
    );
    assert_eq!(idx_url("d", 0, 0), format!("{}.idx", grib2_url("d", 0, 0)));
    assert!(grib2_url("20240315", 123, 0).contains("hrrr.t123z"));
}

#[test]
fn range_header_and_status() {
    assert_eq!(byte_range_header(5000, Some(9999)), "bytes=5000-9999");
    assert_eq!(byte_range_header(0, None), "bytes=0-");
    assert_eq!(byte_range_header(u64::MAX, Some(10)), "bytes=18446744073709551615-10");
    assert!(range_status_ok(200));
    assert!(range_status_ok(206));
    assert!(!range_status_ok(404));
    assert!(!range_status_ok(300));
    assert!(!range_status_ok(199));
}

#[test]
fn whitespace_matches_the_standard_library() {
    for code in 0..=0x10FFFFu32 {
        if let Some(c) = char::from_u32(code) {
            assert_eq!(hrrr_render::text::is_whitespace(c), c.is_whitespace(), "{:x}", code);
        }
    }
}
