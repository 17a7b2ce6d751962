use boottime::statline::{nth_field_range, parse_u64, pid1_start_ticks};

fn stat_line(start_ticks: &str) -> String {
    // Twenty-one fields before the start-time field, as in a process
    // accounting line.
    format!(
        "1 (init) S 0 1 1 0 -1 4194560 9532 84240 73 514 140 88 1006 468 20 0 1 0 {} 175243264 2359",
        start_ticks
    )
}

#[test]
fn start_ticks_read_from_field_22() {
    let line = stat_line("170");
    assert_eq!(pid1_start_ticks(line.as_bytes()), Some(170));
}

#[test]
fn truncated_line_gives_none() {
    assert_eq!(pid1_start_ticks(b"1 (init) S 0 1 1 0 -1"), None);
    assert_eq!(pid1_start_ticks(b""), None);
    assert_eq!(pid1_start_ticks(b"   "), None);
}

#[test]
fn non_numeric_start_field_gives_none() {
    let line = stat_line("-5");
    assert_eq!(pid1_start_ticks(line.as_bytes()), None);
}

#[test]
fn repeated_whitespace_is_one_separator() {
    let line = stat_line("170").replace(' ', "  \t");
    assert_eq!(pid1_start_ticks(line.as_bytes()), Some(170));
}

#[test]
fn field_ranges() {
    let s = b"  ab  cd ";
    assert_eq!(nth_field_range(s, 0), Some((2, 4)));
    assert_eq!(nth_field_range(s, 1), Some((6, 8)));
    assert_eq!(nth_field_range(s, 2), None);
}

#[test]
fn parse_decimal_fields() {
    assert_eq!(parse_u64(b""), None);
    assert_eq!(parse_u64(b"0"), Some(0));
    assert_eq!(parse_u64(b"007"), Some(7));
    assert_eq!(parse_u64(b"170"), Some(170));
    assert_eq!(parse_u64(b"12a"), None);
    assert_eq!(parse_u64(b"+5"), None);
    assert_eq!(parse_u64(b"18446744073709551615"), Some(u64::MAX));
    assert_eq!(parse_u64(b"18446744073709551616"), None);
    assert_eq!(parse_u64(b"99999999999999999999999"), None);
}
