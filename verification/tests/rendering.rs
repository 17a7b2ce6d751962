use boottime::boot::{BootTimeRecord, RawTimestamps};
use boottime::duration::HumanDuration;
use boottime::text::u64_to_string;

#[test]
fn all_unknown_renders_question_marks() {
    let rec = BootTimeRecord {
        firmware: None,
        loader: None,
        kernel: None,
        initrd: None,
        userspace: None,
        total: None,
    };
    assert_eq!(
        rec.render(),
        "? (firmware) + ? (loader) + ? (kernel) + ? (initrd) + ? (userspace) = ?"
    );
}

#[test]
fn derived_record_renders_milliseconds() {
    let rec = BootTimeRecord::derive(&RawTimestamps {
        firmware_ts: 200_000,
        loader_ts: 150_000,
        initrd_ts: 0,
        userspace_ts: 300_000,
        finish_ts: 900_000,
    });
    assert_eq!(
        rec.render(),
        "50ms (firmware) + 150ms (loader) + 300ms (kernel) + ? (initrd) + 600ms (userspace) = 900ms"
    );
}

#[test]
fn sub_millisecond_durations_render_as_zero() {
    let rec = BootTimeRecord {
        firmware: Some(999),
        loader: None,
        kernel: None,
        initrd: None,
        userspace: None,
        total: Some(1_000),
    };
    assert_eq!(
        rec.render(),
        "0ms (firmware) + ? (loader) + ? (kernel) + ? (initrd) + ? (userspace) = 1ms"
    );
}

#[test]
fn decimal_rendering() {
    assert_eq!(u64_to_string(0), "0");
    assert_eq!(u64_to_string(7), "7");
    assert_eq!(u64_to_string(10), "10");
    assert_eq!(u64_to_string(1_234_567_890), "1234567890");
    assert_eq!(u64_to_string(u64::MAX), "18446744073709551615");
}

#[test]
fn human_duration_units() {
    assert_eq!(HumanDuration(0).render(), "0s");
    assert_eq!(HumanDuration(59).render(), "59s");
    assert_eq!(HumanDuration(60).render(), "1m");
    assert_eq!(HumanDuration(3_599).render(), "59m");
    assert_eq!(HumanDuration(3_600).render(), "1h");
    assert_eq!(HumanDuration(7_200).render(), "2h");
    assert_eq!(HumanDuration(86_399).render(), "23h");
    assert_eq!(HumanDuration(86_400).render(), "1d");
    assert_eq!(HumanDuration(259_200).render(), "3d");
}
