use precise_api::decfmt::{u64_to_dec, u64_to_dec_pad2, u64_to_dec_pad4};
use precise_api::logging::{ClockTime, LoggingMiddlewareService, PendingRequestLog};

fn sample_instant() -> ClockTime {
    ClockTime { year: 2024, month: 3, day: 7, hour: 9, minute: 5, second: 42 }
}

#[test]
fn decimal_rendering_is_exact() {
    assert_eq!(u64_to_dec(0), "0");
    assert_eq!(u64_to_dec(7), "7");
    assert_eq!(u64_to_dec(10), "10");
    assert_eq!(u64_to_dec(65535), "65535");
    assert_eq!(u64_to_dec(u64::MAX), "18446744073709551615");
    assert_eq!(u64_to_dec_pad2(9), "09");
    assert_eq!(u64_to_dec_pad2(42), "42");
    assert_eq!(u64_to_dec_pad4(7), "0007");
    assert_eq!(u64_to_dec_pad4(87), "0087");
    assert_eq!(u64_to_dec_pad4(987), "0987");
    assert_eq!(u64_to_dec_pad4(1987), "1987");
}

#[test]
fn timestamp_and_file_name_render_zero_padded() {
    let t = sample_instant();
    assert_eq!(t.format_timestamp(), "2024-03-07 09:05:42");
    assert_eq!(t.log_file_name(), "2024-03-07.log");
}

#[test]
fn log_line_has_the_fixed_field_order() {
    let pending = PendingRequestLog::begin(
        "GET".to_string(),
        "/precise/api/master/countries".to_string(),
        "127.0.0.1:5050".to_string(),
    );
    let entry = pending.complete(200, 12, sample_instant());
    assert_eq!(
        entry.format_line(),
        "[2024-03-07 09:05:42] 127.0.0.1:5050 GET /precise/api/master/countries 200 12ms\n"
    );
}

#[test]
fn a_burst_of_appends_yields_one_line_each() {
    let mut sink = LoggingMiddlewareService::new();
    let n = 25u16;
    for i in 0..n {
        let pending = PendingRequestLog::begin(
            "PUT".to_string(),
            format!("/precise/api/master/countries/{i}"),
            "10.0.0.9:4242".to_string(),
        );
        let entry = pending.complete(200, u64::from(i), sample_instant());
        sink.append_entry(&entry);
    }
    assert_eq!(sink.lines.len(), usize::from(n));
    let joined: String = sink.lines.concat();
    assert_eq!(joined.matches('\n').count(), usize::from(n));
    for line in &sink.lines {
        assert!(line.ends_with('\n'));
        let body = &line[..line.len() - 1];
        assert!(!body.contains('\n'));
        assert!(body.starts_with("[2024-03-07 09:05:42] 10.0.0.9:4242 PUT "));
    }
}
