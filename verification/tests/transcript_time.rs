use microhttp::transcript::{
    elapsed_components, elapsed_summary, escape_stream_name, log_file_name, Transcript,
};
use microhttp::util;

#[test]
fn trailer_uses_largest_unit_first() {
    assert_eq!(elapsed_summary(2, 5, 1_500_000), "2m 5s 1500\u{00B5}s");
    assert_eq!(elapsed_summary(3, 0, 999), "3m 999ns");
    assert_eq!(elapsed_summary(0, 30, 0), "30s");
    assert_eq!(elapsed_summary(1, 0, 0), "1m");
}

#[test]
fn trailer_omits_zero_components() {
    assert_eq!(elapsed_summary(0, 0, 50_000), "50000ns");
    assert_eq!(elapsed_summary(0, 0, 100_000), "100\u{00B5}s");
    assert_eq!(elapsed_summary(0, 7, 250_000_000), "7s 250000\u{00B5}s");
}

#[test]
fn trailer_shows_zero_nanoseconds_when_everything_is_zero() {
    assert_eq!(elapsed_summary(0, 0, 0), "0ns");
}

#[test]
fn elapsed_components_split_the_interval() {
    assert_eq!(elapsed_components(0, 0, 10, 500), (0, 10, 500));
    assert_eq!(elapsed_components(0, 0, 185, 0), (3, 5, 0));
    assert_eq!(
        elapsed_components(5, 800_000_000, 7, 100_000_000),
        (0, 1, 300_000_000)
    );
    assert_eq!(elapsed_components(100, 0, 40, 0), (0, 0, 0));
    assert_eq!(elapsed_components(10, 5, 10, 5), (0, 0, 0));
}

#[test]
fn time_of_day_rendering() {
    assert_eq!(util::format_time_of_day(0, 0), "00:00:00.000");
    assert_eq!(util::format_time_of_day(86400 + 3661, 5_000_000), "01:01:01.005");
    assert_eq!(util::format_time_of_day(86399, 999_000_000), "23:59:59.999");
}

#[test]
fn date_and_time_rendering_from_epoch() {
    assert_eq!(util::get_time_str_from(0, 0, true, true), "1970-01-01 00:00:00.000");
    assert_eq!(util::get_time_str_from(0, 0, true, false), "1970-01-01");
    assert_eq!(util::get_time_str_from(0, 0, false, true), "00:00:00.000");
    assert_eq!(util::get_time_str_from(0, 0, false, false), "");
    assert_eq!(
        util::get_time_str_from(1_000_000_000, 0, true, true),
        "2001-09-09 01:46:40.000"
    );
}

#[test]
fn clamping_and_second_truncation() {
    assert_eq!(util::clamp_timestamp(-5), 0);
    assert_eq!(util::clamp_timestamp(17), 17);
    assert_eq!(util::time_from_secs(1234, 9), 1234);
    assert_eq!(util::time_from_secs(-1, 9), 9);
    assert_eq!(util::time_from_secs(i64::MAX, 9), 9);
    assert!(util::get_time(0) >= 0);
}

#[test]
fn stream_name_escaping() {
    assert_eq!(escape_stream_name("127.0.0.1:8080"), "127_0_0_1_8080");
    assert_eq!(escape_stream_name("Unknown Address"), "Unknown Address");
}

#[test]
fn log_file_name_with_and_without_counter() {
    assert_eq!(log_file_name("peer", 1234, 0), "peer_1234.log");
    assert_eq!(log_file_name("peer", 1234, 2), "peer_1234_2.log");
    assert_eq!(log_file_name("p", -5, 1), "p_-5_1.log");
}

#[test]
fn transcript_opens_with_introduction() {
    let t = Transcript::new("1.2.3.4:5");
    let lines = t.rendered_lines();
    assert_eq!(lines.len(), 3);
    assert!(lines[0].starts_with("["));
    assert!(lines[0].ends_with("] 1.2.3.4:5 New transcript for HTTP connection"));
    assert!(lines[1].contains(" at "));
    assert!(lines[1].ends_with(" UTC"));
    assert!(lines[2].ends_with(" by 1.2.3.4:5"));
}

#[test]
fn transcript_prefix_stack_composes_in_push_order() {
    let mut t = Transcript::new("peer");
    assert_eq!(t.get_prefix(), Some(String::from("peer")));
    t.add_prefix("outer");
    t.add_prefix("inner");
    assert_eq!(t.get_prefix(), Some(String::from("peer outer inner")));
    t.pop_prefix();
    assert_eq!(t.get_prefix(), Some(String::from("peer outer")));
    t.add_prefix("");
    assert_eq!(t.get_prefix(), Some(String::from("peer")));
    t.pop_prefix();
    assert_eq!(t.get_prefix(), None);
    t.pop_prefix();
    assert_eq!(t.get_prefix(), None);
}

#[test]
fn transcript_push_splits_multi_line_text() {
    let mut t = Transcript::new("peer");
    let before = t.rendered_lines().len();
    t.push("one\ntwo\r\nthree");
    let lines = t.rendered_lines();
    assert_eq!(lines.len(), before + 3);
    assert!(lines[before].ends_with("] peer one"));
    assert!(lines[before + 1].ends_with("] peer two"));
    assert!(lines[before + 2].ends_with("] peer three"));
}

#[test]
fn transcript_push_logs_empty_lines() {
    let mut t = Transcript::new("peer");
    let before = t.rendered_lines().len();
    t.push("");
    let lines = t.rendered_lines();
    assert_eq!(lines.len(), before + 1);
    assert!(lines[before].ends_with("] peer "));
}

#[test]
fn transcript_prefixed_push_restores_the_stack() {
    let mut t = Transcript::new("peer");
    let before = t.rendered_lines().len();
    t.push_with_prefix("-->", "hello");
    assert_eq!(t.get_prefix(), Some(String::from("peer")));
    let lines = t.rendered_lines();
    assert!(lines[before].ends_with("] peer --> hello"));
}

#[test]
fn transcript_close_appends_the_elapsed_trailer() {
    let mut t = Transcript::new("peer");
    let before = t.rendered_lines().len();
    t.close();
    let lines = t.rendered_lines();
    assert_eq!(lines.len(), before + 4);
    assert!(lines[before].ends_with("] peer "));
    assert!(lines[before + 3].contains("Transcript ended after "));
}

#[test]
fn logging_helpers_count_lines() {
    let mut t = Transcript::new("peer");
    let before = t.rendered_lines().len();
    util::log_empty(&mut t, 2);
    assert_eq!(t.rendered_lines().len(), before + 2);
    util::log_title(&mut t, "HTTP Request");
    let lines = t.rendered_lines();
    assert_eq!(lines.len(), before + 5);
    assert!(lines[before + 4].ends_with("] peer HTTP Request"));
    util::read_line(&mut t, "GET / HTTP/1.1");
    let lines = t.rendered_lines();
    assert_eq!(lines.len(), before + 6);
    assert!(lines[before + 5].ends_with("] peer --> GET / HTTP/1.1"));
}
