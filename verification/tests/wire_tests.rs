use microhttp::http_error::{HttpCode, HttpError};
use microhttp::transcript::Transcript;
use microhttp::wire;

#[test]
fn write_line_appends_terminated_line_and_logs_it() {
    let mut ts = Transcript::new("peer");
    let before = ts.rendered_lines().len();
    let mut head = String::new();
    wire::write_line(&mut ts, &mut head, "HTTP/1.1 200 OK");
    assert_eq!(head, "HTTP/1.1 200 OK\r\n");
    let lines = ts.rendered_lines();
    assert_eq!(lines.len(), before + 1);
    assert!(lines[before].ends_with("] peer <-- HTTP/1.1 200 OK"));
}

#[test]
fn write_data_appends_bytes_and_logs_a_placeholder() {
    let mut ts = Transcript::new("peer");
    let mut body: Vec<u8> = vec![1, 2];
    wire::write_data(&mut ts, &mut body, &vec![3, 4, 5]);
    assert_eq!(body, vec![1, 2, 3, 4, 5]);
    let lines = ts.rendered_lines();
    assert!(lines[lines.len() - 1].ends_with("] peer <-- <binary data>"));
}

#[test]
fn write_body_emits_byte_length_blank_line_and_body() {
    let mut ts = Transcript::new("peer");
    let mut head = String::new();
    wire::write_body(&mut ts, &mut head, "h\u{00E9}llo");
    assert_eq!(head, "Content-Length: 6\r\n\r\nh\u{00E9}llo\r\n");
}

#[test]
fn write_body_data_emits_length_into_head_and_bytes_into_body() {
    let mut ts = Transcript::new("peer");
    let mut head = String::from("X");
    let mut body: Vec<u8> = Vec::new();
    wire::write_body_data(&mut ts, &mut head, &mut body, &vec![9, 8, 7]);
    assert_eq!(head, "XContent-Length: 3\r\n\r\n");
    assert_eq!(body, vec![9, 8, 7]);
}

#[test]
fn write_error_serializes_the_early_failure_response() {
    let mut ts = Transcript::new("peer");
    let mut head = String::new();
    let mut err = HttpError::new_with_message(HttpCode::E403, "internal only");
    let err = err.set_info("bad path");
    wire::write_error(&mut ts, &mut head, &err);
    let body = "<html><body><h1>Forbidden</h1></body></html>";
    let expected = format!(
        "HTTP/1.1 403 Forbidden\r\nX-Error-Info: ERROR 403 Forbidden: bad path\r\nConnection: close\r\nContent-Type: text/html\r\nContent-Length: {}\r\n\r\n{}\r\n",
        body.len(),
        body
    );
    assert_eq!(head, expected);
    assert!(!head.contains("internal only"));
}
