use microhttp::headers::HttpHeaders;
use microhttp::http_error::HttpCode;
use microhttp::http_errors;
use microhttp::http_util;
use microhttp::request::{HttpRequest, ResourceType};
use microhttp::response::{apply_file_result, HttpResponse, HttpResponseData};

fn parse_head(out: &[u8]) -> String {
    String::from_utf8(out.to_vec()).expect("head is text")
}

#[test]
fn split_method_three_tokens() {
    let r = http_util::split_method("GET /index.html HTTP/1.1").unwrap();
    assert_eq!(r.0, "GET");
    assert_eq!(r.1, "/index.html");
    assert_eq!(r.2, "HTTP/1.1");
}

#[test]
fn split_method_keeps_spaces_in_third_token() {
    let r = http_util::split_method("a b c d").unwrap();
    assert_eq!(r.2, "c d");
}

#[test]
fn split_method_rejects_short_lines() {
    assert!(http_util::split_method("GET /x").is_none());
    assert!(http_util::split_method("GET").is_none());
    assert!(http_util::split_method("").is_none());
}

#[test]
fn request_line_html_parses() {
    let mut req = HttpRequest::new("peer");
    assert!(req.feed(&String::from("GET /index.html HTTP/1.1")).is_ok());
    assert!(req.valid);
    assert!(req.is_init);
    assert_eq!(req.path, "/index.html");
    assert_eq!(req.resource_type, Some(ResourceType::Html));
    assert_eq!(req.version, "HTTP/1.1");
}

#[test]
fn request_line_extension_table() {
    let mut png = HttpRequest::new("peer");
    assert!(png.feed(&String::from("GET /img/logo.png HTTP/1.1")).is_ok());
    assert_eq!(png.resource_type, Some(ResourceType::Png));
    let mut ico = HttpRequest::new("peer");
    assert!(ico.feed(&String::from("GET /favicon.ico HTTP/1.1")).is_ok());
    assert_eq!(ico.resource_type, Some(ResourceType::Icon));
    assert_eq!(ResourceType::Html.mime_str(), "text/html");
    assert_eq!(ResourceType::Png.mime_str(), "image/png");
    assert_eq!(ResourceType::Icon.mime_str(), "image/x-icon");
}

#[test]
fn request_line_unmapped_extension_is_forbidden() {
    let mut req = HttpRequest::new("peer");
    let err = req.feed(&String::from("GET /notes.txt HTTP/1.1")).unwrap_err();
    assert_eq!(err.code.get_code(), 403);
    assert_eq!(err.info.as_deref(), Some("Invalid MIME Type"));
    assert!(!req.valid);
}

#[test]
fn request_line_malformed_is_bad_request() {
    let mut req = HttpRequest::new("peer");
    let err = req.feed(&String::from("GET /x")).unwrap_err();
    assert_eq!(err.code.get_code(), 400);
    assert_eq!(err.info.as_deref(), Some("Malformed request"));
}

#[test]
fn directory_path_maps_to_index_html() {
    let mut req = HttpRequest::new("peer");
    assert!(req.feed(&String::from("GET / HTTP/1.1")).is_ok());
    assert_eq!(req.path, "/index.html");
    assert_eq!(req.resource_type, Some(ResourceType::Html));
    let mut nested = HttpRequest::new("peer");
    assert!(nested.feed(&String::from("GET /docs/ HTTP/1.1")).is_ok());
    assert_eq!(nested.path, "/docs/index.html");
}

#[test]
fn effective_file_name_appends_index_html() {
    let mut req = HttpRequest::new("peer");
    req.path = String::from("/docs/");
    assert_eq!(req.get_file_name(), "/docs/index.html");
    req.path = String::from("/docs/a.html");
    assert_eq!(req.get_file_name(), "/docs/a.html");
    req.path = String::new();
    assert_eq!(req.get_file_name(), "");
}

#[test]
fn post_method_is_not_implemented() {
    let mut req = HttpRequest::new("peer");
    let err = req.feed(&String::from("POST / HTTP/1.1")).unwrap_err();
    assert_eq!(err.code.get_code(), 501);
    assert_eq!(err.desc.as_deref(), Some("Method POST is not implemented"));
    assert_eq!(err.info.as_deref(), Some("Unknown HTTP Method"));
}

#[test]
fn old_http_version_is_not_implemented() {
    let mut req = HttpRequest::new("peer");
    let err = req.feed(&String::from("GET / HTTP/1.0")).unwrap_err();
    assert_eq!(err.code.get_code(), 501);
    assert_eq!(err.desc.as_deref(), Some("HTTP version HTTP/1.0 is unsupported"));
    assert_eq!(err.info.as_deref(), Some("Unsupported HTTP version"));
}

#[test]
fn later_lines_feed_headers() {
    let mut req = HttpRequest::new("peer");
    assert!(req.feed(&String::from("GET / HTTP/1.1")).is_ok());
    assert!(req.feed(&String::from("Host: example.com")).is_ok());
    assert!(req.feed(&String::from("Accept:  text/html ")).is_ok());
    assert_eq!(
        req.headers.get_from_name(&String::from("Host")),
        Some(String::from("example.com"))
    );
    assert_eq!(
        req.headers.get_from_name(&String::from("Accept")),
        Some(String::from("text/html"))
    );
}

#[test]
fn header_line_without_colon_is_bad_request() {
    let mut h = HttpHeaders::new();
    let err = h.add_from_line("NoColonHere").unwrap_err();
    assert_eq!(err.code.get_code(), 400);
    assert_eq!(err.info.as_deref(), Some("Malformed header"));
}

#[test]
fn header_line_with_empty_name_or_value_is_bad_request() {
    let mut h = HttpHeaders::new();
    let e1 = h.add_from_line("   : value").unwrap_err();
    assert_eq!(e1.code.get_code(), 400);
    assert_eq!(e1.info.as_deref(), Some("Malformed header"));
    let e2 = h.add_from_line("Name:    ").unwrap_err();
    assert_eq!(e2.code.get_code(), 400);
    assert_eq!(e2.info.as_deref(), Some("Malformed header"));
    assert!(h.get_from_name(&String::from("Name")).is_none());
}

#[test]
fn header_insertion_is_last_write_wins() {
    let mut h = HttpHeaders::new();
    assert!(h.add_from_line("Host: one").is_ok());
    assert!(h.add_from_line("Host: two").is_ok());
    assert_eq!(h.get_from_name(&String::from("Host")), Some(String::from("two")));
    assert_eq!(h.iter().len(), 1);
}

#[test]
fn restricted_pairs_are_silently_dropped() {
    let mut h = HttpHeaders::new();
    assert!(h.add_from_pair("Content-Type", "spoofed").is_ok());
    assert!(h.add_from_pair("Content-Length", "999").is_ok());
    assert!(h.add_from_pair_value("Content-Length", 7).is_ok());
    assert!(h.get_from_name(&String::from("Content-Type")).is_none());
    assert!(h.get_from_name(&String::from("Content-Length")).is_none());
    assert_eq!(h.iter().len(), 0);
    assert!(h.add_from_pair("Connection", "close").is_ok());
    assert!(h.add_from_pair_value("Retry-After", 30).is_ok());
    assert_eq!(h.get_from_name(&String::from("Connection")), Some(String::from("close")));
    assert_eq!(h.get_from_name(&String::from("Retry-After")), Some(String::from("30")));
    assert!(HttpHeaders::is_restricted_header("Content-Type"));
    assert!(HttpHeaders::is_restricted_header("Content-Length"));
    assert!(!HttpHeaders::is_restricted_header("Connection"));
}

#[test]
fn resolver_accepts_paths_inside_root() {
    let ok = http_util::resolve_candidate(
        "/srv/root",
        Some(String::from("/srv/root/index.html")),
    );
    assert_eq!(ok.unwrap(), "/srv/root/index.html");
    let same = http_util::resolve_candidate("/srv/root", Some(String::from("/srv/root")));
    assert_eq!(same.unwrap(), "/srv/root");
}

#[test]
fn resolver_refuses_paths_outside_root() {
    let err = http_util::resolve_candidate("/srv/root", Some(String::from("/etc/passwd")))
        .unwrap_err();
    assert_eq!(err.code.get_code(), 403);
    assert_eq!(err.get_error_msg(), "ERROR 403 Forbidden");
    let sibling = http_util::resolve_candidate(
        "/srv/root",
        Some(String::from("/srv/rootkit/data")),
    )
    .unwrap_err();
    assert_eq!(sibling.code.get_code(), 403);
}

#[test]
fn resolver_maps_missing_paths_to_not_found() {
    let err = http_util::resolve_candidate("/srv/root", None).unwrap_err();
    assert_eq!(err.code.get_code(), 404);
    assert_eq!(err.desc.as_deref(), Some("Invalid path provided"));
}

#[test]
fn resolver_rejects_uninitialized_requests() {
    let req = HttpRequest::new("peer");
    let err = http_util::get_valid_path(&req).unwrap_err();
    assert_eq!(err.code.get_code(), 500);
    assert_eq!(err.desc.as_deref(), Some("Failed to fetch valid path, request is not valid"));
}

#[test]
fn candidate_join_strips_leading_separators() {
    assert_eq!(
        http_util::candidate_under_root("/srv/root", "/index.html"),
        "/srv/root/index.html"
    );
    assert_eq!(http_util::candidate_under_root("/srv/root", "///x"), "/srv/root/x");
}

#[test]
fn successful_get_serializes_a_200_with_one_content_length() {
    let mut req = HttpRequest::new("peer");
    assert!(req.feed(&String::from("GET / HTTP/1.1")).is_ok());
    assert_eq!(req.get_file_name(), "/index.html");
    assert_eq!(req.resource_type, Some(ResourceType::Html));
    let resolved = http_util::resolve_candidate(
        "/srv/public",
        Some(String::from("/srv/public/index.html")),
    );
    assert_eq!(resolved.unwrap(), "/srv/public/index.html");
    let mut resp = HttpResponse::new(req);
    assert!(resp.headers.add_from_pair("Connection", "close").is_ok());
    let body = b"<html>home</html>".to_vec();
    apply_file_result(&mut resp, Ok(body.clone()));
    assert_eq!(resp.code, HttpCode::E200);
    let out = resp.flush();
    let text = parse_head(&out);
    assert!(text.starts_with("HTTP/1.1 200 OK\r\n"));
    assert!(text.contains("Connection: close\r\n"));
    assert!(text.contains("Content-Type: text/html\r\n"));
    assert_eq!(text.matches("Content-Length:").count(), 1);
    assert!(text.contains(&format!("Content-Length: {}\r\n\r\n", body.len())));
    assert!(text.ends_with("<html>home</html>"));
    assert!(!text.contains("X-Error-Info"));
}

#[test]
fn missing_file_serializes_a_404_naming_not_found() {
    let mut req = HttpRequest::new("peer");
    assert!(req.feed(&String::from("GET /missing.html HTTP/1.1")).is_ok());
    let err = http_util::resolve_candidate("/srv/public", None).unwrap_err();
    assert_eq!(err.code.get_code(), 404);
    let mut resp = HttpResponse::new(req);
    resp.set_error(err);
    let out = resp.flush();
    let text = parse_head(&out);
    assert!(text.starts_with("HTTP/1.1 404 Not Found\r\n"));
    assert!(text.contains("Not Found"));
    assert!(text.contains("<html><body><h1>Not Found</h1></body></html>"));
}

#[test]
fn traversal_request_serializes_a_403_without_the_path() {
    let mut req = HttpRequest::new("peer");
    let parse = req.feed(&String::from("GET /../../etc/passwd HTTP/1.1"));
    let err = match parse {
        Err(e) => e,
        Ok(()) => {
            let resolved = http_util::resolve_candidate(
                "/srv/public",
                Some(String::from("/etc/passwd")),
            );
            resolved.unwrap_err()
        },
    };
    assert_eq!(err.code.get_code(), 403);
    let mut resp = HttpResponse::new(req);
    resp.set_error(err);
    let out = resp.flush();
    let text = parse_head(&out);
    assert!(text.starts_with("HTTP/1.1 403 Forbidden\r\n"));
    assert!(!text.contains("passwd"));
    assert!(!text.contains("/etc"));
    let resolver_err = http_util::resolve_candidate(
        "/srv/public",
        Some(String::from("/etc/passwd")),
    )
    .unwrap_err();
    assert!(!resolver_err.get_error_msg().contains("passwd"));
}

#[test]
fn post_request_serializes_a_501() {
    let mut req = HttpRequest::new("peer");
    let err = req.feed(&String::from("POST / HTTP/1.1")).unwrap_err();
    let mut resp = HttpResponse::new(req);
    resp.set_error(err);
    let out = resp.flush();
    let text = parse_head(&out);
    assert!(text.starts_with("HTTP/1.1 501 Not Implemented\r\n"));
    assert!(text.contains("X-Error-Info: ERROR 501 Not Implemented: Unknown HTTP Method\r\n"));
}

#[test]
fn old_version_request_serializes_a_501() {
    let mut req = HttpRequest::new("peer");
    let err = req.feed(&String::from("GET / HTTP/1.0")).unwrap_err();
    let mut resp = HttpResponse::new(req);
    resp.set_error(err);
    let out = resp.flush();
    let text = parse_head(&out);
    assert!(text.starts_with("HTTP/1.1 501 Not Implemented\r\n"));
}

#[test]
fn caller_supplied_restricted_headers_never_reach_the_wire() {
    let mut req = HttpRequest::new("peer");
    assert!(req.feed(&String::from("GET / HTTP/1.1")).is_ok());
    assert!(req.feed(&String::from("Content-Length: 99999")).is_ok());
    assert!(req.feed(&String::from("Content-Type: spoof/type")).is_ok());
    let mut resp = HttpResponse::new(req);
    assert!(resp.headers.add_from_line("Content-Type: also/spoofed").is_ok());
    assert!(resp.headers.add_from_line("Content-Length: 3").is_ok());
    assert!(resp.headers.add_from_pair("X-Custom", "kept").is_ok());
    let body = b"abcdef".to_vec();
    apply_file_result(&mut resp, Ok(body));
    let out = resp.flush();
    let text = parse_head(&out);
    assert_eq!(text.matches("Content-Type:").count(), 1);
    assert_eq!(text.matches("Content-Length:").count(), 1);
    assert!(text.contains("Content-Type: text/html\r\n"));
    assert!(text.contains("Content-Length: 6\r\n"));
    assert!(text.contains("X-Custom: kept\r\n"));
    assert!(!text.contains("spoof"));
}

#[test]
fn error_codes_cannot_be_set_as_data_responses() {
    let req = HttpRequest::new("peer");
    let mut resp = HttpResponse::new(req);
    let err = resp.set_data_response(HttpCode::E404, b"nope".to_vec()).unwrap_err();
    assert_eq!(err.code.get_code(), 500);
    assert_eq!(err.desc.as_deref(), Some("Failed to set data response"));
    assert!(matches!(resp.data, HttpResponseData::Unset));
}

#[test]
fn success_codes_cannot_be_set_as_error_responses() {
    let req = HttpRequest::new("peer");
    let mut resp = HttpResponse::new(req);
    let err = resp
        .set_error_response(HttpCode::E200, String::from("<html></html>"))
        .unwrap_err();
    assert_eq!(err.code.get_code(), 500);
    assert_eq!(err.desc.as_deref(), Some("Failed to set error response"));
    let ok = resp.set_error_response(HttpCode::E403, String::from("<html>no</html>"));
    assert!(ok.is_ok());
    assert_eq!(resp.code, HttpCode::E403);
}

#[test]
fn set_code_redirects_error_codes_to_error_state() {
    let req = HttpRequest::new("peer");
    let mut resp = HttpResponse::new(req);
    resp.set_code(HttpCode::E404);
    assert!(resp.error.is_some());
    assert!(matches!(resp.data, HttpResponseData::Error(_)));
    resp.set_code(HttpCode::E200);
    assert!(resp.error.is_none());
    assert!(matches!(resp.data, HttpResponseData::Unset));
}

#[test]
fn unset_response_falls_back_to_a_501_body() {
    let req = HttpRequest::new("peer");
    let mut resp = HttpResponse::new(req);
    let out = resp.flush();
    let text = parse_head(&out);
    assert!(text.starts_with("HTTP/1.1 200 OK\r\n"));
    assert!(text.contains("Content-Type: text/html\r\n"));
    assert!(text.contains("<html><body><h1>Not Implemented</h1></body></html>"));
}

#[test]
fn read_failure_becomes_the_error_response() {
    let mut req = HttpRequest::new("peer");
    assert!(req.feed(&String::from("GET / HTTP/1.1")).is_ok());
    let mut resp = HttpResponse::new(req);
    apply_file_result(&mut resp, Err(http_errors::msg::not_found("gone")));
    assert_eq!(resp.code, HttpCode::E404);
    let out = resp.flush();
    let text = parse_head(&out);
    assert!(text.starts_with("HTTP/1.1 404 Not Found\r\n"));
}
