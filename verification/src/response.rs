//! The response model: a status code, headers, and one of content,
//! error-content or unset, mutated exactly once and then serialized by
//! `flush`.

use vstd::prelude::*;
use vstd::string::{StrSliceExecFns, StringExecFns};
use vstd::utf8::encode_utf8;

use crate::headers;
use crate::headers::HttpHeaders;
use crate::http_error::{HttpCode, HttpError};
use crate::http_errors;
use crate::http_util;
use crate::request::{HttpRequest, ResourceType};
use crate::wire;
use crate::wire::crlf;

verus! {

pub enum HttpResponseData {
    Content(Vec<u8>),
    Error(String),
    Unset,
}

/// The canned HTML body naming a status code's description.
pub open spec fn spec_error_content(code: HttpCode) -> Seq<char> {
    "<html><body><h1>"@ + code.spec_desc() + "</h1></body></html>"@
}

pub fn error_content(code: HttpCode) -> (r: String)
    ensures
        r@ == spec_error_content(code),
{
    let mut out = String::new();
    out.append("<html><body><h1>");
    out.append(code.get_desc());
    out.append("</h1></body></html>");
    proof {
        assert(out@ =~= spec_error_content(code));
    }
    out
}

/// The serialized generic-header block: one terminated line per stored
/// entry, in order, with the restricted names filtered out.
pub open spec fn spec_header_block(hs: Seq<(Seq<char>, Seq<char>)>) -> Seq<char>
    decreases hs.len(),
{
    if hs.len() == 0 {
        Seq::empty()
    } else {
        spec_header_block(hs.drop_last()) + (if headers::spec_is_restricted(hs.last().0) {
            Seq::empty()
        } else {
            hs.last().0 + ": "@ + hs.last().1 + crlf()
        })
    }
}

/// The serialized header block is exactly the block of the filtered
/// entries: together with the filter's own laws, a caller-supplied
/// `Content-Type` or `Content-Length` never reaches the wire, so each can
/// only appear once in a response — as the computed value.
pub proof fn lemma_header_block_filters(hs: Seq<(Seq<char>, Seq<char>)>)
    ensures
        spec_header_block(hs) == spec_header_block(headers::spec_unrestricted(hs)),
    decreases hs.len(),
{
    if hs.len() > 0 {
        lemma_header_block_filters(hs.drop_last());
        if headers::spec_is_restricted(hs.last().0) {
            assert(headers::spec_unrestricted(hs) == headers::spec_unrestricted(hs.drop_last()));
            assert(spec_header_block(hs) == spec_header_block(hs.drop_last()));
        } else {
            let u = headers::spec_unrestricted(hs.drop_last());
            let w = u + seq![hs.last()];
            assert(headers::spec_unrestricted(hs) == w);
            assert(w.drop_last() =~= u);
            assert(w.last() == hs.last());
            assert(spec_header_block(w) == spec_header_block(u) + (hs.last().0 + ": "@
                + hs.last().1 + crlf()));
        }
    }
}

pub struct HttpResponse {
    pub request: HttpRequest,
    pub headers: HttpHeaders,
    pub error: Option<HttpError>,
    pub code: HttpCode,
    pub data: HttpResponseData,
}

impl HttpResponse {
    /// The `Content-Type` text for served content: the request's resource
    /// type, or nothing when none was derived.
    pub open spec fn spec_mime_text(self) -> Seq<char> {
        match self.request.resource_type {
            Some(rt) => rt.spec_mime(),
            None => Seq::empty(),
        }
    }

    /// The whole response head as `flush` serializes it: status line, the
    /// short diagnostic header when an error is set, the filtered generic
    /// headers, and the computed `Content-Type`/`Content-Length` pair — a
    /// textual or fallback body included, a binary body not.
    pub open spec fn spec_head(self) -> Seq<char> {
        let status = "HTTP/1.1 "@ + self.code.spec_text() + crlf();
        let err_part = match self.error {
            Some(e) => "X-Error-Info: "@ + e.spec_error_msg() + crlf(),
            None => Seq::<char>::empty(),
        };
        let hdr_part = spec_header_block(self.headers@);
        let tail = match self.data {
            HttpResponseData::Content(bytes) => "Content-Type: "@ + self.spec_mime_text() + crlf()
                + wire::spec_content_length_line(bytes@.len() as int) + crlf(),
            HttpResponseData::Error(content) => "Content-Type: text/html"@ + crlf()
                + wire::spec_content_length_line(wire::spec_byte_len(content@)) + crlf()
                + content@ + crlf(),
            HttpResponseData::Unset => "Content-Type: text/html"@ + crlf()
                + wire::spec_content_length_line(
                wire::spec_byte_len(spec_error_content(HttpCode::E501)),
            ) + crlf() + spec_error_content(HttpCode::E501) + crlf(),
        };
        status + err_part + hdr_part + tail
    }

    /// The raw bytes that follow the head on the wire.
    pub open spec fn spec_body_bytes(self) -> Seq<u8> {
        match self.data {
            HttpResponseData::Content(bytes) => bytes@,
            HttpResponseData::Error(_) => Seq::empty(),
            HttpResponseData::Unset => Seq::empty(),
        }
    }

    /// A fresh response for the given request: status 200, no headers, no
    /// error, nothing to send yet.
    pub fn new(request: HttpRequest) -> (r: HttpResponse)
        ensures
            r.request == request,
            r.headers@ == Seq::<(Seq<char>, Seq<char>)>::empty(),
            r.headers.wf(),
            r.error is None,
            r.code == HttpCode::E200,
            r.data is Unset,
    {
        HttpResponse {
            request,
            headers: HttpHeaders::new(),
            error: None,
            code: HttpCode::E200,
            data: HttpResponseData::Unset,
        }
    }

    /// Records an error outcome: the code, the error itself for diagnostic
    /// echoing, and the canned HTML body naming the code's description.
    pub fn set_error(&mut self, error: HttpError)
        ensures
            final(self).request == old(self).request,
            final(self).headers == old(self).headers,
            final(self).code == error@.code,
            final(self).error == Some(error),
            final(self).data matches HttpResponseData::Error(c) && c@ == spec_error_content(
                error@.code,
            ),
    {
        self.code = error.code;
        let content = error_content(error.code);
        self.data = HttpResponseData::Error(content);
        self.error = Some(error);
    }

    /// Records a bare status code: an error code behaves like `set_error`
    /// with a message-less error; a success code clears any error and
    /// leaves the body unset.
    pub fn set_code(&mut self, code: HttpCode)
        ensures
            final(self).request == old(self).request,
            final(self).headers == old(self).headers,
            final(self).code == code,
            code.spec_is_error() ==> (final(self).error matches Some(e) && e@.code == code
                && e@.desc is None && e@.info is None) && (final(self).data matches
                HttpResponseData::Error(c) && c@ == spec_error_content(code)),
            !code.spec_is_error() ==> final(self).error is None && final(self).data is Unset,
    {
        if code.is_error() {
            self.set_error(HttpError::new(code));
        } else {
            self.error = None;
            self.code = code;
            self.data = HttpResponseData::Unset;
        }
    }

    /// Records an error outcome with a caller-supplied body. A success
    /// code is a caller bug here and is refused.
    pub fn set_error_response(&mut self, code: HttpCode, content: String) -> (r: Result<
        (),
        HttpError,
    >)
        ensures
            code.spec_is_error() ==> r is Ok && final(self).request == old(self).request
                && final(self).headers == old(self).headers && final(self).code == code && (final(self).error
                matches Some(e) && e@.code == code && e@.desc is None && e@.info is None) && (final(self).data matches HttpResponseData::Error(c) && c@ == content@),
            !code.spec_is_error() ==> (r matches Err(e) && e@.code == HttpCode::E500 && e@.desc
                == Some("Failed to set error response"@) && *final(self) == *old(self)),
    {
        if code.is_error() {
            self.code = code;
            self.error = Some(HttpError::new(code));
            self.data = HttpResponseData::Error(content);
            Ok(())
        } else {
            Err(http_errors::msg::internal_server_error("Failed to set error response"))
        }
    }

    /// Records a success outcome carrying raw bytes. An error code is a
    /// caller bug here and is refused.
    pub fn set_data_response(&mut self, code: HttpCode, data: Vec<u8>) -> (r: Result<
        (),
        HttpError,
    >)
        ensures
            !code.spec_is_error() ==> r is Ok && final(self).request == old(self).request
                && final(self).headers == old(self).headers && final(self).code == code
                && final(self).error is None && (final(self).data matches HttpResponseData::Content(c) && c@ == data@),
            code.spec_is_error() ==> (r matches Err(e) && e@.code == HttpCode::E500 && e@.desc
                == Some("Failed to set data response"@) && *final(self) == *old(self)),
    {
        if !code.is_error() {
            self.error = None;
            self.code = code;
            self.data = HttpResponseData::Content(data);
            Ok(())
        } else {
            Err(http_errors::msg::internal_server_error("Failed to set data response"))
        }
    }

    /// The sole serialization path: renders the status line, the short
    /// diagnostic header for an error (its full form goes only to the
    /// transcript), the filtered generic headers, and the computed
    /// `Content-Type` and `Content-Length` followed by the body. Returns
    /// the exact bytes for the wire.
    #[verifier::rlimit(60)]
    pub fn flush(&mut self) -> (out: Vec<u8>)
        ensures
            out@ == encode_utf8(old(self).spec_head()) + old(self).spec_body_bytes(),
            final(self).headers == old(self).headers,
            final(self).error == old(self).error,
            final(self).code == old(self).code,
            final(self).data == old(self).data,
            final(self).request.who == old(self).request.who,
            final(self).request.headers == old(self).request.headers,
            final(self).request.path == old(self).request.path,
            final(self).request.resource_type == old(self).request.resource_type,
            final(self).request.version == old(self).request.version,
            final(self).request.valid == old(self).request.valid,
            final(self).request.is_init == old(self).request.is_init,
            final(self).request.transcript.spec_prefixes() == old(self).request.transcript.spec_prefixes(),
            final(self).request.transcript.spec_start() == old(self).request.transcript.spec_start(),
    {
        let mut head = String::new();
        let mut status = String::new();
        status.append("HTTP/1.1 ");
        let code_text = self.code.to_text();
        status.append(code_text.as_str());
        wire::write_line(&mut self.request.transcript, &mut head, status.as_str());
        proof {
            assert(head@ =~= "HTTP/1.1 "@ + old(self).code.spec_text() + crlf());
        }
        match &self.error {
            Some(http_err) => {
                let mut info_line = String::new();
                info_line.append("X-Error-Info: ");
                let short = http_err.get_error_msg();
                info_line.append(short.as_str());
                wire::write_line(&mut self.request.transcript, &mut head, info_line.as_str());
                let mut full_line = String::new();
                full_line.append("Full Error Info: ");
                let full = http_err.to_text();
                full_line.append(full.as_str());
                self.request.transcript.push(full_line.as_str());
            },
            None => {},
        }
        let ghost head_before_headers = head@;
        proof {
            assert(head_before_headers =~= "HTTP/1.1 "@ + old(self).code.spec_text() + crlf()
                + (match old(self).error {
                Some(e) => "X-Error-Info: "@ + e.spec_error_msg() + crlf(),
                None => Seq::<char>::empty(),
            }));
        }
        let header_count = self.headers.iter().len();
        let mut i: usize = 0;
        while i < header_count
            invariant
                0 <= i <= header_count,
                header_count == self.headers@.len(),
                self.headers == old(self).headers,
                self.error == old(self).error,
                self.code == old(self).code,
                self.data == old(self).data,
                self.request.who == old(self).request.who,
                self.request.headers == old(self).request.headers,
                self.request.path == old(self).request.path,
                self.request.resource_type == old(self).request.resource_type,
                self.request.version == old(self).request.version,
                self.request.valid == old(self).request.valid,
                self.request.is_init == old(self).request.is_init,
                self.request.transcript.spec_prefixes() == old(self).request.transcript.spec_prefixes(),
                self.request.transcript.spec_start() == old(self).request.transcript.spec_start(),
                head@ == head_before_headers + spec_header_block(
                    self.headers@.subrange(0, i as int),
                ),
            decreases header_count - i,
        {
            let (restricted, line) = {
                let entries = self.headers.iter();
                let name = &entries[i].0;
                let value = &entries[i].1;
                let mut built = name.clone();
                built.append(": ");
                built.append(value.as_str());
                (HttpHeaders::is_restricted_header(name.as_str()), built)
            };
            if !restricted {
                wire::write_line(&mut self.request.transcript, &mut head, line.as_str());
            }
            proof {
                let hs = self.headers@;
                assert(hs.subrange(0, i as int + 1).drop_last() =~= hs.subrange(0, i as int));
                assert(hs.subrange(0, i as int + 1).last() == hs[i as int]);
                assert(head@ =~= head_before_headers + spec_header_block(
                    hs.subrange(0, i as int + 1),
                ));
            }
            i += 1;
        }
        proof {
            assert(self.headers@.subrange(0, header_count as int) =~= self.headers@);
        }
        let mut body: Vec<u8> = Vec::new();
        match &self.data {
            HttpResponseData::Content(content) => {
                let mut ct_line = String::new();
                ct_line.append("Content-Type: ");
                let rt_opt = self.request.resource_type;
                match rt_opt {
                    Some(rt) => {
                        ct_line.append(rt.mime_str());
                    },
                    None => {},
                }
                proof {
                    assert(ct_line@ =~= "Content-Type: "@ + old(self).spec_mime_text());
                }
                wire::write_line(&mut self.request.transcript, &mut head, ct_line.as_str());
                wire::write_body_data(&mut self.request.transcript, &mut head, &mut body, content);
            },
            HttpResponseData::Error(content) => {
                wire::write_line(
                    &mut self.request.transcript,
                    &mut head,
                    "Content-Type: text/html",
                );
                wire::write_body(&mut self.request.transcript, &mut head, content.as_str());
            },
            HttpResponseData::Unset => {
                wire::write_line(
                    &mut self.request.transcript,
                    &mut head,
                    "Content-Type: text/html",
                );
                let fallback = error_content(HttpCode::E501);
                wire::write_body(&mut self.request.transcript, &mut head, fallback.as_str());
            },
        }
        proof {
            assert(head@ =~= old(self).spec_head());
        }
        let mut out = head.as_str().as_bytes_vec();
        out.append(&mut body);
        proof {
            assert(out@ =~= encode_utf8(old(self).spec_head()) + old(self).spec_body_bytes());
        }
        out
    }
}

/// Decides what to fetch for a parsed request: the resolved filesystem
/// path when the request may be served as raw bytes, and otherwise records
/// the failure on the response — Forbidden for a resource type that is not
/// delivered this way, or the path resolver's own error.
pub fn resolve_request(resp: &mut HttpResponse) -> (r: Option<String>)
    ensures
        r is Some ==> *final(resp) == *old(resp) && old(resp).request.is_init && old(resp).request.valid && (old(resp).request.resource_type == Some(ResourceType::Html) || old(resp).request.resource_type == Some(ResourceType::Icon)),
        r is None ==> (final(resp).error matches Some(e) && final(resp).code == e@.code && (final(resp).data matches HttpResponseData::Error(c) && c@ == spec_error_content(e@.code))),
        r is None && !(old(resp).request.is_init && old(resp).request.valid) ==> (final(resp).error matches Some(e) && e@.code == HttpCode::E500),
        final(resp).request.transcript.spec_prefixes() == old(resp).request.transcript.spec_prefixes(),
        final(resp).request.transcript.spec_start() == old(resp).request.transcript.spec_start(),
{
    let resolved = http_util::get_valid_path(&resp.request);
    match resolved {
        Ok(path) => {
            let rt_opt = resp.request.resource_type;
            let servable = match rt_opt {
                Some(ResourceType::Html) => true,
                Some(ResourceType::Icon) => true,
                _ => false,
            };
            if servable {
                Some(path)
            } else {
                let mut desc = String::new();
                desc.append("Invalid file type: ");
                desc.append(resp.request.path.as_str());
                resp.set_error(http_errors::msg::forbidden(desc.as_str()));
                None
            }
        },
        Err(e) => {
            let mut log_line = String::new();
            log_line.append("Failed to recognize requested file: ");
            let rendered = e.to_text();
            log_line.append(rendered.as_str());
            resp.request.transcript.push(log_line.as_str());
            resp.set_error(e);
            None
        },
    }
}

/// Applies the outcome of reading the resolved file: the bytes become the
/// 200 response, and a read failure becomes the error response.
pub fn apply_file_result(resp: &mut HttpResponse, file: Result<Vec<u8>, HttpError>)
    ensures
        final(resp).request.transcript.spec_prefixes() == old(resp).request.transcript.spec_prefixes(),
        final(resp).request.transcript.spec_start() == old(resp).request.transcript.spec_start(),
        final(resp).headers == old(resp).headers,
        match file {
            Ok(content) => final(resp).code == HttpCode::E200 && final(resp).error is None && (
            final(resp).data matches HttpResponseData::Content(c) && c@ == content@),
            Err(e) => final(resp).code == e@.code && final(resp).error == Some(e) && (final(resp).data matches HttpResponseData::Error(c) && c@ == spec_error_content(e@.code)),
        },
{
    match file {
        Ok(content) => {
            let set = resp.set_data_response(HttpCode::E200, content);
            match set {
                Ok(()) => {},
                Err(e) => {
                    let mut log_line = String::new();
                    log_line.append("Failed to set data response: ");
                    let rendered = e.to_text();
                    log_line.append(rendered.as_str());
                    resp.request.transcript.push(log_line.as_str());
                    resp.set_error(e);
                },
            }
        },
        Err(e) => {
            resp.set_error(e);
        },
    }
}

} // verus!
