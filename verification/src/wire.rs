//! Wire serialization helpers: every emitted line is appended to the
//! response head and logged to the transcript under the outgoing-direction
//! prefix, so the full exchange can be reconstructed from the log.

use vstd::prelude::*;
use vstd::string::{StrSliceExecFns, StringExecFns};
use vstd::utf8::encode_utf8;

use crate::http_error::HttpError;
use crate::response;
use crate::text;
use crate::transcript::{spec_pushed_lines, spec_with_prefix, Transcript};

verus! {

/// The line terminator of the wire protocol.
pub open spec fn crlf() -> Seq<char> {
    seq!['\r', '\n']
}

/// The number of bytes in the UTF-8 encoding of `s`, as the platform's
/// length type reports it.
pub open spec fn spec_byte_len(s: Seq<char>) -> int {
    encode_utf8(s).len() as usize as int
}

/// The `Content-Length` line for a body of `n` bytes, terminator
/// included.
pub open spec fn spec_content_length_line(n: int) -> Seq<char> {
    "Content-Length: "@ + text::dec_str(n) + crlf()
}

/// What the transcript gains when one line is emitted: a log entry under
/// the outgoing-direction prefix; the stack and start instant are kept.
pub open spec fn spec_logged_write(o: Transcript, n: Transcript, line: Seq<char>) -> bool {
    &&& n.spec_prefixes() == o.spec_prefixes()
    &&& n.spec_start() == o.spec_start()
    &&& exists|t: Seq<char>|
        n.spec_lines() == o.spec_lines() + spec_pushed_lines(
            o.spec_prefixes().push("<--"@),
            t,
            line,
        )
}

/// Emits one head line: appends it, terminated, to the head, and logs it.
pub fn write_line(ts: &mut Transcript, head: &mut String, line: &str)
    ensures
        final(head)@ == old(head)@ + line@ + crlf(),
        spec_logged_write(*old(ts), *final(ts), line@),
{
    proof {
        reveal_strlit("<--");
    }
    ts.push_with_prefix("<--", line);
    proof {
        assert(spec_with_prefix(old(ts).spec_prefixes(), "<--"@) =~= old(ts).spec_prefixes().push(
            "<--"@,
        ));
    }
    head.append(line);
    head.append("\r\n");
    proof {
        reveal_strlit("\r\n");
        assert(head@ =~= old(head)@ + line@ + crlf());
    }
}

/// Emits raw body bytes: appends them to the body buffer and logs a
/// placeholder for them.
pub fn write_data(ts: &mut Transcript, body: &mut Vec<u8>, data: &Vec<u8>)
    ensures
        final(body)@ == old(body)@ + data@,
        spec_logged_write(*old(ts), *final(ts), "<binary data>"@),
{
    proof {
        reveal_strlit("<--");
    }
    ts.push_with_prefix("<--", "<binary data>");
    proof {
        assert(spec_with_prefix(old(ts).spec_prefixes(), "<--"@) =~= old(ts).spec_prefixes().push(
            "<--"@,
        ));
    }
    body.extend_from_slice(data.as_slice());
}

/// Emits a textual body: its `Content-Length` in bytes, a blank line, and
/// the body itself as one terminated line.
pub fn write_body(ts: &mut Transcript, head: &mut String, body: &str)
    ensures
        final(head)@ == old(head)@ + spec_content_length_line(spec_byte_len(body@))
            + crlf() + body@ + crlf(),
        final(ts).spec_prefixes() == old(ts).spec_prefixes(),
        final(ts).spec_start() == old(ts).spec_start(),
{
    let len = body.len();
    let mut length_line = String::new();
    length_line.append("Content-Length: ");
    let rendered = text::u64_to_string(len as u64);
    length_line.append(rendered.as_str());
    proof {
        assert(length_line@ + crlf() =~= spec_content_length_line(spec_byte_len(body@)));
    }
    write_line(ts, head, length_line.as_str());
    write_line(ts, head, "");
    write_line(ts, head, body);
    proof {
        reveal_strlit("");
        assert(head@ =~= old(head)@ + spec_content_length_line(spec_byte_len(body@)) + crlf()
            + body@ + crlf());
    }
}

/// Emits a binary body: its `Content-Length` line and the blank line into
/// the head, the raw bytes into the body buffer.
pub fn write_body_data(ts: &mut Transcript, head: &mut String, body: &mut Vec<u8>, data: &Vec<u8>)
    ensures
        final(head)@ == old(head)@ + spec_content_length_line(data@.len() as int) + crlf(),
        final(body)@ == old(body)@ + data@,
        final(ts).spec_prefixes() == old(ts).spec_prefixes(),
        final(ts).spec_start() == old(ts).spec_start(),
{
    let len = data.len();
    let mut length_line = String::new();
    length_line.append("Content-Length: ");
    let rendered = text::u64_to_string(len as u64);
    length_line.append(rendered.as_str());
    proof {
        assert(length_line@ + crlf() =~= spec_content_length_line(data@.len() as int));
    }
    write_line(ts, head, length_line.as_str());
    write_line(ts, head, "");
    write_data(ts, body, data);
    proof {
        reveal_strlit("");
        assert(head@ =~= old(head)@ + spec_content_length_line(data@.len() as int)
            + crlf());
    }
}

/// The full early-failure response for an error: status line, the short
/// diagnostic header, connection close, and an HTML body naming the
/// status description. Only the short form of the error goes to the peer.
pub open spec fn spec_error_response_head(e: HttpError) -> Seq<char> {
    let body = response::spec_error_content(e@.code);
    "HTTP/1.1 "@ + e@.code.spec_text() + crlf() + "X-Error-Info: "@ + e.spec_error_msg() + crlf()
        + "Connection: close"@ + crlf() + "Content-Type: text/html"@ + crlf()
        + spec_content_length_line(spec_byte_len(body)) + crlf() + body + crlf()
}

/// Serializes the early-failure response for `err` into `head`.
pub fn write_error(ts: &mut Transcript, head: &mut String, err: &HttpError)
    ensures
        final(head)@ == old(head)@ + spec_error_response_head(*err),
        final(ts).spec_prefixes() == old(ts).spec_prefixes(),
        final(ts).spec_start() == old(ts).spec_start(),
{
    let mut status = String::new();
    status.append("HTTP/1.1 ");
    let code_text = err.code.to_text();
    status.append(code_text.as_str());
    write_line(ts, head, status.as_str());
    let mut info_line = String::new();
    info_line.append("X-Error-Info: ");
    let short = err.get_error_msg();
    info_line.append(short.as_str());
    write_line(ts, head, info_line.as_str());
    write_line(ts, head, "Connection: close");
    write_line(ts, head, "Content-Type: text/html");
    let error_html = response::error_content(err.code);
    write_body(ts, head, error_html.as_str());
    proof {
        assert(head@ =~= old(head)@ + spec_error_response_head(*err));
    }
}

} // verus!
