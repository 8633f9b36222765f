//! The HTTP error taxonomy: status codes, their range classification, and a
//! typed error value carrying an internal description and a user-facing
//! info string.

use vstd::prelude::*;
use vstd::string::{StrSliceExecFns, StringExecFns};

use crate::text;

verus! {

#[derive(Clone, Copy, PartialEq, Eq, Structural, Debug)]
pub enum HttpCode {
    E200,
    E400,
    E403,
    E404,
    E500,
    E501,
}

#[derive(Clone, Copy, PartialEq, Eq, Structural, Debug)]
pub enum HttpCodeRange {
    Info,
    Success,
    Redirection,
    ClientError,
    ServerError,
}

impl HttpCode {
    /// The numeric status code of this value.
    pub open spec fn spec_code(self) -> int {
        match self {
            HttpCode::E200 => 200,
            HttpCode::E400 => 400,
            HttpCode::E403 => 403,
            HttpCode::E404 => 404,
            HttpCode::E500 => 500,
            HttpCode::E501 => 501,
        }
    }

    /// The fixed human-readable description of this status code.
    pub open spec fn spec_desc(self) -> Seq<char> {
        match self {
            HttpCode::E200 => "OK"@,
            HttpCode::E400 => "Bad Request"@,
            HttpCode::E403 => "Forbidden"@,
            HttpCode::E404 => "Not Found"@,
            HttpCode::E500 => "Internal Server Error"@,
            HttpCode::E501 => "Not Implemented"@,
        }
    }

    /// The status-line rendering `<code> <description>`.
    pub open spec fn spec_text(self) -> Seq<char> {
        text::dec_str(self.spec_code()) + seq![' '] + self.spec_desc()
    }

    /// The range classification of this status code.
    pub open spec fn spec_type(self) -> HttpCodeRange {
        if self.spec_code() >= 500 {
            HttpCodeRange::ServerError
        } else if self.spec_code() >= 400 {
            HttpCodeRange::ClientError
        } else if self.spec_code() >= 300 {
            HttpCodeRange::Redirection
        } else if self.spec_code() >= 200 {
            HttpCodeRange::Success
        } else {
            HttpCodeRange::Info
        }
    }

    pub open spec fn spec_is_error(self) -> bool {
        self.spec_type() == HttpCodeRange::ClientError || self.spec_type()
            == HttpCodeRange::ServerError
    }

    /// Maps a numeric code to the closed enumeration; anything outside the
    /// enumerated set normalizes to 501.
    pub open spec fn spec_from(code: int) -> HttpCode {
        if code == 200 {
            HttpCode::E200
        } else if code == 400 {
            HttpCode::E400
        } else if code == 403 {
            HttpCode::E403
        } else if code == 404 {
            HttpCode::E404
        } else if code == 500 {
            HttpCode::E500
        } else {
            HttpCode::E501
        }
    }

    pub fn from(code: i32) -> (r: HttpCode)
        ensures
            r == HttpCode::spec_from(code as int),
    {
        match code {
            200 => HttpCode::E200,
            400 => HttpCode::E400,
            403 => HttpCode::E403,
            404 => HttpCode::E404,
            500 => HttpCode::E500,
            501 => HttpCode::E501,
            _ => HttpCode::E501,
        }
    }

    pub fn get_code(&self) -> (r: i32)
        ensures
            r as int == self.spec_code(),
    {
        match self {
            HttpCode::E200 => 200,
            HttpCode::E400 => 400,
            HttpCode::E403 => 403,
            HttpCode::E404 => 404,
            HttpCode::E500 => 500,
            HttpCode::E501 => 501,
        }
    }

    pub fn get_desc(&self) -> (r: &str)
        ensures
            r@ == self.spec_desc(),
    {
        match self {
            HttpCode::E200 => "OK",
            HttpCode::E400 => "Bad Request",
            HttpCode::E403 => "Forbidden",
            HttpCode::E404 => "Not Found",
            HttpCode::E500 => "Internal Server Error",
            HttpCode::E501 => "Not Implemented",
        }
    }

    pub fn get_type(&self) -> (r: HttpCodeRange)
        ensures
            r == self.spec_type(),
    {
        let number = self.get_code();
        if number >= 500 {
            proof {
                assert(number <= 599);
            }
            HttpCodeRange::ServerError
        } else if number >= 400 {
            HttpCodeRange::ClientError
        } else if number >= 300 {
            HttpCodeRange::Redirection
        } else if number >= 200 {
            HttpCodeRange::Success
        } else {
            proof {
                assert(number >= 100);
            }
            HttpCodeRange::Info
        }
    }

    pub fn is_error(&self) -> (r: bool)
        ensures
            r == self.spec_is_error(),
    {
        let code_type = self.get_type();
        code_type == HttpCodeRange::ClientError || code_type == HttpCodeRange::ServerError
    }

    /// The status-line rendering `<code> <description>` as owned text.
    pub fn to_text(&self) -> (r: String)
        ensures
            r@ == self.spec_text(),
    {
        let n = self.get_code();
        let mut out = text::u64_to_string(n as u64);
        out.append(" ");
        out.append(self.get_desc());
        proof {
            reveal_strlit(" ");
            assert(out@ =~= self.spec_text());
        }
        out
    }
}

/// The mathematical model of an [`HttpError`]: its code and the views of
/// its optional messages.
pub struct ErrorView {
    pub code: HttpCode,
    pub desc: Option<Seq<char>>,
    pub info: Option<Seq<char>>,
}

#[derive(Debug)]
pub struct HttpError {
    pub code: HttpCode,
    pub desc: Option<String>,
    pub info: Option<String>,
}

impl View for HttpError {
    type V = ErrorView;

    open spec fn view(&self) -> ErrorView {
        ErrorView { code: self.code, desc: self.desc.deep_view(), info: self.info.deep_view() }
    }
}

impl HttpError {
    /// The internal and user-facing messages joined by `" | "`, info first.
    /// A message that is present but empty adds nothing, exactly as in the
    /// builder that renders it.
    pub open spec fn spec_detail(self) -> Seq<char> {
        let after_info = match self@.info {
            Some(i) => i,
            None => Seq::empty(),
        };
        match self@.desc {
            Some(d) => if after_info.len() == 0 {
                d
            } else {
                after_info + " | "@ + d
            },
            None => after_info,
        }
    }

    /// The full rendering `ERROR <code> <desc>[: <detail>]`, with the
    /// complete internal detail. This form is confined to the transcript.
    pub open spec fn spec_display(self) -> Seq<char> {
        if self.spec_detail().len() > 0 {
            "ERROR "@ + self@.code.spec_text() + ": "@ + self.spec_detail()
        } else {
            "ERROR "@ + self@.code.spec_text()
        }
    }

    /// The short rendering `ERROR <code> <desc>[: <info>]`, carrying only
    /// the user-facing info string. This form may go onto the wire.
    pub open spec fn spec_error_msg(self) -> Seq<char> {
        match self@.info {
            Some(i) => "ERROR "@ + self@.code.spec_text() + ": "@ + i,
            None => "ERROR "@ + self@.code.spec_text(),
        }
    }

    pub fn new(code: HttpCode) -> (r: HttpError)
        ensures
            r@.code == code,
            r@.desc is None,
            r@.info is None,
    {
        HttpError { code, desc: None, info: None }
    }

    pub fn new_with_message(code: HttpCode, msg: &str) -> (r: HttpError)
        ensures
            r@.code == code,
            r@.desc == Some(msg@),
            r@.info is None,
    {
        HttpError { code, desc: Some(msg.to_owned()), info: None }
    }

    pub fn from_code(code: i32) -> (r: HttpError)
        ensures
            r@.code == HttpCode::spec_from(code as int),
            r@.desc is None,
            r@.info is None,
    {
        HttpError::new(HttpCode::from(code))
    }

    /// The short machine rendering of this error.
    pub fn get_error_msg(&self) -> (r: String)
        ensures
            r@ == self.spec_error_msg(),
    {
        let mut out = String::new();
        out.append("ERROR ");
        let code_text = self.code.to_text();
        out.append(code_text.as_str());
        if let Some(info) = &self.info {
            out.append(": ");
            out.append(info.as_str());
        }
        proof {
            assert(out@ =~= self.spec_error_msg());
        }
        out
    }

    /// Attaches a user-facing info string and returns the updated value.
    pub fn set_info(&mut self, msg: &str) -> (r: HttpError)
        ensures
            final(self)@.code == old(self)@.code,
            final(self)@.desc == old(self)@.desc,
            final(self)@.info == Some(msg@),
            r@ == final(self)@,
    {
        let text_val = msg.to_owned();
        let desc_copy = clone_opt_string(&self.desc);
        self.info = Some(text_val.clone());
        HttpError { code: self.code, desc: desc_copy, info: Some(text_val) }
    }

    /// The full rendering of this error, description and info joined by
    /// `" | "` when both are present.
    pub fn to_text(&self) -> (r: String)
        ensures
            r@ == self.spec_display(),
    {
        let delim = String::from_str(" | ");
        proof {
            reveal_strlit(" | ");
        }
        let mut msg = crate::str_util::Builder::new(&delim);
        msg.try_append(&self.info);
        msg.try_append(&self.desc);
        let mut out = String::new();
        out.append("ERROR ");
        let code_text = self.code.to_text();
        out.append(code_text.as_str());
        match msg.get(true) {
            Some(m) => {
                out.append(": ");
                out.append(m.as_str());
                proof {
                    assert(self.spec_detail() =~= m@);
                    assert(out@ =~= "ERROR "@ + self@.code.spec_text() + ": "@
                        + self.spec_detail());
                }
            },
            None => {
                proof {
                    assert(self.spec_detail().len() == 0);
                    assert(out@ =~= "ERROR "@ + self@.code.spec_text());
                }
            },
        }
        out
    }

    /// Builds the error used when a lower-level stream failure reaches the
    /// protocol layer: an Internal Server Error whose description embeds
    /// the stream error's own message, optionally with a caller-supplied
    /// reason.
    pub fn from_io_message(cause: &str, reason: Option<&str>) -> (r: HttpError)
        ensures
            r@.code == HttpCode::E500,
            r@.info is None,
            r@.desc == Some(
                match reason {
                    Some(m) => "HTTP Error: \""@ + m@ + "\" from IO Error: \""@ + cause@ + "\""@,
                    None => "HTTP Error: "@ + cause@,
                },
            ),
    {
        let mut out = String::new();
        if let Some(m) = reason {
            out.append("HTTP Error: \"");
            out.append(m);
            out.append("\" from IO Error: \"");
            out.append(cause);
            out.append("\"");
        } else {
            out.append("HTTP Error: ");
            out.append(cause);
        }
        proof {
            assert(match reason {
                Some(m) => out@ =~= "HTTP Error: \""@ + m@ + "\" from IO Error: \""@ + cause@
                    + "\""@,
                None => out@ =~= "HTTP Error: "@ + cause@,
            });
        }
        HttpError::new_with_message(HttpCode::E500, out.as_str())
    }

    /// Builds the message with which this error is reported back as a
    /// lower-level stream failure, optionally with a caller-supplied
    /// reason.
    pub fn to_io_message(&self, reason: Option<&str>) -> (r: String)
        ensures
            r@ == match reason {
                Some(m) => "IO Error: \""@ + m@ + "\" from HTTP Error: \""@ + self.spec_display()
                    + "\""@,
                None => "IO Error: "@ + self.spec_display(),
            },
    {
        let display = self.to_text();
        let mut out = String::new();
        if let Some(m) = reason {
            out.append("IO Error: \"");
            out.append(m);
            out.append("\" from HTTP Error: \"");
            out.append(display.as_str());
            out.append("\"");
        } else {
            out.append("IO Error: ");
            out.append(display.as_str());
        }
        proof {
            assert(match reason {
                Some(m) => out@ =~= "IO Error: \""@ + m@ + "\" from HTTP Error: \""@
                    + self.spec_display() + "\""@,
                None => out@ =~= "IO Error: "@ + self.spec_display(),
            });
        }
        out
    }
}

/// A structural copy of an optional string.
pub fn clone_opt_string(o: &Option<String>) -> (r: Option<String>)
    ensures
        r.deep_view() == o.deep_view(),
{
    match o {
        Some(s) => Some(s.clone()),
        None => None,
    }
}

} // verus!
