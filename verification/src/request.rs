//! The request model: a state machine fed one raw line at a time. The
//! first line is parsed as the request line and validated; every further
//! line feeds the header store.

use vstd::prelude::*;
use vstd::string::{StrSliceExecFns, StringExecFns};

use crate::headers;
use crate::headers::HttpHeaders;
use crate::http_error::{HttpCode, HttpError};
use crate::http_errors;
use crate::http_util;
use crate::text;
use crate::transcript::{spec_pushed_lines, Transcript};

verus! {

/// The closed set of resource types this server delivers, derived from
/// the request path's extension.
#[derive(Clone, Copy, PartialEq, Eq, Structural, Debug)]
pub enum ResourceType {
    Html,
    Png,
    Icon,
}

impl ResourceType {
    /// The MIME rendering sent in `Content-Type`.
    pub open spec fn spec_mime(self) -> Seq<char> {
        match self {
            ResourceType::Html => "text/html"@,
            ResourceType::Png => "image/png"@,
            ResourceType::Icon => "image/x-icon"@,
        }
    }

    pub fn mime_str(&self) -> (r: &str)
        ensures
            r@ == self.spec_mime(),
    {
        match self {
            ResourceType::Html => "text/html",
            ResourceType::Png => "image/png",
            ResourceType::Icon => "image/x-icon",
        }
    }
}

/// The resource type for a path, by its extension: `.html`, `.png` and
/// `.ico` are served; anything else is refused.
pub open spec fn spec_resource_type(path: Seq<char>) -> Option<ResourceType> {
    if text::has_suffix(path, ".html"@) {
        Some(ResourceType::Html)
    } else if text::has_suffix(path, ".png"@) {
        Some(ResourceType::Png)
    } else if text::has_suffix(path, ".ico"@) {
        Some(ResourceType::Icon)
    } else {
        None
    }
}

/// A path ending in a separator names the directory's `index.html`;
/// every other path names itself.
pub open spec fn spec_file_name(path: Seq<char>) -> Seq<char> {
    if text::has_suffix(path, "/"@) {
        path + "index.html"@
    } else {
        path
    }
}

/// Every path ending in a separator maps to exactly that path with
/// `index.html` appended, and every other path maps to itself.
pub proof fn lemma_directory_file_name(path: Seq<char>)
    ensures
        text::has_suffix(path, "/"@) ==> spec_file_name(path) == path + "index.html"@,
        !text::has_suffix(path, "/"@) ==> spec_file_name(path) == path,
{
}

pub struct HttpRequest {
    pub who: String,
    pub transcript: Transcript,
    pub headers: HttpHeaders,
    pub path: String,
    pub resource_type: Option<ResourceType>,
    pub version: String,
    pub valid: bool,
    pub is_init: bool,
}

/// What `init` guarantees: the relation between the request before and
/// after consuming the request line, and the produced result.
pub open spec fn spec_init_post(
    o: HttpRequest,
    n: HttpRequest,
    line: Seq<char>,
    r: Result<(), HttpError>,
) -> bool {
    match http_util::spec_split_method(line) {
        None => n == o && (r matches Err(e) && e@.code == HttpCode::E400 && e@.desc == Some(
            "Request did not match <method> <path> <version> format"@,
        ) && e@.info == Some("Malformed request"@)),
        Some(t) => if t.0 != "GET"@ {
            n == o && (r matches Err(e) && e@.code == HttpCode::E501 && e@.desc == Some(
                "Method "@ + t.0 + " is not implemented"@,
            ) && e@.info == Some("Unknown HTTP Method"@))
        } else {
            spec_init_get_post(o, n, t.1, t.2, r)
        },
    }
}

/// The part of `init`'s guarantee for a `GET` request line with path
/// `path` and version `version`.
pub open spec fn spec_init_get_post(
    o: HttpRequest,
    n: HttpRequest,
    path: Seq<char>,
    version: Seq<char>,
    r: Result<(), HttpError>,
) -> bool {
    let rewritten = spec_file_name(path);
    let logged = exists|t1: Seq<char>, t2: Seq<char>|
        n.transcript.spec_lines() == o.transcript.spec_lines() + spec_pushed_lines(
            o.transcript.spec_prefixes(),
            t1,
            "GET Request"@,
        ) + spec_pushed_lines(o.transcript.spec_prefixes(), t2, "Path: "@ + path);
    let carried = n.who == o.who && n.headers == o.headers
        && n.transcript.spec_prefixes() == o.transcript.spec_prefixes()
        && n.transcript.spec_start() == o.transcript.spec_start();
    logged && carried && match spec_resource_type(rewritten) {
        None => r matches Err(e) && e@.code == HttpCode::E403 && e@.desc == Some(
            "Invalid/Unaccepted resource type"@,
        ) && e@.info == Some("Invalid MIME Type"@) && n.path@ == rewritten && n.resource_type
            == o.resource_type && n.version == o.version && n.valid == o.valid && n.is_init
            == o.is_init,
        Some(rt) => if version != "HTTP/1.1"@ {
            r matches Err(e) && e@.code == HttpCode::E501 && e@.desc == Some(
                "HTTP version "@ + version + " is unsupported"@,
            ) && e@.info == Some("Unsupported HTTP version"@) && n.path@ == rewritten
                && n.resource_type == Some(rt) && n.version == o.version && n.valid == o.valid
                && n.is_init == o.is_init
        } else {
            r is Ok && n.path@ == rewritten && n.resource_type == Some(rt) && n.version@
                == version && n.valid && n.is_init
        },
    }
}

impl HttpRequest {
    pub open spec fn wf(self) -> bool {
        self.headers.wf()
    }

    /// A fresh, uninitialized request for a connection with the given
    /// peer name. Its transcript opens with the introductory lines.
    pub fn new(who: &str) -> (r: HttpRequest)
        ensures
            r.wf(),
            r.who@ == who@,
            r.headers@ == Seq::<(Seq<char>, Seq<char>)>::empty(),
            r.path@ == Seq::<char>::empty(),
            r.resource_type is None,
            r.version@ == Seq::<char>::empty(),
            !r.valid,
            !r.is_init,
            r.transcript.spec_prefixes() == seq![who@],
    {
        HttpRequest {
            who: who.to_owned(),
            transcript: Transcript::new(who),
            headers: HttpHeaders::new(),
            path: String::new(),
            resource_type: None,
            version: String::new(),
            valid: false,
            is_init: false,
        }
    }

    /// The effective file name for this request: a path ending in `/`
    /// names that directory's `index.html`.
    pub fn get_file_name(&self) -> (r: String)
        ensures
            r@ == spec_file_name(self.path@),
    {
        if text::ends_with_str(self.path.as_str(), "/") {
            let mut out = self.path.clone();
            out.append("index.html");
            proof {
                assert(out@ =~= spec_file_name(self.path@));
            }
            out
        } else {
            self.path.clone()
        }
    }

    /// Derives the resource type from the path's extension, refusing
    /// unsupported extensions as Forbidden.
    fn init_resource_type(&mut self) -> (r: Result<(), HttpError>)
        ensures
            final(self).who == old(self).who,
            final(self).transcript == old(self).transcript,
            final(self).headers == old(self).headers,
            final(self).path == old(self).path,
            final(self).version == old(self).version,
            final(self).valid == old(self).valid,
            final(self).is_init == old(self).is_init,
            match spec_resource_type(old(self).path@) {
                Some(rt) => r is Ok && final(self).resource_type == Some(rt),
                None => r matches Err(e) && e@.code == HttpCode::E403 && e@.desc == Some(
                    "Invalid/Unaccepted resource type"@,
                ) && e@.info == Some("Invalid MIME Type"@) && final(self).resource_type
                    == old(self).resource_type,
            },
    {
        if text::ends_with_str(self.path.as_str(), ".html") {
            self.resource_type = Some(ResourceType::Html);
            Ok(())
        } else if text::ends_with_str(self.path.as_str(), ".png") {
            self.resource_type = Some(ResourceType::Png);
            Ok(())
        } else if text::ends_with_str(self.path.as_str(), ".ico") {
            self.resource_type = Some(ResourceType::Icon);
            Ok(())
        } else {
            let mut e = http_errors::msg::forbidden("Invalid/Unaccepted resource type");
            Err(e.set_info("Invalid MIME Type"))
        }
    }

    /// Consumes the request line: splits it into method, path and version,
    /// accepts only `GET` and `HTTP/1.1`, rewrites a directory path to its
    /// `index.html`, and derives the resource type. Any failure is
    /// terminal for the request.
    pub fn init(&mut self, input: &String) -> (r: Result<(), HttpError>)
        requires
            old(self).wf(),
        ensures
            final(self).wf(),
            spec_init_post(*old(self), *final(self), input@, r),
    {
        let parsed = http_util::split_method(input.as_str());
        let tokens = match parsed {
            None => {
                let mut e = http_errors::msg::bad_request(
                    "Request did not match <method> <path> <version> format",
                );
                return Err(e.set_info("Malformed request"));
            },
            Some(t) => t,
        };
        let (method, path, version) = tokens;
        if text::str_eq(method.as_str(), "GET") {
            self.transcript.push("GET Request");
            let mut path_line = String::from_str("Path: ");
            path_line.append(path.as_str());
            self.transcript.push(path_line.as_str());
            proof {
                reveal_strlit("Path: ");
            }
        } else {
            let mut desc = String::from_str("Method ");
            desc.append(method.as_str());
            desc.append(" is not implemented");
            proof {
                reveal_strlit("Method ");
                reveal_strlit(" is not implemented");
                assert(desc@ =~= "Method "@ + method@ + " is not implemented"@);
            }
            let mut e = http_errors::msg::not_implemented(desc.as_str());
            return Err(e.set_info("Unknown HTTP Method"));
        }
        if text::ends_with_str(path.as_str(), "/") {
            let mut rewritten = path.clone();
            rewritten.append("index.html");
            proof {
                assert(rewritten@ =~= spec_file_name(path@));
            }
            self.path = rewritten;
        } else {
            self.path = path.clone();
        }
        let typed = self.init_resource_type();
        if let Err(e) = typed {
            return Err(e);
        }
        if !text::str_eq(version.as_str(), "HTTP/1.1") {
            let mut desc = String::from_str("HTTP version ");
            desc.append(version.as_str());
            desc.append(" is unsupported");
            proof {
                reveal_strlit("HTTP version ");
                reveal_strlit(" is unsupported");
                assert(desc@ =~= "HTTP version "@ + version@ + " is unsupported"@);
            }
            let mut e = http_errors::msg::not_implemented(desc.as_str());
            return Err(e.set_info("Unsupported HTTP version"));
        }
        self.version = version;
        self.valid = true;
        self.is_init = true;
        Ok(())
    }

    /// Feeds one raw line: the first line initializes the request, every
    /// further line feeds the header store. Any failure is terminal.
    pub fn feed(&mut self, input: &String) -> (r: Result<(), HttpError>)
        requires
            old(self).wf(),
        ensures
            final(self).wf(),
            !old(self).is_init ==> spec_init_post(*old(self), *final(self), input@, r),
            old(self).is_init ==> final(self).who == old(self).who && final(self).transcript
                == old(self).transcript && final(self).path == old(self).path
                && final(self).resource_type == old(self).resource_type && final(self).version
                == old(self).version && final(self).valid == old(self).valid
                && final(self).is_init == old(self).is_init,
            old(self).is_init ==> match headers::spec_parse_header_line(input@) {
                Some(nv) => r is Ok && final(self).headers@ == headers::spec_insert(
                    old(self).headers@,
                    nv.0,
                    nv.1,
                ),
                None => r matches Err(e) && final(self).headers@ == old(self).headers@ && e@.code
                    == HttpCode::E400 && e@.info == Some("Malformed header"@) && e@.desc == Some(
                    headers::spec_header_line_error_desc(input@),
                ),
            },
    {
        if !self.is_init {
            return self.init(input);
        }
        let fed = self.headers.add_from_line(input.as_str());
        match fed {
            Ok(()) => Ok(()),
            Err(e) => Err(e),
        }
    }
}

} // verus!
