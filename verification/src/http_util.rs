//! Request-line splitting and traversal-safe path resolution.

use vstd::prelude::*;
use vstd::string::{StrSliceExecFns, StringExecFns};

use crate::http_error::{HttpCode, HttpError};
use crate::http_errors;
use crate::request::HttpRequest;
use crate::text;

verus! {

/// The three tokens of a request line, split at the first two spaces; the
/// third token keeps any further spaces. `None` when there are fewer than
/// two spaces.
pub open spec fn spec_split_method(s: Seq<char>) -> Option<(Seq<char>, Seq<char>, Seq<char>)> {
    let i = text::find_idx(s, ' ');
    if i == s.len() {
        None
    } else {
        let rest = s.subrange(i + 1, s.len() as int);
        let j = text::find_idx(rest, ' ');
        if j == rest.len() {
            None
        } else {
            Some(
                (
                    s.subrange(0, i),
                    rest.subrange(0, j),
                    rest.subrange(j + 1, rest.len() as int),
                ),
            )
        }
    }
}

pub fn split_method(input: &str) -> (r: Option<(String, String, String)>)
    ensures
        r.deep_view() == spec_split_method(input@),
{
    let n = input.unicode_len();
    let i = text::find_char(input, ' ');
    proof {
        text::lemma_find_idx(input@, ' ');
    }
    if i == n {
        return None;
    }
    let method = input.substring_char(0, i);
    let rest = input.substring_char(i + 1, n);
    let m = rest.unicode_len();
    let j = text::find_char(rest, ' ');
    proof {
        text::lemma_find_idx(rest@, ' ');
    }
    if j == m {
        return None;
    }
    let path = rest.substring_char(0, j);
    let version = rest.substring_char(j + 1, m);
    Some((method.to_owned(), path.to_owned(), version.to_owned()))
}

/// Whether `p` lies at or below `base`, comparing whole path components:
/// either the paths are equal, or `p` continues below `base` past a
/// separator.
pub open spec fn spec_path_within(base: Seq<char>, p: Seq<char>) -> bool {
    p == base || text::has_prefix(p, base + seq!['/'])
}

pub fn path_within(base: &str, p: &str) -> (r: bool)
    ensures
        r == spec_path_within(base@, p@),
{
    if text::str_eq(p, base) {
        return true;
    }
    let mut guarded = base.to_owned();
    guarded.append("/");
    proof {
        reveal_strlit("/");
        assert(guarded@ =~= base@ + seq!['/']);
    }
    text::starts_with_str(p, guarded.as_str())
}

/// The candidate path for a request: the file name, stripped of leading
/// separators, joined under the document root.
pub fn candidate_under_root(base: &str, name: &str) -> (r: String)
    ensures
        r@ == base@ + seq!['/'] + text::strip_leading_spec(name@, '/'),
{
    let mut out = base.to_owned();
    out.append("/");
    let stripped = text::strip_leading(name, '/');
    out.append(stripped.as_str());
    proof {
        reveal_strlit("/");
        assert(out@ =~= base@ + seq!['/'] + text::strip_leading_spec(name@, '/'));
    }
    out
}

/// Resolves a path to its canonical absolute form.
///
/// Relies on `std::path::Path::canonicalize`, which resolves `..` segments
/// and symlinks against the real filesystem and fails when the path does
/// not exist, and on the platform's path-to-text rendering; the error case
/// carries the failure's own message. What comes back depends on the
/// filesystem, so nothing is claimed about it.
#[verifier::external_body]
fn canonicalize_path(path: &str) -> Result<String, String> {
    match std::path::Path::new(path).canonicalize() {
        Ok(p) => Ok(p.display().to_string()),
        Err(e) => Err(e.to_string()),
    }
}

/// Decides the outcome of path resolution from the canonical document
/// root and the canonical form of the candidate, when one exists. Only a
/// candidate that canonicalized inside the root is returned; a candidate
/// outside it is Forbidden, and one with no canonical form is Not Found.
pub fn resolve_candidate(base: &str, candidate: Option<String>) -> (r: Result<String, HttpError>)
    ensures
        match candidate {
            Some(p) => if spec_path_within(base@, p@) {
                r matches Ok(q) && q@ == p@
            } else {
                r matches Err(e) && e@.code == HttpCode::E403 && e@.desc == Some(
                    "User requested invalid file"@,
                ) && e@.info is None
            },
            None => r matches Err(e) && e@.code == HttpCode::E404 && e@.desc == Some(
                "Invalid path provided"@,
            ) && e@.info is None,
        },
{
    match candidate {
        Some(p) => {
            if path_within(base, p.as_str()) {
                Ok(p)
            } else {
                Err(http_errors::msg::forbidden("User requested invalid file"))
            }
        },
        None => Err(http_errors::msg::not_found("Invalid path provided")),
    }
}

/// Maps a validated request to a canonical, traversal-safe filesystem path
/// under the fixed document root. A request that is not initialized and
/// valid is refused outright; otherwise the candidate is canonicalized and
/// `resolve_candidate` decides.
pub fn get_valid_path(request: &HttpRequest) -> (r: Result<String, HttpError>)
    ensures
        !(request.is_init && request.valid) ==> (r matches Err(e) && e@.code == HttpCode::E500
            && e@.desc == Some("Failed to fetch valid path, request is not valid"@)),
        r is Ok ==> request.is_init && request.valid,
{
    if !request.is_init || !request.valid {
        return Err(
            http_errors::msg::internal_server_error(
                "Failed to fetch valid path, request is not valid",
            ),
        );
    }
    let base = match canonicalize_path("./public") {
        Ok(b) => b,
        Err(cause) => {
            return Err(
                HttpError::from_io_message(cause.as_str(), Some("Failed to resolve the path")),
            );
        },
    };
    let file_name = request.get_file_name();
    let candidate = candidate_under_root(base.as_str(), file_name.as_str());
    let canonical = match canonicalize_path(candidate.as_str()) {
        Ok(p) => Some(p),
        Err(_) => None,
    };
    resolve_candidate(base.as_str(), canonical)
}

} // verus!
