//! The header store: a mapping from header name to value with unique keys
//! and last-write-wins insertion, built incrementally from raw lines.

use vstd::prelude::*;
use vstd::string::StringExecFns;

use crate::http_error::{HttpCode, HttpError};
use crate::http_errors;
use crate::text;

verus! {

/// A header name the protocol layer computes itself. Such names are
/// silently dropped from generic header-setting calls and filtered from
/// the serialized response, so they can never conflict with the computed
/// values.
pub open spec fn spec_is_restricted(name: Seq<char>) -> bool {
    name == "Content-Type"@ || name == "Content-Length"@
}

/// First index in `m` whose key is `name`, or `m.len()` when absent.
pub open spec fn key_idx(m: Seq<(Seq<char>, Seq<char>)>, name: Seq<char>) -> int
    decreases m.len(),
{
    if m.len() == 0 {
        0
    } else if m[0].0 == name {
        0
    } else {
        1 + key_idx(m.drop_first(), name)
    }
}

proof fn lemma_key_idx_at(m: Seq<(Seq<char>, Seq<char>)>, name: Seq<char>, i: int)
    requires
        0 <= i <= m.len(),
        forall|j: int| 0 <= j < i ==> m[j].0 != name,
        i < m.len() ==> m[i].0 == name,
    ensures
        key_idx(m, name) == i,
    decreases m.len(),
{
    if m.len() > 0 && i > 0 {
        assert forall|j: int| 0 <= j < i - 1 implies m.drop_first()[j].0 != name by {
            assert(m.drop_first()[j] == m[j + 1]);
        }
        assert(i - 1 < m.drop_first().len() ==> m.drop_first()[i - 1].0 == name);
        lemma_key_idx_at(m.drop_first(), name, i - 1);
    }
}

/// The store after inserting `name → value`: an existing entry with the
/// same name is overwritten in place, otherwise the entry is appended.
pub open spec fn spec_insert(
    m: Seq<(Seq<char>, Seq<char>)>,
    name: Seq<char>,
    value: Seq<char>,
) -> Seq<(Seq<char>, Seq<char>)> {
    if key_idx(m, name) < m.len() {
        m.update(key_idx(m, name), (name, value))
    } else {
        m.push((name, value))
    }
}

/// The subsequence of `m` that survives restricted-name filtering, in
/// order.
pub open spec fn spec_unrestricted(m: Seq<(Seq<char>, Seq<char>)>) -> Seq<
    (Seq<char>, Seq<char>),
>
    decreases m.len(),
{
    if m.len() == 0 {
        Seq::empty()
    } else {
        spec_unrestricted(m.drop_last()) + (if !spec_is_restricted(m.last().0) {
            seq![m.last()]
        } else {
            Seq::empty()
        })
    }
}

/// No restricted name survives the filter: the serializer that emits only
/// the filtered entries can never emit `Content-Type` or `Content-Length`
/// from the generic store.
pub proof fn lemma_unrestricted_excludes(m: Seq<(Seq<char>, Seq<char>)>)
    ensures
        forall|i: int|
            0 <= i < spec_unrestricted(m).len() ==> !spec_is_restricted(
                #[trigger] spec_unrestricted(m)[i].0,
            ),
    decreases m.len(),
{
    if m.len() > 0 {
        lemma_unrestricted_excludes(m.drop_last());
        let u = spec_unrestricted(m.drop_last());
        assert forall|i: int|
            0 <= i < spec_unrestricted(m).len() implies !spec_is_restricted(
            spec_unrestricted(m)[i].0,
        ) by {
            if i < u.len() {
                assert(spec_unrestricted(m)[i] == u[i]);
            } else {
                assert(!spec_is_restricted(m.last().0));
                assert(spec_unrestricted(m)[i] == m.last());
            }
        }
    }
}

/// Restricted-name filtering is idempotent: filtering an already filtered
/// store changes nothing.
pub proof fn lemma_unrestricted_idempotent(m: Seq<(Seq<char>, Seq<char>)>)
    ensures
        spec_unrestricted(spec_unrestricted(m)) == spec_unrestricted(m),
    decreases m.len(),
{
    if m.len() > 0 {
        lemma_unrestricted_idempotent(m.drop_last());
        if !spec_is_restricted(m.last().0) {
            let u = spec_unrestricted(m.drop_last());
            let w = u + seq![m.last()];
            assert(w.drop_last() =~= u);
            assert(w.last() == m.last());
            assert(spec_unrestricted(w) == spec_unrestricted(u) + seq![m.last()]);
            assert(spec_unrestricted(spec_unrestricted(m)) =~= spec_unrestricted(m));
        } else {
            assert(spec_unrestricted(m) == spec_unrestricted(m.drop_last()));
        }
    }
}

/// The parse of one raw header line: the name and value around the first
/// colon, both trimmed of surrounding whitespace; `None` when there is no
/// colon or either side is empty after the trim.
pub open spec fn spec_parse_header_line(line: Seq<char>) -> Option<(Seq<char>, Seq<char>)> {
    let i = text::find_idx(line, ':');
    if i == line.len() {
        None
    } else {
        let name = text::trim_spec(line.subrange(0, i));
        let value = text::trim_spec(line.subrange(i + 1, line.len() as int));
        if name.len() == 0 || value.len() == 0 {
            None
        } else {
            Some((name, value))
        }
    }
}

/// The internal description attached to a rejected header line.
pub open spec fn spec_header_line_error_desc(line: Seq<char>) -> Seq<char> {
    let i = text::find_idx(line, ':');
    if i < line.len() && text::trim_spec(line.subrange(0, i)).len() == 0 {
        "Failed to fetch header name"@
    } else {
        "Failed to fetch header data"@
    }
}

pub struct HttpHeaders {
    entries: Vec<(String, String)>,
}

impl View for HttpHeaders {
    type V = Seq<(Seq<char>, Seq<char>)>;

    closed spec fn view(&self) -> Seq<(Seq<char>, Seq<char>)> {
        self.entries.deep_view()
    }
}

impl HttpHeaders {
    /// Well-formedness: keys are unique.
    pub open spec fn wf(self) -> bool {
        forall|i: int, j: int| 0 <= i < j < self@.len() ==> self@[i].0 != self@[j].0
    }

    pub open spec fn spec_contains(self, name: Seq<char>) -> bool {
        key_idx(self@, name) < self@.len()
    }

    /// The value stored under `name`, if any.
    pub open spec fn spec_get(self, name: Seq<char>) -> Option<Seq<char>> {
        if key_idx(self@, name) < self@.len() {
            Some(self@[key_idx(self@, name)].1)
        } else {
            None
        }
    }

    pub fn new() -> (r: HttpHeaders)
        ensures
            r@ == Seq::<(Seq<char>, Seq<char>)>::empty(),
            r.wf(),
    {
        let r = HttpHeaders { entries: Vec::new() };
        proof {
            assert(r@ =~= Seq::<(Seq<char>, Seq<char>)>::empty());
        }
        r
    }

    /// Inserts `name → value`, overwriting in place when the name is
    /// already present.
    fn insert(&mut self, name: String, value: String)
        requires
            old(self).wf(),
        ensures
            final(self).wf(),
            final(self)@ == spec_insert(old(self)@, name@, value@),
    {
        let n = self.entries.len();
        let mut j: usize = 0;
        while j < n
            invariant
                0 <= j <= n,
                old(self).wf(),
                self.entries@ == old(self).entries@,
                n == self.entries@.len(),
                forall|t: int| 0 <= t < j ==> self@[t].0 != name@,
            decreases n - j,
        {
            let hit = text::str_eq(self.entries[j].0.as_str(), name.as_str());
            if hit {
                proof {
                    assert(self@[j as int].0 == name@);
                    lemma_key_idx_at(self@, name@, j as int);
                }
                self.entries[j] = (name, value);
                proof {
                    assert(self@ =~= spec_insert(old(self)@, name@, value@));
                    assert forall|i1: int, i2: int|
                        0 <= i1 < i2 < self@.len() implies self@[i1].0 != self@[i2].0 by {
                        if i1 != j && i2 != j {
                            assert(old(self)@[i1].0 != old(self)@[i2].0);
                        } else {
                            assert(old(self)@[j as int].0 == name@);
                        }
                    }
                }
                return ;
            }
            j += 1;
        }
        proof {
            lemma_key_idx_at(self@, name@, n as int);
        }
        self.entries.push((name, value));
        proof {
            assert(self@ =~= spec_insert(old(self)@, name@, value@));
        }
    }

    /// Feeds one raw header line: splits on the first colon, trims both
    /// sides, and rejects the line as a Bad Request when there is no colon
    /// or either side is empty after the trim.
    pub fn add_from_line(&mut self, line: &str) -> (r: Result<(), HttpError>)
        requires
            old(self).wf(),
        ensures
            final(self).wf(),
            match spec_parse_header_line(line@) {
                Some(nv) => r is Ok && final(self)@ == spec_insert(old(self)@, nv.0, nv.1),
                None => r is Err && final(self)@ == old(self)@,
            },
            r matches Err(e) ==> e@.code == HttpCode::E400 && e@.info == Some("Malformed header"@)
                && e@.desc == Some(spec_header_line_error_desc(line@)),
    {
        let n = line.unicode_len();
        let i = text::find_char(line, ':');
        proof {
            text::lemma_find_idx(line@, ':');
        }
        if i == n {
            let mut err = http_errors::msg::bad_request("Failed to fetch header data");
            return Err(err.set_info("Malformed header"));
        }
        let name = text::trim_str(line.substring_char(0, i));
        if name.as_str().is_empty() {
            let mut err = http_errors::msg::bad_request("Failed to fetch header name");
            return Err(err.set_info("Malformed header"));
        }
        let value = text::trim_str(line.substring_char(i + 1, n));
        if value.as_str().is_empty() {
            let mut err = http_errors::msg::bad_request("Failed to fetch header data");
            return Err(err.set_info("Malformed header"));
        }
        self.insert(name, value);
        Ok(())
    }

    /// Inserts a caller-supplied header, silently dropping the restricted
    /// names. Never fails.
    pub fn add_from_pair(&mut self, name: &str, value: &str) -> (r: Result<(), HttpError>)
        requires
            old(self).wf(),
        ensures
            final(self).wf(),
            r is Ok,
            spec_is_restricted(name@) ==> final(self)@ == old(self)@,
            !spec_is_restricted(name@) ==> final(self)@ == spec_insert(
                old(self)@,
                name@,
                value@,
            ),
    {
        if Self::is_restricted_header(name) {
            return Ok(());
        }
        self.insert(name.to_owned(), value.to_owned());
        Ok(())
    }

    /// Inserts a caller-supplied header whose value is a number, rendered
    /// in decimal; restricted names are silently dropped. Never fails.
    pub fn add_from_pair_value(&mut self, name: &str, value: u64) -> (r: Result<(), HttpError>)
        requires
            old(self).wf(),
        ensures
            final(self).wf(),
            r is Ok,
            spec_is_restricted(name@) ==> final(self)@ == old(self)@,
            !spec_is_restricted(name@) ==> final(self)@ == spec_insert(
                old(self)@,
                name@,
                text::dec_str(value as int),
            ),
    {
        if Self::is_restricted_header(name) {
            return Ok(());
        }
        let rendered = text::u64_to_string(value);
        self.insert(name.to_owned(), rendered);
        Ok(())
    }

    pub fn get_from_name(&self, name: &String) -> (r: Option<String>)
        ensures
            r.deep_view() == self.spec_get(name@),
    {
        let n = self.entries.len();
        let mut j: usize = 0;
        while j < n
            invariant
                0 <= j <= n,
                n == self.entries@.len(),
                forall|t: int| 0 <= t < j ==> self@[t].0 != name@,
            decreases n - j,
        {
            let hit = text::str_eq(self.entries[j].0.as_str(), name.as_str());
            if hit {
                proof {
                    lemma_key_idx_at(self@, name@, j as int);
                }
                return Some(self.entries[j].1.clone());
            }
            j += 1;
        }
        proof {
            lemma_key_idx_at(self@, name@, n as int);
        }
        None
    }

    /// The stored entries, in insertion order, for serialization.
    pub fn iter(&self) -> (r: &Vec<(String, String)>)
        ensures
            r.deep_view() == self@,
    {
        &self.entries
    }

    pub fn is_restricted_header(name: &str) -> (r: bool)
        ensures
            r == spec_is_restricted(name@),
    {
        text::str_eq(name, "Content-Type") || text::str_eq(name, "Content-Length")
    }
}

} // verus!
