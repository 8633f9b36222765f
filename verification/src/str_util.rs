//! A small string builder that joins appended pieces with a fixed delimiter.

use vstd::prelude::*;
use vstd::string::StringExecFns;

verus! {

pub struct Builder {
    pub result: String,
    pub delimiter: String,
}

impl Builder {
    pub fn new(delimiter: &String) -> (b: Builder)
        ensures
            b.result@ == Seq::<char>::empty(),
            b.delimiter@ == delimiter@,
    {
        Builder { result: String::new(), delimiter: delimiter.clone() }
    }

    /// Appends `value`, preceded by the delimiter when something has already
    /// been written.
    pub fn append(&mut self, value: &String)
        ensures
            final(self).delimiter@ == old(self).delimiter@,
            final(self).result@ == if old(self).result@.len() == 0 {
                value@
            } else {
                old(self).result@ + old(self).delimiter@ + value@
            },
    {
        if !self.result.as_str().is_empty() {
            let delim = self.delimiter.clone();
            self.result.append(delim.as_str());
        }
        self.result.append(value.as_str());
    }

    /// Appends the contained value when `opt` is `Some`, and otherwise
    /// leaves the builder unchanged.
    pub fn try_append(&mut self, opt: &Option<String>)
        ensures
            final(self).delimiter@ == old(self).delimiter@,
            final(self).result@ == match opt {
                Some(value) => if old(self).result@.len() == 0 {
                    value@
                } else {
                    old(self).result@ + old(self).delimiter@ + value@
                },
                None => old(self).result@,
            },
    {
        if let Some(value) = opt {
            self.append(value);
        }
    }

    /// Returns the accumulated text; `None` when `require_written` is set and
    /// nothing has been appended.
    pub fn get(&self, require_written: bool) -> (r: Option<String>)
        ensures
            r == if !require_written || self.result@.len() > 0 {
                Some(self.result)
            } else {
                None::<String>
            },
    {
        if !require_written || !self.result.as_str().is_empty() {
            Some(self.result.clone())
        } else {
            None
        }
    }

    pub fn is_empty(&self) -> (r: bool)
        ensures
            r == (self.result@.len() == 0),
    {
        self.result.as_str().is_empty()
    }
}

} // verus!
