//! The content-type resolver: a small override table mapping a file extension
//! to the MIME subtype it is served under, falling back to the literal
//! extension string.

use vstd::prelude::*;
use crate::strutil::str_eq;

verus! {

/// The subtype served for extension `ext`: `javascript` for `js`, otherwise
/// the extension itself.
pub open spec fn spec_mime(ext: Seq<char>) -> Seq<char> {
    if ext == "js"@ {
        "javascript"@
    } else {
        ext
    }
}

/// Request-scoped environment holding the content-type override table.
pub struct Env {
    mime_map: Vec<(String, String)>,
}

impl Env {
    /// The table holds exactly the canonical overrides that `spec_mime`
    /// describes.
    pub closed spec fn wf(&self) -> bool {
        &&& self.mime_map@.len() == 1
        &&& self.mime_map@[0].0@ == "js"@
        &&& self.mime_map@[0].1@ == "javascript"@
    }

    pub fn new() -> (r: Self)
        ensures
            r.wf(),
    {
        let mut table: Vec<(String, String)> = Vec::new();
        table.push((String::from_str("js"), String::from_str("javascript")));
        Env { mime_map: table }
    }

    /// Looks `ext` up in the override table; absent an override the extension
    /// itself is the subtype.
    pub fn get_mime(&self, ext: &str) -> (r: String)
        requires
            self.wf(),
        ensures
            r@ == spec_mime(ext@),
    {
        let mut i: usize = 0;
        while i < self.mime_map.len()
            invariant
                self.wf(),
                i <= self.mime_map@.len(),
                forall|j: int| 0 <= j < i ==> self.mime_map@[j].0@ != ext@,
            decreases self.mime_map@.len() - i,
        {
            if str_eq(self.mime_map[i].0.as_str(), ext) {
                return self.mime_map[i].1.clone();
            }
            i = i + 1;
        }
        String::from_str(ext)
    }
}

} // verus!
