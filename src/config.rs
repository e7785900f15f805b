use vstd::prelude::*;
use vstd::string::*;
use crate::consts::VERSION;

verus! {

/// What is known of the published release.
pub struct Config {
    pub version: String,
}

impl Config {
    /// The release this build is.
    pub fn default() -> (r: Config)
        ensures
            r.version@ == VERSION@,
    {
        Config { version: String::from_str(VERSION) }
    }

    /// The configuration to run with, given what the release query returned:
    /// the published one where the query succeeded, else this build's own.
    pub fn get(&self, fetched: Option<Config>) -> (r: Config)
        ensures
            r.version@ == (match fetched {
                Some(c) => c.version@,
                None => VERSION@,
            }),
    {
        match fetched {
            Some(c) => c,
            None => Config::default(),
        }
    }

    /// Whether the published release differs from this build.
    pub fn update_available(&self) -> (r: bool)
        ensures
            r == (self.version@ != VERSION@),
    {
        !str_eq(self.version.as_str(), VERSION)
    }
}

/// Whether two strings hold the same characters.
pub fn str_eq(a: &str, b: &str) -> (r: bool)
    ensures
        r == (a@ == b@),
{
    let n = a.unicode_len();
    if n != b.unicode_len() {
        return false;
    }
    let mut i: usize = 0;
    while i < n
        invariant
            n == a@.len() == b@.len(),
            i <= n,
            forall|k: int| 0 <= k < i ==> a@[k] == b@[k],
        decreases n - i,
    {
        if a.get_char(i) != b.get_char(i) {
            return false;
        }
        i += 1;
    }
    assert(a@ =~= b@);
    true
}

} // verus!
