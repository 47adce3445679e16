//! A snapshot of the process environment, and the reading of settings from it.

use vstd::prelude::*;
use crate::text::{trim, trim_str};

verus! {

/// The environment variables the server was started with, in order.
pub struct Env {
    pub vars: Vec<(String, String)>,
}

/// The value of the first variable named `key`.
pub open spec fn lookup(vars: Seq<(String, String)>, key: Seq<char>) -> Option<Seq<char>>
    decreases vars.len(),
{
    if vars.len() == 0 {
        None
    } else if vars[0].0@ == key {
        Some(vars[0].1@)
    } else {
        lookup(vars.drop_first(), key)
    }
}

/// A setting that counts only when it holds something besides white space; it
/// is then taken trimmed.
pub open spec fn nonempty_value(v: Option<Seq<char>>) -> Option<Seq<char>> {
    match v {
        Some(s) => if trim(s).len() > 0 {
            Some(trim(s))
        } else {
            None
        },
        None => None,
    }
}

/// The view of an optional string.
pub open spec fn opt_view(v: Option<String>) -> Option<Seq<char>> {
    match v {
        Some(s) => Some(s@),
        None => None,
    }
}

impl Env {
    /// The value of `key` (`dotenv::var`).
    pub fn var(&self, key: &str) -> (r: Option<String>)
        ensures
            opt_view(r) == lookup(self.vars@, key@),
    {
        let k: String = String::from_str(key);
        let mut i: usize = 0;
        assert(self.vars@.skip(0) =~= self.vars@);
        while i < self.vars.len()
            invariant
                k@ == key@,
                i <= self.vars@.len(),
                lookup(self.vars@, key@) == lookup(self.vars@.skip(i as int), key@),
            decreases self.vars.len() - i,
        {
            assert(self.vars@.skip(i as int).drop_first() =~= self.vars@.skip(i + 1));
            if self.vars[i].0 == k {
                return Some(self.vars[i].1.clone());
            }
            i = i + 1;
        }
        None
    }

    /// The trimmed value of `key`, unless it is unset or blank.
    pub fn nonempty(&self, key: &str) -> (r: Option<String>)
        ensures
            opt_view(r) == nonempty_value(lookup(self.vars@, key@)),
    {
        match self.var(key) {
            Some(v) => {
                let t: String = trim_str(v.as_str());
                if t.as_str().unicode_len() > 0 {
                    Some(t)
                } else {
                    None
                }
            },
            None => None,
        }
    }
}

} // verus!
