//! User override dictionary.
//!
//! An exact-match mapping from romanized strings to replacement text,
//! consulted before the conversion engine.  The caller loads the
//! entries (from a file, in the surrounding program) and hands them
//! over as plain pairs; loading problems degrade to an empty
//! dictionary there, never to an error here.

use vstd::prelude::*;

verus! {

/// First match for `key` among the entry pairs, scanning in order.
pub open spec fn spec_lookup(entries: Seq<(Seq<char>, Seq<char>)>, key: Seq<char>) -> Option<
    Seq<char>,
>
    decreases entries.len(),
{
    if entries.len() == 0 {
        None
    } else if entries[0].0 == key {
        Some(entries[0].1)
    } else {
        spec_lookup(entries.drop_first(), key)
    }
}

/// Exact-match user dictionary.
pub struct UserDict {
    entries: Vec<(String, String)>,
}

impl View for UserDict {
    type V = Seq<(Seq<char>, Seq<char>)>;

    closed spec fn view(&self) -> Seq<(Seq<char>, Seq<char>)> {
        self.entries@.map_values(|e: (String, String)| (e.0@, e.1@))
    }
}

impl UserDict {
    /// A dictionary with no entries.
    pub fn empty() -> (r: Self)
        ensures
            r@.len() == 0,
    {
        let r = UserDict { entries: Vec::new() };
        proof {
            assert(r@ =~= Seq::<(Seq<char>, Seq<char>)>::empty());
        }
        r
    }

    /// A dictionary over the given key/replacement pairs; an earlier
    /// pair wins over a later one with the same key.
    pub fn from_entries(entries: Vec<(String, String)>) -> (r: Self)
        ensures
            r@ == entries@.map_values(|e: (String, String)| (e.0@, e.1@)),
    {
        UserDict { entries }
    }

    /// The replacement for exactly `key`, if the dictionary has one.
    pub fn lookup(&self, key: &str) -> (r: Option<String>)
        ensures
            match (r, spec_lookup(self@, key@)) {
                (Some(v), Some(sv)) => v@ == sv,
                (None, None) => true,
                _ => false,
            },
    {
        let k = key.to_owned();
        let n = self.entries.len();
        proof {
            assert(self@.skip(0) =~= self@);
        }
        let mut i: usize = 0;
        while i < n
            invariant
                i <= n,
                n == self.entries@.len(),
                k@ == key@,
                spec_lookup(self@, key@) == spec_lookup(self@.skip(i as int), key@),
            decreases n - i,
        {
            proof {
                assert(self@[i as int] == (self.entries@[i as int].0@, self.entries@[i as int].1@));
                assert(self@.skip(i as int)[0] == self@[i as int]);
                assert(self@.skip(i as int).drop_first() =~= self@.skip(i as int + 1));
            }
            if self.entries[i].0 == k {
                proof {
                    assert(spec_lookup(self@.skip(i as int), key@) == Some(self@[i as int].1));
                }
                return Some(self.entries[i].1.clone());
            }
            i = i + 1;
        }
        proof {
            assert(self@.skip(n as int) =~= Seq::<(Seq<char>, Seq<char>)>::empty());
        }
        None
    }
}

} // verus!
