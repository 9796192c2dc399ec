//! Rules that choose systems by their names.

use crate::prefix::starts_with;
use vstd::prelude::*;

verus! {

/// A rule that decides from a system's full name whether the system is drawn.
///
/// `accepts` is a function of the name alone: a rule gives the same answer
/// however often and in whatever order it is asked. What a rule holds does
/// not change once it is made, and threads may share it.
pub trait SystemPredicate: Send + Sync {
    /// Whether the rule keeps the system called `name`.
    spec fn accepts(&self, name: Seq<char>) -> bool;

    fn test(&self, name: &str) -> (kept: bool)
        ensures
            kept == self.accepts(name@),
    ;
}

/// Whether `name` begins with one of `prefixes`.
pub open spec fn begins_with_any(name: Seq<char>, prefixes: Seq<Seq<char>>) -> bool {
    exists|i: int| 0 <= i < prefixes.len() && (#[trigger] prefixes[i]).is_prefix_of(name)
}

/// Keeps the systems whose name begins with `prefix`.
pub struct NamePrefix {
    pub prefix: String,
}

impl NamePrefix {
    /// The rule that keeps the names beginning with `prefix`.
    pub fn new(prefix: &str) -> (rule: NamePrefix)
        ensures
            rule.prefix@ == prefix@,
    {
        NamePrefix { prefix: prefix.to_owned() }
    }
}

impl SystemPredicate for NamePrefix {
    open spec fn accepts(&self, name: Seq<char>) -> bool {
        self.prefix@.is_prefix_of(name)
    }

    fn test(&self, name: &str) -> (kept: bool) {
        starts_with(name, self.prefix.as_str())
    }
}

/// Keeps the systems whose name begins with one of `prefixes`.
pub struct NamePrefixes {
    pub prefixes: Vec<String>,
}

impl NamePrefixes {
    /// The rule that keeps the names beginning with one of `prefixes`. With
    /// no prefix it keeps no name.
    pub fn new(prefixes: &[&str]) -> (rule: NamePrefixes)
        ensures
            rule.prefixes.deep_view() == prefixes.deep_view(),
    {
        let mut owned: Vec<String> = Vec::new();
        let mut i: usize = 0;
        while i < prefixes.len()
            invariant
                i <= prefixes@.len(),
                owned@.len() == i,
                forall|j: int| 0 <= j < i ==> (#[trigger] owned@[j])@ == prefixes@[j]@,
            decreases prefixes@.len() - i,
        {
            owned.push(prefixes[i].to_owned());
            i += 1;
        }
        assert(owned.deep_view() =~= prefixes.deep_view());
        NamePrefixes { prefixes: owned }
    }
}

impl SystemPredicate for NamePrefixes {
    open spec fn accepts(&self, name: Seq<char>) -> bool {
        begins_with_any(name, self.prefixes.deep_view())
    }

    fn test(&self, name: &str) -> (kept: bool) {
        let ghost prefixes = self.prefixes.deep_view();
        let mut i: usize = 0;
        while i < self.prefixes.len()
            invariant
                i <= self.prefixes.len(),
                prefixes == self.prefixes.deep_view(),
                forall|j: int| 0 <= j < i ==> !(#[trigger] prefixes[j]).is_prefix_of(name@),
            decreases self.prefixes.len() - i,
        {
            if starts_with(name, self.prefixes[i].as_str()) {
                assert(prefixes[i as int].is_prefix_of(name@));
                return true;
            }
            i += 1;
        }
        false
    }
}

} // verus!
