//! The user's persistent choices: which generators are enabled.

use vstd::prelude::*;
use crate::text::str_eq;

verus! {

/// Names of the generators the user enabled.
#[derive(Debug, Clone)]
pub struct State {
    enabled: Vec<String>,
}

/// The names held by a list of strings.
pub open spec fn string_views(v: Seq<String>) -> Seq<Seq<char>> {
    v.map_values(|s: String| s@)
}

/// The enabled names after enabling `name`: appended unless already there.
pub open spec fn with_enabled(enabled: Seq<Seq<char>>, name: Seq<char>) -> Seq<Seq<char>> {
    if enabled.contains(name) {
        enabled
    } else {
        enabled.push(name)
    }
}

/// The enabled names after disabling `name`.
pub open spec fn without_enabled(enabled: Seq<Seq<char>>, name: Seq<char>) -> Seq<Seq<char>> {
    enabled.filter(|n: Seq<char>| n != name)
}

impl State {
    /// The enabled names, in the order they were enabled.
    pub closed spec fn spec_enabled(&self) -> Seq<Seq<char>> {
        string_views(self.enabled@)
    }

    pub open spec fn spec_is_enabled(&self, name: Seq<char>) -> bool {
        self.spec_enabled().contains(name)
    }

    /// The enabled names, in the order they were enabled.
    pub fn enabled_names(&self) -> (r: &Vec<String>)
        ensures
            string_views(r@) == self.spec_enabled(),
    {
        &self.enabled
    }

    /// No generator enabled.
    pub fn new() -> (r: State)
        ensures
            r.spec_enabled() == Seq::<Seq<char>>::empty(),
    {
        let r = State { enabled: Vec::new() };
        assert(r.spec_enabled() =~= Seq::<Seq<char>>::empty());
        r
    }

    /// Whether the generator called `name` is enabled.
    pub fn is_enabled(&self, name: &str) -> (r: bool)
        ensures
            r == self.spec_is_enabled(name@),
    {
        let mut i: usize = 0;
        while i < self.enabled.len()
            invariant
                i <= self.enabled@.len(),
                forall|k: int| 0 <= k < i ==> self.enabled@[k]@ != name@,
            decreases self.enabled@.len() - i,
        {
            if str_eq(self.enabled[i].as_str(), name) {
                assert(self.spec_enabled()[i as int] == name@);
                return true;
            }
            i = i + 1;
        }
        assert(!self.spec_enabled().contains(name@)) by {
            if self.spec_enabled().contains(name@) {
                let k = choose|k: int| 0 <= k < self.spec_enabled().len() && self.spec_enabled()[k] == name@;
                assert(self.enabled@[k]@ == name@);
            }
        }
        false
    }

    /// Enables `name`; a name already enabled is not added twice.
    pub fn enable_generator(&mut self, name: &str)
        ensures
            final(self).spec_enabled() == with_enabled(old(self).spec_enabled(), name@),
    {
        if !self.is_enabled(name) {
            let ghost before = self.spec_enabled();
            self.enabled.push(String::from_str(name));
            assert(self.spec_enabled() =~= before.push(name@));
        }
    }

    /// Disables `name`: every occurrence of it leaves the list.
    pub fn disable_generator(&mut self, name: &str)
        ensures
            final(self).spec_enabled() == without_enabled(old(self).spec_enabled(), name@),
    {
        let mut kept: Vec<String> = Vec::new();
        let mut i: usize = 0;
        let ghost all = self.spec_enabled();
        while i < self.enabled.len()
            invariant
                i <= self.enabled@.len(),
                all == string_views(self.enabled@),
                string_views(kept@) == all.take(i as int).filter(|n: Seq<char>| n != name@),
            decreases self.enabled@.len() - i,
        {
            let ghost before = string_views(kept@);
            proof {
                reveal(Seq::filter);
            }
            assert(all.take(i + 1).drop_last() =~= all.take(i as int));
            assert(all.take(i + 1).last() == all[i as int]);
            if !str_eq(self.enabled[i].as_str(), name) {
                kept.push(self.enabled[i].clone());
                assert(string_views(kept@) =~= before.push(all[i as int]));
            } else {
                assert(string_views(kept@) =~= before);
            }
            i = i + 1;
        }
        assert(all.take(all.len() as int) =~= all);
        self.enabled = kept;
    }
}

/// Enabling a generator makes it enabled and keeps every other name as it
/// was; enabling it again changes nothing.
pub proof fn lemma_enable_then_enabled(enabled: Seq<Seq<char>>, name: Seq<char>, other: Seq<char>)
    ensures
        with_enabled(enabled, name).contains(name),
        with_enabled(with_enabled(enabled, name), name) == with_enabled(enabled, name),
        other != name ==> (with_enabled(enabled, name).contains(other) <==> enabled.contains(other)),
{
    if !enabled.contains(name) {
        assert(enabled.push(name)[enabled.len() as int] == name);
        if enabled.push(name).contains(other) && other != name {
            let k = choose|k: int| 0 <= k < enabled.push(name).len() && enabled.push(name)[k] == other;
            assert(enabled[k] == other);
        }
        if enabled.contains(other) {
            let k = choose|k: int| 0 <= k < enabled.len() && enabled[k] == other;
            assert(enabled.push(name)[k] == other);
        }
    }
}

/// Disabling a generator makes it disabled and keeps every other name as it was.
pub proof fn lemma_disable_then_disabled(enabled: Seq<Seq<char>>, name: Seq<char>, other: Seq<char>)
    ensures
        !without_enabled(enabled, name).contains(name),
        other != name ==> (without_enabled(enabled, name).contains(other) <==> enabled.contains(other)),
{
    broadcast use vstd::seq_lib::group_filter_ensures, Seq::lemma_filter_contains_rev;

    if enabled.contains(other) && other != name {
        let k = choose|k: int| 0 <= k < enabled.len() && enabled[k] == other;
        assert(without_enabled(enabled, name).contains(enabled[k]));
    }
}

} // verus!
