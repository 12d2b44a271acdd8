//! Telemetry entries are kept once per name: a new value replaces the value of the entry of its
//! name, or is added at the end when no entry has that name.
use vstd::prelude::*;

verus! {

/// Whether no two entries have the same name.
pub open spec fn distinct_names<T>(s: Seq<(String, T)>) -> bool {
    forall|i: int, j: int| #![trigger s[i], s[j]] 0 <= i < j < s.len() ==> s[i].0@ != s[j].0@
}

/// Whether some entry is named `name`.
pub open spec fn has_name<T>(s: Seq<(String, T)>, name: Seq<char>) -> bool {
    exists|i: int| 0 <= i < s.len() && (#[trigger] s[i]).0@ == name
}

/// The position of the first entry named `name`; `None` when no entry is.
pub fn find_entry<T>(entries: &Vec<(String, T)>, name: &String) -> (r: Option<usize>)
    ensures
        r matches Some(i) ==> i < entries@.len() && entries@[i as int].0@ == name@ && forall|j: int|
            0 <= j < i ==> (#[trigger] entries@[j]).0@ != name@,
        r is None ==> !has_name(entries@, name@),
{
    let mut i: usize = 0;
    while i < entries.len()
        invariant
            i <= entries@.len(),
            forall|j: int| 0 <= j < i ==> (#[trigger] entries@[j]).0@ != name@,
        decreases entries@.len() - i,
    {
        if entries[i].0 == *name {
            return Some(i);
        }
        i = i + 1;
    }
    None
}

/// The latest value of each telemetry name, in the order the names first came; one entry per
/// name.
pub struct TelemetryCache<T> {
    entries: Vec<(String, T)>,
}

impl<T> TelemetryCache<T> {
    /// The entries, oldest name first.
    pub closed spec fn spec_entries(&self) -> Seq<(String, T)> {
        self.entries@
    }

    #[verifier::type_invariant]
    spec fn one_entry_per_name(&self) -> bool {
        distinct_names(self.entries@)
    }

    /// No entry.
    pub fn new() -> (r: TelemetryCache<T>)
        ensures
            r.spec_entries() == Seq::<(String, T)>::empty(),
    {
        TelemetryCache { entries: Vec::new() }
    }

    /// Forgets every entry.
    pub fn clear(&mut self)
        ensures
            final(self).spec_entries() == Seq::<(String, T)>::empty(),
    {
        self.entries = Vec::new();
    }

    /// The number of entries.
    pub fn len(&self) -> (r: usize)
        ensures
            r == self.spec_entries().len(),
    {
        self.entries.len()
    }

    /// The entries, oldest name first; no two have the same name.
    pub fn entries(&self) -> (r: &Vec<(String, T)>)
        ensures
            r@ == self.spec_entries(),
            distinct_names(r@),
    {
        proof {
            use_type_invariant(self);
        }
        &self.entries
    }

    /// Records `value` under `name`: it replaces the value of the entry of that name, which
    /// keeps its place, or is added at the end when no entry has that name. Gives the position
    /// of the entry.
    pub fn put(&mut self, name: String, value: T) -> (r: usize)
        ensures
            distinct_names(final(self).spec_entries()),
            has_name(old(self).spec_entries(), name@) ==> {
                &&& r < old(self).spec_entries().len()
                &&& old(self).spec_entries()[r as int].0@ == name@
                &&& final(self).spec_entries() == old(self).spec_entries().update(
                    r as int,
                    (name, value),
                )
            },
            !has_name(old(self).spec_entries(), name@) ==> {
                &&& r == old(self).spec_entries().len()
                &&& final(self).spec_entries() == old(self).spec_entries().push((name, value))
            },
    {
        proof {
            use_type_invariant(&*self);
        }
        let mut entries: Vec<(String, T)> = Vec::new();
        std::mem::swap(&mut entries, &mut self.entries);
        let ghost before = entries@;
        let r = match find_entry(&entries, &name) {
            Some(i) => {
                proof {
                    let after = before.update(i as int, (name, value));
                    assert forall|a: int, b: int| #![trigger after[a], after[b]]
                        0 <= a < b < after.len() implies after[a].0@ != after[b].0@ by {
                        assert(before[a].0@ != before[b].0@);
                    }
                }
                entries.set(i, (name, value));
                i
            },
            None => {
                let n = entries.len();
                proof {
                    let after = before.push((name, value));
                    assert forall|a: int, b: int| #![trigger after[a], after[b]]
                        0 <= a < b < after.len() implies after[a].0@ != after[b].0@ by {
                        if b < before.len() {
                            assert(before[a].0@ != before[b].0@);
                        } else {
                            assert(after[a] == before[a]);
                        }
                    }
                }
                entries.push((name, value));
                n
            },
        };
        self.entries = entries;
        r
    }
}

} // verus!
