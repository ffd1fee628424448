//! Values under names, one of which is the default.
use vstd::prelude::*;

use crate::error::{ErrorView, SdkError};
use crate::text::{concat2, opt_text, str_eq, texts};

verus! {

/// Values under names, one of which may be the default.
#[derive(Debug)]
pub struct Registry<T> {
    pub entries: Vec<(String, T)>,
    pub default_name: Option<String>,
}

/// The names of entries.
pub open spec fn names<T>(entries: Seq<(String, T)>) -> Seq<Seq<char>> {
    Seq::new(entries.len(), |i: int| entries[i].0@)
}

/// The value under a name.
pub open spec fn lookup<T>(entries: Seq<(String, T)>, name: Seq<char>) -> Option<T>
    decreases entries.len(),
{
    if entries.len() == 0 {
        None
    } else if entries[0].0@ == name {
        Some(entries[0].1)
    } else {
        lookup(entries.drop_first(), name)
    }
}

/// What is found stands at the first place with its name.
pub proof fn lookup_by_place<T>(entries: Seq<(String, T)>, name: Seq<char>, at: int)
    requires
        0 <= at <= entries.len(),
        forall|j: int| 0 <= j < at ==> names(entries)[j] != name,
    ensures
        at < entries.len() && entries[at].0@ == name ==> lookup(entries, name) == Some(
            entries[at].1,
        ),
        at == entries.len() ==> lookup(entries, name) is None,
    decreases entries.len(),
{
    if entries.len() > 0 && at > 0 {
        assert(names(entries)[0] != name);
        let rest = entries.drop_first();
        assert forall|j: int| 0 <= j < at - 1 implies names(rest)[j] != name by {
            assert(names(entries)[j + 1] != name);
        }
        lookup_by_place(rest, name, at - 1);
    }
}

impl<T> Registry<T> {
    /// No name stands there twice.
    pub open spec fn well_formed(self) -> bool {
        names(self.entries@).no_duplicates()
    }

    /// The value under a name.
    pub open spec fn value(self, name: Seq<char>) -> Option<T> {
        lookup(self.entries@, name)
    }

    pub fn new() -> (r: Self)
        ensures
            r.well_formed(),
            r.entries@.len() == 0,
            r.default_name is None,
            forall|name: Seq<char>| r.value(name) is None,
    {
        Registry { entries: Vec::new(), default_name: None }
    }

    fn place_of(&self, name: &str) -> (r: usize)
        ensures
            r <= self.entries@.len(),
            r < self.entries@.len() ==> self.entries@[r as int].0@ == name@,
            forall|j: int| 0 <= j < r ==> names(self.entries@)[j] != name@,
    {
        let mut i: usize = 0;
        while i < self.entries.len()
            invariant
                i <= self.entries@.len(),
                forall|j: int| 0 <= j < i ==> names(self.entries@)[j] != name@,
            decreases self.entries@.len() - i,
        {
            if str_eq(self.entries[i].0.as_str(), name) {
                return i;
            }
            i = i + 1;
        }
        i
    }

    /// Puts a value under a name, in place of what was there.
    pub fn register(&mut self, name: &str, value: T)
        requires
            old(self).well_formed(),
        ensures
            final(self).well_formed(),
            final(self).default_name == old(self).default_name,
            final(self).value(name@) == Some(value),
            forall|other: Seq<char>|
                other != name@ ==> #[trigger] final(self).value(other) == old(self).value(other),
            names(final(self).entries@).to_set() == names(old(self).entries@).to_set().insert(name@),
            old(self).value(name@) is Some ==> final(self).entries@.len() == old(
                self,
            ).entries@.len(),
            old(self).value(name@) is None ==> final(self).entries@.len() == old(
                self,
            ).entries@.len() + 1,
    {
        let at: usize = self.place_of(name);
        let ghost before = self.entries@;
        let ghost old_names = names(before);
        if at < self.entries.len() {
            self.entries[at] = (name.to_owned(), value);
            proof {
                let after = self.entries@;
                lookup_by_place(before, name@, at as int);
                assert(names(after) =~= old_names);
                lookup_by_place(after, name@, at as int);
                assert forall|other: Seq<char>| other != name@ implies #[trigger] lookup(
                    after,
                    other,
                ) == lookup(before, other) by {
                    same_elsewhere(before, after, at as int, other);
                }
                assert(old_names.to_set().contains(name@)) by {
                    assert(old_names[at as int] == name@);
                }
                assert(old_names.to_set().insert(name@) =~= old_names.to_set());
            }
        } else {
            self.entries.push((name.to_owned(), value));
            proof {
                let after = self.entries@;
                lookup_by_place(before, name@, at as int);
                assert(names(after) =~= old_names.push(name@));
                lookup_by_place(after, name@, at as int);
                assert forall|other: Seq<char>| other != name@ implies #[trigger] lookup(
                    after,
                    other,
                ) == lookup(before, other) by {
                    same_with_more(before, after.last(), other);
                    assert(after =~= before.push(after.last()));
                }
                assert forall|i: int, j: int|
                    0 <= i < names(after).len() && 0 <= j < names(after).len() && i != j implies
                    names(after)[i] != names(after)[j] by {
                    if i < old_names.len() {
                        assert(names(after)[i] == old_names[i]);
                    }
                    if j < old_names.len() {
                        assert(names(after)[j] == old_names[j]);
                    }
                }
                assert(names(after).to_set() =~= old_names.to_set().insert(name@)) by {
                    assert forall|n: Seq<char>|
                        names(after).to_set().contains(n) <==> old_names.to_set().insert(
                            name@,
                        ).contains(n) by {
                        if old_names.contains(n) {
                            let k = choose|k: int| 0 <= k < old_names.len() && old_names[k] == n;
                            assert(names(after)[k] == n);
                        }
                        if n == name@ {
                            assert(names(after)[at as int] == n);
                        }
                        if names(after).contains(n) && n != name@ {
                            let k = choose|k: int|
                                0 <= k < names(after).len() && names(after)[k] == n;
                            assert(old_names[k] == n);
                        }
                    }
                }
            }
        }
    }

    /// The value under a name.
    pub fn get(&self, name: &str) -> (r: Option<&T>)
        ensures
            match r {
                Some(v) => self.value(name@) == Some(*v),
                None => self.value(name@) is None,
            },
    {
        let at: usize = self.place_of(name);
        proof {
            lookup_by_place(self.entries@, name@, at as int);
        }
        if at < self.entries.len() {
            Some(&self.entries[at].1)
        } else {
            None
        }
    }

    /// Whether there is a value under a name.
    pub fn contains(&self, name: &str) -> (r: bool)
        ensures
            r == self.value(name@) is Some,
    {
        self.get(name).is_some()
    }

    /// Makes the value under a name the default. `what` tells what is not found.
    pub fn set_default(&mut self, name: &str, what: &str) -> (r: Result<(), SdkError>)
        ensures
            final(self).entries == old(self).entries,
            match r {
                Ok(_) => old(self).value(name@) is Some && opt_text(final(self).default_name)
                    == Some(name@),
                Err(e) => old(self).value(name@) is None && final(self).default_name == old(
                    self,
                ).default_name && e@ == ErrorView::Other(what@ + name@),
            },
    {
        if self.contains(name) {
            self.default_name = Some(name.to_owned());
            Ok(())
        } else {
            Err(SdkError::Other(concat2(what, name)))
        }
    }

    /// The default, if its name is set and something stands under it.
    pub open spec fn default_value(self) -> Option<T> {
        match self.default_name {
            Some(name) => self.value(name@),
            None => None,
        }
    }

    /// The default.
    pub fn get_default(&self) -> (r: Option<&T>)
        ensures
            match r {
                Some(v) => self.default_value() == Some(*v),
                None => self.default_value() is None,
            },
    {
        match &self.default_name {
            Some(name) => self.get(name.as_str()),
            None => None,
        }
    }

    /// All names, each once.
    pub fn list(&self) -> (r: Vec<String>)
        ensures
            texts(r@) == names(self.entries@),
    {
        let mut out: Vec<String> = Vec::new();
        let mut i: usize = 0;
        while i < self.entries.len()
            invariant
                i <= self.entries@.len(),
                out@.len() == i,
                forall|j: int| 0 <= j < i ==> (#[trigger] out@[j])@ == self.entries@[j].0@,
            decreases self.entries@.len() - i,
        {
            out.push(self.entries[i].0.clone());
            i = i + 1;
        }
        assert(texts(out@) =~= names(self.entries@));
        out
    }

    /// Takes the value under a name away. If it was the default, there is none after.
    pub fn remove(&mut self, name: &str) -> (r: Option<T>)
        requires
            old(self).well_formed(),
        ensures
            final(self).well_formed(),
            r == old(self).value(name@),
            final(self).value(name@) is None,
            forall|other: Seq<char>|
                other != name@ ==> #[trigger] final(self).value(other) == old(self).value(other),
            final(self).default_name == (if opt_text(old(self).default_name) == Some(name@) {
                None
            } else {
                old(self).default_name
            }),
    {
        let at: usize = self.place_of(name);
        let ghost before = self.entries@;
        proof {
            lookup_by_place(before, name@, at as int);
        }
        let is_default = match &self.default_name {
            Some(own) => str_eq(own.as_str(), name),
            None => false,
        };
        if is_default {
            self.default_name = None;
        }
        if at < self.entries.len() {
            let (_, value) = self.entries.remove(at);
            proof {
                let after = self.entries@;
                assert(after =~= before.remove(at as int));
                assert forall|j: int| 0 <= j < after.len() implies names(after)[j] != name@ by {
                    if j < at {
                        assert(names(before)[j] == names(after)[j]);
                    } else {
                        assert(names(before)[j + 1] == names(after)[j]);
                        assert(names(before)[at as int] == name@);
                    }
                }
                lookup_by_place(after, name@, after.len() as int);
                assert forall|i: int, j: int|
                    0 <= i < names(after).len() && 0 <= j < names(after).len() && i != j implies
                    names(after)[i] != names(after)[j] by {
                    let p = if i < at {
                        i
                    } else {
                        i + 1
                    };
                    let q = if j < at {
                        j
                    } else {
                        j + 1
                    };
                    assert(names(before)[p] == names(after)[i]);
                    assert(names(before)[q] == names(after)[j]);
                }
                assert forall|other: Seq<char>| other != name@ implies #[trigger] lookup(
                    after,
                    other,
                ) == lookup(before, other) by {
                    same_with_less(before, at as int, other);
                }
            }
            Some(value)
        } else {
            proof {
                assert(self.entries@ == before);
            }
            None
        }
    }

    /// Takes everything away.
    pub fn clear(&mut self)
        ensures
            final(self).well_formed(),
            final(self).entries@.len() == 0,
            final(self).default_name is None,
            forall|name: Seq<char>| final(self).value(name) is None,
    {
        self.entries.clear();
        self.default_name = None;
    }
}

proof fn same_elsewhere<T>(
    before: Seq<(String, T)>,
    after: Seq<(String, T)>,
    at: int,
    other: Seq<char>,
)
    requires
        0 <= at < before.len(),
        after == before.update(at, after[at]),
        after[at].0@ == before[at].0@,
        before[at].0@ != other,
    ensures
        lookup(after, other) == lookup(before, other),
    decreases before.len(),
{
    if at > 0 {
        let b = before.drop_first();
        let a = after.drop_first();
        assert(a =~= b.update(at - 1, a[at - 1]));
        same_elsewhere(b, a, at - 1, other);
    } else {
        assert(after.drop_first() =~= before.drop_first());
    }
}

proof fn same_with_more<T>(before: Seq<(String, T)>, entry: (String, T), other: Seq<char>)
    requires
        entry.0@ != other,
    ensures
        lookup(before.push(entry), other) == lookup(before, other),
    decreases before.len(),
{
    let after = before.push(entry);
    if before.len() > 0 {
        assert(after.drop_first() =~= before.drop_first().push(entry));
        same_with_more(before.drop_first(), entry, other);
    } else {
        assert(after.drop_first() =~= Seq::empty());
        assert(lookup(after.drop_first(), other) is None);
    }
}

proof fn same_with_less<T>(before: Seq<(String, T)>, at: int, other: Seq<char>)
    requires
        0 <= at < before.len(),
        before[at].0@ != other,
    ensures
        lookup(before.remove(at), other) == lookup(before, other),
    decreases before.len(),
{
    let after = before.remove(at);
    if at > 0 {
        assert(after.drop_first() =~= before.drop_first().remove(at - 1));
        assert(after[0] == before[0]);
        same_with_less(before.drop_first(), at - 1, other);
    } else {
        assert(after =~= before.drop_first());
    }
}

/// The first entry with a name counts, and no other does.
pub proof fn the_first_entry_counts<T>(
    entries: Seq<(String, T)>,
    entry: (String, T),
    name: Seq<char>,
)
    ensures
        entry.0@ == name ==> lookup(seq![entry] + entries, name) == Some(entry.1),
        entry.0@ != name ==> lookup(seq![entry] + entries, name) == lookup(entries, name),
        lookup(Seq::<(String, T)>::empty(), name) is None,
{
    assert((seq![entry] + entries).drop_first() =~= entries);
}

/// The default is what stands under its name, and there is none without one.
pub proof fn the_default_goes_by_its_name<T>(registry: Registry<T>)
    ensures
        registry.default_name is None ==> registry.default_value() is None,
        registry.default_name matches Some(name) ==> registry.default_value() == lookup(
            registry.entries@,
            name@,
        ),
{
}

} // verus!
