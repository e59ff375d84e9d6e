//! The submission store a field validates against, and the opaque store of
//! uploaded files that every field receives alongside it.
//!
//! `FormData` maps each submitted field name to the non-empty, ordered list
//! of raw values that arrived under that name.  A field consumes its entry
//! with [`FormData::remove`]: the lookup is destructive, so no two fields
//! validating under the same name both observe the same raw values.

use vstd::prelude::*;

verus! {

/// The submitted key/value data: field name to ordered raw values.
pub struct FormData {
    entries: Vec<(String, Vec<String>)>,
}

/// Uploaded file data.  Opaque to the fields specified here: they receive it
/// only to satisfy the uniform validation signature and never read it.
pub struct Files {}

impl Files {
    pub fn new() -> Files {
        Files {  }
    }
}

/// No two entries share a name.
spec fn distinct_keys(entries: Seq<(String, Vec<String>)>) -> bool {
    forall|i: int, j: int|
        0 <= i < j < entries.len() ==> entries[i].0@ != entries[j].0@
}

/// Every entry holds at least one raw value.
spec fn lists_non_empty(entries: Seq<(String, Vec<String>)>) -> bool {
    forall|i: int| 0 <= i < entries.len() ==> entries[i].1@.len() > 0
}

/// The mapping the entry list represents.
spec fn map_of(entries: Seq<(String, Vec<String>)>) -> Map<Seq<char>, Seq<Seq<char>>>
    decreases entries.len(),
{
    if entries.len() == 0 {
        Map::empty()
    } else {
        map_of(entries.drop_last()).insert(entries.last().0@, entries.last().1.deep_view())
    }
}

impl View for FormData {
    type V = Map<Seq<char>, Seq<Seq<char>>>;

    closed spec fn view(&self) -> Map<Seq<char>, Seq<Seq<char>>> {
        map_of(self.entries@)
    }
}

proof fn lemma_map_of_contains_key(entries: Seq<(String, Vec<String>)>, k: Seq<char>)
    ensures
        map_of(entries).contains_key(k) <==> (exists|i: int|
            0 <= i < entries.len() && entries[i].0@ == k),
    decreases entries.len(),
{
    if entries.len() > 0 {
        let prefix = entries.drop_last();
        lemma_map_of_contains_key(prefix, k);
        let last_i = entries.len() - 1;
        if entries[last_i].0@ == k {
            assert(0 <= last_i < entries.len() && entries[last_i].0@ == k);
        } else {
            if exists|i: int| 0 <= i < entries.len() && entries[i].0@ == k {
                let i = choose|i: int| 0 <= i < entries.len() && entries[i].0@ == k;
                assert(0 <= i < prefix.len() && prefix[i].0@ == k);
            }
            if map_of(entries).contains_key(k) {
                assert(map_of(prefix).contains_key(k));
            }
        }
    }
}

proof fn lemma_map_of_index(entries: Seq<(String, Vec<String>)>, i: int)
    requires
        0 <= i < entries.len(),
        distinct_keys(entries),
    ensures
        map_of(entries).contains_key(entries[i].0@),
        map_of(entries)[entries[i].0@] == entries[i].1.deep_view(),
    decreases entries.len(),
{
    let prefix = entries.drop_last();
    let last_i = entries.len() - 1;
    if i < last_i {
        assert(distinct_keys(prefix));
        lemma_map_of_index(prefix, i);
        assert(prefix[i] == entries[i]);
        assert(entries[last_i].0@ != entries[i].0@);
    }
}

proof fn lemma_map_of_remove(entries: Seq<(String, Vec<String>)>, i: int)
    requires
        0 <= i < entries.len(),
        distinct_keys(entries),
    ensures
        map_of(entries.remove(i)) == map_of(entries).remove(entries[i].0@),
    decreases entries.len(),
{
    let prefix = entries.drop_last();
    let last_i = entries.len() - 1;
    let k = entries[i].0@;
    if i == last_i {
        assert(entries.remove(i) =~= prefix);
        lemma_map_of_contains_key(prefix, k);
        assert(!map_of(prefix).contains_key(k)) by {
            if exists|j: int| 0 <= j < prefix.len() && prefix[j].0@ == k {
                let j = choose|j: int| 0 <= j < prefix.len() && prefix[j].0@ == k;
                assert(entries[j].0@ == entries[last_i].0@);
            }
        }
        assert(map_of(entries).remove(k) =~= map_of(prefix));
    } else {
        assert(distinct_keys(prefix));
        lemma_map_of_remove(prefix, i);
        let removed = entries.remove(i);
        assert(removed.len() == entries.len() - 1);
        assert(removed.drop_last() =~= prefix.remove(i));
        assert(removed.last() == entries.last());
        assert(map_of(removed) == map_of(prefix.remove(i)).insert(
            entries.last().0@,
            entries.last().1.deep_view(),
        ));
        assert(entries.last().0@ != k);
        assert(map_of(prefix).remove(k).insert(entries.last().0@, entries.last().1.deep_view())
            =~= map_of(prefix).insert(entries.last().0@, entries.last().1.deep_view()).remove(k));
    }
}

impl FormData {
    #[verifier::type_invariant]
    spec fn wf(&self) -> bool {
        distinct_keys(self.entries@) && lists_non_empty(self.entries@)
    }

    /// An empty submission.
    pub fn new() -> (r: FormData)
        ensures
            r@ == Map::<Seq<char>, Seq<Seq<char>>>::empty(),
    {
        FormData { entries: Vec::new() }
    }

    /// Appends `value` to the list submitted under `name`, creating the
    /// entry if the name is new.
    pub fn add_value(&mut self, name: String, value: String)
        ensures
            final(self)@ == old(self)@.insert(
                name@,
                (if old(self)@.contains_key(name@) {
                    old(self)@[name@]
                } else {
                    Seq::empty()
                }).push(value@),
            ),
    {
        proof {
            use_type_invariant(&*self);
        }
        let ghost orig = self.entries@;
        let mut entries: Vec<(String, Vec<String>)> = Vec::new();
        std::mem::swap(&mut entries, &mut self.entries);

        let index = find_entry(&entries, &name);
        match index {
            Some(i) => {
                let (_, mut values) = entries.remove(i);
                let ghost old_values = values@;
                values.push(value);
                proof {
                    lemma_map_of_index(orig, i as int);
                    lemma_map_of_remove(orig, i as int);
                    assert(values.deep_view() =~= map_of(orig)[name@].push(value@));
                    assert(distinct_keys(entries@.push((name, values)))) by {
                        assert forall|a: int, b: int|
                            0 <= a < b < entries@.push((name, values)).len()
                                implies entries@.push((name, values))[a].0@
                                != entries@.push((name, values))[b].0@ by {
                            if b < entries@.len() {
                                assert(entries@[a] == orig[if a < i { a } else { a + 1 }]);
                                assert(entries@[b] == orig[if b < i { b } else { b + 1 }]);
                            } else {
                                assert(entries@[a] == orig[if a < i { a } else { a + 1 }]);
                                assert(orig[if a < i { a } else { a + 1 }].0@ != orig[i as int].0@);
                            }
                        }
                    }
                }
                entries.push((name, values));
                proof {
                    assert(entries@.drop_last() =~= orig.remove(i as int));
                    assert(map_of(entries@) =~= map_of(orig).insert(name@, map_of(orig)[name@].push(value@)));
                }
            },
            None => {
                let mut values: Vec<String> = Vec::new();
                values.push(value);
                proof {
                    lemma_map_of_contains_key(orig, name@);
                    assert(values.deep_view() =~= Seq::<Seq<char>>::empty().push(value@));
                    assert(distinct_keys(entries@.push((name, values)))) by {
                        assert forall|a: int, b: int|
                            0 <= a < b < entries@.push((name, values)).len()
                                implies entries@.push((name, values))[a].0@
                                != entries@.push((name, values))[b].0@ by {
                            if b == entries@.len() {
                                assert(entries@[a].0@ != name@);
                            }
                        }
                    }
                }
                entries.push((name, values));
                proof {
                    assert(entries@.drop_last() =~= orig);
                }
            },
        }
        std::mem::swap(&mut entries, &mut self.entries);
    }

    /// Destructive lookup: removes and returns this name's raw values.
    /// Returns `None` if the name was absent; the returned list is never
    /// empty.
    pub fn remove(&mut self, name: &String) -> (r: Option<Vec<String>>)
        ensures
            final(self)@ == old(self)@.remove(name@),
            match r {
                Some(values) => old(self)@.contains_key(name@) && values.deep_view() == old(
                    self,
                )@[name@] && values@.len() > 0,
                None => !old(self)@.contains_key(name@),
            },
    {
        proof {
            use_type_invariant(&*self);
        }
        let ghost orig = self.entries@;
        let mut entries: Vec<(String, Vec<String>)> = Vec::new();
        std::mem::swap(&mut entries, &mut self.entries);

        let index = find_entry(&entries, &name);
        let r: Option<Vec<String>> = match index {
            Some(i) => {
                proof {
                    lemma_map_of_index(orig, i as int);
                    lemma_map_of_remove(orig, i as int);
                }
                let (_, values) = entries.remove(i);
                proof {
                    assert(distinct_keys(entries@)) by {
                        assert forall|a: int, b: int|
                            0 <= a < b < entries@.len() implies entries@[a].0@
                            != entries@[b].0@ by {
                            assert(entries@[a] == orig[if a < i { a } else { a + 1 }]);
                            assert(entries@[b] == orig[if b < i { b } else { b + 1 }]);
                        }
                    }
                    assert(lists_non_empty(entries@)) by {
                        assert forall|a: int| 0 <= a < entries@.len() implies entries@[a].1@.len()
                            > 0 by {
                            assert(entries@[a] == orig[if a < i { a } else { a + 1 }]);
                        }
                    }
                }
                Some(values)
            },
            None => {
                proof {
                    lemma_map_of_contains_key(orig, name@);
                    assert(map_of(orig).remove(name@) =~= map_of(orig));
                }
                None
            },
        };
        std::mem::swap(&mut entries, &mut self.entries);
        r
    }
}

/// The position of the entry submitted under `name`, if any.
fn find_entry(entries: &Vec<(String, Vec<String>)>, name: &String) -> (r: Option<usize>)
    ensures
        match r {
            Some(i) => i < entries@.len() && entries@[i as int].0@ == name@,
            None => forall|j: int| 0 <= j < entries@.len() ==> entries@[j].0@ != name@,
        },
{
    let mut i: usize = 0;
    let mut found = false;
    while i < entries.len() && !found
        invariant
            0 <= i <= entries@.len(),
            forall|j: int| 0 <= j < i ==> entries@[j].0@ != name@,
            found ==> i < entries@.len() && entries@[i as int].0@ == name@,
        decreases entries@.len() - i, (if found { 0int } else { 1int }),
    {
        if entries[i].0 == *name {
            found = true;
        } else {
            i += 1;
        }
    }
    if found {
        Some(i)
    } else {
        None
    }
}

} // verus!
