//! The types of the columns of a result, kept by column label in the order
//! of the labels.

use crate::text::{
    lemma_str_lt_irreflexive, lemma_str_lt_total, lemma_str_lt_transitive, str_eq, str_less,
    str_lt,
};
use crate::ts_generator::types::ts_field_type::{field_models, FieldType, TsFieldType};
use vstd::prelude::*;

verus! {

/// Whether the labels of `entries` rise from each entry to the next, so that
/// no label stands twice.
pub open spec fn sorted_by_label(entries: Seq<(Seq<char>, Seq<FieldType>)>) -> bool {
    forall|i: int, j: int|
        #![trigger entries[i], entries[j]]
        0 <= i < j < entries.len() ==> str_lt(entries[i].0, entries[j].0)
}

/// Whether some entry of `entries` has the label `label`.
pub open spec fn has_label(entries: Seq<(Seq<char>, Seq<FieldType>)>, label: Seq<char>) -> bool {
    exists|i: int| #![trigger entries[i]] 0 <= i < entries.len() && entries[i].0 == label
}

/// The types that `entries` holds under `label`.
pub open spec fn types_of(entries: Seq<(Seq<char>, Seq<FieldType>)>, label: Seq<char>) -> Seq<
    FieldType,
> {
    let i = choose|i: int| #![trigger entries[i]] 0 <= i < entries.len() && entries[i].0 == label;
    entries[i].1
}

/// `entries` as a map from label to types.
pub open spec fn as_map(entries: Seq<(Seq<char>, Seq<FieldType>)>) -> Map<
    Seq<char>,
    Seq<FieldType>,
> {
    Map::new(|label: Seq<char>| has_label(entries, label), |label: Seq<char>| types_of(entries, label))
}

/// In a sorted sequence each entry is the one found under its label.
pub proof fn lemma_entry_found(entries: Seq<(Seq<char>, Seq<FieldType>)>, i: int)
    requires
        sorted_by_label(entries),
        0 <= i < entries.len(),
    ensures
        has_label(entries, entries[i].0),
        types_of(entries, entries[i].0) == entries[i].1,
{
    let label = entries[i].0;
    let j = choose|j: int| #![trigger entries[j]] 0 <= j < entries.len() && entries[j].0 == label;
    lemma_str_lt_irreflexive(label);
    if j < i {
        assert(str_lt(entries[j].0, entries[i].0));
    } else if i < j {
        assert(str_lt(entries[i].0, entries[j].0));
    }
}

/// Putting `entry` in the place of an entry with the same label changes the
/// map at that label only.
proof fn lemma_replaced(
    before: Seq<(Seq<char>, Seq<FieldType>)>,
    after: Seq<(Seq<char>, Seq<FieldType>)>,
    at: int,
    entry: (Seq<char>, Seq<FieldType>),
)
    requires
        sorted_by_label(before),
        sorted_by_label(after),
        0 <= at < before.len(),
        before[at].0 == entry.0,
        after == before.update(at, entry),
    ensures
        as_map(after) == as_map(before).insert(entry.0, entry.1),
{
    let want = as_map(before).insert(entry.0, entry.1);
    assert forall|label: Seq<char>| has_label(after, label) implies has_label(before, label) by {
        let i = choose|i: int| #![trigger after[i]] 0 <= i < after.len() && after[i].0 == label;
        assert(before[i].0 == label);
    }
    assert forall|label: Seq<char>| has_label(before, label) implies has_label(after, label) by {
        let i = choose|i: int| #![trigger before[i]] 0 <= i < before.len() && before[i].0 == label;
        assert(after[i].0 == label);
    }
    lemma_entry_found(before, at);
    assert forall|label: Seq<char>| has_label(after, label) implies types_of(after, label)
        == want[label] by {
        let i = choose|i: int| #![trigger after[i]] 0 <= i < after.len() && after[i].0 == label;
        lemma_entry_found(after, i);
        lemma_entry_found(before, i);
    }
    assert(as_map(after) =~= want);
}

/// Putting `entry` between the entries of a sequence adds its label to the
/// map and changes nothing else.
proof fn lemma_added(
    before: Seq<(Seq<char>, Seq<FieldType>)>,
    after: Seq<(Seq<char>, Seq<FieldType>)>,
    at: int,
    entry: (Seq<char>, Seq<FieldType>),
)
    requires
        sorted_by_label(before),
        sorted_by_label(after),
        0 <= at <= before.len(),
        after == before.insert(at, entry),
    ensures
        as_map(after) == as_map(before).insert(entry.0, entry.1),
{
    let want = as_map(before).insert(entry.0, entry.1);
    assert(after[at] == entry);
    lemma_entry_found(after, at);
    assert forall|label: Seq<char>| has_label(after, label) && label != entry.0 implies has_label(
        before,
        label,
    ) && types_of(after, label) == types_of(before, label) by {
        let i = choose|i: int| #![trigger after[i]] 0 <= i < after.len() && after[i].0 == label;
        lemma_entry_found(after, i);
        if i < at {
            assert(before[i] == after[i]);
            lemma_entry_found(before, i);
        } else {
            assert(before[i - 1] == after[i]);
            lemma_entry_found(before, i - 1);
        }
    }
    assert forall|label: Seq<char>| has_label(before, label) implies has_label(after, label) by {
        let i = choose|i: int| #![trigger before[i]] 0 <= i < before.len() && before[i].0 == label;
        if i < at {
            assert(after[i] == before[i]);
        } else {
            assert(after[i + 1] == before[i]);
        }
    }
    assert(as_map(after) =~= want);
}

/// A map from column label to the types of the column, which hands its
/// entries out in the order of their labels.
#[derive(Debug, Clone)]
pub struct ColumnTypes {
    entries: Vec<(String, Vec<TsFieldType>)>,
}

impl View for ColumnTypes {
    type V = Seq<(Seq<char>, Seq<FieldType>)>;

    /// The entries, label and types, in the order in which they are kept.
    closed spec fn view(&self) -> Seq<(Seq<char>, Seq<FieldType>)> {
        Seq::new(
            self.entries@.len(),
            |i: int| (self.entries@[i].0@, field_models(self.entries@[i].1@)),
        )
    }
}

impl ColumnTypes {
    /// The invariant of the type: the entries are sorted by label.
    pub open spec fn wf(&self) -> bool {
        sorted_by_label(self@)
    }

    /// A map without entries.
    pub fn new() -> (out: Self)
        ensures
            out.wf(),
            out@ == Seq::<(Seq<char>, Seq<FieldType>)>::empty(),
    {
        let out = ColumnTypes { entries: Vec::new() };
        assert(out@ =~= Seq::<(Seq<char>, Seq<FieldType>)>::empty());
        out
    }

    /// The number of entries.
    pub fn len(&self) -> (n: usize)
        ensures
            n == self@.len(),
    {
        self.entries.len()
    }

    /// The label of the entry at `index`.
    pub fn label_at(&self, index: usize) -> (label: &String)
        requires
            index < self@.len(),
        ensures
            label@ == self@[index as int].0,
    {
        &self.entries[index].0
    }

    /// The types of the entry at `index`.
    pub fn types_at(&self, index: usize) -> (types: &Vec<TsFieldType>)
        requires
            index < self@.len(),
        ensures
            field_models(types@) == self@[index as int].1,
    {
        &self.entries[index].1
    }

    /// The types kept under `label`, if there are any.
    pub fn get(&self, label: &str) -> (found: Option<&Vec<TsFieldType>>)
        requires
            self.wf(),
        ensures
            match found {
                Some(types) => has_label(self@, label@) && field_models(types@) == types_of(
                    self@,
                    label@,
                ),
                None => !has_label(self@, label@),
            },
    {
        let mut i: usize = 0;
        while i < self.entries.len()
            invariant
                i <= self.entries.len(),
                self.wf(),
                forall|k: int| 0 <= k < i ==> (#[trigger] self@[k]).0 != label@,
            decreases self.entries.len() - i,
        {
            if str_eq(self.entries[i].0.as_str(), label) {
                proof {
                    lemma_entry_found(self@, i as int);
                }
                return Some(&self.entries[i].1);
            }
            i = i + 1;
        }
        None
    }

    /// Puts `types` under `label`, in place of what was kept there.
    pub fn insert(&mut self, label: String, types: Vec<TsFieldType>)
        requires
            old(self).wf(),
        ensures
            final(self).wf(),
            as_map(final(self)@) == as_map(old(self)@).insert(label@, field_models(types@)),
    {
        let ghost before = self@;
        let ghost entry = (label@, field_models(types@));
        let mut at: usize = 0;
        while at < self.entries.len() && str_less(self.entries[at].0.as_str(), label.as_str())
            invariant
                at <= self.entries.len(),
                self@ == before,
                forall|k: int| 0 <= k < at ==> str_lt((#[trigger] before[k]).0, label@),
            decreases self.entries.len() - at,
        {
            at = at + 1;
        }
        if at < self.entries.len() && str_eq(self.entries[at].0.as_str(), label.as_str()) {
            self.entries.set(at, (label, types));
            proof {
                let after = self@;
                assert(after =~= before.update(at as int, entry));
                assert forall|i: int, j: int|
                    #![trigger after[i], after[j]]
                    0 <= i < j < after.len() implies str_lt(after[i].0, after[j].0) by {
                    assert(str_lt(before[i].0, before[j].0));
                }
                lemma_replaced(before, after, at as int, entry);
            }
        } else {
            proof {
                if at < before.len() {
                    lemma_str_lt_total(before[at as int].0, label@);
                }
            }
            self.entries.insert(at, (label, types));
            proof {
                let after = self@;
                assert(after =~= before.insert(at as int, entry));
                assert forall|i: int, j: int|
                    #![trigger after[i], after[j]]
                    0 <= i < j < after.len() implies str_lt(after[i].0, after[j].0) by {
                    if j < at {
                        assert(str_lt(before[i].0, before[j].0));
                    } else if j == at {
                        assert(str_lt(before[i].0, label@));
                    } else if i == at {
                        if j - 1 > at {
                            assert(str_lt(before[at as int].0, before[j - 1].0));
                            lemma_str_lt_transitive(label@, before[at as int].0, before[j - 1].0);
                        }
                    } else if i < at {
                        assert(str_lt(before[i].0, before[j - 1].0));
                    } else {
                        assert(str_lt(before[i - 1].0, before[j - 1].0));
                    }
                }
                lemma_added(before, after, at as int, entry);
            }
        }
    }
}

} // verus!
