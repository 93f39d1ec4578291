use vstd::prelude::*;

use crate::identity::D20Id;

verus! {

/// A value attached to an authored identity: an ability score, a resource
/// pool, an activation budget, or an activation cost.
#[derive(Debug, PartialEq, Eq)]
pub struct Entry<V> {
    pub id: D20Id,
    pub value: V,
}

/// An ability score of a character.
pub type AbilityScore = Entry<i16>;

/// The current amount of an action resource of a character.
pub type ActionResource = Entry<u16>;

/// The current amount of an activation budget of a character.
pub type ActivationBudget = Entry<u16>;

/// An amount an activation spends from a budget.
pub type ActivationCost = Entry<u16>;

impl<V> View for Entry<V> {
    type V = (Seq<char>, V);

    open spec fn view(&self) -> (Seq<char>, V) {
        (self.id@, self.value)
    }
}

/// The mathematical value of a list of entries.
pub open spec fn entries_view<V>(entries: Seq<Entry<V>>) -> Seq<(Seq<char>, V)> {
    entries.map_values(|entry: Entry<V>| entry@)
}

/// Position of the first entry with identity `key` at or after `i`.
pub open spec fn index_of_from<V>(entries: Seq<(Seq<char>, V)>, key: Seq<char>, i: nat) -> Option<
    int,
>
    decreases entries.len() - i,
{
    if i >= entries.len() {
        None
    } else if entries[i as int].0 == key {
        Some(i as int)
    } else {
        index_of_from(entries, key, i + 1)
    }
}

/// Position of the first entry with identity `key`.
pub open spec fn index_of<V>(entries: Seq<(Seq<char>, V)>, key: Seq<char>) -> Option<int> {
    index_of_from(entries, key, 0)
}

/// Value of the first entry with identity `key`.
pub open spec fn value_of<V>(entries: Seq<(Seq<char>, V)>, key: Seq<char>) -> Option<V> {
    match index_of(entries, key) {
        Some(i) => Some(entries[i].1),
        None => None,
    }
}

/// Whether some entry has identity `key`.
pub open spec fn has_key<V>(entries: Seq<(Seq<char>, V)>, key: Seq<char>) -> bool {
    index_of(entries, key) is Some
}

/// The entries after spending `amount` from the first entry named `key`;
/// `None` when no entry is named `key` or it holds less than `amount`.
pub open spec fn spent(entries: Seq<(Seq<char>, u16)>, key: Seq<char>, amount: u16) -> Option<
    Seq<(Seq<char>, u16)>,
> {
    match index_of(entries, key) {
        Some(i) => if entries[i].1 >= amount {
            Some(entries.update(i, (entries[i].0, (entries[i].1 - amount) as u16)))
        } else {
            None
        },
        None => None,
    }
}

/// The search from `i` finds the first matching position, or reports that
/// no position at or after `i` matches.
pub proof fn lemma_index_of_from<V>(entries: Seq<(Seq<char>, V)>, key: Seq<char>, i: nat)
    ensures
        index_of_from(entries, key, i) matches Some(k) ==> i <= k < entries.len()
            && entries[k].0 == key && forall|j: int| i <= j < k ==> entries[j].0 != key,
        index_of_from(entries, key, i) is None ==> forall|j: int|
            i <= j < entries.len() ==> entries[j].0 != key,
    decreases entries.len() - i,
{
    if i < entries.len() && entries[i as int].0 != key {
        lemma_index_of_from(entries, key, i + 1);
    }
}

/// Position of the first entry named `id`.
pub fn find_entry<V>(entries: &Vec<Entry<V>>, id: &D20Id) -> (found: Option<usize>)
    ensures
        found matches Some(i) ==> index_of(entries_view(entries@), id@) == Some(i as int) && i
            < entries@.len() && entries@[i as int].id@ == id@,
        found is None ==> index_of(entries_view(entries@), id@) is None,
{
    let ghost view = entries_view(entries@);
    let mut index: usize = 0;
    while index < entries.len()
        invariant
            0 <= index <= entries@.len(),
            view == entries_view(entries@),
            view.len() == entries@.len(),
            index_of(view, id@) == index_of_from(view, id@, index as nat),
        decreases entries@.len() - index,
    {
        if entries[index].id.same_as(id) {
            assert(view[index as int].0 == id@);
            return Some(index);
        }
        assert(view[index as int].0 != id@);
        index = index + 1;
    }
    None
}

/// The value of the first entry named `id`.
pub fn entry_value<V: Copy>(entries: &Vec<Entry<V>>, id: &D20Id) -> (value: Option<V>)
    ensures
        value == value_of(entries_view(entries@), id@),
{
    match find_entry(entries, id) {
        Some(i) => Some(entries[i].value),
        None => None,
    }
}

/// An independent list with the same entries.
pub fn copy_entries<V: Copy>(entries: &Vec<Entry<V>>) -> (copy: Vec<Entry<V>>)
    ensures
        entries_view(copy@) == entries_view(entries@),
{
    let mut copy: Vec<Entry<V>> = Vec::new();
    let mut index: usize = 0;
    while index < entries.len()
        invariant
            0 <= index <= entries@.len(),
            copy@.len() == index,
            forall|j: int| 0 <= j < index ==> #[trigger] copy@[j]@ == entries@[j]@,
        decreases entries@.len() - index,
    {
        copy.push(Entry { id: entries[index].id.duplicate(), value: entries[index].value });
        index = index + 1;
    }
    assert(entries_view(copy@) =~= entries_view(entries@));
    copy
}

/// The entries after spending `amount` from the entry named `id`, or `None`
/// when there is no such entry or it holds less than `amount`.
pub fn spend_entry(entries: &Vec<Entry<u16>>, id: &D20Id, amount: u16) -> (after: Option<
    Vec<Entry<u16>>,
>)
    ensures
        after matches Some(list) ==> spent(entries_view(entries@), id@, amount) == Some(
            entries_view(list@),
        ),
        after is None ==> spent(entries_view(entries@), id@, amount) is None,
{
    match find_entry(entries, id) {
        Some(i) => {
            if entries[i].value >= amount {
                let mut list = copy_entries(entries);
                let old_id = list[i].id.duplicate();
                let remaining = entries[i].value - amount;
                list.set(i, Entry { id: old_id, value: remaining });
                assert(entries_view(list@) =~= entries_view(entries@).update(
                    i as int,
                    (entries_view(entries@)[i as int].0, remaining),
                ));
                Some(list)
            } else {
                None
            }
        },
        None => None,
    }
}

/// The side of an encounter a participant fights on.
#[derive(Debug, Clone, Copy, PartialEq, Eq, Structural)]
pub enum EncounterFaction {
    Party,
    Opposition,
}

/// A cell of a tactical board.
#[derive(Debug, Clone, Copy, PartialEq, Eq, Structural)]
pub struct TacticalPosition {
    pub x: u16,
    pub y: u16,
}

} // verus!
