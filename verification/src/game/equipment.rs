//! The equipment slots of a loadout readout: every slot the ruleset knows,
//! once each, in the byte order of their identities, with the item each
//! holds; and the inventory grid and capacities beside them.

use vstd::prelude::*;

use crate::game::dto::{EquipmentSlotDto, LoadoutCapacityDto, LoadoutItemDto};
use crate::game::error::{GameRuntimeError, SaveProblem, StateProblem};
use crate::game::projection::label_of;
use crate::game::text::humanize;
use crate::identity::D20Id;
use vstd::utf8::{encode_utf8, encode_utf8_decode_utf8};

verus! {

/// Whether `a` sorts before `b`, byte by byte, a proper prefix first.
pub open spec fn bytes_less(a: Seq<u8>, b: Seq<u8>) -> bool
    decreases a.len(),
{
    if a.len() == 0 {
        b.len() > 0
    } else if b.len() == 0 {
        false
    } else if a[0] != b[0] {
        a[0] < b[0]
    } else {
        bytes_less(a.drop_first(), b.drop_first())
    }
}

/// No sequence sorts before itself.
pub proof fn lemma_bytes_less_irreflexive(a: Seq<u8>)
    ensures
        !bytes_less(a, a),
    decreases a.len(),
{
    if a.len() > 0 {
        lemma_bytes_less_irreflexive(a.drop_first());
    }
}

/// The byte order is transitive.
pub proof fn lemma_bytes_less_transitive(a: Seq<u8>, b: Seq<u8>, c: Seq<u8>)
    requires
        bytes_less(a, b),
        bytes_less(b, c),
    ensures
        bytes_less(a, c),
    decreases a.len(),
{
    if a.len() > 0 && b.len() > 0 && c.len() > 0 && a[0] == b[0] && b[0] == c[0] {
        lemma_bytes_less_transitive(a.drop_first(), b.drop_first(), c.drop_first());
    }
}

/// Of two different sequences, one sorts before the other.
pub proof fn lemma_bytes_less_total(a: Seq<u8>, b: Seq<u8>)
    requires
        a != b,
    ensures
        bytes_less(a, b) || bytes_less(b, a),
    decreases a.len(),
{
    if a.len() == 0 && b.len() == 0 {
        assert(a =~= b);
    }
    if a.len() > 0 && b.len() > 0 && a[0] == b[0] {
        if a.drop_first() == b.drop_first() {
            assert(a =~= seq![a[0]] + a.drop_first());
            assert(b =~= seq![b[0]] + b.drop_first());
        }
        lemma_bytes_less_total(a.drop_first(), b.drop_first());
    }
}

/// The order never holds both ways.
pub proof fn lemma_bytes_less_asymmetric(a: Seq<u8>, b: Seq<u8>)
    ensures
        !(bytes_less(a, b) && bytes_less(b, a)),
    decreases a.len(),
{
    if a.len() > 0 && b.len() > 0 && a[0] == b[0] {
        lemma_bytes_less_asymmetric(a.drop_first(), b.drop_first());
    }
}

/// The order of two identities.
#[derive(Debug, Clone, Copy, PartialEq, Eq, Structural)]
pub enum TextOrder {
    Before,
    Same,
    After,
}

/// The sort key of an identity: its UTF-8 bytes.
pub open spec fn slot_key(id: D20Id) -> Seq<u8> {
    encode_utf8(id@)
}

proof fn lemma_key_injective(a: D20Id, b: D20Id)
    requires
        slot_key(a) == slot_key(b),
    ensures
        a@ == b@,
{
    encode_utf8_decode_utf8(a@);
    encode_utf8_decode_utf8(b@);
}

proof fn lemma_bytes_less_skip(a: Seq<u8>, b: Seq<u8>, i: int)
    requires
        0 <= i < a.len(),
        i < b.len(),
        a[i] == b[i],
    ensures
        bytes_less(a.skip(i), b.skip(i)) == bytes_less(a.skip(i + 1), b.skip(i + 1)),
{
    assert(a.skip(i).drop_first() =~= a.skip(i + 1));
    assert(b.skip(i).drop_first() =~= b.skip(i + 1));
}

/// Compares two identities by their bytes.
pub fn compare_ids(a: &D20Id, b: &D20Id) -> (order: TextOrder)
    ensures
        order == TextOrder::Before <==> bytes_less(slot_key(*a), slot_key(*b)),
        order == TextOrder::Same <==> a@ == b@,
        order == TextOrder::After <==> bytes_less(slot_key(*b), slot_key(*a)),
{
    let x = a.as_str().as_bytes();
    let y = b.as_str().as_bytes();
    let ghost ka = slot_key(*a);
    let ghost kb = slot_key(*b);
    proof {
        lemma_bytes_less_asymmetric(ka, kb);
        lemma_bytes_less_irreflexive(ka);
        assert(ka.skip(0) =~= ka);
        assert(kb.skip(0) =~= kb);
    }
    let mut i: usize = 0;
    while i < x.len() && i < y.len() && x[i] == y[i]
        invariant
            x@ == ka,
            y@ == kb,
            0 <= i <= x@.len(),
            i <= y@.len(),
            x@.take(i as int) == y@.take(i as int),
            bytes_less(ka, kb) == bytes_less(ka.skip(i as int), kb.skip(i as int)),
            bytes_less(kb, ka) == bytes_less(kb.skip(i as int), ka.skip(i as int)),
        decreases x@.len() - i,
    {
        proof {
            lemma_bytes_less_skip(ka, kb, i as int);
            lemma_bytes_less_skip(kb, ka, i as int);
            assert(x@.take(i as int + 1) =~= x@.take(i as int).push(x@[i as int]));
            assert(y@.take(i as int + 1) =~= y@.take(i as int).push(y@[i as int]));
        }
        i = i + 1;
    }
    let ghost rest_a = ka.skip(i as int);
    let ghost rest_b = kb.skip(i as int);
    if i == x.len() && i == y.len() {
        proof {
            assert(ka =~= x@.take(i as int));
            assert(kb =~= y@.take(i as int));
            lemma_key_injective(*a, *b);
            assert(rest_a.len() == 0 && rest_b.len() == 0);
        }
        TextOrder::Same
    } else if i == x.len() {
        proof {
            assert(rest_a.len() == 0 && rest_b.len() > 0);
            assert(ka != kb);
        }
        TextOrder::Before
    } else if i == y.len() {
        proof {
            assert(rest_b.len() == 0 && rest_a.len() > 0);
            assert(ka != kb);
        }
        TextOrder::After
    } else if x[i] < y[i] {
        proof {
            assert(rest_a[0] == ka[i as int] && rest_b[0] == kb[i as int]);
            assert(ka[i as int] != kb[i as int]);
            assert(ka != kb);
        }
        TextOrder::Before
    } else {
        proof {
            assert(rest_a[0] == ka[i as int] && rest_b[0] == kb[i as int]);
            assert(ka[i as int] != kb[i as int]);
            assert(ka != kb);
        }
        TextOrder::After
    }
}

/// Slots in strictly increasing byte order, hence each once.
pub open spec fn slots_sorted(slots: Seq<D20Id>) -> bool {
    forall|i: int, j: int|
        0 <= i < j < slots.len() ==> bytes_less(slot_key(#[trigger] slots[i]), slot_key(#[trigger] slots[j]))
}

/// Whether some slot of `slots` has the identity `id`.
pub open spec fn has_slot(slots: Seq<D20Id>, id: Seq<char>) -> bool {
    exists|i: int| 0 <= i < slots.len() && #[trigger] slots[i]@ == id
}

fn insert_slot(slots: &mut Vec<D20Id>, id: &D20Id)
    requires
        slots_sorted(old(slots)@),
    ensures
        slots_sorted(final(slots)@),
        forall|t: Seq<char>| has_slot(final(slots)@, t) <==> (has_slot(old(slots)@, t) || t == id@),
{
    let ghost before = slots@;
    let mut p: usize = 0;
    while p < slots.len() && compare_ids(&slots[p], id) == TextOrder::Before
        invariant
            slots@ == before,
            slots_sorted(before),
            0 <= p <= before.len(),
            forall|k: int| 0 <= k < p ==> bytes_less(slot_key(#[trigger] before[k]), slot_key(*id)),
        decreases before.len() - p,
    {
        p = p + 1;
    }
    if p < slots.len() && compare_ids(&slots[p], id) == TextOrder::Same {
        proof {
            assert(before[p as int]@ == id@);
        }
        return;
    }
    proof {
        if p < before.len() {
            assert(bytes_less(slot_key(*id), slot_key(before[p as int])));
        }
    }
    let copy = id.duplicate();
    slots.insert(p, copy);
    proof {
        let after = slots@;
        assert(after =~= before.take(p as int).push(copy) + before.skip(p as int));
        assert forall|i: int, j: int| 0 <= i < j < after.len() implies bytes_less(
            slot_key(#[trigger] after[i]),
            slot_key(#[trigger] after[j]),
        ) by {
            if j < p {
                assert(after[i] == before[i] && after[j] == before[j]);
            } else if j == p {
                assert(after[i] == before[i]);
            } else if i < p {
                assert(after[i] == before[i] && after[j] == before[j - 1]);
                assert(bytes_less(slot_key(*id), slot_key(before[p as int])));
                if j - 1 > p {
                    lemma_bytes_less_transitive(
                        slot_key(*id),
                        slot_key(before[p as int]),
                        slot_key(before[j - 1]),
                    );
                }
                lemma_bytes_less_transitive(slot_key(before[i]), slot_key(*id), slot_key(before[j - 1]));
            } else if i == p {
                assert(after[j] == before[j - 1]);
                if j - 1 > p {
                    lemma_bytes_less_transitive(
                        slot_key(*id),
                        slot_key(before[p as int]),
                        slot_key(before[j - 1]),
                    );
                }
            } else {
                assert(after[i] == before[i - 1] && after[j] == before[j - 1]);
            }
        }
        assert forall|t: Seq<char>| has_slot(after, t) <==> (has_slot(before, t) || t == id@) by {
            if has_slot(after, t) {
                let k = choose|k: int| 0 <= k < after.len() && #[trigger] after[k]@ == t;
                if k < p {
                    assert(after[k] == before[k]);
                } else if k > p {
                    assert(after[k] == before[k - 1]);
                }
            }
            if has_slot(before, t) {
                let k = choose|k: int| 0 <= k < before.len() && #[trigger] before[k]@ == t;
                if k < p {
                    assert(after[k] == before[k]);
                } else {
                    assert(after[k + 1] == before[k]);
                }
            }
            if t == id@ {
                assert(after[p as int] == copy);
            }
        }
    }
}

/// The slots the ruleset knows, each once, in byte order.
pub fn canonical_slots(catalog: &Vec<D20Id>) -> (slots: Vec<D20Id>)
    ensures
        slots_sorted(slots@),
        forall|t: Seq<char>| has_slot(slots@, t) <==> has_slot(catalog@, t),
{
    let mut slots: Vec<D20Id> = Vec::new();
    let mut index: usize = 0;
    while index < catalog.len()
        invariant
            0 <= index <= catalog@.len(),
            slots_sorted(slots@),
            forall|t: Seq<char>| has_slot(slots@, t) <==> has_slot(catalog@.take(index as int), t),
        decreases catalog@.len() - index,
    {
        insert_slot(&mut slots, &catalog[index]);
        proof {
            let taken = catalog@.take(index as int + 1);
            assert forall|t: Seq<char>| has_slot(taken, t) <==> (has_slot(
                catalog@.take(index as int),
                t,
            ) || t == catalog@[index as int]@) by {
                if has_slot(taken, t) {
                    let k = choose|k: int| 0 <= k < taken.len() && #[trigger] taken[k]@ == t;
                    if k < index {
                        assert(catalog@.take(index as int)[k] == taken[k]);
                    }
                }
                if has_slot(catalog@.take(index as int), t) {
                    let k = choose|k: int|
                        0 <= k < catalog@.take(index as int).len() && #[trigger] catalog@.take(
                            index as int,
                        )[k]@ == t;
                    assert(taken[k] == catalog@.take(index as int)[k]);
                }
                if t == catalog@[index as int]@ {
                    assert(taken[index as int] == catalog@[index as int]);
                }
            }
        }
        index = index + 1;
    }
    proof {
        assert(catalog@.take(catalog@.len() as int) =~= catalog@);
    }
    slots
}

/// An item equipped into a slot, as the equipment component lists it.
#[derive(Debug, PartialEq, Eq)]
pub struct SlotAssignment {
    pub slot: D20Id,
    pub item: LoadoutItemDto,
}

/// The item in the last assignment to the slot `id`, if any: a later
/// assignment to a slot replaces an earlier one.
pub open spec fn last_assignment(assignments: Seq<SlotAssignment>, id: Seq<char>) -> Option<LoadoutItemDto>
    decreases assignments.len(),
{
    if assignments.len() == 0 {
        None
    } else if assignments.last().slot@ == id {
        Some(assignments.last().item)
    } else {
        last_assignment(assignments.drop_last(), id)
    }
}

fn slot_position(slots: &Vec<D20Id>, id: &D20Id) -> (found: Option<usize>)
    ensures
        found matches Some(j) ==> j < slots@.len() && slots@[j as int]@ == id@,
        found is None ==> !has_slot(slots@, id@),
{
    let mut j: usize = 0;
    while j < slots.len()
        invariant
            0 <= j <= slots@.len(),
            forall|k: int| 0 <= k < j ==> (#[trigger] slots@[k])@ != id@,
        decreases slots@.len() - j,
    {
        if slots[j].same_as(id) {
            return Some(j);
        }
        j = j + 1;
    }
    None
}

/// The equipment slots of a loadout readout: each slot of `catalog` once,
/// in byte order, labelled, with the item last assigned to it.
pub fn equipment_slots(catalog: &Vec<D20Id>, assignments: Vec<SlotAssignment>) -> (readout: Vec<
    EquipmentSlotDto,
>)
    ensures
        exists|slots: Seq<D20Id>|
            {
                &&& slots_sorted(slots)
                &&& forall|t: Seq<char>| has_slot(slots, t) <==> #[trigger] has_slot(catalog@, t)
                &&& readout@.len() == slots.len()
                &&& forall|i: int|
                    0 <= i < slots.len() ==> {
                        let entry = #[trigger] readout@[i];
                        &&& entry.id@ == slots[i]@
                        &&& entry.label@ == label_of(slots[i]@)
                        &&& entry.equipped == last_assignment(assignments@, slots[i]@)
                    }
            },
{
    let slots = canonical_slots(catalog);
    let ghost all = assignments@;
    let mut equipped: Vec<Option<LoadoutItemDto>> = Vec::new();
    let mut k: usize = 0;
    while k < slots.len()
        invariant
            0 <= k <= slots@.len(),
            equipped@.len() == k,
            forall|i: int| 0 <= i < k ==> #[trigger] equipped@[i] is None,
        decreases slots@.len() - k,
    {
        equipped.push(None);
        k = k + 1;
    }
    let mut rest = assignments;
    proof {
        assert(all.skip(all.len() as int) =~= Seq::<SlotAssignment>::empty());
    }
    while rest.len() > 0
        invariant
            equipped@.len() == slots@.len(),
            all.take(rest@.len() as int) == rest@,
            rest@.len() <= all.len(),
            slots_sorted(slots@),
            forall|i: int|
                0 <= i < slots@.len() ==> #[trigger] equipped@[i] == last_assignment(
                    all.skip(rest@.len() as int),
                    slots@[i]@,
                ),
        decreases rest@.len(),
    {
        let ghost prior = rest@;
        let ghost n = prior.len() as int;
        let ghost was = equipped@;
        let assignment = rest.pop().unwrap();
        proof {
            assert(rest@ =~= prior.drop_last());
            assert(all.take(rest@.len() as int) =~= rest@) by {
                assert(all.take(rest@.len() as int) =~= all.take(prior.len() as int).drop_last());
            }
            assert(assignment == all[n - 1]);
            assert(all.skip(n - 1) =~= seq![all[n - 1]] + all.skip(n));
        }
        let SlotAssignment { slot, item } = assignment;
        let found = slot_position(&slots, &slot);
        match found {
            Some(j) => {
                if equipped[j].is_none() {
                    equipped.set(j, Some(item));
                }
            },
            None => {},
        }
        proof {
            assert forall|i: int| 0 <= i < slots@.len() implies #[trigger] equipped@[i]
                == last_assignment(all.skip(n - 1), slots@[i]@) by {
                lemma_last_prepend(all[n - 1], all.skip(n), slots@[i]@);
                match found {
                    Some(j) => {
                        if i != j {
                            if slots@[i]@ == all[n - 1].slot@ {
                                lemma_sorted_distinct(slots@, i, j as int);
                            }
                            assert(equipped@[i] == was[i]);
                        }
                    },
                    None => {
                        if slots@[i]@ == all[n - 1].slot@ {
                            assert(has_slot(slots@, slot@));
                        }
                    },
                }
            }
        }
    }
    proof {
        assert(all.skip(0) =~= all);
    }
    let mut readout: Vec<EquipmentSlotDto> = Vec::new();
    let mut ordered = slots;
    let ghost fixed = ordered@;
    while ordered.len() > 0
        invariant
            equipped@.len() == ordered@.len(),
            ordered@ == fixed.take(ordered@.len() as int),
            ordered@.len() <= fixed.len(),
            readout@.len() + ordered@.len() == fixed.len(),
            forall|i: int|
                0 <= i < ordered@.len() ==> #[trigger] equipped@[i] == last_assignment(all, fixed[i]@),
            forall|i: int|
                0 <= i < readout@.len() ==> {
                    let entry = #[trigger] readout@[i];
                    let slot = fixed[ordered@.len() + i];
                    &&& entry.id@ == slot@
                    &&& entry.label@ == label_of(slot@)
                    &&& entry.equipped == last_assignment(all, slot@)
                },
        decreases ordered@.len(),
    {
        let ghost count = ordered@.len();
        let slot = ordered.pop().unwrap();
        let holding = equipped.pop().unwrap();
        let entry = EquipmentSlotDto {
            id: slot.as_str().to_owned(),
            label: humanize(&slot),
            equipped: holding,
        };
        let ghost before = readout@;
        readout.insert(0, entry);
        proof {
            assert(ordered@ =~= fixed.take(count - 1));
            assert(slot == fixed[count - 1]);
            assert forall|i: int| 0 <= i < readout@.len() implies {
                let entry = #[trigger] readout@[i];
                let slot = fixed[ordered@.len() + i];
                &&& entry.id@ == slot@
                &&& entry.label@ == label_of(slot@)
                &&& entry.equipped == last_assignment(all, slot@)
            } by {
                if i > 0 {
                    assert(readout@[i] == before[i - 1]);
                }
            }
        }
    }
    assert(fixed.len() == readout@.len());
    assert(slots_sorted(fixed));
    readout
}

proof fn lemma_last_prepend(first: SlotAssignment, tail: Seq<SlotAssignment>, id: Seq<char>)
    ensures
        last_assignment(seq![first] + tail, id) == (if last_assignment(tail, id) is Some {
            last_assignment(tail, id)
        } else if first.slot@ == id {
            Some(first.item)
        } else {
            None
        }),
    decreases tail.len(),
{
    let whole = seq![first] + tail;
    if tail.len() == 0 {
        assert(whole.drop_last() =~= Seq::<SlotAssignment>::empty());
        assert(whole.last() == first);
        assert(last_assignment(whole.drop_last(), id) is None);
        assert(last_assignment(tail, id) is None);
    } else {
        assert(whole.drop_last() =~= seq![first] + tail.drop_last());
        assert(whole.last() == tail.last());
        lemma_last_prepend(first, tail.drop_last(), id);
        assert(last_assignment(whole, id) == (if tail.last().slot@ == id {
            Some(tail.last().item)
        } else {
            last_assignment(seq![first] + tail.drop_last(), id)
        }));
        assert(last_assignment(tail, id) == (if tail.last().slot@ == id {
            Some(tail.last().item)
        } else {
            last_assignment(tail.drop_last(), id)
        }));
    }
}

proof fn lemma_sorted_distinct(slots: Seq<D20Id>, i: int, j: int)
    requires
        slots_sorted(slots),
        0 <= i < slots.len(),
        0 <= j < slots.len(),
        i != j,
    ensures
        slots[i]@ != slots[j]@,
{
    if i < j {
        lemma_bytes_less_irreflexive(slot_key(slots[i]));
    } else {
        lemma_bytes_less_irreflexive(slot_key(slots[j]));
    }
}

/// Lays out the inventory grid: the carried items in order, then empty
/// cells up to the inventory's maximum.
pub fn inventory_slots(items: Vec<LoadoutItemDto>, maximum: u64) -> (result: Result<
    Vec<Option<LoadoutItemDto>>,
    GameRuntimeError,
>)
    ensures
        maximum > usize::MAX ==> result == Err::<Vec<Option<LoadoutItemDto>>, GameRuntimeError>(
            GameRuntimeError::InvalidState(StateProblem::CapacityTooLarge),
        ),
        maximum <= usize::MAX && items@.len() > maximum ==> result == Err::<
            Vec<Option<LoadoutItemDto>>,
            GameRuntimeError,
        >(GameRuntimeError::InvalidState(StateProblem::InventoryOverflow)),
        maximum <= usize::MAX && items@.len() <= maximum ==> (result matches Ok(grid) && grid@.len()
            == maximum && forall|i: int|
            0 <= i < grid@.len() ==> #[trigger] grid@[i] == (if i < items@.len() {
                Some(items@[i])
            } else {
                None
            })),
{
    if maximum > usize::MAX as u64 {
        return Err(GameRuntimeError::InvalidState(StateProblem::CapacityTooLarge));
    }
    let count = maximum as usize;
    if items.len() > count {
        return Err(GameRuntimeError::InvalidState(StateProblem::InventoryOverflow));
    }
    let ghost carried = items@;
    let mut reversed: Vec<Option<LoadoutItemDto>> = Vec::new();
    let mut empty: usize = items.len();
    while empty < count
        invariant
            carried.len() <= empty <= count,
            reversed@.len() == empty - carried.len(),
            forall|i: int| 0 <= i < reversed@.len() ==> #[trigger] reversed@[i] is None,
        decreases count - empty,
    {
        reversed.push(None);
        empty = empty + 1;
    }
    let mut rest = items;
    while rest.len() > 0
        invariant
            rest@ == carried.take(rest@.len() as int),
            rest@.len() <= carried.len(),
            reversed@.len() == count - rest@.len(),
            carried.len() <= count,
            forall|i: int|
                0 <= i < reversed@.len() ==> #[trigger] reversed@[i] == (if i < count - carried.len() {
                    None
                } else {
                    Some(carried[count - 1 - i])
                }),
        decreases rest@.len(),
    {
        let ghost n = rest@.len();
        let item = rest.pop().unwrap();
        proof {
            assert(rest@ =~= carried.take(n - 1));
            assert(item == carried[n - 1]);
        }
        reversed.push(Some(item));
    }
    let mut grid: Vec<Option<LoadoutItemDto>> = Vec::new();
    while reversed.len() > 0
        invariant
            grid@.len() + reversed@.len() == count,
            carried.len() <= count,
            forall|i: int|
                0 <= i < reversed@.len() ==> #[trigger] reversed@[i] == (if i < count - carried.len() {
                    None
                } else {
                    Some(carried[count - 1 - i])
                }),
            forall|i: int|
                0 <= i < grid@.len() ==> #[trigger] grid@[i] == (if i < carried.len() {
                    Some(carried[i])
                } else {
                    None
                }),
        decreases reversed@.len(),
    {
        let ghost r = reversed@;
        let cell = reversed.pop().unwrap();
        proof {
            assert(cell == r[r.len() - 1]);
            assert(forall|i: int| 0 <= i < reversed@.len() ==> reversed@[i] == r[i]);
        }
        grid.push(cell);
    }
    Ok(grid)
}

/// A capacity the inventory service reports for one metric.
#[derive(Debug, PartialEq, Eq)]
pub struct CapacityUsage {
    pub metric: String,
    pub used: u64,
    pub maximum: Option<u64>,
}

/// The metric a loadout readout reports.
pub const CARRIED_ITEMS: &'static str = "carried-items";

/// Position of the first usage, from `i`, of the carried-items metric.
pub open spec fn carried_from(usages: Seq<CapacityUsage>, i: nat) -> Option<int>
    decreases usages.len() - i,
{
    if i >= usages.len() {
        None
    } else if usages[i as int].metric@ == CARRIED_ITEMS@ {
        Some(i as int)
    } else {
        carried_from(usages, i + 1)
    }
}

/// The carried-items capacity of an inventory (`stash` tells whether it
/// is the camp stash's), or why it is missing.
pub fn carried_capacity(usages: &Vec<CapacityUsage>, stash: bool) -> (result: Result<
    LoadoutCapacityDto,
    GameRuntimeError,
>)
    ensures
        match carried_from(usages@, 0) {
            None => result == Err::<LoadoutCapacityDto, GameRuntimeError>(
                GameRuntimeError::InvalidState(
                    if stash {
                        StateProblem::StashCapacityMissing
                    } else {
                        StateProblem::CarriedCapacityMissing
                    },
                ),
            ),
            Some(k) => match usages@[k].maximum {
                None => result == Err::<LoadoutCapacityDto, GameRuntimeError>(
                    GameRuntimeError::InvalidState(
                        if stash {
                            StateProblem::StashMaximumMissing
                        } else {
                            StateProblem::CarriedMaximumMissing
                        },
                    ),
                ),
                Some(maximum) => result matches Ok(capacity) && capacity.metric@ == CARRIED_ITEMS@
                    && capacity.used == usages@[k].used && capacity.maximum == maximum,
            },
        },
{
    let mut index: usize = 0;
    while index < usages.len()
        invariant
            0 <= index <= usages@.len(),
            carried_from(usages@, 0) == carried_from(usages@, index as nat),
        decreases usages@.len() - index,
    {
        let usage = &usages[index];
        let metric = CARRIED_ITEMS.to_owned();
        let wanted = usage.metric == metric;
        if wanted {
            return match usage.maximum {
                None => Err(
                    GameRuntimeError::InvalidState(
                        if stash {
                            StateProblem::StashMaximumMissing
                        } else {
                            StateProblem::CarriedMaximumMissing
                        },
                    ),
                ),
                Some(maximum) => Ok(
                    LoadoutCapacityDto {
                        metric: CARRIED_ITEMS.to_owned(),
                        used: usage.used,
                        maximum,
                    },
                ),
            };
        }
        index = index + 1;
    }
    Err(
        GameRuntimeError::InvalidState(
            if stash {
                StateProblem::StashCapacityMissing
            } else {
                StateProblem::CarriedCapacityMissing
            },
        ),
    )
}

/// Checks a restored inventory's carried-items maximum against the one
/// its authored definition gives.
pub fn check_inventory_capacity(usages: &Vec<CapacityUsage>, expected_maximum: u64) -> (result: Result<
    (),
    GameRuntimeError,
>)
    ensures
        match carried_from(usages@, 0) {
            None => result == Err::<(), GameRuntimeError>(
                GameRuntimeError::InvalidSave(SaveProblem::InventoryCapacityMissing),
            ),
            Some(k) => if usages@[k].maximum == Some(expected_maximum) {
                result == Ok::<(), GameRuntimeError>(())
            } else {
                result == Err::<(), GameRuntimeError>(
                    GameRuntimeError::InvalidSave(SaveProblem::InventoryCapacityInconsistent),
                )
            },
        },
{
    let mut index: usize = 0;
    while index < usages.len()
        invariant
            0 <= index <= usages@.len(),
            carried_from(usages@, 0) == carried_from(usages@, index as nat),
        decreases usages@.len() - index,
    {
        let usage = &usages[index];
        let metric = CARRIED_ITEMS.to_owned();
        if usage.metric == metric {
            return match usage.maximum {
                Some(maximum) => if maximum == expected_maximum {
                    Ok(())
                } else {
                    Err(GameRuntimeError::InvalidSave(SaveProblem::InventoryCapacityInconsistent))
                },
                None => Err(GameRuntimeError::InvalidSave(SaveProblem::InventoryCapacityInconsistent)),
            };
        }
        index = index + 1;
    }
    Err(GameRuntimeError::InvalidSave(SaveProblem::InventoryCapacityMissing))
}

} // verus!
