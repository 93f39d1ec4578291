use vstd::prelude::*;
use vstd::utf8::encode_utf8;

use crate::component::{entries_view, index_of, lemma_index_of_from, ActivationBudget};
use crate::definitions::ActivationBudgetDefinition;
use crate::session::error::{D20SessionError, EntityId, SessionErrorView};

verus! {

/// Byte-wise lexicographic order, the order of Rust's `String`.
pub open spec fn bytes_before(a: Seq<u8>, b: Seq<u8>) -> bool
    decreases a.len(),
{
    if b.len() == 0 {
        false
    } else if a.len() == 0 {
        true
    } else if a[0] != b[0] {
        a[0] < b[0]
    } else {
        bytes_before(a.drop_first(), b.drop_first())
    }
}

/// Whether the text `a` sorts before `b`.
pub open spec fn text_before(a: Seq<char>, b: Seq<char>) -> bool {
    bytes_before(encode_utf8(a), encode_utf8(b))
}

/// The byte-wise comparison, computed.
fn sorts_before(a: &[u8], b: &[u8]) -> (before: bool)
    ensures
        before == bytes_before(a@, b@),
{
    let mut index: usize = 0;
    assert(a@.skip(0) =~= a@);
    assert(b@.skip(0) =~= b@);
    while index < a.len() && index < b.len() && a[index] == b[index]
        invariant
            0 <= index <= a@.len(),
            index <= b@.len(),
            forall|j: int| 0 <= j < index ==> a@[j] == b@[j],
            bytes_before(a@, b@) == bytes_before(a@.skip(index as int), b@.skip(index as int)),
        decreases a@.len() - index,
    {
        proof {
            let sa = a@.skip(index as int);
            let sb = b@.skip(index as int);
            assert(sa.drop_first() =~= a@.skip(index + 1));
            assert(sb.drop_first() =~= b@.skip(index + 1));
        }
        index = index + 1;
    }
    if index >= b.len() {
        return false;
    }
    if index >= a.len() {
        return true;
    }
    a[index] < b[index]
}

/// Whether the budget at position `i` repeats an earlier identity.
pub open spec fn repeated(budgets: Seq<(Seq<char>, u16)>, i: int) -> bool {
    exists|j: int| 0 <= j < i && #[trigger] budgets[j].0 == budgets[i].0
}

/// The first restored budget, from position `i` on, that is not authored,
/// repeats an identity, or exceeds its authored initial amount.
pub open spec fn budget_problem_from(
    entity: EntityId,
    authored: Seq<(Seq<char>, u16)>,
    budgets: Seq<(Seq<char>, u16)>,
    i: nat,
) -> Option<SessionErrorView>
    decreases budgets.len() - i,
{
    if i >= budgets.len() {
        None
    } else {
        let budget = budgets[i as int];
        match index_of(authored, budget.0) {
            Some(k) => if repeated(budgets, i as int) {
                Some(
                    SessionErrorView::ActivationBudgetUnavailable {
                        entity,
                        budget: budget.0,
                        required: budget.1,
                        available: 0,
                    },
                )
            } else if budget.1 > authored[k].1 {
                Some(
                    SessionErrorView::ActivationBudgetUnavailable {
                        entity,
                        budget: budget.0,
                        required: budget.1,
                        available: authored[k].1,
                    },
                )
            } else {
                budget_problem_from(entity, authored, budgets, i + 1)
            },
            None => Some(
                SessionErrorView::ActivationBudgetUnavailable {
                    entity,
                    budget: budget.0,
                    required: budget.1,
                    available: 0,
                },
            ),
        }
    }
}

/// Whether the authored budget `key` has no restored budget.
pub open spec fn budget_missing(
    authored: Seq<(Seq<char>, u16)>,
    budgets: Seq<(Seq<char>, u16)>,
    key: Seq<char>,
) -> bool {
    &&& exists|k: int| 0 <= k < authored.len() && #[trigger] authored[k].0 == key
    &&& forall|j: int| 0 <= j < budgets.len() ==> #[trigger] budgets[j].0 != key
}

/// What the check of restored budgets answers: the first refused budget
/// in restored order; else, when an authored budget is missing, the
/// missing one that sorts first; else success.
pub open spec fn budgets_verdict(
    entity: EntityId,
    authored: Seq<(Seq<char>, u16)>,
    budgets: Seq<(Seq<char>, u16)>,
    result: Result<(), D20SessionError>,
) -> bool {
    match budget_problem_from(entity, authored, budgets, 0) {
        Some(view) => result matches Err(e) && e@ == view,
        None => if exists|key: Seq<char>| budget_missing(authored, budgets, key) {
            result matches Err(D20SessionError::ActivationBudgetUnavailable {
                entity: reported,
                budget,
                required,
                available,
            }) && reported == entity && required == 0 && available == 0 && budget_missing(
                authored,
                budgets,
                budget@,
            ) && forall|other: Seq<char>|
                budget_missing(authored, budgets, other) ==> !text_before(other, budget@)
        } else {
            result is Ok
        },
    }
}

/// Whether the check of restored budgets refuses them.
pub open spec fn budgets_refused(
    entity: EntityId,
    authored: Seq<(Seq<char>, u16)>,
    budgets: Seq<(Seq<char>, u16)>,
) -> bool {
    ||| budget_problem_from(entity, authored, budgets, 0) is Some
    ||| exists|key: Seq<char>| budget_missing(authored, budgets, key)
}

/// Whether some restored budget at or after `i` is named `key`.
fn names_budget_at(budgets: &Vec<ActivationBudget>, key: &crate::identity::D20Id) -> (found: bool)
    ensures
        found == exists|j: int| 0 <= j < budgets@.len() && #[trigger] budgets@[j].id@ == key@,
{
    let mut index: usize = 0;
    while index < budgets.len()
        invariant
            0 <= index <= budgets@.len(),
            forall|j: int| 0 <= j < index ==> budgets@[j].id@ != key@,
        decreases budgets@.len() - index,
    {
        if budgets[index].id.same_as(key) {
            return true;
        }
        index = index + 1;
    }
    false
}

/// Checks the activation budgets restored for `entity` against the
/// authored ones (whose identities are distinct): every restored budget
/// must be authored, appear once, and hold at most its authored initial
/// amount; then every authored budget must be restored, and the first
/// missing one in identity order is reported.
pub fn validate_restored_budgets(
    entity: EntityId,
    authored: &Vec<ActivationBudgetDefinition>,
    budgets: &Vec<ActivationBudget>,
) -> (result: Result<(), D20SessionError>)
    requires
        forall|i: int, j: int|
            0 <= i < j < authored@.len() ==> #[trigger] authored@[i].id@ != #[trigger] authored@[j].id@,
    ensures
        budgets_verdict(entity, entries_view(authored@), entries_view(budgets@), result),
{
    let ghost a = entries_view(authored@);
    let ghost b = entries_view(budgets@);
    let mut index: usize = 0;
    while index < budgets.len()
        invariant
            0 <= index <= budgets@.len(),
            a == entries_view(authored@),
            b == entries_view(budgets@),
            budget_problem_from(entity, a, b, 0) == budget_problem_from(entity, a, b, index as nat),
        decreases budgets@.len() - index,
    {
        let budget = &budgets[index];
        let mut earlier: usize = 0;
        let mut seen = false;
        while earlier < index && !seen
            invariant
                0 <= earlier <= index < budgets@.len(),
                b == entries_view(budgets@),
                budget == budgets@[index as int],
                seen ==> repeated(b, index as int),
                !seen ==> forall|j: int| 0 <= j < earlier ==> b[j].0 != b[index as int].0,
            decreases index - earlier,
        {
            if budgets[earlier].id.same_as(&budget.id) {
                assert(b[earlier as int].0 == b[index as int].0);
                seen = true;
            }
            earlier = earlier + 1;
        }
        proof {
            lemma_index_of_from(a, b[index as int].0, 0);
        }
        let mut position: usize = 0;
        let mut found: Option<usize> = None;
        while position < authored.len() && found.is_none()
            invariant
                0 <= position <= authored@.len(),
                a == entries_view(authored@),
                budget == budgets@[index as int],
                found is None ==> forall|k: int| 0 <= k < position ==> a[k].0 != budget.id@,
                found matches Some(k) ==> k < authored@.len() && a[k as int].0 == budget.id@
                    && forall|j: int| 0 <= j < k ==> a[j].0 != budget.id@,
            decreases authored@.len() - position,
        {
            if authored[position].id.same_as(&budget.id) {
                found = Some(position);
            }
            position = position + 1;
        }
        match found {
            None => {
                return Err(
                    D20SessionError::ActivationBudgetUnavailable {
                        entity,
                        budget: budget.id.duplicate(),
                        required: budget.value,
                        available: 0,
                    },
                );
            },
            Some(k) => {
                if seen {
                    return Err(
                        D20SessionError::ActivationBudgetUnavailable {
                            entity,
                            budget: budget.id.duplicate(),
                            required: budget.value,
                            available: 0,
                        },
                    );
                }
                if budget.value > authored[k].value {
                    return Err(
                        D20SessionError::ActivationBudgetUnavailable {
                            entity,
                            budget: budget.id.duplicate(),
                            required: budget.value,
                            available: authored[k].value,
                        },
                    );
                }
            },
        }
        index = index + 1;
    }
    let mut least: Option<usize> = None;
    let mut scan: usize = 0;
    while scan < authored.len()
        invariant
            0 <= scan <= authored@.len(),
            a == entries_view(authored@),
            b == entries_view(budgets@),
            least matches Some(k) ==> k < scan && budget_missing(a, b, a[k as int].0) && forall|j: int|
                0 <= j < scan && budget_missing(a, b, a[j].0) ==> !text_before(a[j].0, a[k as int].0),
            least is None ==> forall|j: int| 0 <= j < scan ==> !budget_missing(a, b, #[trigger] a[j].0),
        decreases authored@.len() - scan,
    {
        let candidate = &authored[scan].id;
        if !names_budget_at(budgets, candidate) {
            assert(budget_missing(a, b, a[scan as int].0)) by {
                assert(a[scan as int].0 == candidate@);
                assert forall|j: int| 0 <= j < b.len() implies #[trigger] b[j].0 != candidate@ by {
                    assert(b[j].0 == budgets@[j].id@);
                }
            }
            let replace = match least {
                None => true,
                Some(k) => sorts_before(candidate.as_str().as_bytes(), authored[k].id.as_str().as_bytes()),
            };
            if replace {
                proof {
                    if let Some(k) = least {
                        assert forall|j: int|
                            0 <= j < scan + 1 && budget_missing(a, b, a[j].0) implies !text_before(
                            a[j].0,
                            a[scan as int].0,
                        ) by {
                            if j < scan {
                                if text_before(a[j].0, a[scan as int].0) {
                                    lemma_text_order_transitive(
                                        a[j].0,
                                        a[scan as int].0,
                                        a[k as int].0,
                                    );
                                }
                            } else {
                                lemma_text_order_irreflexive(a[j].0);
                            }
                        }
                    } else {
                        lemma_text_order_irreflexive(a[scan as int].0);
                    }
                }
                least = Some(scan);
            }
        } else {
            proof {
                let j = choose|j: int| 0 <= j < budgets@.len() && #[trigger] budgets@[j].id@ == candidate@;
                assert(b[j].0 == candidate@);
            }
        }
        scan = scan + 1;
    }
    match least {
        None => {
            assert forall|key: Seq<char>| !budget_missing(a, b, key) by {
                if budget_missing(a, b, key) {
                    let k = choose|k: int| 0 <= k < a.len() && #[trigger] a[k].0 == key;
                    assert(!budget_missing(a, b, a[k].0));
                }
            }
            Ok(())
        },
        Some(k) => {
            assert forall|other: Seq<char>| budget_missing(a, b, other) implies !text_before(
                other,
                a[k as int].0,
            ) by {
                let j = choose|j: int| 0 <= j < a.len() && #[trigger] a[j].0 == other;
            }
            Err(
                D20SessionError::ActivationBudgetUnavailable {
                    entity,
                    budget: authored[k].id.duplicate(),
                    required: 0,
                    available: 0,
                },
            )
        },
    }
}

/// Byte order never puts a text before itself.
proof fn lemma_bytes_irreflexive(a: Seq<u8>)
    ensures
        !bytes_before(a, a),
    decreases a.len(),
{
    if a.len() > 0 {
        lemma_bytes_irreflexive(a.drop_first());
    }
}

/// Byte order is transitive.
proof fn lemma_bytes_transitive(a: Seq<u8>, b: Seq<u8>, c: Seq<u8>)
    requires
        bytes_before(a, b),
        bytes_before(b, c),
    ensures
        bytes_before(a, c),
    decreases a.len(),
{
    if a.len() > 0 && b.len() > 0 && c.len() > 0 && a[0] == b[0] && b[0] == c[0] {
        lemma_bytes_transitive(a.drop_first(), b.drop_first(), c.drop_first());
    }
}

proof fn lemma_text_order_irreflexive(a: Seq<char>)
    ensures
        !text_before(a, a),
{
    lemma_bytes_irreflexive(encode_utf8(a));
}

proof fn lemma_text_order_transitive(a: Seq<char>, b: Seq<char>, c: Seq<char>)
    requires
        text_before(a, b),
        text_before(b, c),
    ensures
        text_before(a, c),
{
    lemma_bytes_transitive(encode_utf8(a), encode_utf8(b), encode_utf8(c));
}

} // verus!
