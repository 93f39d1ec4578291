use vstd::prelude::*;

use crate::identity::D20Id;
use crate::session::resolution::ScheduledEffect;
use crate::session::restored::ActiveEffectFact;
use crate::session::runtime::schedule_view;

verus! {

/// How an effect lands on an entity: a refresh of the instance already in
/// force for its definition, or a new instance.
#[derive(Debug, PartialEq, Eq)]
pub enum EffectLanding {
    Refresh(D20Id),
    Apply(D20Id),
}

impl EffectLanding {
    /// The instance the effect lands as.
    pub open spec fn instance_view(self) -> Seq<char> {
        match self {
            EffectLanding::Refresh(instance) => instance@,
            EffectLanding::Apply(instance) => instance@,
        }
    }
}

/// Position, from `i` on, of the first active effect of definition
/// `effect`.
pub open spec fn active_of_definition(active: Seq<ActiveEffectFact>, effect: Seq<char>, i: nat) -> Option<int>
    decreases active.len() - i,
{
    if i >= active.len() {
        None
    } else if active[i as int].definition@ == effect {
        Some(i as int)
    } else {
        active_of_definition(active, effect, i + 1)
    }
}

/// Decides how `effect` lands: the first active instance of the same
/// definition is refreshed; with none, the effect is applied as the
/// `proposed` instance.
pub fn plan_effect_landing(active: &Vec<ActiveEffectFact>, effect: &D20Id, proposed: D20Id) -> (landing:
    EffectLanding)
    ensures
        match active_of_definition(active@, effect@, 0) {
            Some(k) => landing matches EffectLanding::Refresh(instance) && instance@
                == active@[k].instance@,
            None => landing matches EffectLanding::Apply(instance) && instance@ == proposed@,
        },
{
    let mut index: usize = 0;
    while index < active.len()
        invariant
            0 <= index <= active@.len(),
            active_of_definition(active@, effect@, 0) == active_of_definition(
                active@,
                effect@,
                index as nat,
            ),
        decreases active@.len() - index,
    {
        if active[index].definition.same_as(effect) {
            return EffectLanding::Refresh(active[index].instance.duplicate());
        }
        index = index + 1;
    }
    EffectLanding::Apply(proposed)
}

/// The scheduled effects other than those of instance `instance`, in
/// order.
pub open spec fn without_instance(schedule: Seq<(Seq<char>, Seq<char>, u64)>, instance: Seq<char>) -> Seq<
    (Seq<char>, Seq<char>, u64),
>
    decreases schedule.len(),
{
    if schedule.len() == 0 {
        Seq::empty()
    } else {
        let rest = without_instance(schedule.drop_last(), instance);
        if schedule.last().0 == instance {
            rest
        } else {
            rest.push(schedule.last())
        }
    }
}

/// The schedule after an effect lands: a refreshed instance drops its
/// earlier entries; either way the landed instance is scheduled last, to
/// expire at `expires_at_turn`.
pub open spec fn schedule_after_landing(
    schedule: Seq<(Seq<char>, Seq<char>, u64)>,
    landing: EffectLanding,
    effect: Seq<char>,
    expires_at_turn: u64,
) -> Seq<(Seq<char>, Seq<char>, u64)> {
    let kept = match landing {
        EffectLanding::Refresh(instance) => without_instance(schedule, instance@),
        EffectLanding::Apply(_) => schedule,
    };
    kept.push((landing.instance_view(), effect, expires_at_turn))
}

/// Dropping an instance leaves no entry of it, and keeps every other
/// entry of the schedule.
pub proof fn lemma_without_instance(schedule: Seq<(Seq<char>, Seq<char>, u64)>, instance: Seq<char>)
    ensures
        forall|j: int|
            #![trigger without_instance(schedule, instance)[j]]
            0 <= j < without_instance(schedule, instance).len() ==> without_instance(
                schedule,
                instance,
            )[j].0 != instance && schedule.contains(without_instance(schedule, instance)[j]),
        forall|j: int|
            0 <= j < schedule.len() && #[trigger] schedule[j].0 != instance ==> without_instance(
                schedule,
                instance,
            ).contains(schedule[j]),
    decreases schedule.len(),
{
    if schedule.len() > 0 {
        let rest = schedule.drop_last();
        lemma_without_instance(rest, instance);
        let kept = without_instance(rest, instance);
        assert forall|j: int|
            #![trigger without_instance(schedule, instance)[j]]
            0 <= j < without_instance(schedule, instance).len() implies without_instance(
                schedule,
                instance,
            )[j].0 != instance && schedule.contains(without_instance(schedule, instance)[j]) by {
            if j < kept.len() {
                assert(without_instance(schedule, instance)[j] == kept[j]);
                assert(rest.contains(kept[j]));
                let k = choose|k: int| 0 <= k < rest.len() && rest[k] == kept[j];
                assert(schedule[k] == rest[k]);
            } else {
                assert(schedule[schedule.len() - 1] == schedule.last());
            }
        }
        assert forall|j: int|
            0 <= j < schedule.len() && #[trigger] schedule[j].0 != instance implies without_instance(
                schedule,
                instance,
            ).contains(schedule[j]) by {
            if j < rest.len() {
                assert(rest[j] == schedule[j]);
                let k = choose|k: int| 0 <= k < kept.len() && kept[k] == rest[j];
                if schedule.last().0 != instance {
                    assert(kept.push(schedule.last())[k] == kept[k]);
                }
            } else {
                let whole = kept.push(schedule.last());
                assert(whole[kept.len() as int] == schedule[j]);
            }
        }
    }
}

/// Landing an effect schedules its instance exactly once, last, for its
/// definition and expiry; a refresh keeps every entry of other instances,
/// and an application keeps the whole schedule ahead of it.
pub proof fn lemma_landing_schedules_once(
    schedule: Seq<(Seq<char>, Seq<char>, u64)>,
    landing: EffectLanding,
    effect: Seq<char>,
    expires_at_turn: u64,
)
    requires
        landing is Apply ==> forall|j: int|
            0 <= j < schedule.len() ==> #[trigger] schedule[j].0 != landing.instance_view(),
    ensures
        ({
            let next = schedule_after_landing(schedule, landing, effect, expires_at_turn);
            &&& next.last() == (landing.instance_view(), effect, expires_at_turn)
            &&& forall|j: int| 0 <= j < next.len() - 1 ==> #[trigger] next[j].0 != landing.instance_view()
            &&& forall|j: int|
                0 <= j < schedule.len() && #[trigger] schedule[j].0 != landing.instance_view()
                    ==> next.contains(schedule[j])
        }),
{
    let next = schedule_after_landing(schedule, landing, effect, expires_at_turn);
    match landing {
        EffectLanding::Refresh(instance) => {
            lemma_without_instance(schedule, instance@);
            let kept = without_instance(schedule, instance@);
            assert forall|j: int| 0 <= j < next.len() - 1 implies #[trigger] next[j].0
                != landing.instance_view() by {
                assert(next[j] == kept[j]);
            }
            assert forall|j: int|
                0 <= j < schedule.len() && #[trigger] schedule[j].0 != landing.instance_view()
                    implies next.contains(schedule[j]) by {
                let k = choose|k: int| 0 <= k < kept.len() && kept[k] == schedule[j];
                assert(next[k] == kept[k]);
            }
        },
        EffectLanding::Apply(_) => {
            assert forall|j: int| 0 <= j < next.len() - 1 implies #[trigger] next[j].0
                != landing.instance_view() by {
                assert(next[j] == schedule[j]);
            }
            assert forall|j: int|
                0 <= j < schedule.len() && #[trigger] schedule[j].0 != landing.instance_view()
                    implies next.contains(schedule[j]) by {
                assert(next[j] == schedule[j]);
            }
        },
    }
}

/// A second handle on a scheduled effect.
fn copy_scheduled(entry: &ScheduledEffect) -> (copy: ScheduledEffect)
    ensures
        copy@ == entry@,
{
    ScheduledEffect {
        instance: entry.instance.duplicate(),
        definition: entry.definition.duplicate(),
        expires_at_turn: entry.expires_at_turn,
    }
}

/// The schedule of an entity after `effect` lands on it as `landing`.
pub fn reschedule_landing(
    schedule: &Vec<ScheduledEffect>,
    landing: &EffectLanding,
    effect: &D20Id,
    expires_at_turn: u64,
) -> (next: Vec<ScheduledEffect>)
    ensures
        schedule_view(next@) == schedule_after_landing(
            schedule_view(schedule@),
            *landing,
            effect@,
            expires_at_turn,
        ),
{
    let ghost whole = schedule_view(schedule@);
    let mut next: Vec<ScheduledEffect> = Vec::new();
    let mut index: usize = 0;
    while index < schedule.len()
        invariant
            0 <= index <= schedule@.len(),
            whole == schedule_view(schedule@),
            schedule_view(next@) == match *landing {
                EffectLanding::Refresh(instance) => without_instance(
                    whole.take(index as int),
                    instance@,
                ),
                EffectLanding::Apply(_) => whole.take(index as int),
            },
        decreases schedule@.len() - index,
    {
        let entry = &schedule[index];
        proof {
            let upto = whole.take(index + 1);
            assert(upto.drop_last() =~= whole.take(index as int));
            assert(upto.last() == entry@);
        }
        let keep = match landing {
            EffectLanding::Refresh(instance) => !entry.instance.same_as(instance),
            EffectLanding::Apply(_) => true,
        };
        if keep {
            next.push(copy_scheduled(entry));
            proof {
                assert(schedule_view(next@) =~= schedule_view(next@.drop_last()).push(entry@));
            }
        }
        index = index + 1;
    }
    proof {
        assert(whole.take(schedule@.len() as int) =~= whole);
    }
    let instance = match landing {
        EffectLanding::Refresh(instance) => instance.duplicate(),
        EffectLanding::Apply(instance) => instance.duplicate(),
    };
    let ghost before = next@;
    next.push(ScheduledEffect { instance, definition: effect.duplicate(), expires_at_turn });
    proof {
        assert(next@.drop_last() == before);
        assert(schedule_view(next@) =~= schedule_view(before).push(next@.last()@));
    }
    next
}

} // verus!
