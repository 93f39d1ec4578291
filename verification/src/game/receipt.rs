//! The log text of resolved actions and reactions, and the labels of the
//! Engine mechanics decisions they carry.

use vstd::prelude::*;

use crate::component::TacticalPosition;
use crate::game::dto::GameLogKindDto;
use crate::game::opposition::cell_text;
use crate::game::support::{
    decimal_digits, plus_signed_digits, plus_signed_text, signed_digits, signed_text, u64_text,
};
use crate::game::projection::label_of;
use crate::game::text::humanize;
use crate::identity::D20Id;
use crate::session::error::EntityId;

verus! {

/// What became of one mechanics decision.
#[derive(Debug, Clone, Copy, PartialEq, Eq, Structural)]
pub enum DecisionOutcome {
    Applied,
    Suppressed,
    Inapplicable,
}

/// How a damage response treated incoming damage.
#[derive(Debug, PartialEq, Eq)]
pub enum ResponseDecision {
    NoDamageResponse,
    Prevent,
    FlatReduction { amount: i64 },
    Scale { numerator: u64, denominator: u64 },
    Absorb { track: D20Id },
}

/// How one source contributed to a defense.
#[derive(Debug, Clone, Copy, PartialEq, Eq, Structural)]
pub enum StatContribution {
    Add { amount: i64 },
    Scale { numerator: u64, denominator: u64 },
    Minimum { value: i64 },
    Maximum { value: i64 },
}

/// Where a mechanics decision came from.
#[derive(Debug, PartialEq, Eq)]
pub enum SourceInstance {
    Intrinsic { entity: EntityId, instance: D20Id },
    Effect { effect: D20Id, source: D20Id },
    EquippedItem { item: EntityId, source: D20Id },
    Request { operation: D20Id, instance: D20Id },
}

/// The word for a decision outcome.
pub open spec fn outcome_label_spec(outcome: DecisionOutcome) -> Seq<char> {
    match outcome {
        DecisionOutcome::Applied => "applied"@,
        DecisionOutcome::Suppressed => "suppressed"@,
        DecisionOutcome::Inapplicable => "inapplicable"@,
    }
}

/// Names a decision outcome.
pub fn outcome_label(outcome: DecisionOutcome) -> (label: &'static str)
    ensures
        label@ == outcome_label_spec(outcome),
{
    match outcome {
        DecisionOutcome::Applied => "applied",
        DecisionOutcome::Suppressed => "suppressed",
        DecisionOutcome::Inapplicable => "inapplicable",
    }
}

/// The description of a damage response.
pub open spec fn damage_decision_text(decision: ResponseDecision) -> Seq<char> {
    match decision {
        ResponseDecision::NoDamageResponse => "no matching damage response"@,
        ResponseDecision::Prevent => "prevent damage"@,
        ResponseDecision::FlatReduction { amount } => "reduce damage by "@ + signed_digits(
            amount as int,
        ),
        ResponseDecision::Scale { numerator, denominator } => "scale damage × "@ + decimal_digits(
            numerator as nat,
        ) + "/"@ + decimal_digits(denominator as nat),
        ResponseDecision::Absorb { track } => "absorb into "@ + label_of(track@),
    }
}

/// Describes how a damage response treated incoming damage.
pub fn damage_decision_label(decision: &ResponseDecision) -> (label: String)
    ensures
        label@ == damage_decision_text(*decision),
{
    let mut text = String::new();
    match decision {
        ResponseDecision::NoDamageResponse => {
            text.append("no matching damage response");
        },
        ResponseDecision::Prevent => {
            text.append("prevent damage");
        },
        ResponseDecision::FlatReduction { amount } => {
            text.append("reduce damage by ");
            let digits = signed_text(*amount);
            text.append(digits.as_str());
        },
        ResponseDecision::Scale { numerator, denominator } => {
            text.append("scale damage × ");
            let top = u64_text(*numerator);
            text.append(top.as_str());
            text.append("/");
            let bottom = u64_text(*denominator);
            text.append(bottom.as_str());
        },
        ResponseDecision::Absorb { track } => {
            text.append("absorb into ");
            let name = humanize(track);
            text.append(name.as_str());
        },
    }
    proof {
        assert(text@ =~= damage_decision_text(*decision));
    }
    text
}

/// The description of a defense contribution, or of its absence.
pub open spec fn stat_contribution_text(contribution: Option<StatContribution>) -> Seq<char> {
    match contribution {
        Some(StatContribution::Add { amount }) => plus_signed_digits(amount as int) + " defense"@,
        Some(StatContribution::Scale { numerator, denominator }) => "scale × "@ + decimal_digits(
            numerator as nat,
        ) + "/"@ + decimal_digits(denominator as nat),
        Some(StatContribution::Minimum { value }) => "minimum "@ + signed_digits(value as int),
        Some(StatContribution::Maximum { value }) => "maximum "@ + signed_digits(value as int),
        None => "no matching defense contribution"@,
    }
}

/// Describes how a source contributed to a defense.
pub fn stat_contribution_label(contribution: Option<StatContribution>) -> (label: String)
    ensures
        label@ == stat_contribution_text(contribution),
{
    let mut text = String::new();
    match contribution {
        Some(StatContribution::Add { amount }) => {
            let digits = plus_signed_text(amount);
            text.append(digits.as_str());
            text.append(" defense");
        },
        Some(StatContribution::Scale { numerator, denominator }) => {
            text.append("scale × ");
            let top = u64_text(numerator);
            text.append(top.as_str());
            text.append("/");
            let bottom = u64_text(denominator);
            text.append(bottom.as_str());
        },
        Some(StatContribution::Minimum { value }) => {
            text.append("minimum ");
            let digits = signed_text(value);
            text.append(digits.as_str());
        },
        Some(StatContribution::Maximum { value }) => {
            text.append("maximum ");
            let digits = signed_text(value);
            text.append(digits.as_str());
        },
        None => {
            text.append("no matching defense contribution");
        },
    }
    proof {
        assert(text@ =~= stat_contribution_text(contribution));
    }
    text
}

/// The description of where a decision came from.
pub open spec fn source_text(source: SourceInstance) -> Seq<char> {
    match source {
        SourceInstance::Intrinsic { entity, instance } => "Intrinsic "@ + label_of(instance@)
            + " on entity "@ + decimal_digits(entity as nat),
        SourceInstance::Effect { effect, source } => "Effect "@ + label_of(effect@) + " via "@
            + label_of(source@),
        SourceInstance::EquippedItem { item, source } => "Equipped item "@ + decimal_digits(
            item as nat,
        ) + " via "@ + label_of(source@),
        SourceInstance::Request { operation, instance } => "Request "@ + label_of(operation@)
            + " via "@ + label_of(instance@),
    }
}

/// Describes where a mechanics decision came from.
pub fn source_label(source: &SourceInstance) -> (label: String)
    ensures
        label@ == source_text(*source),
{
    let mut text = String::new();
    match source {
        SourceInstance::Intrinsic { entity, instance } => {
            text.append("Intrinsic ");
            let name = humanize(instance);
            text.append(name.as_str());
            text.append(" on entity ");
            let digits = u64_text(*entity);
            text.append(digits.as_str());
        },
        SourceInstance::Effect { effect, source } => {
            text.append("Effect ");
            let name = humanize(effect);
            text.append(name.as_str());
            text.append(" via ");
            let via = humanize(source);
            text.append(via.as_str());
        },
        SourceInstance::EquippedItem { item, source } => {
            text.append("Equipped item ");
            let digits = u64_text(*item);
            text.append(digits.as_str());
            text.append(" via ");
            let via = humanize(source);
            text.append(via.as_str());
        },
        SourceInstance::Request { operation, instance } => {
            text.append("Request ");
            let name = humanize(operation);
            text.append(name.as_str());
            text.append(" via ");
            let via = humanize(instance);
            text.append(via.as_str());
        },
    }
    proof {
        assert(text@ =~= source_text(*source));
    }
    text
}

/// One damage decision in a log detail: its source, what it did, and
/// what became of it.
pub open spec fn damage_decision_detail_text(
    source: SourceInstance,
    decision: ResponseDecision,
    outcome: DecisionOutcome,
) -> Seq<char> {
    source_text(source) + ": "@ + damage_decision_text(decision) + " ("@ + outcome_label_spec(
        outcome,
    ) + ")."@
}

/// Describes one damage decision of a resolved action.
pub fn damage_decision_detail(
    source: &SourceInstance,
    decision: &ResponseDecision,
    outcome: DecisionOutcome,
) -> (text: String)
    ensures
        text@ == damage_decision_detail_text(*source, *decision, outcome),
{
    let mut text = source_label(source);
    text.append(": ");
    let what = damage_decision_label(decision);
    text.append(what.as_str());
    text.append(" (");
    text.append(outcome_label(outcome));
    text.append(").");
    proof {
        assert(text@ =~= damage_decision_detail_text(*source, *decision, outcome));
    }
    text
}

/// One defense contribution in a readout: its source, what it added, and
/// what became of it.
pub open spec fn defense_source_text(
    source: SourceInstance,
    contribution: Option<StatContribution>,
    outcome: DecisionOutcome,
) -> Seq<char> {
    source_text(source) + ": "@ + stat_contribution_text(contribution) + " ("@
        + outcome_label_spec(outcome) + ")"@
}

/// Describes one source of a defense readout.
pub fn defense_source(
    source: &SourceInstance,
    contribution: Option<StatContribution>,
    outcome: DecisionOutcome,
) -> (text: String)
    ensures
        text@ == defense_source_text(*source, contribution, outcome),
{
    let mut text = source_label(source);
    text.append(": ");
    let what = stat_contribution_label(contribution);
    text.append(what.as_str());
    text.append(" (");
    text.append(outcome_label(outcome));
    text.append(")");
    proof {
        assert(text@ =~= defense_source_text(*source, contribution, outcome));
    }
    text
}

/// The roll line of a resolved action.
pub open spec fn roll_detail_text(d20: u8, modifier: i16, total: i32, defense: i64) -> Seq<char> {
    "d20 "@ + decimal_digits(d20 as nat) + " + modifier "@ + signed_digits(modifier as int)
        + " = "@ + signed_digits(total as int) + " against defense "@ + signed_digits(
        defense as int,
    ) + "."@
}

/// Describes the roll of a resolved action.
pub fn roll_detail(d20: u8, modifier: i16, total: i32, defense: i64) -> (text: String)
    ensures
        text@ == roll_detail_text(d20, modifier, total, defense),
{
    let mut text = String::new();
    text.append("d20 ");
    let die = u64_text(d20 as u64);
    text.append(die.as_str());
    text.append(" + modifier ");
    let bonus = signed_text(modifier as i64);
    text.append(bonus.as_str());
    text.append(" = ");
    let sum = signed_text(total as i64);
    text.append(sum.as_str());
    text.append(" against defense ");
    let against = signed_text(defense);
    text.append(against.as_str());
    text.append(".");
    proof {
        assert(text@ =~= roll_detail_text(d20, modifier, total, defense));
    }
    text
}

/// The roll-source line of a resolved action.
pub open spec fn roll_position_text(index: u64) -> Seq<char> {
    "Roll-source position "@ + decimal_digits(index as nat) + "."@
}

/// Describes where in the roll source a resolved action read.
pub fn roll_position_detail(index: u64) -> (text: String)
    ensures
        text@ == roll_position_text(index),
{
    let mut text = String::new();
    text.append("Roll-source position ");
    let digits = u64_text(index);
    text.append(digits.as_str());
    text.append(".");
    proof {
        assert(text@ =~= roll_position_text(index));
    }
    text
}

/// The log line of a target pushed from `from` to `to`.
pub open spec fn forced_movement_text(name: Seq<char>, from: TacticalPosition, to: TacticalPosition) -> Seq<
    char,
> {
    name + " was forced from "@ + cell_text(from) + " to "@ + cell_text(to)
        + " without spending movement."@
}

/// Describes a forced movement that moved its target.
pub fn forced_movement_detail(name: &String, from: TacticalPosition, to: TacticalPosition) -> (text:
    String)
    ensures
        text@ == forced_movement_text(name@, from, to),
{
    let mut text = name.clone();
    proof {
        assert(text@ == name@);
    }
    text.append(" was forced from ");
    crate::game::opposition::push_cell(&mut text, from);
    text.append(" to ");
    crate::game::opposition::push_cell(&mut text, to);
    text.append(" without spending movement.");
    proof {
        assert(text@ =~= forced_movement_text(name@, from, to));
    }
    text
}

/// The log line of a forced movement that terrain or occupancy stopped.
pub const FORCED_MOVEMENT_BLOCKED: &'static str = "Forced movement was blocked by terrain or occupancy.";

/// The log line of one damage part.
pub open spec fn damage_part_text(requested: i64, applied: i64) -> Seq<char> {
    signed_digits(requested as int) + " damage requested; "@ + signed_digits(applied as int)
        + " applied to vitality."@
}

/// Describes how much of a damage part reached vitality.
pub fn damage_part_detail(requested: i64, applied: i64) -> (text: String)
    ensures
        text@ == damage_part_text(requested, applied),
{
    let mut text = signed_text(requested);
    text.append(" damage requested; ");
    let reached = signed_text(applied);
    text.append(reached.as_str());
    text.append(" applied to vitality.");
    proof {
        assert(text@ =~= damage_part_text(requested, applied));
    }
    text
}

/// The log line of an effect that lasts until `turn`.
pub open spec fn expiry_text(effect: Seq<char>, turn: u64) -> Seq<char> {
    label_of(effect) + " applied until turn "@ + decimal_digits(turn as nat) + "."@
}

/// Describes how long an applied effect lasts.
pub fn expiry_detail(effect: &D20Id, turn: u64) -> (text: String)
    ensures
        text@ == expiry_text(effect@, turn),
{
    let mut text = humanize(effect);
    text.append(" applied until turn ");
    let digits = u64_text(turn);
    text.append(digits.as_str());
    text.append(".");
    proof {
        assert(text@ =~= expiry_text(effect@, turn));
    }
    text
}

/// The headline of a resolved attack.
pub open spec fn attack_headline_text(actor: Seq<char>, hit: bool, target: Seq<char>) -> Seq<char> {
    actor + " "@ + (if hit {
        "hit"@
    } else {
        "missed"@
    }) + " "@ + target + "."@
}

/// The log kind and headline of a resolved attack.
pub fn attack_headline(actor: &String, hit: bool, target: &String) -> (entry: (GameLogKindDto, String))
    ensures
        entry.0 == (if hit {
            GameLogKindDto::Hit
        } else {
            GameLogKindDto::Miss
        }),
        entry.1@ == attack_headline_text(actor@, hit, target@),
{
    let mut text = actor.clone();
    proof {
        assert(text@ == actor@);
    }
    text.append(" ");
    if hit {
        text.append("hit");
    } else {
        text.append("missed");
    }
    text.append(" ");
    text.append(target.as_str());
    text.append(".");
    proof {
        assert(text@ =~= attack_headline_text(actor@, hit, target@));
    }
    if hit {
        (GameLogKindDto::Hit, text)
    } else {
        (GameLogKindDto::Miss, text)
    }
}

/// The headline of a reaction raised by `defender`.
pub open spec fn reaction_headline_text(defender: Seq<char>) -> Seq<char> {
    defender + " raised a reaction before the roll."@
}

/// The log lines of a reaction: the spent resource, how long its defense
/// effect lasts, and how many sources it activated.
pub open spec fn reaction_details_text(
    resource: Seq<char>,
    before: u16,
    after: u16,
    expires: u64,
    activated: nat,
) -> Seq<Seq<char>> {
    seq![
        label_of(resource) + " "@ + decimal_digits(before as nat) + " → "@ + decimal_digits(
            after as nat,
        ) + "."@,
        "Defense effect remains through turn "@ + decimal_digits(expires as nat) + "."@,
        decimal_digits(activated) + " attributed source activation(s)."@,
    ]
}

/// The headline and details of a reaction raised before a roll.
pub fn reaction_log(
    defender: &String,
    resource: &D20Id,
    before: u16,
    after: u16,
    expires: u64,
    activated: usize,
) -> (entry: (String, Vec<String>))
    ensures
        entry.0@ == reaction_headline_text(defender@),
        entry.1@.len() == 3,
        forall|i: int|
            0 <= i < 3 ==> (#[trigger] entry.1@[i])@ == reaction_details_text(
                resource@,
                before,
                after,
                expires,
                activated as nat,
            )[i],
{
    let mut headline = defender.clone();
    proof {
        assert(headline@ == defender@);
    }
    headline.append(" raised a reaction before the roll.");
    let ghost wanted = reaction_details_text(resource@, before, after, expires, activated as nat);
    let mut spent = humanize(resource);
    spent.append(" ");
    let from = u64_text(before as u64);
    spent.append(from.as_str());
    spent.append(" → ");
    let to = u64_text(after as u64);
    spent.append(to.as_str());
    spent.append(".");
    proof {
        assert(spent@ =~= wanted[0]);
    }
    let mut lasting = String::new();
    lasting.append("Defense effect remains through turn ");
    let turn = u64_text(expires);
    lasting.append(turn.as_str());
    lasting.append(".");
    proof {
        assert(lasting@ =~= wanted[1]);
    }
    let mut sources = u64_text(activated as u64);
    sources.append(" attributed source activation(s).");
    proof {
        assert(sources@ =~= wanted[2]);
    }
    let mut details: Vec<String> = Vec::new();
    details.push(spent);
    details.push(lasting);
    details.push(sources);
    (headline, details)
}

} // verus!
