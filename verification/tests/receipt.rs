use rusty_d20::{
    attack_headline, damage_decision_detail, damage_decision_label, damage_part_detail,
    defense_source, expiry_detail, forced_movement_detail, outcome_label, reaction_log,
    roll_detail, roll_position_detail, source_label, stat_contribution_label, D20Id,
    DecisionOutcome, GameLogKindDto, ResponseDecision, SourceInstance, StatContribution,
    TacticalPosition, FORCED_MOVEMENT_BLOCKED,
};

fn id(text: &str) -> D20Id {
    D20Id::parse(text.to_owned()).expect("valid identity")
}

#[test]
fn decision_outcomes_are_named() {
    assert_eq!(outcome_label(DecisionOutcome::Applied), "applied");
    assert_eq!(outcome_label(DecisionOutcome::Suppressed), "suppressed");
    assert_eq!(outcome_label(DecisionOutcome::Inapplicable), "inapplicable");
}

#[test]
fn damage_responses_are_described() {
    assert_eq!(damage_decision_label(&ResponseDecision::NoDamageResponse), "no matching damage response");
    assert_eq!(damage_decision_label(&ResponseDecision::Prevent), "prevent damage");
    assert_eq!(
        damage_decision_label(&ResponseDecision::FlatReduction { amount: 3 }),
        "reduce damage by 3"
    );
    assert_eq!(
        damage_decision_label(&ResponseDecision::Scale { numerator: 1, denominator: 2 }),
        "scale damage × 1/2"
    );
    assert_eq!(
        damage_decision_label(&ResponseDecision::Absorb { track: id("temporary-vitality") }),
        "absorb into Temporary Vitality"
    );
}

#[test]
fn defense_contributions_are_signed() {
    assert_eq!(stat_contribution_label(Some(StatContribution::Add { amount: 2 })), "+2 defense");
    assert_eq!(stat_contribution_label(Some(StatContribution::Add { amount: 0 })), "+0 defense");
    assert_eq!(stat_contribution_label(Some(StatContribution::Add { amount: -1 })), "-1 defense");
    assert_eq!(
        stat_contribution_label(Some(StatContribution::Scale { numerator: 3, denominator: 4 })),
        "scale × 3/4"
    );
    assert_eq!(stat_contribution_label(Some(StatContribution::Minimum { value: 10 })), "minimum 10");
    assert_eq!(stat_contribution_label(Some(StatContribution::Maximum { value: -5 })), "maximum -5");
    assert_eq!(stat_contribution_label(None), "no matching defense contribution");
}

#[test]
fn extreme_signed_values_are_written_whole() {
    assert_eq!(
        stat_contribution_label(Some(StatContribution::Add { amount: i64::MIN })),
        "-9223372036854775808 defense"
    );
    assert_eq!(
        stat_contribution_label(Some(StatContribution::Maximum { value: i64::MAX })),
        "maximum 9223372036854775807"
    );
    assert_eq!(roll_position_detail(u64::MAX), "Roll-source position 18446744073709551615.");
}

#[test]
fn sources_are_described() {
    assert_eq!(
        source_label(&SourceInstance::Intrinsic { entity: 7, instance: id("base-armor") }),
        "Intrinsic Base Armor on entity 7"
    );
    assert_eq!(
        source_label(&SourceInstance::Effect { effect: id("shield-wall"), source: id("guard") }),
        "Effect Shield Wall via Guard"
    );
    assert_eq!(
        source_label(&SourceInstance::EquippedItem { item: 120, source: id("main-hand") }),
        "Equipped item 120 via Main Hand"
    );
    assert_eq!(
        source_label(&SourceInstance::Request { operation: id("strike"), instance: id("roll-1") }),
        "Request Strike via Roll 1"
    );
}

#[test]
fn decision_and_defense_lines() {
    assert_eq!(
        damage_decision_detail(
            &SourceInstance::Effect { effect: id("stone-skin"), source: id("ward") },
            &ResponseDecision::FlatReduction { amount: 2 },
            DecisionOutcome::Applied,
        ),
        "Effect Stone Skin via Ward: reduce damage by 2 (applied)."
    );
    assert_eq!(
        defense_source(
            &SourceInstance::Intrinsic { entity: 3, instance: id("agility") },
            Some(StatContribution::Add { amount: 2 }),
            DecisionOutcome::Suppressed,
        ),
        "Intrinsic Agility on entity 3: +2 defense (suppressed)"
    );
}

#[test]
fn action_resolution_lines() {
    assert_eq!(roll_detail(14, -1, 13, 12), "d20 14 + modifier -1 = 13 against defense 12.");
    assert_eq!(roll_detail(1, 3, 4, 15), "d20 1 + modifier 3 = 4 against defense 15.");
    assert_eq!(roll_position_detail(5), "Roll-source position 5.");
    assert_eq!(
        forced_movement_detail(
            &"Goblin".to_owned(),
            TacticalPosition { x: 3, y: 4 },
            TacticalPosition { x: 5, y: 4 }
        ),
        "Goblin was forced from (3, 4) to (5, 4) without spending movement."
    );
    assert_eq!(FORCED_MOVEMENT_BLOCKED, "Forced movement was blocked by terrain or occupancy.");
    assert_eq!(damage_part_detail(7, 5), "7 damage requested; 5 applied to vitality.");
    assert_eq!(expiry_detail(&id("held"), 12), "Held applied until turn 12.");
}

#[test]
fn attack_headlines_pick_the_log_kind() {
    let (kind, text) = attack_headline(&"Iron Warden".to_owned(), true, &"Goblin".to_owned());
    assert_eq!(kind, GameLogKindDto::Hit);
    assert_eq!(text, "Iron Warden hit Goblin.");
    let (kind, text) = attack_headline(&"Goblin".to_owned(), false, &"Iron Warden".to_owned());
    assert_eq!(kind, GameLogKindDto::Miss);
    assert_eq!(text, "Goblin missed Iron Warden.");
}

#[test]
fn reaction_lines() {
    let (headline, details) = reaction_log(&"Iron Warden".to_owned(), &id("reaction-points"), 2, 1, 9, 1);
    assert_eq!(headline, "Iron Warden raised a reaction before the roll.");
    assert_eq!(
        details,
        vec![
            "Reaction Points 2 → 1.".to_owned(),
            "Defense effect remains through turn 9.".to_owned(),
            "1 attributed source activation(s).".to_owned(),
        ]
    );
}
