use rusty_d20::{
    canonical_slots, carried_capacity, compare_ids, equipment_slots, inventory_slots,
    CapacityUsage, D20Id, GameRuntimeError, LoadoutItemDto, LoadoutRarityDto, SlotAssignment,
    StateProblem, TextOrder,
};

fn id(text: &str) -> D20Id {
    D20Id::parse(text.to_owned()).expect("valid identity")
}

fn item(entity: u64, slot: &str) -> LoadoutItemDto {
    LoadoutItemDto {
        entity_id: entity,
        definition_id: format!("item-{entity}"),
        name: format!("Item {entity}"),
        icon: "icon".to_owned(),
        rarity: LoadoutRarityDto::Common,
        quantity: 1,
        equipment_slot_id: slot.to_owned(),
        equipped_slot_id: None,
    }
}

#[test]
fn identities_compare_by_bytes() {
    assert_eq!(compare_ids(&id("main-hand"), &id("off-hand")), TextOrder::Before);
    assert_eq!(compare_ids(&id("off-hand"), &id("main-hand")), TextOrder::After);
    assert_eq!(compare_ids(&id("body"), &id("body")), TextOrder::Same);
    assert_eq!(compare_ids(&id("body"), &id("body-2")), TextOrder::Before);
    assert_eq!(compare_ids(&id("z"), &id("a-long-one")), TextOrder::After);
}

#[test]
fn slots_are_sorted_and_distinct() {
    let catalog = vec![id("off-hand"), id("body"), id("main-hand"), id("body"), id("off-hand")];
    let slots = canonical_slots(&catalog);
    let texts: Vec<&str> = slots.iter().map(|slot| slot.as_str()).collect();
    assert_eq!(texts, vec!["body", "main-hand", "off-hand"]);
}

#[test]
fn equipment_slots_show_the_last_assignment() {
    let catalog = vec![id("off-hand"), id("main-hand"), id("body")];
    let readout = equipment_slots(
        &catalog,
        vec![
            SlotAssignment { slot: id("main-hand"), item: item(1, "main-hand") },
            SlotAssignment { slot: id("ring"), item: item(2, "ring") },
            SlotAssignment { slot: id("main-hand"), item: item(3, "main-hand") },
        ],
    );
    assert_eq!(readout.len(), 3);
    assert_eq!(readout[0].id, "body");
    assert_eq!(readout[0].label, "Body");
    assert_eq!(readout[0].equipped, None);
    assert_eq!(readout[1].id, "main-hand");
    assert_eq!(readout[1].label, "Main Hand");
    assert_eq!(readout[1].equipped, Some(item(3, "main-hand")));
    assert_eq!(readout[2].id, "off-hand");
    assert_eq!(readout[2].equipped, None);
}

#[test]
fn inventory_grid_pads_with_empty_cells() {
    let grid = inventory_slots(vec![item(1, "body"), item(2, "ring")], 4).expect("fits");
    assert_eq!(grid, vec![Some(item(1, "body")), Some(item(2, "ring")), None, None]);
    assert_eq!(inventory_slots(vec![], 0), Ok(vec![]));
    assert_eq!(
        inventory_slots(vec![item(1, "body"), item(2, "ring")], 1),
        Err(GameRuntimeError::InvalidState(StateProblem::InventoryOverflow))
    );
}

#[test]
fn carried_capacity_is_found() {
    let usages = vec![
        CapacityUsage { metric: "weight".to_owned(), used: 9, maximum: Some(50) },
        CapacityUsage { metric: "carried-items".to_owned(), used: 3, maximum: Some(8) },
    ];
    let capacity = carried_capacity(&usages, false).expect("present");
    assert_eq!((capacity.metric.as_str(), capacity.used, capacity.maximum), ("carried-items", 3, 8));
    assert_eq!(
        carried_capacity(&vec![CapacityUsage { metric: "weight".to_owned(), used: 9, maximum: Some(50) }], true),
        Err(GameRuntimeError::InvalidState(StateProblem::StashCapacityMissing))
    );
    let unbounded = vec![CapacityUsage { metric: "carried-items".to_owned(), used: 3, maximum: None }];
    assert_eq!(
        carried_capacity(&unbounded, false),
        Err(GameRuntimeError::InvalidState(StateProblem::CarriedMaximumMissing))
    );
    assert_eq!(
        carried_capacity(&unbounded, true),
        Err(GameRuntimeError::InvalidState(StateProblem::StashMaximumMissing))
    );
    assert_eq!(
        carried_capacity(&vec![], false),
        Err(GameRuntimeError::InvalidState(StateProblem::CarriedCapacityMissing))
    );
}
