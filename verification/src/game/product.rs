use vstd::prelude::*;

use crate::component::index_of;
use crate::definitions::{find_named, ids_view, names};
use crate::game::campaign::CampaignState;
use crate::game::content::{
    character_entity, character_entity_of, lemma_index_in_range, owner_entity, owner_entity_of,
    storage_entity, storage_entity_of, AdventureContent, AdventureDefinition,
};
use crate::game::error::{GameRuntimeError, SaveProblem, StateProblem};
use crate::game::restore::{party_entities, party_entities_from};
use crate::game::state::{CompletedEncounter, EncounterOutcome};
use crate::identity::D20Id;
use crate::session::error::EntityId;

verus! {

/// Whether entities are listed in strictly increasing order.
pub open spec fn strictly_increasing(entities: Seq<EntityId>) -> bool {
    forall|i: int, j: int| 0 <= i < j < entities.len() ==> entities[i] < entities[j]
}

/// Whether a sorted listing of the session is exactly the expected
/// entities: strictly increasing, as many, and the same set.
pub open spec fn lists_exactly(expected: Seq<EntityId>, actual: Seq<EntityId>) -> bool {
    &&& strictly_increasing(actual)
    &&& actual.len() == expected.len()
    &&& actual.to_set() == expected.to_set()
}

/// Whether `entity` is among `entities`, computed.
fn lists_entity(entities: &Vec<EntityId>, entity: EntityId) -> (found: bool)
    ensures
        found == entities@.contains(entity),
{
    let mut index: usize = 0;
    while index < entities.len()
        invariant
            0 <= index <= entities@.len(),
            forall|j: int| 0 <= j < index ==> entities@[j] != entity,
        decreases entities@.len() - index,
    {
        if entities[index] == entity {
            return true;
        }
        index = index + 1;
    }
    false
}

/// Whether a sorted listing of the session is exactly the expected
/// entities, computed.
pub fn same_entities(expected: &Vec<EntityId>, actual: &Vec<EntityId>) -> (same: bool)
    ensures
        same == lists_exactly(expected@, actual@),
{
    if actual.len() != expected.len() {
        return false;
    }
    let mut index: usize = 1;
    while index < actual.len()
        invariant
            1 <= index,
            index <= actual@.len() || actual@.len() == 0,
            forall|i: int, j: int| 0 <= i < j < index && j < actual@.len() ==> actual@[i] < actual@[j],
        decreases actual@.len() - index,
    {
        if actual[index - 1] >= actual[index] {
            return false;
        }
        index = index + 1;
    }
    let mut checked: usize = 0;
    while checked < expected.len()
        invariant
            0 <= checked <= expected@.len(),
            forall|i: int| 0 <= i < checked ==> actual@.contains(#[trigger] expected@[i]),
        decreases expected@.len() - checked,
    {
        if !lists_entity(actual, expected[checked]) {
            assert(!actual@.to_set().contains(expected@[checked as int]));
            assert(expected@.to_set().contains(expected@[checked as int]));
            return false;
        }
        checked = checked + 1;
    }
    let mut back: usize = 0;
    while back < actual.len()
        invariant
            0 <= back <= actual@.len(),
            forall|i: int| 0 <= i < back ==> expected@.contains(#[trigger] actual@[i]),
        decreases actual@.len() - back,
    {
        if !lists_entity(expected, actual[back]) {
            assert(actual@.to_set().contains(actual@[back as int]));
            return false;
        }
        back = back + 1;
    }
    assert forall|e: EntityId| actual@.to_set().contains(e) <==> expected@.to_set().contains(e) by {
        if actual@.contains(e) {
            let i = choose|i: int| 0 <= i < actual@.len() && actual@[i] == e;
            assert(expected@.contains(actual@[i]));
        }
        if expected@.contains(e) {
            let i = choose|i: int| 0 <= i < expected@.len() && expected@[i] == e;
            assert(actual@.contains(expected@[i]));
        }
    }
    assert(actual@.to_set() =~= expected@.to_set());
    true
}

/// The entities of a list of adventure members from position `i` on, each
/// found by `character` (when `characters`) or as storage.
pub open spec fn member_entities_from(
    content: AdventureContent,
    adventure: AdventureDefinition,
    members: Seq<Seq<char>>,
    characters: bool,
    i: nat,
) -> Result<Seq<EntityId>, GameRuntimeError>
    decreases members.len() - i,
{
    if i >= members.len() {
        Ok(Seq::empty())
    } else {
        let found = if characters {
            character_entity_of(content, adventure, members[i as int])
        } else {
            storage_entity_of(content, adventure, members[i as int])
        };
        match found {
            Err(e) => Err(e),
            Ok(entity) => match member_entities_from(content, adventure, members, characters, i + 1) {
                Err(e) => Err(e),
                Ok(rest) => Ok(seq![entity] + rest),
            },
        }
    }
}

/// Collects the entities of adventure members.
fn member_entities(
    content: &AdventureContent,
    adventure: &AdventureDefinition,
    members: &Vec<crate::identity::D20Id>,
    characters: bool,
) -> (result: Result<Vec<EntityId>, GameRuntimeError>)
    ensures
        match member_entities_from(*content, *adventure, ids_view(members@), characters, 0) {
            Ok(entities) => result matches Ok(v) && v@ == entities,
            Err(e) => result == Err::<Vec<EntityId>, GameRuntimeError>(e),
        },
{
    let ghost listed = ids_view(members@);
    let mut entities: Vec<EntityId> = Vec::new();
    let mut index: usize = 0;
    while index < members.len()
        invariant
            0 <= index <= members@.len(),
            listed == ids_view(members@),
            member_entities_from(*content, *adventure, listed, characters, 0) == match member_entities_from(
                *content,
                *adventure,
                listed,
                characters,
                index as nat,
            ) {
                Ok(rest) => Ok(entities@ + rest),
                Err(e) => Err::<Seq<EntityId>, GameRuntimeError>(e),
            },
        decreases members@.len() - index,
    {
        assert(listed[index as int] == members@[index as int]@);
        let found = if characters {
            character_entity(content, adventure, &members[index])
        } else {
            storage_entity(content, adventure, &members[index])
        };
        match found {
            Err(e) => {
                return Err(e);
            },
            Ok(entity) => {
                proof {
                    match member_entities_from(*content, *adventure, listed, characters, (index + 1) as nat) {
                        Ok(rest) => {
                            assert(entities@ + (seq![entity] + rest) =~= entities@.push(entity) + rest);
                        },
                        Err(_) => {},
                    }
                }
                entities.push(entity);
            },
        }
        index = index + 1;
    }
    assert(entities@ + Seq::<EntityId>::empty() =~= entities@);
    Ok(entities)
}

/// The entities of the adventure's item instances from position `i` on;
/// an item without a definition is an inconsistent state.
pub open spec fn item_entities_from(
    content: AdventureContent,
    items: Seq<Seq<char>>,
    i: nat,
) -> Result<Seq<EntityId>, GameRuntimeError>
    decreases items.len() - i,
{
    if i >= items.len() {
        Ok(Seq::empty())
    } else {
        match index_of(names(content.items@), items[i as int]) {
            None => Err(GameRuntimeError::InvalidState(StateProblem::MissingItemInstance)),
            Some(k) => match item_entities_from(content, items, i + 1) {
                Err(e) => Err(e),
                Ok(rest) => Ok(seq![content.items@[k].entity_id] + rest),
            },
        }
    }
}

/// Collects the entities of the adventure's item instances.
fn item_entities(content: &AdventureContent, adventure: &AdventureDefinition) -> (result: Result<
    Vec<EntityId>,
    GameRuntimeError,
>)
    ensures
        match item_entities_from(*content, ids_view(adventure.items@), 0) {
            Ok(entities) => result matches Ok(v) && v@ == entities,
            Err(e) => result == Err::<Vec<EntityId>, GameRuntimeError>(e),
        },
{
    let ghost listed = ids_view(adventure.items@);
    let mut entities: Vec<EntityId> = Vec::new();
    let mut index: usize = 0;
    while index < adventure.items.len()
        invariant
            0 <= index <= adventure.items@.len(),
            listed == ids_view(adventure.items@),
            item_entities_from(*content, listed, 0) == match item_entities_from(
                *content,
                listed,
                index as nat,
            ) {
                Ok(rest) => Ok(entities@ + rest),
                Err(e) => Err::<Seq<EntityId>, GameRuntimeError>(e),
            },
        decreases adventure.items@.len() - index,
    {
        assert(listed[index as int] == adventure.items@[index as int]@);
        match find_named(&content.items, &adventure.items[index]) {
            None => {
                return Err(GameRuntimeError::InvalidState(StateProblem::MissingItemInstance));
            },
            Some(k) => {
                let entity = content.items[k].entity_id;
                proof {
                    match item_entities_from(*content, listed, (index + 1) as nat) {
                        Ok(rest) => {
                            assert(entities@ + (seq![entity] + rest) =~= entities@.push(entity) + rest);
                        },
                        Err(_) => {},
                    }
                }
                entities.push(entity);
            },
        }
        index = index + 1;
    }
    assert(entities@ + Seq::<EntityId>::empty() =~= entities@);
    Ok(entities)
}

/// The entity sets of a restored session, as listed in entity order.
#[derive(Debug, PartialEq, Eq)]
pub struct ProductListing {
    /// How many entities the session holds.
    pub total: usize,
    /// The entities that own an inventory.
    pub inventory_owners: Vec<EntityId>,
    /// The entities that are items.
    pub items: Vec<EntityId>,
}

/// Why a restored session's entity sets do not match the adventure: the
/// entity count, then the inventory owners (characters, then storage),
/// then the items; `Ok` when they match.
pub open spec fn listing_check_of(
    content: AdventureContent,
    adventure: AdventureDefinition,
    listing: ProductListing,
) -> Result<(), GameRuntimeError> {
    let expected_total = adventure.characters@.len() + adventure.storage@.len()
        + adventure.items@.len();
    if listing.total != expected_total {
        Err(GameRuntimeError::InvalidSave(SaveProblem::EntitySetInconsistent))
    } else {
        match member_entities_from(content, adventure, ids_view(adventure.characters@), true, 0) {
            Err(e) => Err(e),
            Ok(characters) => match member_entities_from(
                content,
                adventure,
                ids_view(adventure.storage@),
                false,
                0,
            ) {
                Err(e) => Err(e),
                Ok(storage) => if !lists_exactly(characters + storage, listing.inventory_owners@) {
                    Err(GameRuntimeError::InvalidSave(SaveProblem::InventoryOwnersInconsistent))
                } else {
                    match item_entities_from(content, ids_view(adventure.items@), 0) {
                        Err(e) => Err(e),
                        Ok(items) => if !lists_exactly(items, listing.items@) {
                            Err(GameRuntimeError::InvalidSave(SaveProblem::ItemSetInconsistent))
                        } else {
                            Ok(())
                        },
                    }
                },
            },
        }
    }
}

/// Checks a restored session's entity sets against the adventure.
pub fn validate_product_listing(
    content: &AdventureContent,
    adventure: &AdventureDefinition,
    listing: &ProductListing,
) -> (result: Result<(), GameRuntimeError>)
    ensures
        result == listing_check_of(*content, *adventure, *listing),
{
    let characters = adventure.characters.len();
    let storage = adventure.storage.len();
    let items = adventure.items.len();
    let expected_total: u128 = characters as u128 + storage as u128 + items as u128;
    if listing.total as u128 != expected_total {
        return Err(GameRuntimeError::InvalidSave(SaveProblem::EntitySetInconsistent));
    }
    let mut owners = member_entities(content, adventure, &adventure.characters, true)?;
    let ghost character_entities = owners@;
    let mut stores = member_entities(content, adventure, &adventure.storage, false)?;
    owners.append(&mut stores);
    if !same_entities(&owners, &listing.inventory_owners) {
        return Err(GameRuntimeError::InvalidSave(SaveProblem::InventoryOwnersInconsistent));
    }
    let item_list = item_entities(content, adventure)?;
    if !same_entities(&item_list, &listing.items) {
        return Err(GameRuntimeError::InvalidSave(SaveProblem::ItemSetInconsistent));
    }
    Ok(())
}

/// Where the session holds an authored reward item: its container, and
/// whether the equipment of its authored owner holds it (`None` when that
/// owner has no equipment).
#[derive(Debug, Clone, Copy, PartialEq, Eq, Structural)]
pub struct RewardPlacement {
    pub item: EntityId,
    pub container: Option<EntityId>,
    pub equipped_by_origin: Option<bool>,
}

/// Position of the first item container, from `i`, that is missing or
/// not one of `owners`.
pub open spec fn stray_item_from(owners: Seq<EntityId>, containers: Seq<Option<EntityId>>, i: nat) -> Option<
    int,
>
    decreases containers.len() - i,
{
    if i >= containers.len() {
        None
    } else if !(containers[i as int] matches Some(owner) && owners.contains(owner)) {
        Some(i as int)
    } else {
        stray_item_from(owners, containers, i + 1)
    }
}

/// Whether every authored item sits in an inventory of the adventure: the
/// container of each item, in the adventure's order, must be one of its
/// characters or storage containers.
pub open spec fn containment_check_of(
    content: AdventureContent,
    adventure: AdventureDefinition,
    containers: Seq<Option<EntityId>>,
) -> Result<(), GameRuntimeError> {
    match member_entities_from(content, adventure, ids_view(adventure.characters@), true, 0) {
        Err(e) => Err(e),
        Ok(characters) => match member_entities_from(
            content,
            adventure,
            ids_view(adventure.storage@),
            false,
            0,
        ) {
            Err(e) => Err(e),
            Ok(storage) => if stray_item_from(characters + storage, containers, 0) is Some {
                Err(GameRuntimeError::InvalidSave(SaveProblem::ItemContainmentInconsistent))
            } else {
                Ok(())
            },
        },
    }
}

/// Checks where a restored session keeps the authored items; `containers`
/// holds the container of each of the adventure's items, in order.
pub fn validate_item_containment(
    content: &AdventureContent,
    adventure: &AdventureDefinition,
    containers: &Vec<Option<EntityId>>,
) -> (result: Result<(), GameRuntimeError>)
    ensures
        result == containment_check_of(*content, *adventure, containers@),
{
    let mut owners = member_entities(content, adventure, &adventure.characters, true)?;
    let mut stores = member_entities(content, adventure, &adventure.storage, false)?;
    let ghost characters = owners@;
    let ghost storage = stores@;
    let ghost expected = owners@ + stores@;
    owners.append(&mut stores);
    let mut index: usize = 0;
    while index < containers.len()
        invariant
            0 <= index <= containers@.len(),
            owners@ == expected,
            expected == characters + storage,
            member_entities_from(*content, *adventure, ids_view(adventure.characters@), true, 0)
                == Ok::<Seq<EntityId>, GameRuntimeError>(characters),
            member_entities_from(*content, *adventure, ids_view(adventure.storage@), false, 0)
                == Ok::<Seq<EntityId>, GameRuntimeError>(storage),
            stray_item_from(expected, containers@, 0) == stray_item_from(
                expected,
                containers@,
                index as nat,
            ),
        decreases containers@.len() - index,
    {
        let allowed = match containers[index] {
            Some(owner) => lists_entity(&owners, owner),
            None => false,
        };
        if !allowed {
            return Err(GameRuntimeError::InvalidSave(SaveProblem::ItemContainmentInconsistent));
        }
        index = index + 1;
    }
    Ok(())
}

/// Whether each restored item is its authored equipment, from item `i`
/// on: `definitions` holds, for each of the adventure's items in order,
/// the equipment the restored item carries.
pub open spec fn definition_check_from(
    content: AdventureContent,
    items: Seq<Seq<char>>,
    definitions: Seq<Seq<char>>,
    i: nat,
) -> Result<(), GameRuntimeError>
    decreases items.len() - i,
{
    if i >= items.len() {
        Ok(())
    } else {
        match index_of(names(content.items@), items[i as int]) {
            None => Err(GameRuntimeError::InvalidState(StateProblem::MissingItemInstance)),
            Some(k) => if definitions[i as int] != content.items@[k].equipment@ {
                Err(GameRuntimeError::InvalidSave(SaveProblem::ItemDefinitionInconsistent))
            } else {
                definition_check_from(content, items, definitions, i + 1)
            },
        }
    }
}

/// Whether the restored items carry their authored equipment: one
/// definition per authored item, each the item's own.
pub open spec fn definition_check_of(
    content: AdventureContent,
    adventure: AdventureDefinition,
    definitions: Seq<Seq<char>>,
) -> Result<(), GameRuntimeError> {
    if definitions.len() != adventure.items@.len() {
        Err(GameRuntimeError::InvalidSave(SaveProblem::ItemDefinitionInconsistent))
    } else {
        definition_check_from(content, ids_view(adventure.items@), definitions, 0)
    }
}

/// Checks the equipment each restored item carries; `definitions` holds
/// it for each of the adventure's items, in order.
pub fn validate_item_definitions(
    content: &AdventureContent,
    adventure: &AdventureDefinition,
    definitions: &Vec<D20Id>,
) -> (result: Result<(), GameRuntimeError>)
    ensures
        result == definition_check_of(*content, *adventure, ids_view(definitions@)),
{
    if definitions.len() != adventure.items.len() {
        return Err(GameRuntimeError::InvalidSave(SaveProblem::ItemDefinitionInconsistent));
    }
    let ghost listed = ids_view(adventure.items@);
    let ghost carried = ids_view(definitions@);
    let mut index: usize = 0;
    while index < adventure.items.len()
        invariant
            0 <= index <= adventure.items@.len(),
            definitions@.len() == adventure.items@.len(),
            listed == ids_view(adventure.items@),
            carried == ids_view(definitions@),
            definition_check_from(*content, listed, carried, 0) == definition_check_from(
                *content,
                listed,
                carried,
                index as nat,
            ),
        decreases adventure.items@.len() - index,
    {
        assert(listed[index as int] == adventure.items@[index as int]@);
        assert(carried[index as int] == definitions@[index as int]@);
        match find_named(&content.items, &adventure.items[index]) {
            None => {
                return Err(GameRuntimeError::InvalidState(StateProblem::MissingItemInstance));
            },
            Some(k) => {
                if !content.items[k].equipment.same_as(&definitions[index]) {
                    return Err(GameRuntimeError::InvalidSave(SaveProblem::ItemDefinitionInconsistent));
                }
            },
        }
        index = index + 1;
    }
    Ok(())
}

/// Whether a reward item's placement agrees with the campaign: after a
/// victory it has left its authored owner's equipment for the camp stash
/// or a party member; otherwise it is still equipped by its authored
/// owner.
pub open spec fn reward_consistent(
    victory: bool,
    placement: RewardPlacement,
    origin: EntityId,
    stash: EntityId,
    party: Seq<EntityId>,
) -> bool {
    if victory {
        placement.container matches Some(owner) && (owner == stash || party.contains(owner))
            && placement.equipped_by_origin == Some(false)
    } else {
        placement.container == Some(origin) && placement.equipped_by_origin == Some(true)
    }
}

/// Whether the campaign won `encounter`.
pub open spec fn won(completed: Seq<CompletedEncounter>, encounter: Seq<char>) -> bool {
    exists|j: int|
        0 <= j < completed.len() && #[trigger] completed[j].encounter_id@ == encounter
            && completed[j].outcome == EncounterOutcome::Victory
}

/// Whether the campaign won `encounter`, computed.
fn has_won(completed: &Vec<CompletedEncounter>, encounter: &crate::identity::D20Id) -> (found: bool)
    ensures
        found == won(completed@, encounter@),
{
    let mut index: usize = 0;
    while index < completed.len()
        invariant
            0 <= index <= completed@.len(),
            forall|j: int|
                0 <= j < index ==> !(#[trigger] completed@[j].encounter_id@ == encounter@
                    && completed@[j].outcome == EncounterOutcome::Victory),
        decreases completed@.len() - index,
    {
        let entry = &completed[index];
        if encounter.matches_text(&entry.encounter_id) && entry.outcome == EncounterOutcome::Victory {
            return true;
        }
        index = index + 1;
    }
    false
}

/// The placement the session records for `item`; an item it does not
/// list has no container and no equipment record.
pub open spec fn placement_of(placements: Seq<RewardPlacement>, item: EntityId) -> RewardPlacement {
    if exists|k: int| 0 <= k < placements.len() && #[trigger] placements[k].item == item {
        placements[choose|k: int| 0 <= k < placements.len() && #[trigger] placements[k].item == item]
    } else {
        RewardPlacement { item, container: None, equipped_by_origin: None }
    }
}

/// Every reward item named by an encounter of the content is authored.
pub open spec fn rewards_covered(content: AdventureContent) -> bool {
    forall|i: int|
        0 <= i < content.encounters@.len() ==> match (#[trigger] content.encounters@[i]).reward_item {
            Some(item) => index_of(names(content.items@), item@) is Some,
            None => true,
        }
}

/// Whether placements list each item at most once.
pub open spec fn placements_distinct(placements: Seq<RewardPlacement>) -> bool {
    forall|i: int, j: int|
        0 <= i < j < placements.len() ==> #[trigger] placements[i].item != #[trigger] placements[j].item
}

/// The check of the reward of the adventure's encounters from position `i`
/// on: for each defined encounter with a reward, in order, the authored
/// owner must be known and have equipment, the stash and party must be
/// known, and the reward must be placed as the campaign's outcome says.
pub open spec fn rewards_check_from(
    content: AdventureContent,
    adventure: AdventureDefinition,
    completed: Seq<CompletedEncounter>,
    placements: Seq<RewardPlacement>,
    i: nat,
) -> Result<(), GameRuntimeError>
    decreases adventure.encounters@.len() - i,
{
    if i >= adventure.encounters@.len() {
        Ok(())
    } else {
        let rest = rewards_check_from(content, adventure, completed, placements, i + 1);
        match index_of(names(content.encounters@), adventure.encounters@[i as int]@) {
            None => rest,
            Some(e) => match content.encounters@[e].reward_item {
                None => rest,
                Some(reward) => {
                    let definition = content.items@[index_of(names(content.items@), reward@)->0];
                    let placement = placement_of(placements, definition.entity_id);
                    match owner_entity_of(content, adventure, definition.owner@) {
                        Err(error) => Err(error),
                        Ok(origin) => if placement.equipped_by_origin is None {
                            Err(GameRuntimeError::InvalidSave(SaveProblem::MissingRewardEquipment))
                        } else {
                            match storage_entity_of(content, adventure, adventure.camp_storage@) {
                                Err(error) => Err(error),
                                Ok(stash) => match party_entities_from(content, adventure, 0) {
                                    Err(error) => Err(error),
                                    Ok(party) => if reward_consistent(
                                        won(completed, content.encounters@[e].id@),
                                        placement,
                                        origin,
                                        stash,
                                        party,
                                    ) {
                                        rest
                                    } else {
                                        Err(GameRuntimeError::InvalidSave(SaveProblem::RewardInconsistent))
                                    },
                                },
                            }
                        },
                    }
                },
            },
        }
    }
}

/// Finds the placement of `item`.
fn find_placement(placements: &Vec<RewardPlacement>, item: EntityId) -> (placement: RewardPlacement)
    requires
        placements_distinct(placements@),
    ensures
        placement == placement_of(placements@, item),
{
    let mut index: usize = 0;
    while index < placements.len()
        invariant
            0 <= index <= placements@.len(),
            placements_distinct(placements@),
            forall|k: int| 0 <= k < index ==> placements@[k].item != item,
        decreases placements@.len() - index,
    {
        if placements[index].item == item {
            proof {
                let k = choose|k: int| 0 <= k < placements@.len() && #[trigger] placements@[k].item == item;
                assert(placements@[index as int].item == item);
                if k > index {
                    assert(placements@[index as int].item != placements@[k].item);
                }
                assert(k == index);
            }
            return placements[index];
        }
        index = index + 1;
    }
    RewardPlacement { item, container: None, equipped_by_origin: None }
}

/// Checks that every encounter reward is placed as the campaign's
/// outcomes say: claimed into the stash or the party after a victory, and
/// otherwise still equipped by its authored owner.
pub fn validate_rewards(
    content: &AdventureContent,
    adventure: &AdventureDefinition,
    completed: &Vec<CompletedEncounter>,
    placements: &Vec<RewardPlacement>,
) -> (result: Result<(), GameRuntimeError>)
    requires
        rewards_covered(*content),
        placements_distinct(placements@),
    ensures
        result == rewards_check_from(*content, *adventure, completed@, placements@, 0),
{
    let mut index: usize = adventure.encounters.len();
    let mut verdict: Result<(), GameRuntimeError> = Ok(());
    while index > 0
        invariant
            0 <= index <= adventure.encounters@.len(),
            rewards_covered(*content),
            placements_distinct(placements@),
            verdict == rewards_check_from(*content, *adventure, completed@, placements@, index as nat),
        decreases index,
    {
        index = index - 1;
        let encounter_id = &adventure.encounters[index];
        proof {
            lemma_index_in_range(content.encounters@, encounter_id@);
        }
        if let Some(e) = find_named(&content.encounters, encounter_id) {
            if let Some(reward) = &content.encounters[e].reward_item {
                proof {
                    lemma_index_in_range(content.items@, reward@);
                    assert(content.encounters@[e as int].reward_item == Some(*reward));
                }
                let found = find_named(&content.items, reward);
                let k = match found {
                    Some(k) => k,
                    None => {
                        return Err(GameRuntimeError::InvalidState(StateProblem::MissingItemInstance));
                    },
                };
                let definition = &content.items[k];
                let placement = find_placement(placements, definition.entity_id);
                verdict = match owner_entity(content, adventure, &definition.owner) {
                    Err(error) => Err(error),
                    Ok(origin) => if placement.equipped_by_origin.is_none() {
                        Err(GameRuntimeError::InvalidSave(SaveProblem::MissingRewardEquipment))
                    } else {
                        match storage_entity(content, adventure, &adventure.camp_storage) {
                            Err(error) => Err(error),
                            Ok(stash) => match party_entities(content, adventure) {
                                Err(error) => Err(error),
                                Ok(party) => {
                                    let victory = has_won(completed, &content.encounters[e].id);
                                    let consistent = if victory {
                                        match placement.container {
                                            Some(owner) => (owner == stash || lists_entity(&party, owner))
                                                && placement.equipped_by_origin == Some(false),
                                            None => false,
                                        }
                                    } else {
                                        placement.container == Some(origin)
                                            && placement.equipped_by_origin == Some(true)
                                    };
                                    if consistent {
                                        verdict
                                    } else {
                                        Err(GameRuntimeError::InvalidSave(SaveProblem::RewardInconsistent))
                                    }
                                },
                            },
                        }
                    },
                };
            }
        }
    }
    verdict
}

} // verus!
