use vstd::prelude::*;

use crate::component::{index_of, AbilityScore, EncounterFaction};
use crate::definitions::{contains_id, find_named, ids_view, names, Named};
use crate::game::error::{CommandProblem, ContainmentProblem, GameRuntimeError, SaveProblem, StateProblem};
use crate::game::exploration::DungeonDefinition;
use crate::game::tactical::TacticalBoardDefinition;
use crate::game::state::CompletedEncounter;
use crate::identity::D20Id;
use crate::session::error::EntityId;

verus! {

/// An authored character: its entity and what a new adventure seeds.
#[derive(Debug, PartialEq, Eq)]
pub struct CharacterTemplateDefinition {
    pub id: D20Id,
    pub entity_id: EntityId,
    pub name: String,
    pub vitality: i64,
    pub inventory_capacity: u64,
    pub abilities: Vec<AbilityScore>,
    pub actions: Vec<D20Id>,
}

/// An authored storage container, such as the camp stash.
#[derive(Debug, PartialEq, Eq)]
pub struct StorageDefinition {
    pub id: D20Id,
    pub entity_id: EntityId,
    pub name: String,
    pub capacity: u64,
}

/// An authored item instance: the equipment it is, and where it starts.
#[derive(Debug, PartialEq, Eq)]
pub struct ItemInstanceDefinition {
    pub id: D20Id,
    pub entity_id: EntityId,
    pub owner: D20Id,
    pub name: String,
    pub equipped: bool,
    pub slot: D20Id,
    pub equipment: D20Id,
}

/// A participant of an authored encounter.
#[derive(Debug, PartialEq, Eq)]
pub struct EncounterParticipantDefinition {
    pub character: D20Id,
    pub faction: EncounterFaction,
    pub x: u16,
    pub y: u16,
}

/// How an authored encounter's outcome reads, and the reward it names.
#[derive(Debug, PartialEq, Eq)]
pub struct EncounterOutcomeDefinition {
    pub title: String,
    pub summary: String,
    pub reward_label: Option<String>,
}

/// An authored encounter: who fights, whether camp may start it, what a
/// victory rewards and what a defeat restores.
#[derive(Debug, PartialEq, Eq)]
pub struct EncounterDefinition {
    pub id: D20Id,
    pub title: String,
    pub summary: String,
    pub victory: EncounterOutcomeDefinition,
    pub defeat: EncounterOutcomeDefinition,
    pub available_from_camp: bool,
    pub roster: Vec<EncounterParticipantDefinition>,
    pub reward_item: Option<D20Id>,
    pub recovery_vitality: Option<i64>,
    pub board: TacticalBoardDefinition,
}

/// How the end of an authored adventure reads.
#[derive(Debug, PartialEq, Eq)]
pub struct AdventureCompletionDefinition {
    pub source: String,
    pub victory_title: String,
    pub defeat_title: String,
    pub victory_text: String,
    pub defeat_text: String,
    pub details: Vec<String>,
}

/// An authored adventure: which characters, containers, items and
/// encounters (in campaign order) it uses, and its dungeon.
#[derive(Debug, PartialEq, Eq)]
pub struct AdventureDefinition {
    pub id: D20Id,
    pub title: String,
    pub completion: AdventureCompletionDefinition,
    pub characters: Vec<D20Id>,
    pub party: Vec<D20Id>,
    pub storage: Vec<D20Id>,
    pub items: Vec<D20Id>,
    pub encounters: Vec<D20Id>,
    pub camp_storage: D20Id,
    pub hero: D20Id,
    pub dungeon: DungeonDefinition,
}

/// The compiled definitions an adventure refers to.
#[derive(Debug, PartialEq, Eq)]
pub struct AdventureContent {
    pub characters: Vec<CharacterTemplateDefinition>,
    pub storages: Vec<StorageDefinition>,
    pub items: Vec<ItemInstanceDefinition>,
    pub encounters: Vec<EncounterDefinition>,
}

impl Named for CharacterTemplateDefinition {
    open spec fn name_view(&self) -> Seq<char> {
        self.id@
    }

    fn name(&self) -> (id: &D20Id) {
        &self.id
    }
}

impl Named for StorageDefinition {
    open spec fn name_view(&self) -> Seq<char> {
        self.id@
    }

    fn name(&self) -> (id: &D20Id) {
        &self.id
    }
}

impl Named for ItemInstanceDefinition {
    open spec fn name_view(&self) -> Seq<char> {
        self.id@
    }

    fn name(&self) -> (id: &D20Id) {
        &self.id
    }
}

impl Named for EncounterDefinition {
    open spec fn name_view(&self) -> Seq<char> {
        self.id@
    }

    fn name(&self) -> (id: &D20Id) {
        &self.id
    }
}

/// The entity of an adventure character, as `character_entity` finds it.
pub open spec fn character_entity_of(
    content: AdventureContent,
    adventure: AdventureDefinition,
    character: Seq<char>,
) -> Result<EntityId, GameRuntimeError> {
    if !ids_view(adventure.characters@).contains(character) {
        Err(GameRuntimeError::InvalidState(StateProblem::MissingAdventureCharacter))
    } else {
        match index_of(names(content.characters@), character) {
            Some(i) => Ok(content.characters@[i].entity_id),
            None => Err(GameRuntimeError::InvalidState(StateProblem::MissingCharacterTemplate)),
        }
    }
}

/// The entity of an adventure storage container, as `storage_entity`
/// finds it.
pub open spec fn storage_entity_of(
    content: AdventureContent,
    adventure: AdventureDefinition,
    storage: Seq<char>,
) -> Result<EntityId, GameRuntimeError> {
    if !ids_view(adventure.storage@).contains(storage) {
        Err(GameRuntimeError::InvalidState(StateProblem::StorageNotInAdventure))
    } else {
        match index_of(names(content.storages@), storage) {
            Some(i) => Ok(content.storages@[i].entity_id),
            None => Err(GameRuntimeError::InvalidState(StateProblem::MissingStorage)),
        }
    }
}

/// The entity of an item owner: a character if it is one, else a storage
/// container.
pub open spec fn owner_entity_of(
    content: AdventureContent,
    adventure: AdventureDefinition,
    owner: Seq<char>,
) -> Result<EntityId, GameRuntimeError> {
    match character_entity_of(content, adventure, owner) {
        Ok(entity) => Ok(entity),
        Err(_) => storage_entity_of(content, adventure, owner),
    }
}

/// The entity of a character of the adventure.
pub fn character_entity(
    content: &AdventureContent,
    adventure: &AdventureDefinition,
    character: &D20Id,
) -> (result: Result<EntityId, GameRuntimeError>)
    ensures
        result == character_entity_of(*content, *adventure, character@),
{
    if !contains_id(&adventure.characters, character) {
        return Err(GameRuntimeError::InvalidState(StateProblem::MissingAdventureCharacter));
    }
    match find_named(&content.characters, character) {
        Some(index) => Ok(content.characters[index].entity_id),
        None => Err(GameRuntimeError::InvalidState(StateProblem::MissingCharacterTemplate)),
    }
}

/// The entity of a storage container of the adventure.
pub fn storage_entity(
    content: &AdventureContent,
    adventure: &AdventureDefinition,
    storage: &D20Id,
) -> (result: Result<EntityId, GameRuntimeError>)
    ensures
        result == storage_entity_of(*content, *adventure, storage@),
{
    if !contains_id(&adventure.storage, storage) {
        return Err(GameRuntimeError::InvalidState(StateProblem::StorageNotInAdventure));
    }
    match find_named(&content.storages, storage) {
        Some(index) => Ok(content.storages[index].entity_id),
        None => Err(GameRuntimeError::InvalidState(StateProblem::MissingStorage)),
    }
}

/// The entity of an item owner, a character or a storage container.
pub fn owner_entity(content: &AdventureContent, adventure: &AdventureDefinition, owner: &D20Id) -> (result:
    Result<EntityId, GameRuntimeError>)
    ensures
        result == owner_entity_of(*content, *adventure, owner@),
{
    match character_entity(content, adventure, owner) {
        Ok(entity) => Ok(entity),
        Err(_) => storage_entity(content, adventure, owner),
    }
}

/// Refuses the zero entity, which names nothing.
pub fn nonzero_entity(raw: u64) -> (result: Result<EntityId, GameRuntimeError>)
    ensures
        result == (if raw == 0 {
            Err(GameRuntimeError::InvalidCommand(CommandProblem::ZeroEntity))
        } else {
            Ok::<EntityId, GameRuntimeError>(raw)
        }),
{
    if raw == 0 {
        return Err(GameRuntimeError::InvalidCommand(CommandProblem::ZeroEntity));
    }
    Ok(raw)
}

/// The definition, among the adventure's items from position `i` on, of
/// the first that is authored and is the entity `item`.
pub open spec fn loadout_item_from(
    items: Seq<ItemInstanceDefinition>,
    ids: Seq<Seq<char>>,
    item: EntityId,
    i: nat,
) -> Option<int>
    decreases ids.len() - i,
{
    if i >= ids.len() {
        None
    } else {
        let found = index_of(names(items), ids[i as int]);
        if found is Some && items[found->0].entity_id == item {
            found
        } else {
            loadout_item_from(items, ids, item, i + 1)
        }
    }
}

pub(crate) proof fn lemma_index_in_range<T: Named>(items: Seq<T>, key: Seq<char>)
    ensures
        index_of(names(items), key) matches Some(k) ==> 0 <= k < items.len() && items[k].name_view()
            == key,
{
    crate::component::lemma_index_of_from(names(items), key, 0);
    if let Some(k) = index_of(names(items), key) {
        assert(names(items)[k].0 == items[k].name_view());
    }
}

proof fn lemma_loadout_item_from(
    items: Seq<ItemInstanceDefinition>,
    ids: Seq<Seq<char>>,
    item: EntityId,
    i: nat,
)
    ensures
        loadout_item_from(items, ids, item, i) matches Some(k) ==> 0 <= k < items.len()
            && items[k].entity_id == item,
    decreases ids.len() - i,
{
    if i < ids.len() {
        lemma_index_in_range(items, ids[i as int]);
        lemma_loadout_item_from(items, ids, item, i + 1);
    }
}

/// Finds the authored definition of a loadout item entity of the
/// adventure, as a position in the content's items.
pub fn product_loadout_item(content: &AdventureContent, adventure: &AdventureDefinition, item: EntityId) -> (result:
    Result<usize, GameRuntimeError>)
    ensures
        match loadout_item_from(content.items@, ids_view(adventure.items@), item, 0) {
            Some(k) => result matches Ok(n) && n == k && k < content.items@.len(),
            None => result == Err::<usize, GameRuntimeError>(
                GameRuntimeError::InvalidCommand(CommandProblem::NotAuthoredLoadoutItem),
            ),
        },
{
    let ghost ids = ids_view(adventure.items@);
    proof {
        lemma_loadout_item_from(content.items@, ids, item, 0);
    }
    let mut index: usize = 0;
    while index < adventure.items.len()
        invariant
            0 <= index <= adventure.items@.len(),
            ids == ids_view(adventure.items@),
            loadout_item_from(content.items@, ids, item, 0) == loadout_item_from(
                content.items@,
                ids,
                item,
                index as nat,
            ),
        decreases adventure.items@.len() - index,
    {
        assert(ids[index as int] == adventure.items@[index as int]@);
        if let Some(found) = find_named(&content.items, &adventure.items[index]) {
            if content.items[found].entity_id == item {
                return Ok(found);
            }
        }
        index = index + 1;
    }
    Err(GameRuntimeError::InvalidCommand(CommandProblem::NotAuthoredLoadoutItem))
}

/// The party member, among the adventure's party from position `i` on,
/// whose authored character is the entity `entity`.
pub open spec fn party_member_from(
    characters: Seq<CharacterTemplateDefinition>,
    party: Seq<Seq<char>>,
    entity: EntityId,
    i: nat,
) -> Option<int>
    decreases party.len() - i,
{
    if i >= party.len() {
        None
    } else {
        let found = index_of(names(characters), party[i as int]);
        if found is Some && characters[found->0].entity_id == entity {
            found
        } else {
            party_member_from(characters, party, entity, i + 1)
        }
    }
}

proof fn lemma_party_member_from(
    characters: Seq<CharacterTemplateDefinition>,
    party: Seq<Seq<char>>,
    entity: EntityId,
    i: nat,
)
    ensures
        party_member_from(characters, party, entity, i) matches Some(k) ==> 0 <= k
            < characters.len() && characters[k].entity_id == entity,
    decreases party.len() - i,
{
    if i < party.len() {
        lemma_index_in_range(characters, party[i as int]);
        lemma_party_member_from(characters, party, entity, i + 1);
    }
}

/// The name of the party member that is the entity `entity`.
pub fn party_member_name(content: &AdventureContent, adventure: &AdventureDefinition, entity: EntityId) -> (result:
    Result<String, GameRuntimeError>)
    ensures
        match party_member_from(content.characters@, ids_view(adventure.party@), entity, 0) {
            Some(k) => result matches Ok(name) && name@ == content.characters@[k].name@,
            None => result == Err::<String, GameRuntimeError>(
                GameRuntimeError::InvalidContainment(ContainmentProblem::NotAPartyMember),
            ),
        },
{
    let ghost party = ids_view(adventure.party@);
    proof {
        lemma_party_member_from(content.characters@, party, entity, 0);
    }
    let mut index: usize = 0;
    while index < adventure.party.len()
        invariant
            0 <= index <= adventure.party@.len(),
            party == ids_view(adventure.party@),
            party_member_from(content.characters@, party, entity, 0) == party_member_from(
                content.characters@,
                party,
                entity,
                index as nat,
            ),
        decreases adventure.party@.len() - index,
    {
        assert(party[index as int] == adventure.party@[index as int]@);
        if let Some(found) = find_named(&content.characters, &adventure.party[index]) {
            if content.characters[found].entity_id == entity {
                return Ok(content.characters[found].name.clone());
            }
        }
        index = index + 1;
    }
    Err(GameRuntimeError::InvalidContainment(ContainmentProblem::NotAPartyMember))
}

/// The identities of completed encounters, in completion order.
pub open spec fn completed_ids(completed: Seq<CompletedEncounter>) -> Seq<Seq<char>> {
    completed.map_values(|entry: CompletedEncounter| entry.encounter_id@)
}

/// Whether the encounter `id` is among the completed ones.
pub fn is_completed(completed: &Vec<CompletedEncounter>, id: &D20Id) -> (found: bool)
    ensures
        found == completed_ids(completed@).contains(id@),
{
    let mut index: usize = 0;
    while index < completed.len()
        invariant
            0 <= index <= completed@.len(),
            forall|j: int| 0 <= j < index ==> completed@[j].encounter_id@ != id@,
        decreases completed@.len() - index,
    {
        if id.matches_text(&completed[index].encounter_id) {
            assert(completed_ids(completed@)[index as int] == id@);
            return true;
        }
        index = index + 1;
    }
    assert forall|j: int| 0 <= j < completed_ids(completed@).len() implies completed_ids(
        completed@,
    )[j] != id@ by {
        assert(completed@[j].encounter_id@ != id@);
    }
    false
}

/// Position, from `i` on, of the first authored encounter not yet
/// completed.
pub open spec fn first_open_from(listed: Seq<Seq<char>>, completed: Seq<Seq<char>>, i: nat) -> Option<
    int,
>
    decreases listed.len() - i,
{
    if i >= listed.len() {
        None
    } else if !completed.contains(listed[i as int]) {
        Some(i as int)
    } else {
        first_open_from(listed, completed, i + 1)
    }
}

pub(crate) proof fn lemma_first_open_from(listed: Seq<Seq<char>>, completed: Seq<Seq<char>>, i: nat)
    ensures
        first_open_from(listed, completed, i) matches Some(k) ==> i <= k < listed.len()
            && !completed.contains(listed[k]) && forall|j: int|
            i <= j < k ==> completed.contains(#[trigger] listed[j]),
        first_open_from(listed, completed, i) is None ==> forall|j: int|
            i <= j < listed.len() ==> completed.contains(#[trigger] listed[j]),
    decreases listed.len() - i,
{
    if i < listed.len() {
        lemma_first_open_from(listed, completed, i + 1);
    }
}

/// The next encounter camp may start: the first authored encounter not yet
/// completed, which must be startable from camp; `None` once every
/// encounter is completed.
pub open spec fn next_available_of(
    content: AdventureContent,
    adventure: AdventureDefinition,
    completed: Seq<CompletedEncounter>,
) -> Result<Option<int>, GameRuntimeError> {
    let listed = ids_view(adventure.encounters@);
    match first_open_from(listed, completed_ids(completed), 0) {
        None => Ok(None),
        Some(k) => match index_of(names(content.encounters@), listed[k]) {
            None => Err(GameRuntimeError::InvalidState(StateProblem::MissingEncounter)),
            Some(i) => if content.encounters@[i].available_from_camp {
                Ok(Some(i))
            } else {
                Err(GameRuntimeError::InvalidState(StateProblem::NextEncounterNotFromCamp))
            },
        },
    }
}

/// Finds the next encounter camp may start, as a position in the
/// content's encounters.
pub fn next_available_encounter_definition(
    content: &AdventureContent,
    adventure: &AdventureDefinition,
    completed: &Vec<CompletedEncounter>,
) -> (result: Result<Option<usize>, GameRuntimeError>)
    ensures
        match next_available_of(*content, *adventure, completed@) {
            Ok(Some(i)) => result matches Ok(Some(n)) && n == i && i < content.encounters@.len(),
            Ok(None) => result == Ok::<Option<usize>, GameRuntimeError>(None),
            Err(e) => result == Err::<Option<usize>, GameRuntimeError>(e),
        },
{
    let ghost listed = ids_view(adventure.encounters@);
    let ghost done = completed_ids(completed@);
    proof {
        lemma_first_open_from(listed, done, 0);
    }
    let mut index: usize = 0;
    while index < adventure.encounters.len()
        invariant
            0 <= index <= adventure.encounters@.len(),
            listed == ids_view(adventure.encounters@),
            done == completed_ids(completed@),
            first_open_from(listed, done, 0) == first_open_from(listed, done, index as nat),
        decreases adventure.encounters@.len() - index,
    {
        let candidate = &adventure.encounters[index];
        assert(listed[index as int] == candidate@);
        if !is_completed(completed, candidate) {
            proof {
                lemma_index_in_range(content.encounters@, candidate@);
            }
            return match find_named(&content.encounters, candidate) {
                None => Err(GameRuntimeError::InvalidState(StateProblem::MissingEncounter)),
                Some(found) => if content.encounters[found].available_from_camp {
                    Ok(Some(found))
                } else {
                    Err(GameRuntimeError::InvalidState(StateProblem::NextEncounterNotFromCamp))
                },
            };
        }
        index = index + 1;
    }
    Ok(None)
}

/// An authored item as a new session places it: the item's entity, the
/// entity holding it, its name, and the slot it equips into.
#[derive(Debug, PartialEq, Eq)]
pub struct EquipmentItemSeed {
    pub entity: EntityId,
    pub owner: EntityId,
    pub name: String,
    pub slot: D20Id,
}

/// The mathematical value of an item seed.
pub open spec fn item_seed_view(seed: EquipmentItemSeed) -> (EntityId, EntityId, Seq<char>, Seq<char>) {
    (seed.entity, seed.owner, seed.name@, seed.slot@)
}

/// The seeds of the first `k` items of the adventure, or the refusal of
/// the first item whose definition or owner is missing.
pub open spec fn item_seeds_of(content: AdventureContent, adventure: AdventureDefinition, k: nat) -> Result<
    Seq<(EntityId, EntityId, Seq<char>, Seq<char>)>,
    GameRuntimeError,
>
    decreases k,
{
    if k == 0 {
        Ok(Seq::empty())
    } else {
        match item_seeds_of(content, adventure, (k - 1) as nat) {
            Err(error) => Err(error),
            Ok(seeds) => {
                let id = adventure.items@[k - 1]@;
                match index_of(names(content.items@), id) {
                    None => Err(GameRuntimeError::InvalidState(StateProblem::MissingItemInstance)),
                    Some(d) => {
                        let definition = content.items@[d];
                        match owner_entity_of(content, adventure, definition.owner@) {
                            Err(error) => Err(error),
                            Ok(owner) => Ok(
                                seeds.push(
                                    (definition.entity_id, owner, definition.name@, definition.slot@),
                                ),
                            ),
                        }
                    },
                }
            },
        }
    }
}

proof fn lemma_item_seeds_error_persists(
    content: AdventureContent,
    adventure: AdventureDefinition,
    k: nat,
    n: nat,
)
    requires
        k <= n,
        item_seeds_of(content, adventure, k) is Err,
    ensures
        item_seeds_of(content, adventure, n) == item_seeds_of(content, adventure, k),
    decreases n - k,
{
    if k < n {
        lemma_item_seeds_error_persists(content, adventure, k, (n - 1) as nat);
    }
}

/// Seeds every authored item of the adventure with the entity that holds
/// it, in the adventure's order.
pub fn product_equipment_items(content: &AdventureContent, adventure: &AdventureDefinition) -> (result:
    Result<Vec<EquipmentItemSeed>, GameRuntimeError>)
    ensures
        match item_seeds_of(*content, *adventure, adventure.items@.len()) {
            Err(error) => result == Err::<Vec<EquipmentItemSeed>, GameRuntimeError>(error),
            Ok(seeds) => result matches Ok(v) && v@.map_values(
                |seed: EquipmentItemSeed| item_seed_view(seed),
            ) == seeds,
        },
{
    let mut seeds: Vec<EquipmentItemSeed> = Vec::new();
    let mut index: usize = 0;
    while index < adventure.items.len()
        invariant
            0 <= index <= adventure.items@.len(),
            item_seeds_of(*content, *adventure, index as nat) matches Ok(done) && seeds@.map_values(
                |seed: EquipmentItemSeed| item_seed_view(seed),
            ) == done,
        decreases adventure.items@.len() - index,
    {
        let ghost done = seeds@.map_values(|seed: EquipmentItemSeed| item_seed_view(seed));
        let id = &adventure.items[index];
        let d = match find_named(&content.items, id) {
            None => {
                proof {
                    lemma_item_seeds_error_persists(
                        *content,
                        *adventure,
                        (index + 1) as nat,
                        adventure.items@.len(),
                    );
                }
                return Err(GameRuntimeError::InvalidState(StateProblem::MissingItemInstance));
            },
            Some(d) => d,
        };
        let definition = &content.items[d];
        let owner = match owner_entity(content, adventure, &definition.owner) {
            Err(error) => {
                proof {
                    lemma_item_seeds_error_persists(
                        *content,
                        *adventure,
                        (index + 1) as nat,
                        adventure.items@.len(),
                    );
                }
                return Err(error);
            },
            Ok(owner) => owner,
        };
        let seed = EquipmentItemSeed {
            entity: definition.entity_id,
            owner,
            name: definition.name.clone(),
            slot: definition.slot.duplicate(),
        };
        seeds.push(seed);
        proof {
            assert(seeds@.map_values(|seed: EquipmentItemSeed| item_seed_view(seed)) =~= done.push(
                (definition.entity_id, owner, definition.name@, definition.slot@),
            ));
        }
        index = index + 1;
    }
    Ok(seeds)
}

/// How a victory reward moves to the camp stash: the item leaves its
/// authored owner's equipment under the operation `unequip_serial`, then
/// moves to the stash under `transfer_serial`; `next_operation` is the
/// counter afterwards.
#[derive(Debug, Clone, Copy, PartialEq, Eq, Structural)]
pub struct RewardTransfer {
    pub item: EntityId,
    pub owner: EntityId,
    pub stash: EntityId,
    pub unequip_serial: u64,
    pub transfer_serial: u64,
    pub next_operation: u64,
}

/// The transfer of an encounter's victory reward, or its refusal: the
/// operation counter must be nonzero, the encounter must have a reward
/// whose item and owner are authored, the counter must advance twice, and
/// the camp stash must be authored. The first failing check is reported.
pub open spec fn reward_transfer_of(
    content: AdventureContent,
    adventure: AdventureDefinition,
    encounter: EncounterDefinition,
    next_operation: u64,
) -> Result<RewardTransfer, GameRuntimeError> {
    if next_operation == 0 {
        Err(GameRuntimeError::InvalidSave(SaveProblem::ZeroOperation))
    } else {
        match encounter.reward_item {
            None => Err(GameRuntimeError::InvalidState(StateProblem::MissingVictoryReward)),
            Some(reward) => match index_of(names(content.items@), reward@) {
                None => Err(GameRuntimeError::InvalidState(StateProblem::MissingItemInstance)),
                Some(d) => match owner_entity_of(content, adventure, content.items@[d].owner@) {
                    Err(error) => Err(error),
                    Ok(owner) => if next_operation == u64::MAX {
                        Err(GameRuntimeError::CounterOverflow)
                    } else {
                        match storage_entity_of(content, adventure, adventure.camp_storage@) {
                            Err(error) => Err(error),
                            Ok(stash) => if next_operation + 1 == u64::MAX {
                                Err(GameRuntimeError::CounterOverflow)
                            } else {
                                Ok(
                                    RewardTransfer {
                                        item: content.items@[d].entity_id,
                                        owner,
                                        stash,
                                        unequip_serial: next_operation,
                                        transfer_serial: (next_operation + 1) as u64,
                                        next_operation: (next_operation + 2) as u64,
                                    },
                                )
                            },
                        }
                    },
                },
            },
        }
    }
}

/// Plans the move of an encounter's victory reward to the camp stash.
pub fn plan_reward_transfer(
    content: &AdventureContent,
    adventure: &AdventureDefinition,
    encounter: &EncounterDefinition,
    next_operation: u64,
) -> (result: Result<RewardTransfer, GameRuntimeError>)
    ensures
        result == reward_transfer_of(*content, *adventure, *encounter, next_operation),
{
    if next_operation == 0 {
        return Err(GameRuntimeError::InvalidSave(SaveProblem::ZeroOperation));
    }
    let reward = match &encounter.reward_item {
        None => {
            return Err(GameRuntimeError::InvalidState(StateProblem::MissingVictoryReward));
        },
        Some(reward) => reward,
    };
    let d = match find_named(&content.items, reward) {
        None => {
            return Err(GameRuntimeError::InvalidState(StateProblem::MissingItemInstance));
        },
        Some(d) => d,
    };
    let owner = match owner_entity(content, adventure, &content.items[d].owner) {
        Err(error) => {
            return Err(error);
        },
        Ok(owner) => owner,
    };
    if next_operation == u64::MAX {
        return Err(GameRuntimeError::CounterOverflow);
    }
    let stash = match storage_entity(content, adventure, &adventure.camp_storage) {
        Err(error) => {
            return Err(error);
        },
        Ok(stash) => stash,
    };
    if next_operation + 1 == u64::MAX {
        return Err(GameRuntimeError::CounterOverflow);
    }
    Ok(
        RewardTransfer {
            item: content.items[d].entity_id,
            owner,
            stash,
            unequip_serial: next_operation,
            transfer_serial: next_operation + 1,
            next_operation: next_operation + 2,
        },
    )
}

} // verus!
