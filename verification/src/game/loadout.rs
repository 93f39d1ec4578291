use vstd::prelude::*;

use crate::definitions::ids_view;
use crate::game::content::{
    loadout_item_from, party_member_from, party_member_name, product_loadout_item,
    storage_entity, storage_entity_of, AdventureContent, AdventureDefinition,
};
use crate::game::campaign::text_of;
use crate::game::error::{CommandProblem, ContainmentProblem, GameErrorView, GameRuntimeError};
use crate::game::restore::{party_entities, party_entities_from};
use crate::session::error::EntityId;
use crate::game::projection::label_of;
use crate::game::support::{decimal_digits, u64_text};
use crate::game::text::humanize;
use crate::identity::D20Id;

verus! {

/// What a slot conflict of a move within one inventory asks for instead.
pub const EMPTY_DESTINATION: &'static str = "an empty destination or inventory";

/// The steps that carry out a loadout move, in this order.
#[derive(Debug, Clone, Copy, PartialEq, Eq, Structural)]
pub struct LoadoutMove {
    /// Take the item out of the slot it occupies.
    pub unequip: bool,
    /// Move the item to the destination inventory.
    pub transfer: bool,
    /// Put the item into the destination slot.
    pub equip: bool,
}

/// Whether loadout items may be placed with `owner`: the camp stash or a
/// party member.
pub open spec fn owner_allowed(stash: EntityId, party: Seq<EntityId>, owner: EntityId) -> bool {
    owner == stash || party.contains(owner)
}

/// Whether `owner` is among `party`.
fn is_member(party: &Vec<EntityId>, owner: EntityId) -> (member: bool)
    ensures
        member == party@.contains(owner),
{
    let mut index: usize = 0;
    while index < party.len()
        invariant
            0 <= index <= party@.len(),
            forall|j: int| 0 <= j < index ==> party@[j] != owner,
        decreases party@.len() - index,
    {
        if party[index] == owner {
            return true;
        }
        index = index + 1;
    }
    false
}

/// How a request to move a loadout item from `from` to `to` (into the
/// slot `destination`, when given) is carried out, or why it is refused.
/// `owner` is the item's current container and `slot` the slot it
/// occupies there, as the session holds them.
pub open spec fn loadout_move_of(
    content: AdventureContent,
    adventure: AdventureDefinition,
    item: u64,
    from: u64,
    to: u64,
    destination: Option<Seq<char>>,
    owner: Option<EntityId>,
    slot: Option<Seq<char>>,
) -> Result<LoadoutMove, GameErrorView> {
    if item == 0 || from == 0 || to == 0 {
        Err(GameErrorView::InvalidCommand(CommandProblem::ZeroEntity))
    } else {
        match loadout_item_from(content.items@, ids_view(adventure.items@), item, 0) {
            None => Err(GameErrorView::InvalidCommand(CommandProblem::NotAuthoredLoadoutItem)),
            Some(k) => {
                let required = content.items@[k].slot@;
                let slot_refused = match destination {
                    Some(d) => d != required,
                    None => false,
                };
                if slot_refused {
                    Err(
                        GameErrorView::InvalidEquipmentSlot {
                            requested: destination->0,
                            required,
                        },
                    )
                } else {
                    match storage_entity_of(content, adventure, adventure.camp_storage@) {
                        Err(e) => Err(e@),
                        Ok(stash) => match party_entities_from(content, adventure, 0) {
                            Err(e) => Err(e@),
                            Ok(party) => if !owner_allowed(stash, party, from) || !owner_allowed(
                                stash,
                                party,
                                to,
                            ) {
                                Err(
                                    GameErrorView::InvalidContainment(
                                        ContainmentProblem::PlacementOutsideParty,
                                    ),
                                )
                            } else if destination is Some && !party.contains(to) {
                                Err(GameErrorView::InvalidContainment(ContainmentProblem::OnlyPartyEquips))
                            } else {
                                match owner {
                                    None => Err(
                                        GameErrorView::InvalidContainment(
                                            ContainmentProblem::NoCanonicalOwner,
                                        ),
                                    ),
                                    Some(actual) => if actual != from {
                                        Err(
                                            GameErrorView::InvalidContainment(
                                                ContainmentProblem::WrongSourceOwner,
                                            ),
                                        )
                                    } else if from == to && slot is None && destination is None {
                                        Err(
                                            GameErrorView::InvalidContainment(
                                                ContainmentProblem::AlreadyThere,
                                            ),
                                        )
                                    } else if from == to && slot is Some && destination is Some
                                        && slot == destination {
                                        Err(
                                            GameErrorView::InvalidEquipmentSlot {
                                                requested: destination->0,
                                                required: EMPTY_DESTINATION@,
                                            },
                                        )
                                    } else {
                                        Ok(
                                            LoadoutMove {
                                                unequip: slot is Some,
                                                transfer: from != to,
                                                equip: destination is Some,
                                            },
                                        )
                                    },
                                }
                            },
                        },
                    }
                }
            },
        }
    }
}

/// Decides how to carry out a loadout move requested in camp.
pub fn plan_loadout_move(
    content: &AdventureContent,
    adventure: &AdventureDefinition,
    item: u64,
    from: u64,
    to: u64,
    destination: Option<String>,
    owner: Option<EntityId>,
    slot: Option<String>,
) -> (result: Result<LoadoutMove, GameRuntimeError>)
    ensures
        match loadout_move_of(
            *content,
            *adventure,
            item,
            from,
            to,
            text_of(destination),
            owner,
            text_of(slot),
        ) {
            Ok(plan) => result == Ok::<LoadoutMove, GameRuntimeError>(plan),
            Err(refusal) => result matches Err(e) && e@ == refusal,
        },
{
    if item == 0 || from == 0 || to == 0 {
        return Err(GameRuntimeError::InvalidCommand(CommandProblem::ZeroEntity));
    }
    let definition = product_loadout_item(content, adventure, item)?;
    let required = &content.items[definition].slot;
    if let Some(requested) = &destination {
        if !required.matches_text(requested) {
            return Err(
                GameRuntimeError::InvalidEquipmentSlot {
                    requested: requested.clone(),
                    required: required.as_str().to_owned(),
                },
            );
        }
    }
    let stash = storage_entity(content, adventure, &adventure.camp_storage)?;
    let party = party_entities(content, adventure)?;
    let from_allowed = from == stash || is_member(&party, from);
    let to_allowed = to == stash || is_member(&party, to);
    if !from_allowed || !to_allowed {
        return Err(GameRuntimeError::InvalidContainment(ContainmentProblem::PlacementOutsideParty));
    }
    if destination.is_some() && !is_member(&party, to) {
        return Err(GameRuntimeError::InvalidContainment(ContainmentProblem::OnlyPartyEquips));
    }
    let actual = match owner {
        Some(actual) => actual,
        None => {
            return Err(GameRuntimeError::InvalidContainment(ContainmentProblem::NoCanonicalOwner));
        },
    };
    if actual != from {
        return Err(GameRuntimeError::InvalidContainment(ContainmentProblem::WrongSourceOwner));
    }
    if from == to {
        match (&slot, &destination) {
            (None, None) => {
                return Err(GameRuntimeError::InvalidContainment(ContainmentProblem::AlreadyThere));
            },
            (Some(current), Some(requested)) => {
                if *current == *requested {
                    return Err(
                        GameRuntimeError::InvalidEquipmentSlot {
                            requested: requested.clone(),
                            required: EMPTY_DESTINATION.to_owned(),
                        },
                    );
                }
            },
            _ => {},
        }
    }
    Ok(LoadoutMove { unequip: slot.is_some(), transfer: from != to, equip: destination.is_some() })
}

/// Where a loadout item ends up after a move: its container and the slot
/// it occupies there.
pub open spec fn placement_after(
    plan: LoadoutMove,
    from: EntityId,
    to: EntityId,
    slot: Option<Seq<char>>,
    destination: Option<Seq<char>>,
) -> (EntityId, Option<Seq<char>>) {
    let owner = if plan.transfer {
        to
    } else {
        from
    };
    let unequipped = if plan.unequip {
        None
    } else {
        slot
    };
    (owner, if plan.equip {
        destination
    } else {
        unequipped
    })
}

/// An accepted loadout move puts the item exactly where the request asked,
/// and always changes where it is.
pub proof fn lemma_move_places_item(
    content: AdventureContent,
    adventure: AdventureDefinition,
    item: u64,
    from: u64,
    to: u64,
    destination: Option<Seq<char>>,
    owner: Option<EntityId>,
    slot: Option<Seq<char>>,
)
    requires
        loadout_move_of(content, adventure, item, from, to, destination, owner, slot) is Ok,
    ensures
        ({
            let plan = loadout_move_of(
                content,
                adventure,
                item,
                from,
                to,
                destination,
                owner,
                slot,
            )->Ok_0;
            &&& placement_after(plan, from, to, slot, destination) == (to, destination)
            &&& placement_after(plan, from, to, slot, destination) != (from, slot)
        }),
{
}

/// Why a transfer between inventories is refused: the item must be an
/// authored loadout item, and the two inventories distinct and each the
/// camp stash or a party member's.
pub open spec fn transfer_refusal_of(
    content: AdventureContent,
    adventure: AdventureDefinition,
    item: u64,
    from: u64,
    to: u64,
) -> Option<GameRuntimeError> {
    if item == 0 {
        Some(GameRuntimeError::InvalidCommand(CommandProblem::ZeroEntity))
    } else if loadout_item_from(content.items@, ids_view(adventure.items@), item, 0) is None {
        Some(GameRuntimeError::InvalidCommand(CommandProblem::NotAuthoredLoadoutItem))
    } else if from == 0 || to == 0 {
        Some(GameRuntimeError::InvalidCommand(CommandProblem::ZeroEntity))
    } else {
        match storage_entity_of(content, adventure, adventure.camp_storage@) {
            Err(e) => Some(e),
            Ok(stash) => match party_entities_from(content, adventure, 0) {
                Err(e) => Some(e),
                Ok(party) => if from == to || !owner_allowed(stash, party, from) || !owner_allowed(
                    stash,
                    party,
                    to,
                ) {
                    Some(GameRuntimeError::InvalidContainment(ContainmentProblem::TransferOutsideParty))
                } else {
                    None
                },
            },
        }
    }
}

/// Checks a transfer of a loadout item between inventories in camp.
pub fn check_transfer(
    content: &AdventureContent,
    adventure: &AdventureDefinition,
    item: u64,
    from: u64,
    to: u64,
) -> (result: Result<(), GameRuntimeError>)
    ensures
        result == match transfer_refusal_of(*content, *adventure, item, from, to) {
            Some(e) => Err(e),
            None => Ok::<(), GameRuntimeError>(()),
        },
{
    if item == 0 {
        return Err(GameRuntimeError::InvalidCommand(CommandProblem::ZeroEntity));
    }
    product_loadout_item(content, adventure, item)?;
    if from == 0 || to == 0 {
        return Err(GameRuntimeError::InvalidCommand(CommandProblem::ZeroEntity));
    }
    let stash = storage_entity(content, adventure, &adventure.camp_storage)?;
    let party = party_entities(content, adventure)?;
    let from_allowed = from == stash || is_member(&party, from);
    let to_allowed = to == stash || is_member(&party, to);
    if from == to || !from_allowed || !to_allowed {
        return Err(GameRuntimeError::InvalidContainment(ContainmentProblem::TransferOutsideParty));
    }
    Ok(())
}

/// Who equips or unequips a loadout item, and the slot the item requires,
/// or why the request is refused: the item must be an authored loadout
/// item, the requested slot (when equipping) its slot, and its container a
/// party member.
pub open spec fn loadout_holder_of(
    content: AdventureContent,
    adventure: AdventureDefinition,
    item: u64,
    requested: Option<Seq<char>>,
    owner: Option<EntityId>,
) -> Result<(EntityId, int), GameErrorView> {
    if item == 0 {
        Err(GameErrorView::InvalidCommand(CommandProblem::ZeroEntity))
    } else {
        match loadout_item_from(content.items@, ids_view(adventure.items@), item, 0) {
            None => Err(GameErrorView::InvalidCommand(CommandProblem::NotAuthoredLoadoutItem)),
            Some(k) => {
                let required = content.items@[k].slot@;
                if requested is Some && requested->0 != required {
                    Err(GameErrorView::InvalidEquipmentSlot { requested: requested->0, required })
                } else {
                    match owner {
                        None => Err(
                            GameErrorView::InvalidContainment(ContainmentProblem::NoCanonicalOwner),
                        ),
                        Some(holder) => match party_member_from(
                            content.characters@,
                            ids_view(adventure.party@),
                            holder,
                            0,
                        ) {
                            None => Err(
                                GameErrorView::InvalidContainment(
                                    ContainmentProblem::NotAPartyMember,
                                ),
                            ),
                            Some(member) => Ok((holder, member)),
                        },
                    }
                }
            },
        }
    }
}

/// Finds the party member that equips (into `requested`) or unequips a
/// loadout item, and that member's name. `owner` is the item's container
/// as the session holds it.
pub fn loadout_holder(
    content: &AdventureContent,
    adventure: &AdventureDefinition,
    item: u64,
    requested: Option<String>,
    owner: Option<EntityId>,
) -> (result: Result<(EntityId, String), GameRuntimeError>)
    ensures
        match loadout_holder_of(*content, *adventure, item, text_of(requested), owner) {
            Ok((holder, member)) => result matches Ok((h, name)) && h == holder && name@
                == content.characters@[member].name@,
            Err(refusal) => result matches Err(e) && e@ == refusal,
        },
{
    if item == 0 {
        return Err(GameRuntimeError::InvalidCommand(CommandProblem::ZeroEntity));
    }
    let definition = product_loadout_item(content, adventure, item)?;
    let required = &content.items[definition].slot;
    if let Some(slot) = &requested {
        if !required.matches_text(slot) {
            return Err(
                GameRuntimeError::InvalidEquipmentSlot {
                    requested: slot.clone(),
                    required: required.as_str().to_owned(),
                },
            );
        }
    }
    let holder = match owner {
        Some(holder) => holder,
        None => {
            return Err(GameRuntimeError::InvalidContainment(ContainmentProblem::NoCanonicalOwner));
        },
    };
    let name = party_member_name(content, adventure, holder)?;
    Ok((holder, name))
}

/// The log entry of an equipped item: headline and detail.
pub open spec fn equipped_texts(item: Seq<char>, owner: Seq<char>, slot: Seq<char>) -> (Seq<char>, Seq<
    char,
>) {
    (
        "Equipped "@ + label_of(item) + "."@,
        label_of(item) + " now occupies "@ + owner + "'s "@ + label_of(slot) + " slot."@,
    )
}

/// Describes an item a party member equipped into a slot.
pub fn equipped_log(item: &D20Id, owner: &String, slot: &D20Id) -> (entry: (String, String))
    ensures
        (entry.0@, entry.1@) == equipped_texts(item@, owner@, slot@),
{
    let label = humanize(item);
    let mut headline = String::new();
    headline.append("Equipped ");
    headline.append(label.as_str());
    headline.append(".");
    let mut detail = humanize(item);
    detail.append(" now occupies ");
    detail.append(owner.as_str());
    detail.append("'s ");
    let slot_label = humanize(slot);
    detail.append(slot_label.as_str());
    detail.append(" slot.");
    proof {
        assert(headline@ =~= equipped_texts(item@, owner@, slot@).0);
        assert(detail@ =~= equipped_texts(item@, owner@, slot@).1);
    }
    (headline, detail)
}

/// The log entry of an unequipped item: headline and detail.
pub open spec fn unequipped_texts(item: Seq<char>, owner: Seq<char>) -> (Seq<char>, Seq<char>) {
    ("Unequipped "@ + label_of(item) + "."@, "The item remains in "@ + owner + "'s inventory."@)
}

/// Describes an item taken out of its slot.
pub fn unequipped_log(item: &D20Id, owner: &String) -> (entry: (String, String))
    ensures
        (entry.0@, entry.1@) == unequipped_texts(item@, owner@),
{
    let mut headline = String::new();
    headline.append("Unequipped ");
    let label = humanize(item);
    headline.append(label.as_str());
    headline.append(".");
    let mut detail = String::new();
    detail.append("The item remains in ");
    detail.append(owner.as_str());
    detail.append("'s inventory.");
    proof {
        assert(headline@ =~= unequipped_texts(item@, owner@).0);
        assert(detail@ =~= unequipped_texts(item@, owner@).1);
    }
    (headline, detail)
}

/// Where a transfer took an item: the camp stash, or a member's inventory.
pub open spec fn transfer_destination_text(member: Option<Seq<char>>) -> Seq<char> {
    match member {
        None => "the camp stash"@,
        Some(name) => name + "'s inventory"@,
    }
}

/// The log entry of a transferred item: headline and detail.
pub open spec fn transferred_texts(item: Seq<char>, member: Option<Seq<char>>, to_owner: EntityId) -> (
    Seq<char>,
    Seq<char>,
) {
    (
        "Moved "@ + label_of(item) + " to "@ + transfer_destination_text(member) + "."@,
        "Canonical containment now points to entity "@ + decimal_digits(to_owner as nat) + "."@,
    )
}

/// Describes an item moved to the camp stash (`member` is `None`) or to
/// a party member's inventory.
pub fn transferred_log(item: &D20Id, member: Option<String>, to_owner: EntityId) -> (entry: (
    String,
    String,
))
    ensures
        (entry.0@, entry.1@) == transferred_texts(item@, text_of(member), to_owner),
{
    let mut headline = String::new();
    headline.append("Moved ");
    let label = humanize(item);
    headline.append(label.as_str());
    headline.append(" to ");
    match &member {
        None => {
            headline.append("the camp stash");
        },
        Some(name) => {
            headline.append(name.as_str());
            headline.append("'s inventory");
        },
    }
    headline.append(".");
    let mut detail = String::new();
    detail.append("Canonical containment now points to entity ");
    let digits = u64_text(to_owner);
    detail.append(digits.as_str());
    detail.append(".");
    proof {
        assert(headline@ =~= transferred_texts(item@, text_of(member), to_owner).0);
        assert(detail@ =~= transferred_texts(item@, text_of(member), to_owner).1);
    }
    (headline, detail)
}

/// Where a loadout move placed an item.
#[derive(Debug, PartialEq, Eq)]
pub enum PlacementTarget {
    /// A member's equipment slot.
    Slot { member: String, slot: D20Id },
    /// The camp stash.
    Stash,
    /// A member's pack.
    Pack { member: String },
}

/// The text of where a loadout move placed an item.
pub open spec fn placement_text(target: PlacementTarget) -> Seq<char> {
    match target {
        PlacementTarget::Slot { member, slot } => member@ + "'s "@ + label_of(slot@) + " slot"@,
        PlacementTarget::Stash => "the camp inventory"@,
        PlacementTarget::Pack { member } => member@ + "'s pack"@,
    }
}

/// The detail of every loadout move.
pub const PLACEMENT_DETAIL: &'static str = "The transfer and equipment services committed as one Rust-owned operation.";

/// Describes where a loadout move placed the item named `item_name`.
pub fn placed_headline(item_name: &String, target: &PlacementTarget) -> (text: String)
    ensures
        text@ == "Placed "@ + item_name@ + " in "@ + placement_text(*target) + "."@,
{
    let mut text = String::new();
    text.append("Placed ");
    text.append(item_name.as_str());
    text.append(" in ");
    match target {
        PlacementTarget::Slot { member, slot } => {
            text.append(member.as_str());
            text.append("'s ");
            let label = humanize(slot);
            text.append(label.as_str());
            text.append(" slot");
        },
        PlacementTarget::Stash => {
            text.append("the camp inventory");
        },
        PlacementTarget::Pack { member } => {
            text.append(member.as_str());
            text.append("'s pack");
        },
    }
    text.append(".");
    proof {
        assert(text@ =~= "Placed "@ + item_name@ + " in "@ + placement_text(*target) + "."@);
    }
    text
}

} // verus!
