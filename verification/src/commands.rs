//! Player commands sent on the control stream, and the bounds each keeps
//! before it reaches the simulation.

use vstd::prelude::*;

use crate::creatures::{content_id_ok, valid_recipe_id};
use crate::disassembly::{disassembly_recipe_ok, valid_disassembly_recipe, DisassemblyRecipeV1};
use crate::geometry::{direction_is_valid, CommandSequence, HorizontalDirection, WorldPosition};
use crate::ids::{id_counter, id_namespace, ActorId, CreatureId, InteractionId, ItemId, NpcId, VehicleId};
use crate::recipes::{
    book_study_ok, construction_recipe_ok, craft_recipe_ok, valid_book_study, valid_construction_recipe,
    valid_craft_recipe, BookStudyV1, ConstructionRecipeV1, CraftRecipeV1,
};
use crate::text::{bounded_text_is_valid, str_eq, valid_bounded_text};
use crate::time::SimTick;

verus! {

#[derive(Clone, Debug, PartialEq, Eq)]
pub enum CommandKind {
    Move { dx: i8, dy: i8, dz: i8 },
    Attack { target: ActorId },
    AttackCreature { target: CreatureId },
    TalkToNpc { target: NpcId },
    BoardVehicle { vehicle_id: VehicleId, prototype_part_index: u16 },
    UnboardVehicle { vehicle_id: VehicleId, prototype_part_index: u16, dx: i8, dy: i8 },
    TakeVehicleCargo { vehicle_id: VehicleId, prototype_part_index: u16, item_id: ItemId },
    StoreVehicleCargo { vehicle_id: VehicleId, prototype_part_index: u16, item_id: ItemId },
    ShootActor { target: ActorId },
    ShootCreature { target: CreatureId },
    Reload {
        ammunition_item: ItemId,
        /// `Some` selects an integral magazine or magazine well by pocket
        /// index; `None` the built-in ranged-ammunition store.
        target_pocket_index: Option<u16>,
    },
    RemovePocketItem { owner_item: ItemId, pocket_index: u16, contained_item: ItemId },
    InsertPocketItem { owner_item: ItemId, pocket_index: u16, source_item: ItemId },
    Wield { item_id: ItemId },
    Unwield,
    Wear { item_id: ItemId },
    TakeOff { item_id: ItemId },
    PickUp { item_id: ItemId },
    Drop { item_id: ItemId },
    Consume { item_id: ItemId },
    Activate { item_id: ItemId },
    RespondInteraction { interaction_id: InteractionId, choice_id: String },
    CancelInteraction { interaction_id: InteractionId },
    Craft {
        recipe_id: String,
        /// `None` as the client sends it; the server fills in the recipe
        /// before the command is simulated or journaled.
        recipe: Option<Box<CraftRecipeV1>>,
    },
    ResumeCraft,
    CancelCraft,
    ReadBook { item_id: ItemId, book_type_id: String, study: Option<Box<BookStudyV1>> },
    ResumeRead,
    CancelRead,
    Disassemble { item_id: ItemId, item_type_id: String, recipe: Option<Box<DisassemblyRecipeV1>> },
    ResumeDisassembly,
    CancelDisassembly,
    Construct { target: WorldPosition, construction_id: String, construction: Option<Box<ConstructionRecipeV1>> },
    ResumeConstruction,
    CancelConstruction,
    Open { dx: i8, dy: i8 },
    Close { dx: i8, dy: i8 },
    Smash { dx: i8, dy: i8 },
    Sleep,
    Wake,
    Wait,
}

#[derive(Clone, Debug, PartialEq, Eq)]
pub struct ClientCommand {
    pub actor_id: ActorId,
    pub sequence: CommandSequence,
    pub client_tick: SimTick,
    pub kind: CommandKind,
}

/// A stable identifier other than zero in the acting actor's world.
pub open spec fn in_actor_world(id: u128, actor: u128) -> bool {
    id_counter(id) > 0 && id_namespace(id) == id_namespace(actor)
}

/// The bounds of a command's payload for the command's actor. A choice
/// identifier is a valid text of at most `max_choice_id_bytes` bytes.
pub open spec fn command_kind_ok(kind: CommandKind, actor: u128, max_choice_id_bytes: nat) -> bool {
    match kind {
        CommandKind::Craft { recipe_id, recipe } => content_id_ok(recipe_id@) && (recipe matches Some(r) ==> r.recipe_id@
            == recipe_id@ && craft_recipe_ok(*r)),
        CommandKind::ReadBook { item_id, book_type_id, study } => in_actor_world(item_id.0, actor) && content_id_ok(
            book_type_id@,
        ) && (study matches Some(s) ==> s.book_type_id@ == book_type_id@ && book_study_ok(*s)),
        CommandKind::Disassemble { item_id, item_type_id, recipe } => in_actor_world(item_id.0, actor) && content_id_ok(
            item_type_id@,
        ) && (recipe matches Some(r) ==> r.target_type_id@ == item_type_id@ && disassembly_recipe_ok(*r)),
        CommandKind::Construct { construction_id, construction, .. } => content_id_ok(construction_id@) && (
        construction matches Some(c) ==> c.construction_id@ == construction_id@ && construction_recipe_ok(*c)),
        CommandKind::Activate { item_id } => in_actor_world(item_id.0, actor),
        CommandKind::TalkToNpc { target } => in_actor_world(target.0, actor),
        CommandKind::BoardVehicle { vehicle_id, .. } => in_actor_world(vehicle_id.0, actor),
        CommandKind::UnboardVehicle { vehicle_id, dx, dy, .. } => in_actor_world(vehicle_id.0, actor)
            && direction_is_valid(HorizontalDirection { dx, dy }),
        CommandKind::TakeVehicleCargo { vehicle_id, item_id, .. } => in_actor_world(vehicle_id.0, actor)
            && in_actor_world(item_id.0, actor),
        CommandKind::StoreVehicleCargo { vehicle_id, item_id, .. } => in_actor_world(vehicle_id.0, actor)
            && in_actor_world(item_id.0, actor),
        CommandKind::RespondInteraction { interaction_id, choice_id } => in_actor_world(interaction_id.0, actor)
            && valid_bounded_text(choice_id@, max_choice_id_bytes),
        CommandKind::CancelInteraction { interaction_id } => in_actor_world(interaction_id.0, actor),
        CommandKind::RemovePocketItem { owner_item, contained_item, .. } => in_actor_world(owner_item.0, actor)
            && in_actor_world(contained_item.0, actor) && owner_item != contained_item,
        CommandKind::InsertPocketItem { owner_item, source_item, .. } => in_actor_world(owner_item.0, actor)
            && in_actor_world(source_item.0, actor) && owner_item != source_item,
        _ => true,
    }
}

/// A command from an actor other than zero, with a sequence number other
/// than zero, whose payload keeps its bounds.
pub open spec fn client_command_ok(c: ClientCommand, max_choice_id_bytes: nat) -> bool {
    &&& id_counter(c.actor_id.0) > 0
    &&& c.sequence.0 > 0
    &&& command_kind_ok(c.kind, c.actor_id.0, max_choice_id_bytes)
}

fn in_actor_world_exec(id: u128, actor: ActorId) -> (r: bool)
    ensures
        r == in_actor_world(id, actor.0),
{
    let item = ItemId(id);
    item.counter() > 0 && item.world_namespace() == actor.world_namespace()
}

/// Whether a command keeps its bounds. `max_choice_id_bytes` is the byte
/// limit of an interaction choice identifier.
pub fn valid_client_command(command: &ClientCommand, max_choice_id_bytes: usize) -> (r: bool)
    ensures
        r == client_command_ok(*command, max_choice_id_bytes as nat),
{
    let actor = command.actor_id;
    if actor.counter() == 0 || command.sequence.0 == 0 {
        return false;
    }
    match &command.kind {
        CommandKind::Craft { recipe_id, recipe } => valid_recipe_id(recipe_id.as_str()) && match recipe {
            Some(r) => str_eq(r.recipe_id.as_str(), recipe_id.as_str()) && valid_craft_recipe(r),
            None => true,
        },
        CommandKind::ReadBook { item_id, book_type_id, study } => in_actor_world_exec(item_id.0, actor)
            && valid_recipe_id(book_type_id.as_str()) && match study {
            Some(s) => str_eq(s.book_type_id.as_str(), book_type_id.as_str()) && valid_book_study(s),
            None => true,
        },
        CommandKind::Disassemble { item_id, item_type_id, recipe } => in_actor_world_exec(item_id.0, actor)
            && valid_recipe_id(item_type_id.as_str()) && match recipe {
            Some(r) => str_eq(r.target_type_id.as_str(), item_type_id.as_str()) && valid_disassembly_recipe(r),
            None => true,
        },
        CommandKind::Construct { construction_id, construction, .. } => valid_recipe_id(construction_id.as_str())
            && match construction {
            Some(c) => str_eq(c.construction_id.as_str(), construction_id.as_str()) && valid_construction_recipe(c),
            None => true,
        },
        CommandKind::Activate { item_id } => in_actor_world_exec(item_id.0, actor),
        CommandKind::TalkToNpc { target } => in_actor_world_exec(target.0, actor),
        CommandKind::BoardVehicle { vehicle_id, .. } => in_actor_world_exec(vehicle_id.0, actor),
        CommandKind::UnboardVehicle { vehicle_id, dx, dy, .. } => in_actor_world_exec(vehicle_id.0, actor)
            && (HorizontalDirection { dx: *dx, dy: *dy }).is_valid(),
        CommandKind::TakeVehicleCargo { vehicle_id, item_id, .. } => in_actor_world_exec(vehicle_id.0, actor)
            && in_actor_world_exec(item_id.0, actor),
        CommandKind::StoreVehicleCargo { vehicle_id, item_id, .. } => in_actor_world_exec(vehicle_id.0, actor)
            && in_actor_world_exec(item_id.0, actor),
        CommandKind::RespondInteraction { interaction_id, choice_id } => in_actor_world_exec(interaction_id.0, actor)
            && bounded_text_is_valid(choice_id.as_str(), max_choice_id_bytes),
        CommandKind::CancelInteraction { interaction_id } => in_actor_world_exec(interaction_id.0, actor),
        CommandKind::RemovePocketItem { owner_item, contained_item, .. } => in_actor_world_exec(owner_item.0, actor)
            && in_actor_world_exec(contained_item.0, actor) && owner_item.0 != contained_item.0,
        CommandKind::InsertPocketItem { owner_item, source_item, .. } => in_actor_world_exec(owner_item.0, actor)
            && in_actor_world_exec(source_item.0, actor) && owner_item.0 != source_item.0,
        _ => true,
    }
}

/// A command from actor counter zero, or with sequence number zero, is
/// refused whatever it asks.
pub proof fn law_commands_need_an_actor_and_a_sequence(c: ClientCommand, max_choice_id_bytes: nat)
    requires
        id_counter(c.actor_id.0) == 0 || c.sequence.0 == 0,
    ensures
        !client_command_ok(c, max_choice_id_bytes),
{
}

/// An item is never moved into or out of itself: a pocket command whose two
/// items are the same item is refused.
pub proof fn law_pocket_commands_need_two_items(c: ClientCommand, max_choice_id_bytes: nat)
    requires
        match c.kind {
            CommandKind::InsertPocketItem { owner_item, source_item, .. } => owner_item == source_item,
            CommandKind::RemovePocketItem { owner_item, contained_item, .. } => owner_item == contained_item,
            _ => false,
        },
    ensures
        !client_command_ok(c, max_choice_id_bytes),
{
}

/// Every item, vehicle, NPC and interaction an accepted command names is a
/// stable identifier other than zero in the acting actor's own world.
pub proof fn law_accepted_commands_stay_in_the_actor_world(c: ClientCommand, max_choice_id_bytes: nat)
    requires
        client_command_ok(c, max_choice_id_bytes),
    ensures
        ({
            let world = id_namespace(c.actor_id.0);
            let here = |id: u128| id_counter(id) > 0 && id_namespace(id) == world;
            match c.kind {
                CommandKind::Activate { item_id } => here(item_id.0),
                CommandKind::ReadBook { item_id, .. } => here(item_id.0),
                CommandKind::Disassemble { item_id, .. } => here(item_id.0),
                CommandKind::TalkToNpc { target } => here(target.0),
                CommandKind::BoardVehicle { vehicle_id, .. } => here(vehicle_id.0),
                CommandKind::UnboardVehicle { vehicle_id, .. } => here(vehicle_id.0),
                CommandKind::TakeVehicleCargo { vehicle_id, item_id, .. } => here(vehicle_id.0) && here(item_id.0),
                CommandKind::StoreVehicleCargo { vehicle_id, item_id, .. } => here(vehicle_id.0) && here(item_id.0),
                CommandKind::RespondInteraction { interaction_id, .. } => here(interaction_id.0),
                CommandKind::CancelInteraction { interaction_id } => here(interaction_id.0),
                CommandKind::RemovePocketItem { owner_item, contained_item, .. } => here(owner_item.0) && here(
                    contained_item.0,
                ) && owner_item.0 != contained_item.0,
                CommandKind::InsertPocketItem { owner_item, source_item, .. } => here(owner_item.0) && here(
                    source_item.0,
                ) && owner_item.0 != source_item.0,
                _ => true,
            }
        }),
{
}

/// An accepted interaction answer names a choice of one to
/// `max_choice_id_bytes` bytes without control characters, and a recipe,
/// book or construction that the server filled in is the one the command
/// names.
pub proof fn law_accepted_payloads_match_what_they_name(c: ClientCommand, max_choice_id_bytes: nat)
    requires
        client_command_ok(c, max_choice_id_bytes),
    ensures
        match c.kind {
            CommandKind::RespondInteraction { choice_id, .. } => choice_id@.len() > 0 && crate::text::utf8_len(
                choice_id@,
            ) <= max_choice_id_bytes && !crate::text::has_control(choice_id@),
            CommandKind::Craft { recipe_id, recipe } => recipe matches Some(r) ==> r.recipe_id@ == recipe_id@,
            CommandKind::ReadBook { book_type_id, study, .. } => study matches Some(s) ==> s.book_type_id@
                == book_type_id@,
            CommandKind::Disassemble { item_type_id, recipe, .. } => recipe matches Some(r) ==> r.target_type_id@
                == item_type_id@,
            CommandKind::Construct { construction_id, construction, .. } => construction matches Some(k)
                ==> k.construction_id@ == construction_id@,
            _ => true,
        },
{
}

} // verus!
