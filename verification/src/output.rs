//! Messages that the mechanic sends to notify the game of prop-related events.
//! Handle these to e.g. play sound effects or show visual effects.

use vstd::prelude::*;
use bevy_app::App;
use bevy_ecs::entity::Entity;
use bevy_ecs::message::Message;

verus! {

/// Message sent when a prop is forced to be dropped by an actor.
/// A prop is forced to be dropped by being too far away from its
/// target location. Sending this has no effect on the prop itself.
#[derive(Debug, Clone, Copy, PartialEq, Eq)]
pub struct PropForcedDrop {
    /// The dropped prop.
    pub prop: Entity,
    /// The actor that dropped the prop.
    pub actor: Entity,
}

impl Message for PropForcedDrop {}

/// Whether the main world of `app` holds the message queue of
/// [`PropForcedDrop`] (the resource `Messages<PropForcedDrop>`), so that
/// systems can write and read such messages.
pub uninterp spec fn forced_drop_messages_registered(app: App) -> bool;

/// The number of systems in all the schedules of the main world of `app`
/// (those of its `Schedules` resource; 0 where it has none).
pub uninterp spec fn main_world_system_count(app: App) -> nat;

/// Registers the message type [`PropForcedDrop`] with `app` by a call of
/// `bevy_app::App::add_message`. In bevy_app and bevy_ecs, that call
/// initialises the resource `Messages<PropForcedDrop>` in the main world
/// unless it is there already, and records it in the world's message
/// registry; it touches no schedule, so it adds no system. Of the other
/// resources of the app (the registry entry) nothing is stated.
#[verifier::external_body]
fn add_forced_drop_message(app: &mut App)
    ensures
        forced_drop_messages_registered(*final(app)),
        main_world_system_count(*final(app)) == main_world_system_count(*old(app)),
{
    app.add_message::<PropForcedDrop>();
}

/// Registers the messages of this module with `app`: afterwards `app` can
/// carry [`PropForcedDrop`] messages, and it has no system that it did not
/// have before.
pub fn plugin(app: &mut App)
    ensures
        forced_drop_messages_registered(*final(app)),
        main_world_system_count(*final(app)) == main_world_system_count(*old(app)),
{
    add_forced_drop_message(app);
}

} // verus!
