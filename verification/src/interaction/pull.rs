//! Pulling a prop towards an actor.

use vstd::prelude::*;
use bevy_ecs::entity::Entity;
use bevy_ecs::message::Message;
use bevy_math::Vec3;

verus! {

/// Message to start a pull operation.
#[derive(Debug, Clone, Copy)]
pub struct PullRequest {
    /// Actor that will pull the prop.
    pub actor: Entity,
    /// Dynamic rigid body to pull.
    pub prop: Entity,
}

/// Message sent when a prop has been pulled with success.
#[derive(Debug, Clone, Copy)]
pub struct PropPulled {
    /// Actor that pulled the prop.
    pub actor: Entity,
    /// Dynamic rigid body pulled by the actor.
    pub prop: Entity,
    /// The impulse applied to the prop.
    pub impulse: Vec3,
}

impl Message for PullRequest {}

impl Message for PropPulled {}

impl PullRequest {
    /// The message that reports this request as carried out with `impulse`.
    pub fn done(self, impulse: Vec3) -> (pulled: PropPulled)
        ensures
            pulled.actor == self.actor,
            pulled.prop == self.prop,
            pulled.impulse == impulse,
    {
        PropPulled { actor: self.actor, prop: self.prop, impulse }
    }
}

} // verus!
