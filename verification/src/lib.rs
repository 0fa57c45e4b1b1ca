//! Decision logic of a pickup mechanic for physics props: which response an
//! actor gives to a throw, drop or pull input, how a pull search ends, and the
//! messages that the mechanic exchanges with the rest of a game.

use vstd::prelude::*;

pub mod input;
pub mod interaction;
pub mod output;

verus! {

/// An entity of the ECS world. Entities are only carried through the
/// decisions of this library and compared for identity.
#[verifier::external_type_specification]
#[verifier::external_body]
pub struct ExEntity(bevy_ecs::entity::Entity);

/// A three-dimensional vector of the game's math library, carried as an
/// opaque value (the impulse of a pull).
#[verifier::external_type_specification]
#[verifier::external_body]
pub struct ExVec3(bevy_math::Vec3);

/// The mass component of a rigid body, carried as an opaque value (the mass
/// that a prop had before it was picked up).
#[verifier::external_type_specification]
#[verifier::external_body]
pub struct ExMass(avian3d::prelude::Mass);

/// The application that the mechanic registers its messages with.
#[verifier::external_type_specification]
#[verifier::external_body]
pub struct ExApp(bevy_app::App);

} // verus!
