//! What becomes of a prop's mass when it is let go of.
//!
//! While a prop is held it has a temporary mass. The mass it had before it
//! was picked up, if it had one, is kept aside and is restored on release.

use vstd::prelude::*;
use avian3d::prelude::Mass;

verus! {

/// What is done to a prop's mass component when the prop is released.
#[derive(Debug, Clone, Copy)]
pub enum MassOnRelease {
    /// The prop gets back the mass it had before it was picked up, and the
    /// record of that mass is removed.
    RestoreCached(Mass),
    /// The prop had no mass of its own before it was picked up: the
    /// temporary mass is removed.
    RemoveTemporary,
}

/// Decides what is done to the mass of a released prop, given the mass that
/// was kept aside when it was picked up, if any. The prop ends up with
/// exactly the mass component it had before the pickup.
pub fn mass_on_release(cached: Option<Mass>) -> (action: MassOnRelease)
    ensures
        match cached {
            Some(mass) => action == MassOnRelease::RestoreCached(mass),
            None => action == MassOnRelease::RemoveTemporary,
        },
{
    match cached {
        Some(mass) => MassOnRelease::RestoreCached(mass),
        None => MassOnRelease::RemoveTemporary,
    }
}

} // verus!
