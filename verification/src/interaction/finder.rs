//! The order in which a prop in front of an actor is looked for, and when a
//! body that was hit counts as seen.
//!
//! A search tries three stages in turn: a ray cast forward, a small box cast
//! forward, and a scan of the props around the actor for the nearest one in
//! its view cone. A body hit by a cast is only taken when nothing else stands
//! between it and the actor.

use vstd::prelude::*;
use bevy_ecs::entity::Entity;

verus! {

/// The stages of a search for a prop, in the order in which they are tried.
#[derive(Debug, Clone, Copy, PartialEq, Eq, Structural)]
pub enum SearchStage {
    /// A ray is cast forward; only dynamic bodies count.
    Ray,
    /// A small box is cast forward; only dynamic bodies count.
    Shape,
    /// The props around the actor are scanned for the nearest one in its view cone.
    Cone,
}

/// What a forward cast saw.
#[derive(Debug, Clone, Copy)]
pub enum CastOutcome {
    /// The cast hit no dynamic body.
    Missed,
    /// The cast hit the dynamic body `body`. `first_obstacle` is the body of
    /// the first obstacle that a ray from the actor meets before reaching
    /// the distance of the hit, if it meets one.
    Hit { body: Entity, first_obstacle: Option<Entity> },
}

/// What a search does after a cast.
#[derive(Debug, Clone, Copy)]
pub enum SearchStep {
    /// The body that the cast hit is the prop.
    Found(Entity),
    /// The search goes on with the given stage.
    Continue(SearchStage),
}

/// Whether nothing but `body` itself stands between the actor and `body`,
/// where `first_obstacle` is the body of the first obstacle on the line
/// between them, if any.
pub open spec fn sight_line_clear(body: Entity, first_obstacle: Option<Entity>) -> bool {
    match first_obstacle {
        None => true,
        Some(obstacle) => obstacle == body,
    }
}

/// `Entity`'s `==` (bevy_ecs): it compares the two entities' bit patterns,
/// which hold all of an entity's row and generation, so it is true exactly
/// when the two values are the same entity.
#[verifier::external_body]
fn same_entity(a: Entity, b: Entity) -> (same: bool)
    ensures
        same == (a == b),
{
    a == b
}

/// Decides whether the actor sees `body`, given the body `first_obstacle` of
/// the first obstacle on the line from the actor to it. A body that is
/// hidden behind another one is neither taken by a cast nor by the cone scan.
pub fn line_of_sight_clear(body: Entity, first_obstacle: Option<Entity>) -> (clear: bool)
    ensures
        clear == sight_line_clear(body, first_obstacle),
        clear <==> (first_obstacle is None || first_obstacle == Some(body)),
{
    match first_obstacle {
        None => true,
        Some(obstacle) => same_entity(obstacle, body),
    }
}

/// The stage that follows a cast stage that found nothing.
pub open spec fn stage_after(stage: SearchStage) -> SearchStage {
    match stage {
        SearchStage::Ray => SearchStage::Shape,
        _ => SearchStage::Cone,
    }
}

/// What a search does after the cast of `stage` saw `outcome`.
pub open spec fn search_step_spec(stage: SearchStage, outcome: CastOutcome) -> SearchStep {
    match outcome {
        CastOutcome::Hit { body, first_obstacle } => {
            if sight_line_clear(body, first_obstacle) {
                SearchStep::Found(body)
            } else {
                SearchStep::Continue(stage_after(stage))
            }
        },
        CastOutcome::Missed => SearchStep::Continue(stage_after(stage)),
    }
}

/// Decides how a search goes on after the cast of `stage`, which must be one
/// of the two cast stages, saw `outcome`: a seen body is the prop; otherwise
/// the ray is followed by the box cast and the box cast by the cone scan.
pub fn search_step(stage: SearchStage, outcome: CastOutcome) -> (step: SearchStep)
    requires
        stage != SearchStage::Cone,
    ensures
        step == search_step_spec(stage, outcome),
        step matches SearchStep::Continue(next) ==> (
            (stage == SearchStage::Ray && next == SearchStage::Shape)
            || (stage == SearchStage::Shape && next == SearchStage::Cone)),
        step matches SearchStep::Found(body) ==> (
            outcome matches CastOutcome::Hit { body: hit, first_obstacle }
            && hit == body && sight_line_clear(body, first_obstacle)),
        outcome is Hit && (outcome->first_obstacle is None
            || outcome->first_obstacle == Some(outcome->body))
            ==> step == SearchStep::Found(outcome->body),
        outcome is Missed ==> step is Continue,
        outcome is Hit && outcome->first_obstacle is Some
            && outcome->first_obstacle != Some(outcome->body) ==> step is Continue,
{
    let next = match stage {
        SearchStage::Ray => SearchStage::Shape,
        _ => SearchStage::Cone,
    };
    match outcome {
        CastOutcome::Missed => SearchStep::Continue(next),
        CastOutcome::Hit { body, first_obstacle } => {
            if line_of_sight_clear(body, first_obstacle) {
                SearchStep::Found(body)
            } else {
                SearchStep::Continue(next)
            }
        },
    }
}

/// A cast stage takes the body that it hit whenever nothing else stands
/// between the actor and that body, whether no obstacle was met at all or
/// the first obstacle is the body itself; it goes on to a later stage exactly
/// when the cast missed or the hit body is hidden behind another one.
pub proof fn lemma_seen_hit_is_found(stage: SearchStage, outcome: CastOutcome)
    requires
        stage != SearchStage::Cone,
    ensures
        outcome is Hit && (outcome->first_obstacle is None
            || outcome->first_obstacle == Some(outcome->body))
            ==> search_step_spec(stage, outcome) == SearchStep::Found(outcome->body),
        search_step_spec(stage, outcome) is Continue <==> (outcome is Missed || (
            outcome is Hit && outcome->first_obstacle is Some
            && outcome->first_obstacle != Some(outcome->body))),
        search_step_spec(stage, outcome) matches SearchStep::Continue(next) ==> (
            (stage == SearchStage::Ray && next == SearchStage::Shape)
            || (stage == SearchStage::Shape && next == SearchStage::Cone)),
{
}

} // verus!
