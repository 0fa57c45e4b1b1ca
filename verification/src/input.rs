//! Input messages for picking up and throwing props, and the response that an
//! actor gives to each of them.
//!
//! Handling one input takes two steps. [`respond_to_input`] decides from the
//! actor's state what the input does. When it answers
//! [`InputResponse::SearchProp`], the game looks for a prop in front of the
//! actor and [`resolve_pull`] decides from what was found whether the prop is
//! picked up at once, pulled closer, or left alone.

use vstd::prelude::*;
use bevy_ecs::entity::Entity;
use bevy_ecs::message::Message;
use crate::interaction::pull::PullRequest;

verus! {

/// The kind of input that an [`AvianPickupInput`] represents.
#[derive(Debug, Clone, Copy, Hash, PartialEq, Eq, Structural)]
pub enum AvianPickupAction {
    /// The left mouse button was just pressed this update.
    Throw,
    /// The right mouse button was just pressed this update.
    Drop,
    /// The right mouse button was pressed.
    Pull,
}

impl AvianPickupAction {
    /// Every action, in declaration order.
    pub fn iter() -> (actions: Vec<AvianPickupAction>)
        ensures
            actions@ == seq![AvianPickupAction::Throw, AvianPickupAction::Drop, AvianPickupAction::Pull],
    {
        let mut actions: Vec<AvianPickupAction> = Vec::new();
        actions.push(AvianPickupAction::Throw);
        actions.push(AvianPickupAction::Drop);
        actions.push(AvianPickupAction::Pull);
        actions
    }
}

/// Message for picking up and throwing props.
/// Send this to make an actor throw, drop or pull a prop.
#[derive(Debug, Clone, Copy, PartialEq, Eq)]
pub struct AvianPickupInput {
    /// The entity of the actor that the input is related to.
    pub actor: Entity,
    /// The kind of input that the message represents.
    pub action: AvianPickupAction,
}

impl Message for AvianPickupInput {}

/// A component that an actor must have before its inputs are handled,
/// in the order in which they are checked.
#[derive(Debug, Clone, Copy, PartialEq, Eq, Structural)]
pub enum RequiredComponent {
    /// The parameters that steer a held prop.
    ShadowParams,
    /// The record of how far a held prop is from its target.
    HoldError,
}

/// What an actor holds and has at the moment that one of its inputs is handled.
#[derive(Debug, Clone, Copy)]
pub struct ActorState {
    /// The prop that the actor is holding, if any.
    pub holding: Option<Entity>,
    /// Whether the actor's cooldown for the action of the input is over.
    pub cooldown_finished: bool,
    /// Whether the actor has its shadow parameters.
    pub has_shadow_params: bool,
    /// Whether the actor has its hold error record.
    pub has_hold_error: bool,
}

/// What an actor does in answer to an input.
#[derive(Debug, Clone, Copy)]
pub enum InputResponse {
    /// The input names an entity that is not an actor: it is ignored, and an
    /// error is reported.
    NotAnActor,
    /// The actor lacks a required component: the input is ignored, and an
    /// error naming the component is reported.
    MissingComponent(RequiredComponent),
    /// The actor lets go of `prop`, starts its throw cooldown, and asks for
    /// `prop` to be pushed away.
    Throw { prop: Entity },
    /// The actor lets go of its prop and starts its drop cooldown.
    Drop,
    /// The actor starts its pull cooldown and looks for a prop in front of it.
    SearchProp,
    /// The input has no effect.
    Ignore,
}

/// The response of an actor in `actor` (`None` where the entity is no actor)
/// to an input of kind `action`.
pub open spec fn input_response(action: AvianPickupAction, actor: Option<ActorState>) -> InputResponse {
    match actor {
        None => InputResponse::NotAnActor,
        Some(state) => {
            if !state.has_shadow_params {
                InputResponse::MissingComponent(RequiredComponent::ShadowParams)
            } else if !state.has_hold_error {
                InputResponse::MissingComponent(RequiredComponent::HoldError)
            } else if !state.cooldown_finished {
                InputResponse::Ignore
            } else {
                match action {
                    AvianPickupAction::Throw => match state.holding {
                        Some(prop) => InputResponse::Throw { prop },
                        None => InputResponse::Ignore,
                    },
                    AvianPickupAction::Drop => match state.holding {
                        Some(_) => InputResponse::Drop,
                        None => InputResponse::Ignore,
                    },
                    AvianPickupAction::Pull => match state.holding {
                        Some(_) => InputResponse::Ignore,
                        None => InputResponse::SearchProp,
                    },
                }
            }
        },
    }
}

/// Decides what the actor `actor` does in answer to `input`. `actor` is the
/// state of the entity that `input` names, or `None` where that entity is not
/// an actor.
pub fn respond_to_input(input: &AvianPickupInput, actor: Option<ActorState>) -> (response: InputResponse)
    ensures
        response == input_response(input.action, actor),
        actor is None ==> (response is NotAnActor),
        actor is Some && !actor->0.has_shadow_params
            ==> response == InputResponse::MissingComponent(RequiredComponent::ShadowParams),
        actor is Some && actor->0.has_shadow_params && !actor->0.has_hold_error
            ==> response == InputResponse::MissingComponent(RequiredComponent::HoldError),
        actor is Some && actor->0.has_shadow_params && actor->0.has_hold_error
            && !actor->0.cooldown_finished ==> (response is Ignore),
        actor is Some && actor->0.has_shadow_params && actor->0.has_hold_error
            && actor->0.cooldown_finished ==> {
            &&& input.action == AvianPickupAction::Throw && actor->0.holding is Some
                ==> response == (InputResponse::Throw { prop: actor->0.holding->0 })
            &&& input.action == AvianPickupAction::Drop && actor->0.holding is Some
                ==> (response is Drop)
            &&& input.action == AvianPickupAction::Pull && actor->0.holding is None
                ==> (response is SearchProp)
            &&& (input.action == AvianPickupAction::Throw || input.action == AvianPickupAction::Drop)
                && actor->0.holding is None ==> (response is Ignore)
            &&& input.action == AvianPickupAction::Pull && actor->0.holding is Some
                ==> (response is Ignore)
        },
{
    let state = match actor {
        None => {
            return InputResponse::NotAnActor;
        },
        Some(state) => state,
    };
    if !state.has_shadow_params {
        return InputResponse::MissingComponent(RequiredComponent::ShadowParams);
    }
    if !state.has_hold_error {
        return InputResponse::MissingComponent(RequiredComponent::HoldError);
    }
    match input.action {
        AvianPickupAction::Throw => {
            if let Some(prop) = state.holding {
                if state.cooldown_finished {
                    return InputResponse::Throw { prop };
                }
            }
            InputResponse::Ignore
        },
        AvianPickupAction::Drop => {
            if state.holding.is_some() && state.cooldown_finished {
                InputResponse::Drop
            } else {
                InputResponse::Ignore
            }
        },
        AvianPickupAction::Pull => {
            if state.holding.is_none() && state.cooldown_finished {
                InputResponse::SearchProp
            } else {
                InputResponse::Ignore
            }
        },
    }
}

/// What the game knows of the prop that a pull search found.
#[derive(Debug, Clone, Copy)]
pub struct PullCandidate {
    /// The rigid body that was found.
    pub prop: Entity,
    /// The prop's state, or `None` where the prop has no mass to look up.
    pub status: Option<PropStatus>,
    /// Whether the prop is no farther from the actor than the distance at
    /// which it can be held.
    pub within_holding_distance: bool,
}

/// The state of a prop that decides whether it can be picked up.
#[derive(Debug, Clone, Copy)]
pub struct PropStatus {
    /// Whether some actor is holding the prop already.
    pub held: bool,
    /// Whether the prop is heavier than the maximum mass that the actor can
    /// pull or pick up.
    pub too_heavy: bool,
}

/// How a pull search ends.
#[derive(Debug, Clone, Copy)]
pub enum PullResponse {
    /// No prop was found.
    NothingFound,
    /// A prop was found but cannot be picked up.
    NotPullable,
    /// The actor starts its hold cooldown and holds `prop` from now on.
    Hold { prop: Entity },
    /// The prop is out of reach for holding, so it is pulled towards the actor.
    Pull(PullRequest),
}

/// How a pull search of `actor` ends when it found `found`.
pub open spec fn pull_response(actor: Entity, found: Option<PullCandidate>) -> PullResponse {
    match found {
        None => PullResponse::NothingFound,
        Some(candidate) => match candidate.status {
            None => PullResponse::NotPullable,
            Some(status) => {
                if status.held || status.too_heavy {
                    PullResponse::NotPullable
                } else if candidate.within_holding_distance {
                    PullResponse::Hold { prop: candidate.prop }
                } else {
                    PullResponse::Pull(PullRequest { actor, prop: candidate.prop })
                }
            },
        },
    }
}

/// Decides how the pull search of `actor` ends, given the prop `found` in
/// front of it, if any.
pub fn resolve_pull(actor: Entity, found: Option<PullCandidate>) -> (response: PullResponse)
    ensures
        response == pull_response(actor, found),
        found is None ==> (response is NothingFound),
        found is Some && found->0.status is None ==> (response is NotPullable),
        found is Some && found->0.status is Some
            && (found->0.status->0.held || found->0.status->0.too_heavy) ==> (response is NotPullable),
        found is Some && found->0.status is Some && !found->0.status->0.held
            && !found->0.status->0.too_heavy && found->0.within_holding_distance
            ==> response == (PullResponse::Hold { prop: found->0.prop }),
        found is Some && found->0.status is Some && !found->0.status->0.held
            && !found->0.status->0.too_heavy && !found->0.within_holding_distance
            ==> response == PullResponse::Pull((PullRequest { actor, prop: found->0.prop })),
{
    let candidate = match found {
        None => {
            return PullResponse::NothingFound;
        },
        Some(candidate) => candidate,
    };
    let status = match candidate.status {
        None => {
            return PullResponse::NotPullable;
        },
        Some(status) => status,
    };
    if status.held || status.too_heavy {
        return PullResponse::NotPullable;
    }
    if candidate.within_holding_distance {
        PullResponse::Hold { prop: candidate.prop }
    } else {
        PullResponse::Pull(PullRequest { actor, prop: candidate.prop })
    }
}

/// The prop that an actor holding `holding` holds once it has given `response`.
pub open spec fn holding_after_input(holding: Option<Entity>, response: InputResponse) -> Option<Entity> {
    match response {
        InputResponse::Throw { .. } => None,
        InputResponse::Drop => None,
        _ => holding,
    }
}

/// The prop that an actor holding `holding` holds once its pull search has
/// ended with `response`.
pub open spec fn holding_after_pull(holding: Option<Entity>, response: PullResponse) -> Option<Entity> {
    match response {
        PullResponse::Hold { prop } => Some(prop),
        _ => holding,
    }
}

/// The prop that the actor `actor`, in state `state`, holds once it has
/// handled an input of kind `action`, where a pull search would find `found`.
pub open spec fn holding_after(
    actor: Entity,
    state: ActorState,
    action: AvianPickupAction,
    found: Option<PullCandidate>,
) -> Option<Entity> {
    let response = input_response(action, Some(state));
    let holding = holding_after_input(state.holding, response);
    match response {
        InputResponse::SearchProp => holding_after_pull(holding, pull_response(actor, found)),
        _ => holding,
    }
}

/// An actor never trades the prop it holds for another one in answer to a
/// single input: if it holds a prop before and after, it is the same prop.
pub proof fn lemma_no_prop_swap(
    actor: Entity,
    state: ActorState,
    action: AvianPickupAction,
    found: Option<PullCandidate>,
)
    requires
        state.holding is Some,
        holding_after(actor, state, action, found) is Some,
    ensures
        holding_after(actor, state, action, found) == state.holding,
{
}

/// Throwing and dropping, whenever they take effect, leave the actor with
/// empty hands.
pub proof fn lemma_throw_and_drop_release(actor: Entity, state: ActorState, action: AvianPickupAction, found: Option<PullCandidate>)
    requires
        input_response(action, Some(state)) is Throw || input_response(action, Some(state)) is Drop,
    ensures
        holding_after(actor, state, action, found) is None,
        state.holding is Some,
        action == AvianPickupAction::Throw || action == AvianPickupAction::Drop,
{
}

/// An actor comes to hold a prop only through a pull input given with empty
/// hands and a finished cooldown, and only a prop that was found, that no one
/// holds, that is light enough and that is within holding distance.
pub proof fn lemma_pickup_conditions(
    actor: Entity,
    state: ActorState,
    action: AvianPickupAction,
    found: Option<PullCandidate>,
    prop: Entity,
)
    requires
        state.holding is None,
        holding_after(actor, state, action, found) == Some(prop),
    ensures
        action == AvianPickupAction::Pull,
        state.cooldown_finished,
        state.has_shadow_params,
        state.has_hold_error,
        found is Some,
        found->0.prop == prop,
        found->0.status is Some,
        !found->0.status->0.held,
        !found->0.status->0.too_heavy,
        found->0.within_holding_distance,
{
}

/// While the cooldown of an action runs, an input of that action changes
/// nothing: the actor keeps what it holds and asks for nothing.
pub proof fn lemma_cooldown_blocks(actor: Entity, state: ActorState, action: AvianPickupAction, found: Option<PullCandidate>)
    requires
        !state.cooldown_finished,
    ensures
        holding_after(actor, state, action, found) == state.holding,
        !(input_response(action, Some(state)) is Throw),
        !(input_response(action, Some(state)) is Drop),
        !(input_response(action, Some(state)) is SearchProp),
{
}

/// A throw pushes exactly the prop that the actor held, and a pull request
/// comes from the searching actor and names the prop that was found.
pub proof fn lemma_messages_name_the_right_entities(
    actor: Entity,
    state: ActorState,
    action: AvianPickupAction,
    found: Option<PullCandidate>,
)
    ensures
        input_response(action, Some(state)) matches InputResponse::Throw { prop } ==> state.holding == Some(prop),
        pull_response(actor, found) matches PullResponse::Pull(request) ==> {
            &&& request.actor == actor
            &&& found is Some
            &&& request.prop == found->0.prop
            &&& !found->0.within_holding_distance
        },
{
}

} // verus!
