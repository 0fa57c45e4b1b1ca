use avian_pickup::interaction::finder::{
    line_of_sight_clear, search_step, CastOutcome, SearchStage, SearchStep,
};
use bevy_ecs::entity::Entity;

fn entity(n: u32) -> Entity {
    Entity::from_raw_u32(n).unwrap()
}

#[test]
fn sight_line_is_clear_without_obstacle() {
    assert!(line_of_sight_clear(entity(2), None));
}

#[test]
fn sight_line_is_clear_when_the_obstacle_is_the_prop() {
    assert!(line_of_sight_clear(entity(2), Some(entity(2))));
}

#[test]
fn sight_line_is_blocked_by_another_body() {
    assert!(!line_of_sight_clear(entity(2), Some(entity(3))));
}

#[test]
fn visible_ray_hit_is_the_prop() {
    let outcome = CastOutcome::Hit { body: entity(2), first_obstacle: Some(entity(2)) };
    match search_step(SearchStage::Ray, outcome) {
        SearchStep::Found(body) => assert_eq!(body, entity(2)),
        other => panic!("unexpected step {:?}", other),
    }
}

#[test]
fn ray_miss_or_hidden_hit_goes_on_with_the_box() {
    assert!(matches!(
        search_step(SearchStage::Ray, CastOutcome::Missed),
        SearchStep::Continue(SearchStage::Shape)
    ));
    let hidden = CastOutcome::Hit { body: entity(2), first_obstacle: Some(entity(5)) };
    assert!(matches!(
        search_step(SearchStage::Ray, hidden),
        SearchStep::Continue(SearchStage::Shape)
    ));
}

#[test]
fn box_miss_or_hidden_hit_goes_on_with_the_cone() {
    assert!(matches!(
        search_step(SearchStage::Shape, CastOutcome::Missed),
        SearchStep::Continue(SearchStage::Cone)
    ));
    let hidden = CastOutcome::Hit { body: entity(2), first_obstacle: Some(entity(5)) };
    assert!(matches!(
        search_step(SearchStage::Shape, hidden),
        SearchStep::Continue(SearchStage::Cone)
    ));
}

#[test]
fn visible_box_hit_is_the_prop() {
    let outcome = CastOutcome::Hit { body: entity(4), first_obstacle: None };
    match search_step(SearchStage::Shape, outcome) {
        SearchStep::Found(body) => assert_eq!(body, entity(4)),
        other => panic!("unexpected step {:?}", other),
    }
}
