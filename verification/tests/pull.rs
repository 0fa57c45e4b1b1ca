use avian_pickup::interaction::pull::PullRequest;
use avian_pickup::output::PropForcedDrop;
use bevy_ecs::entity::Entity;
use bevy_math::Vec3;

#[test]
fn done_reports_the_request_with_its_impulse() {
    let request = PullRequest {
        actor: Entity::from_raw_u32(3).unwrap(),
        prop: Entity::from_raw_u32(4).unwrap(),
    };
    let pulled = request.done(Vec3::new(1.0, -2.0, 0.5));
    assert_eq!(pulled.actor, Entity::from_raw_u32(3).unwrap());
    assert_eq!(pulled.prop, Entity::from_raw_u32(4).unwrap());
    assert_eq!(pulled.impulse, Vec3::new(1.0, -2.0, 0.5));
}

#[test]
fn forced_drop_compares_by_its_entities() {
    let a = Entity::from_raw_u32(1).unwrap();
    let b = Entity::from_raw_u32(2).unwrap();
    assert_eq!(PropForcedDrop { prop: a, actor: b }, PropForcedDrop { prop: a, actor: b });
    assert_ne!(PropForcedDrop { prop: a, actor: b }, PropForcedDrop { prop: b, actor: a });
}

#[test]
fn output_plugin_registers_the_forced_drop_message() {
    let mut app = bevy_app::App::new();
    assert!(!app
        .world()
        .contains_resource::<bevy_ecs::message::Messages<PropForcedDrop>>());
    avian_pickup::output::plugin(&mut app);
    assert!(app
        .world()
        .contains_resource::<bevy_ecs::message::Messages<PropForcedDrop>>());
}

fn main_world_system_count(app: &bevy_app::App) -> usize {
    app.world()
        .get_resource::<bevy_ecs::schedule::Schedules>()
        .map_or(0, |schedules| {
            schedules
                .iter()
                .map(|(_, schedule)| schedule.systems_len())
                .sum()
        })
}

#[test]
fn output_plugin_adds_no_system() {
    let mut app = bevy_app::App::new();
    let before = main_world_system_count(&app);
    avian_pickup::output::plugin(&mut app);
    assert_eq!(main_world_system_count(&app), before);
}
