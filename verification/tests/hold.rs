use avian3d::prelude::Mass;
use avian_pickup::interaction::hold::on_remove_holding::{mass_on_release, MassOnRelease};

#[test]
fn released_prop_gets_its_cached_mass_back() {
    match mass_on_release(Some(Mass(12.5))) {
        MassOnRelease::RestoreCached(mass) => assert_eq!(mass, Mass(12.5)),
        other => panic!("unexpected action {:?}", other),
    }
}

#[test]
fn released_prop_without_cached_mass_loses_the_temporary_one() {
    assert!(matches!(mass_on_release(None), MassOnRelease::RemoveTemporary));
}
