use simple_py_bevy::liveness::{BevyHealthCheckPtr, LivenessTable};
use simple_py_bevy::registry::PyObjectRegistry;
use simple_py_bevy::world::{Scalar, ScalarKind};
use simple_py_bevy::world_ref::{RefError, UnsafeWorldRef, WorldHost};

const RES_R: u128 = 0x1234_5678_9abc_def0_0fed_cba9_8765_4321;
const COMP_C: u128 = 7;

#[test]
fn token_lives_until_released() {
    let mut table = LivenessTable::new();
    let token = BevyHealthCheckPtr::new(&mut table);
    let w1 = token.downgrade();
    let w2 = token.downgrade();
    assert!(table.upgrade(&w1));
    assert!(table.upgrade(&w2));
    table.release(token);
    assert!(!table.upgrade(&w1));
    assert!(!table.upgrade(&w2));
}

#[test]
fn new_token_does_not_revive_old_observers() {
    let mut table = LivenessTable::new();
    let first = BevyHealthCheckPtr::new(&mut table);
    let w = first.downgrade();
    table.release(first);
    let second = BevyHealthCheckPtr::new(&mut table);
    let w2 = second.downgrade();
    assert!(!table.upgrade(&w));
    assert!(table.upgrade(&w2));
}

#[test]
fn scenario_resource_read_then_store_destroyed() {
    let mut host = WorldHost::new();
    let slot = host.create_world();
    let h1 = UnsafeWorldRef::new(&host, slot).unwrap();
    assert!(host.upgrade(&h1.get_world_alive_ptr()));

    let mut reg = PyObjectRegistry::new();
    reg.register_res(RES_R, vec![ScalarKind::Int]);
    assert_eq!(reg.insert_res_from_py_any_bound(vec![Scalar::Int(5)], RES_R, h1, &mut host), Ok(()));
    assert_eq!(h1.get_res(&host, RES_R).unwrap().clone(), vec![Scalar::Int(5)]);
    let view = reg.create_bevy_res_ref(RES_R, h1).unwrap();
    assert_eq!(view.get_field(&host, 0), Ok(Scalar::Int(5)));

    host.destroy_world(slot);
    assert!(!host.upgrade(&h1.get_world_alive_ptr()));
    assert_eq!(h1.get_res(&host, RES_R), Err(RefError::StaleReference));
    assert_eq!(view.get_field(&host, 0), Err(RefError::StaleReference));
}

#[test]
fn every_call_through_a_stale_handle_fails() {
    let mut host = WorldHost::new();
    let slot = host.create_world();
    let e = host.spawn(slot).unwrap();
    let h = UnsafeWorldRef::new(&host, slot).unwrap();
    let mut reg = PyObjectRegistry::new();
    reg.register_comp(COMP_C, vec![ScalarKind::Bool]);
    reg.register_res(RES_R, vec![ScalarKind::Bool]);
    assert_eq!(reg.insert_comp_from_py_any_bound(vec![Scalar::Bool(true)], COMP_C, h, &mut host, e), Ok(()));
    host.destroy_world(slot);

    assert!(h.map_to_world(&host).is_err());
    assert_eq!(h.get_comp(&host, e, COMP_C), Err(RefError::StaleReference));
    assert_eq!(h.entity_has_comp(&host, e, COMP_C), Err(RefError::StaleReference));
    assert_eq!(reg.entity_has_comp(COMP_C, h, &host, e), Err(RefError::StaleReference));
    assert_eq!(reg.insert_comp_from_py_any_bound(vec![Scalar::Bool(false)], COMP_C, h, &mut host, e), Err(RefError::StaleReference));
    assert_eq!(reg.insert_res_from_py_any_bound(vec![Scalar::Bool(false)], RES_R, h, &mut host), Err(RefError::StaleReference));
    assert_eq!(reg.remove_comp(COMP_C, h, &mut host, e), Err(RefError::StaleReference));
    assert_eq!(h.set_comp_slot(&mut host, e, COMP_C, 0, Scalar::Bool(false)), Err(RefError::StaleReference));

    // a store created afterwards does not bring the old handle back
    let slot2 = host.create_world();
    assert_ne!(slot, slot2);
    assert_eq!(h.entity_has_comp(&host, e, COMP_C), Err(RefError::StaleReference));
    assert!(UnsafeWorldRef::new(&host, slot).is_none());
}

#[test]
fn destroying_one_store_leaves_another_alive() {
    let mut host = WorldHost::new();
    let a = host.create_world();
    let b = host.create_world();
    let ha = UnsafeWorldRef::new(&host, a).unwrap();
    let hb = UnsafeWorldRef::new(&host, b).unwrap();
    host.destroy_world(a);
    assert_eq!(ha.entity_has_comp(&host, 0, COMP_C), Err(RefError::StaleReference));
    assert_eq!(hb.entity_has_comp(&host, 0, COMP_C), Ok(false));
    // destroying twice, or a slot that never existed, changes nothing
    host.destroy_world(a);
    host.destroy_world(99);
    assert_eq!(hb.entity_has_comp(&host, 0, COMP_C), Ok(false));
}

#[test]
fn spawn_hands_out_fresh_entities() {
    let mut host = WorldHost::new();
    let slot = host.create_world();
    assert_eq!(host.spawn(slot), Some(0));
    assert_eq!(host.spawn(slot), Some(1));
    assert_eq!(host.spawn(slot + 1), None);
    host.destroy_world(slot);
    assert_eq!(host.spawn(slot), None);
}
