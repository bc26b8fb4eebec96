use simple_py_bevy::registry::{fits_layout, PyObjectRegistry};
use simple_py_bevy::view::RefTarget;
use simple_py_bevy::world::{Scalar, ScalarKind};
use simple_py_bevy::world_ref::{RefError, UnsafeWorldRef, WorldHost};

const TYPE_A: u128 = 0xa;
const TYPE_B: u128 = 0xb;
const TYPE_RES: u128 = u128::MAX;

fn setup() -> (WorldHost, UnsafeWorldRef, u64) {
    let mut host = WorldHost::new();
    let slot = host.create_world();
    let e = host.spawn(slot).unwrap();
    let h = UnsafeWorldRef::new(&host, slot).unwrap();
    (host, h, e)
}

fn my_comp_layout() -> Vec<ScalarKind> {
    // a: f64, inner: { a: f32, b: i32 }, flag: bool
    vec![ScalarKind::FloatBits, ScalarKind::FloatBits, ScalarKind::Int, ScalarKind::Bool]
}

fn my_comp_value() -> Vec<Scalar> {
    vec![
        Scalar::FloatBits(1.5f64.to_bits()),
        Scalar::FloatBits((2.25f32 as f64).to_bits()),
        Scalar::Int(-3),
        Scalar::Bool(true),
    ]
}

#[test]
fn insert_then_has_then_remove() {
    let (mut host, h, e) = setup();
    let mut reg = PyObjectRegistry::new();
    reg.register_comp(TYPE_A, vec![ScalarKind::Int, ScalarKind::Uint]);
    let v = vec![Scalar::Int(-7), Scalar::Uint(9)];
    assert_eq!(reg.entity_has_comp(TYPE_A, h, &host, e), Ok(false));
    assert_eq!(reg.insert_comp_from_py_any_bound(v.clone(), TYPE_A, h, &mut host, e), Ok(()));
    assert_eq!(reg.entity_has_comp(TYPE_A, h, &host, e), Ok(true));
    assert_eq!(reg.remove_comp(TYPE_A, h, &mut host, e), Ok(Some(v)));
    assert_eq!(reg.entity_has_comp(TYPE_A, h, &host, e), Ok(false));
    assert_eq!(reg.remove_comp(TYPE_A, h, &mut host, e), Ok(None));
}

#[test]
fn round_trip_through_a_view() {
    let (mut host, h, e) = setup();
    let mut reg = PyObjectRegistry::new();
    reg.register_comp(TYPE_A, my_comp_layout());
    assert_eq!(reg.insert_comp_from_py_any_bound(my_comp_value(), TYPE_A, h, &mut host, e), Ok(()));
    let view = reg.create_bevy_comp_ref(TYPE_A, h, e).unwrap();
    assert_eq!(view.field_count(), 4);
    assert_eq!(view.read_all(&host), Ok(my_comp_value()));
    for (i, s) in my_comp_value().into_iter().enumerate() {
        assert_eq!(view.get_field(&host, i), Ok(s));
    }
    match view.get_field(&host, 0) {
        Ok(Scalar::FloatBits(bits)) => assert_eq!(f64::from_bits(bits), 1.5),
        other => panic!("unexpected {:?}", other),
    }
}

#[test]
fn nested_view_reaches_the_inner_struct() {
    let (mut host, h, e) = setup();
    let mut reg = PyObjectRegistry::new();
    reg.register_comp(TYPE_A, my_comp_layout());
    assert_eq!(reg.insert_comp_from_py_any_bound(my_comp_value(), TYPE_A, h, &mut host, e), Ok(()));
    let view = reg.create_bevy_comp_ref(TYPE_A, h, e).unwrap();
    let inner = view.nested(1, 2).unwrap();
    assert_eq!(inner.field_count(), 2);
    assert_eq!(inner.get_field(&host, 1), Ok(Scalar::Int(-3)));
    assert_eq!(inner.get_field(&host, 2), Err(RefError::WrongShape));
    assert_eq!(inner.set_field(&mut host, 1, Scalar::Int(40)), Ok(()));
    assert_eq!(view.get_field(&host, 2), Ok(Scalar::Int(40)));
    assert_eq!(
        inner.read_all(&host),
        Ok(vec![Scalar::FloatBits((2.25f32 as f64).to_bits()), Scalar::Int(40)])
    );
    assert!(view.nested(3, 2).is_none());
    assert!(view.nested(4, 0).is_some());
    assert!(inner.nested(0, 3).is_none());
}

#[test]
fn field_writes_keep_kinds() {
    let (mut host, h, e) = setup();
    let mut reg = PyObjectRegistry::new();
    reg.register_comp(TYPE_A, vec![ScalarKind::Int]);
    assert_eq!(reg.insert_comp_from_py_any_bound(vec![Scalar::Int(1)], TYPE_A, h, &mut host, e), Ok(()));
    let view = reg.create_bevy_comp_ref(TYPE_A, h, e).unwrap();
    assert_eq!(view.set_field(&mut host, 0, Scalar::Bool(true)), Err(RefError::WrongShape));
    assert_eq!(view.set_field(&mut host, 1, Scalar::Int(2)), Err(RefError::WrongShape));
    assert_eq!(view.get_field(&host, 0), Ok(Scalar::Int(1)));
    assert_eq!(view.set_field(&mut host, 0, Scalar::Int(2)), Ok(()));
    assert_eq!(view.get_field(&host, 0), Ok(Scalar::Int(2)));
}

#[test]
fn views_see_later_writes_and_removals() {
    let (mut host, h, e) = setup();
    let mut reg = PyObjectRegistry::new();
    reg.register_comp(TYPE_A, vec![ScalarKind::Uint]);
    let view = reg.create_bevy_comp_ref(TYPE_A, h, e).unwrap();
    assert_eq!(view.get_field(&host, 0), Err(RefError::MissingData));
    assert_eq!(reg.insert_comp_from_py_any_bound(vec![Scalar::Uint(1)], TYPE_A, h, &mut host, e), Ok(()));
    assert_eq!(view.get_field(&host, 0), Ok(Scalar::Uint(1)));
    assert_eq!(h.set_comp_slot(&mut host, e, TYPE_A, 0, Scalar::Uint(8)), Ok(()));
    assert_eq!(view.get_field(&host, 0), Ok(Scalar::Uint(8)));
    assert_eq!(reg.remove_comp(TYPE_A, h, &mut host, e), Ok(Some(vec![Scalar::Uint(8)])));
    assert_eq!(view.read_all(&host), Err(RefError::MissingData));
}

#[test]
fn type_isolation_with_equal_layouts() {
    let (mut host, h, e) = setup();
    let mut reg = PyObjectRegistry::new();
    reg.register_comp(TYPE_B, vec![ScalarKind::Int]);
    assert_eq!(reg.insert_comp_from_py_any_bound(vec![Scalar::Int(3)], TYPE_B, h, &mut host, e), Ok(()));
    reg.register_comp(TYPE_A, vec![ScalarKind::Int]);
    assert_eq!(reg.entity_has_comp(TYPE_A, h, &host, e), Ok(false));
    assert_eq!(reg.entity_has_comp(TYPE_B, h, &host, e), Ok(true));
    let view_a = reg.create_bevy_comp_ref(TYPE_A, h, e).unwrap();
    assert_eq!(view_a.get_field(&host, 0), Err(RefError::MissingData));
}

#[test]
fn unknown_type_is_a_catchable_error() {
    let (mut host, h, e) = setup();
    let reg = PyObjectRegistry::new();
    assert_eq!(reg.insert_comp_from_py_any_bound(vec![Scalar::Int(3)], TYPE_A, h, &mut host, e), Err(RefError::UnknownType));
    assert_eq!(reg.insert_res_from_py_any_bound(vec![Scalar::Int(3)], TYPE_RES, h, &mut host), Err(RefError::UnknownType));
    assert_eq!(h.entity_has_comp(&host, e, TYPE_A), Ok(false));
    assert_eq!(h.get_res(&host, TYPE_RES), Err(RefError::MissingData));
    assert_eq!(reg.entity_has_comp(TYPE_A, h, &host, e), Err(RefError::UnknownType));
    assert_eq!(reg.remove_comp(TYPE_A, h, &mut host, e), Err(RefError::UnknownType));
    assert!(reg.create_bevy_comp_ref(TYPE_A, h, e).is_none());
    assert!(reg.create_bevy_res_ref(TYPE_RES, h).is_none());
    assert!(!reg.comp_exists(TYPE_A));
    assert!(!reg.res_exists(TYPE_RES));
}

#[test]
fn components_and_resources_are_registered_apart() {
    let (mut host, h, e) = setup();
    let mut reg = PyObjectRegistry::new();
    reg.register_res(TYPE_RES, vec![ScalarKind::Bool]);
    assert!(reg.res_exists(TYPE_RES));
    assert!(!reg.comp_exists(TYPE_RES));
    assert_eq!(reg.insert_comp_from_py_any_bound(vec![Scalar::Bool(true)], TYPE_RES, h, &mut host, e), Err(RefError::UnknownType));
    let view = reg.create_bevy_res_ref(TYPE_RES, h).unwrap();
    assert_eq!(view.get_field(&host, 0), Err(RefError::MissingData));
    assert_eq!(reg.insert_res_from_py_any_bound(vec![Scalar::Bool(true)], TYPE_RES, h, &mut host), Ok(()));
    assert_eq!(view.read_all(&host), Ok(vec![Scalar::Bool(true)]));
    assert_eq!(view.set_field(&mut host, 0, Scalar::Bool(false)), Ok(()));
    assert_eq!(h.get_res(&host, TYPE_RES).unwrap().clone(), vec![Scalar::Bool(false)]);
}

#[test]
fn values_must_fit_the_layout() {
    let (mut host, h, e) = setup();
    let mut reg = PyObjectRegistry::new();
    reg.register_comp(TYPE_A, vec![ScalarKind::Int, ScalarKind::Bool]);
    assert_eq!(reg.insert_comp_from_py_any_bound(vec![Scalar::Int(1)], TYPE_A, h, &mut host, e), Err(RefError::WrongShape));
    assert_eq!(reg.insert_comp_from_py_any_bound(vec![Scalar::Bool(true), Scalar::Int(1)], TYPE_A, h, &mut host, e), Err(RefError::WrongShape));
    assert_eq!(reg.entity_has_comp(TYPE_A, h, &host, e), Ok(false));
    assert!(fits_layout(&vec![], &vec![]));
    assert!(fits_layout(&vec![Scalar::Int(0), Scalar::Bool(false)], &vec![ScalarKind::Int, ScalarKind::Bool]));
    assert!(!fits_layout(&vec![Scalar::Uint(0)], &vec![ScalarKind::Int]));
}

#[test]
fn last_registration_wins() {
    let (mut host, h, e) = setup();
    let mut reg = PyObjectRegistry::new();
    reg.register_comp(TYPE_A, vec![ScalarKind::Int]);
    reg.register_comp(TYPE_A, vec![ScalarKind::Bool, ScalarKind::Bool]);
    assert_eq!(reg.insert_comp_from_py_any_bound(vec![Scalar::Int(1)], TYPE_A, h, &mut host, e), Err(RefError::WrongShape));
    assert_eq!(
        reg.insert_comp_from_py_any_bound(vec![Scalar::Bool(true), Scalar::Bool(false)], TYPE_A, h, &mut host, e),
        Ok(())
    );
    assert_eq!(reg.create_bevy_comp_ref(TYPE_A, h, e).unwrap().field_count(), 2);
}

#[test]
fn views_carry_their_key() {
    let (_host, h, e) = setup();
    let mut reg = PyObjectRegistry::new();
    reg.register_comp(TYPE_A, vec![]);
    let view = reg.create_bevy_comp_ref(TYPE_A, h, e).unwrap();
    assert_eq!(view.field_count(), 0);
    assert_eq!(view.world_ref().get_world_alive_ptr(), h.get_world_alive_ptr());
    assert_eq!(RefTarget::Component(e), RefTarget::Component(e));
}
