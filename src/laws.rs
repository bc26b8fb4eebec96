use vstd::prelude::*;
use crate::registry::{conforms, PyObjectRegistry};
use crate::view::BevyRef;
use crate::world::Scalar;
use crate::world_ref::{RefError, UnsafeWorldRef, WorldHost};

verus! {

/// A handle derived from a host stays derived from every later state of it.
pub proof fn lemma_belongs_to_later(h1: &WorldHost, h2: &WorldHost, r: UnsafeWorldRef)
    requires
        h1.evolves_to(h2),
        r.belongs_to(h1),
    ensures
        r.belongs_to(h2),
{
}

/// Once the store of a handle is destroyed, the handle is never live again:
/// in every later state of the host each access through it fails with
/// `StaleReference`.
pub proof fn lemma_stale_stays_stale(h1: &WorldHost, h2: &WorldHost, r: UnsafeWorldRef)
    requires
        h1.wf(),
        h1.evolves_to(h2),
        r.belongs_to(h1),
        !r.is_live(h1),
    ensures
        !r.is_live(h2),
        !h2.liveness().is_alive(r.observer()),
        forall|e: u64, t: u128| #[trigger] r.comp_removal(h2, e, t)
            == Err::<Option<Seq<Scalar>>, RefError>(RefError::StaleReference),
        forall|v: BevyRef| #[trigger] v.handle() == r ==> v.lookup(h2)
            == Err::<Seq<Scalar>, RefError>(RefError::StaleReference),
{
    h1.lemma_slot_flag(r.slot());
}

/// A destroyed store leaves every handle on it stale.
pub proof fn lemma_destroyed_is_stale(h: &WorldHost, r: UnsafeWorldRef)
    requires
        h.wf(),
        r.belongs_to(h),
        h.worlds()[r.slot()] is None,
    ensures
        !r.is_live(h),
{
    h.lemma_slot_flag(r.slot());
}

/// Inserting a registered component on an entity and then asking for it
/// finds it; removing it then hands back the value that was inserted, and
/// asking again finds nothing.
pub proof fn lemma_single_owner(
    reg: &PyObjectRegistry,
    h0: &WorldHost,
    h1: &WorldHost,
    h2: &WorldHost,
    world: UnsafeWorldRef,
    entity: u64,
    type_hash: u128,
    value: Seq<Scalar>,
)
    requires
        h0.wf(),
        reg.insert_comp_spec(value, type_hash, world, h0) == Ok::<(), RefError>(()),
        world.comp_inserted(h0, h1, entity, type_hash, value),
        world.comp_removed(h1, h2, entity, type_hash),
    ensures
        reg.has_spec(type_hash, world, h1, entity) == Ok::<bool, RefError>(true),
        reg.remove_spec(type_hash, world, h1, entity) == Ok::<Option<Seq<Scalar>>, RefError>(Some(value)),
        reg.has_spec(type_hash, world, h2, entity) == Ok::<bool, RefError>(false),
{
}

/// Inserting a registered component and then reading every field of a view
/// of it gives back the inserted value, field for field.
pub proof fn lemma_round_trip(
    reg: &PyObjectRegistry,
    h0: &WorldHost,
    h1: &WorldHost,
    world: UnsafeWorldRef,
    entity: u64,
    type_hash: u128,
    value: Seq<Scalar>,
    view: BevyRef,
)
    requires
        h0.wf(),
        reg.insert_comp_spec(value, type_hash, world, h0) == Ok::<(), RefError>(()),
        world.comp_inserted(h0, h1, entity, type_hash, value),
        reg.is_comp_view(view, type_hash, world, entity),
    ensures
        view.read_all_spec(h1) == Ok::<Seq<Scalar>, RefError>(value),
        forall|i: int| 0 <= i < value.len() ==> #[trigger] view.field_spec(h1, i) == Ok::<Scalar, RefError>(value[i]),
{
    assert(conforms(value, reg.comp_types()[type_hash]));
    assert(value.subrange(0, value.len() as int) =~= value);
}

/// Registering a type never makes an entity seem to have a component of it:
/// an entity whose components are all of other types has none of it, even
/// where the layouts agree.
pub proof fn lemma_type_isolation(
    reg: &PyObjectRegistry,
    host: &WorldHost,
    world: UnsafeWorldRef,
    entity: u64,
    a: u128,
)
    requires
        reg.comp_types().contains_key(a),
        world.is_live(host),
        forall|t: u128| #[trigger] world.world(host).comps().contains_key((entity, t)) ==> t != a,
    ensures
        reg.has_spec(a, world, host, entity) == Ok::<bool, RefError>(false),
{
}

/// Inserting under an identifier that was never registered fails with
/// `UnknownType`, for components and for resources alike.
pub proof fn lemma_unknown_type_insert(
    reg: &PyObjectRegistry,
    value: Seq<Scalar>,
    type_hash: u128,
    world: UnsafeWorldRef,
    host: &WorldHost,
)
    ensures
        !reg.comp_types().contains_key(type_hash) ==> reg.insert_comp_spec(value, type_hash, world, host)
            == Err::<(), RefError>(RefError::UnknownType),
        !reg.res_types().contains_key(type_hash) ==> reg.insert_res_spec(value, type_hash, world, host)
            == Err::<(), RefError>(RefError::UnknownType),
{
}

} // verus!
