use vstd::prelude::*;
use std::collections::HashMap;
use crate::view::{BevyRef, RefTarget};
use crate::world::{kind_of, Scalar, ScalarKind};
use crate::world_ref::{removal_view, RefError, UnsafeWorldRef, WorldHost};

verus! {

broadcast use vstd::std_specs::hash::group_hash_axioms;

/// A value fits a layout: one slot per entry, each of the entry's kind.
pub open spec fn conforms(v: Seq<Scalar>, layout: Seq<ScalarKind>) -> bool {
    &&& v.len() == layout.len()
    &&& forall|i: int| 0 <= i < v.len() ==> kind_of(#[trigger] v[i]) == layout[i]
}

/// Whether `v` fits `layout`.
pub fn fits_layout(v: &Vec<Scalar>, layout: &Vec<ScalarKind>) -> (r: bool)
    ensures
        r == conforms(v@, layout@),
{
    if v.len() != layout.len() {
        return false;
    }
    let mut i: usize = 0;
    while i < v.len()
        invariant
            v@.len() == layout@.len(),
            i <= v@.len(),
            forall|j: int| 0 <= j < i ==> kind_of(#[trigger] v@[j]) == layout@[j],
        decreases v@.len() - i,
    {
        if v[i].kind() != layout[i] {
            return false;
        }
        i = i + 1;
    }
    true
}

/// The table of the types that the scripting side may reach, keyed by their
/// 128-bit identifier. Each registered type is described by its layout: the
/// kinds of the slots of its values.
///
/// Components and resources are registered apart; registering an identifier
/// again replaces its layout.
pub struct PyObjectRegistry {
    res_layouts: HashMap<u128, Vec<ScalarKind>>,
    comp_layouts: HashMap<u128, Vec<ScalarKind>>,
}

impl PyObjectRegistry {
    /// The layout of each registered resource type.
    pub closed spec fn res_types(&self) -> Map<u128, Seq<ScalarKind>> {
        self.res_layouts@.map_values(|l: Vec<ScalarKind>| l@)
    }

    /// The layout of each registered component type.
    pub closed spec fn comp_types(&self) -> Map<u128, Seq<ScalarKind>> {
        self.comp_layouts@.map_values(|l: Vec<ScalarKind>| l@)
    }

    /// The view that `create_bevy_comp_ref` builds for a registered type.
    pub open spec fn is_comp_view(&self, r: BevyRef, type_hash: u128, world: UnsafeWorldRef, entity: u64) -> bool {
        &&& r.handle() == world
        &&& r.target() == RefTarget::Component(entity)
        &&& r.type_hash() == type_hash
        &&& r.offset() == 0
        &&& r.len() == self.comp_types()[type_hash].len()
    }

    /// The view that `create_bevy_res_ref` builds for a registered type.
    pub open spec fn is_res_view(&self, r: BevyRef, type_hash: u128, world: UnsafeWorldRef) -> bool {
        &&& r.handle() == world
        &&& r.target() == RefTarget::Resource
        &&& r.type_hash() == type_hash
        &&& r.offset() == 0
        &&& r.len() == self.res_types()[type_hash].len()
    }

    /// What asking whether `entity` has a component of type `type_hash`
    /// gives.
    pub open spec fn has_spec(&self, type_hash: u128, world: UnsafeWorldRef, host: &WorldHost, entity: u64) -> Result<bool, RefError> {
        if !self.comp_types().contains_key(type_hash) {
            Err(RefError::UnknownType)
        } else if !world.is_live(host) {
            Err(RefError::StaleReference)
        } else {
            Ok(world.world(host).comps().contains_key((entity, type_hash)))
        }
    }

    /// What inserting `value` as a component of type `type_hash` gives.
    pub open spec fn insert_comp_spec(&self, value: Seq<Scalar>, type_hash: u128, world: UnsafeWorldRef, host: &WorldHost) -> Result<(), RefError> {
        if !self.comp_types().contains_key(type_hash) {
            Err(RefError::UnknownType)
        } else if !conforms(value, self.comp_types()[type_hash]) {
            Err(RefError::WrongShape)
        } else if !world.is_live(host) {
            Err(RefError::StaleReference)
        } else {
            Ok(())
        }
    }

    /// What inserting `value` as the resource of type `type_hash` gives.
    pub open spec fn insert_res_spec(&self, value: Seq<Scalar>, type_hash: u128, world: UnsafeWorldRef, host: &WorldHost) -> Result<(), RefError> {
        if !self.res_types().contains_key(type_hash) {
            Err(RefError::UnknownType)
        } else if !conforms(value, self.res_types()[type_hash]) {
            Err(RefError::WrongShape)
        } else if !world.is_live(host) {
            Err(RefError::StaleReference)
        } else {
            Ok(())
        }
    }

    /// What removing the component of type `type_hash` from `entity` gives.
    pub open spec fn remove_spec(&self, type_hash: u128, world: UnsafeWorldRef, host: &WorldHost, entity: u64) -> Result<Option<Seq<Scalar>>, RefError> {
        if !self.comp_types().contains_key(type_hash) {
            Err(RefError::UnknownType)
        } else {
            world.comp_removal(host, entity, type_hash)
        }
    }

    /// An empty registry.
    pub fn new() -> (r: Self)
        ensures
            r.res_types().is_empty(),
            r.comp_types().is_empty(),
    {
        let r = PyObjectRegistry { res_layouts: HashMap::new(), comp_layouts: HashMap::new() };
        assert(r.res_types() =~= Map::empty());
        assert(r.comp_types() =~= Map::empty());
        r
    }

    /// Registers a resource type; a later registration of the same
    /// identifier wins.
    pub fn register_res(&mut self, type_hash: u128, layout: Vec<ScalarKind>)
        ensures
            final(self).res_types() == old(self).res_types().insert(type_hash, layout@),
            final(self).comp_types() == old(self).comp_types(),
    {
        let ghost l = layout@;
        self.res_layouts.insert(type_hash, layout);
        assert(self.res_types() =~= old(self).res_types().insert(type_hash, l));
    }

    /// Registers a component type; a later registration of the same
    /// identifier wins.
    pub fn register_comp(&mut self, type_hash: u128, layout: Vec<ScalarKind>)
        ensures
            final(self).comp_types() == old(self).comp_types().insert(type_hash, layout@),
            final(self).res_types() == old(self).res_types(),
    {
        let ghost l = layout@;
        self.comp_layouts.insert(type_hash, layout);
        assert(self.comp_types() =~= old(self).comp_types().insert(type_hash, l));
    }

    /// Whether `type_hash` is a registered component type.
    pub fn comp_exists(&self, type_hash: u128) -> (r: bool)
        ensures
            r == self.comp_types().contains_key(type_hash),
    {
        self.comp_layouts.contains_key(&type_hash)
    }

    /// Whether `type_hash` is a registered resource type.
    pub fn res_exists(&self, type_hash: u128) -> (r: bool)
        ensures
            r == self.res_types().contains_key(type_hash),
    {
        self.res_layouts.contains_key(&type_hash)
    }

    /// A view of the resource of type `type_hash`; `None` when the type is
    /// not a registered resource.
    pub fn create_bevy_res_ref(&self, type_hash: u128, world: UnsafeWorldRef) -> (r: Option<BevyRef>)
        ensures
            r is Some == self.res_types().contains_key(type_hash),
            r is Some ==> self.is_res_view(r->Some_0, type_hash, world),
    {
        match self.res_layouts.get(&type_hash) {
            Some(layout) => Some(BevyRef::new(world, RefTarget::Resource, type_hash, layout.len())),
            None => None,
        }
    }

    /// A view of the component of type `type_hash` on `entity`; `None` when
    /// the type is not a registered component.
    pub fn create_bevy_comp_ref(&self, type_hash: u128, world: UnsafeWorldRef, entity: u64) -> (r: Option<BevyRef>)
        ensures
            r is Some == self.comp_types().contains_key(type_hash),
            r is Some ==> self.is_comp_view(r->Some_0, type_hash, world, entity),
    {
        match self.comp_layouts.get(&type_hash) {
            Some(layout) => Some(BevyRef::new(world, RefTarget::Component(entity), type_hash, layout.len())),
            None => None,
        }
    }

    /// Whether `entity` has a component of type `type_hash`.
    pub fn entity_has_comp(&self, type_hash: u128, world: UnsafeWorldRef, host: &WorldHost, entity: u64) -> (r: Result<bool, RefError>)
        ensures
            r == self.has_spec(type_hash, world, host, entity),
    {
        if !self.comp_layouts.contains_key(&type_hash) {
            return Err(RefError::UnknownType);
        }
        world.entity_has_comp(host, entity, type_hash)
    }

    /// Inserts a dynamic value as the resource of type `type_hash`.
    pub fn insert_res_from_py_any_bound(&self, value: Vec<Scalar>, type_hash: u128, world: UnsafeWorldRef, host: &mut WorldHost) -> (r: Result<(), RefError>)
        requires
            old(host).wf(),
        ensures
            final(host).wf(),
            old(host).evolves_to(&*final(host)),
            r == self.insert_res_spec(value@, type_hash, world, old(host)),
            r is Err ==> old(host).unchanged(final(host)),
            r is Ok ==> world.res_inserted(old(host), final(host), type_hash, value@),
    {
        match self.res_layouts.get(&type_hash) {
            None => Err(RefError::UnknownType),
            Some(layout) => {
                if !fits_layout(&value, layout) {
                    return Err(RefError::WrongShape);
                }
                world.insert_res(host, type_hash, value)
            },
        }
    }

    /// Inserts a dynamic value as the component of type `type_hash` on
    /// `entity`.
    pub fn insert_comp_from_py_any_bound(&self, value: Vec<Scalar>, type_hash: u128, world: UnsafeWorldRef, host: &mut WorldHost, entity: u64) -> (r: Result<(), RefError>)
        requires
            old(host).wf(),
        ensures
            final(host).wf(),
            old(host).evolves_to(&*final(host)),
            r == self.insert_comp_spec(value@, type_hash, world, old(host)),
            r is Err ==> old(host).unchanged(final(host)),
            r is Ok ==> world.comp_inserted(old(host), final(host), entity, type_hash, value@),
    {
        match self.comp_layouts.get(&type_hash) {
            None => Err(RefError::UnknownType),
            Some(layout) => {
                if !fits_layout(&value, layout) {
                    return Err(RefError::WrongShape);
                }
                world.insert_comp(host, entity, type_hash, value)
            },
        }
    }

    /// Detaches the component of type `type_hash` from `entity` and hands it
    /// back; `Ok(None)` when the entity had none.
    pub fn remove_comp(&self, type_hash: u128, world: UnsafeWorldRef, host: &mut WorldHost, entity: u64) -> (r: Result<Option<Vec<Scalar>>, RefError>)
        requires
            old(host).wf(),
        ensures
            final(host).wf(),
            old(host).evolves_to(&*final(host)),
            removal_view(r) == self.remove_spec(type_hash, world, old(host), entity),
            r is Err ==> old(host).unchanged(final(host)),
            r is Ok ==> world.comp_removed(old(host), final(host), entity, type_hash),
    {
        if !self.comp_layouts.contains_key(&type_hash) {
            return Err(RefError::UnknownType);
        }
        world.remove_comp(host, entity, type_hash)
    }
}

} // verus!
