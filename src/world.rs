use vstd::prelude::*;
use std::collections::HashMap;
use crate::liveness::{AliveObserver, BevyHealthCheckPtr};

verus! {

broadcast use vstd::std_specs::hash::group_hash_axioms;

/// One slot of a stored value. A floating-point field is held by its bit
/// pattern.
#[derive(Clone, Copy, Debug, PartialEq, Eq, Structural)]
pub enum Scalar {
    Int(i64),
    Uint(u64),
    FloatBits(u64),
    Bool(bool),
}

/// The kind of one slot of a layout.
#[derive(Clone, Copy, Debug, PartialEq, Eq, Structural)]
pub enum ScalarKind {
    Int,
    Uint,
    FloatBits,
    Bool,
}

/// The kind of a slot value.
pub open spec fn kind_of(s: Scalar) -> ScalarKind {
    match s {
        Scalar::Int(_) => ScalarKind::Int,
        Scalar::Uint(_) => ScalarKind::Uint,
        Scalar::FloatBits(_) => ScalarKind::FloatBits,
        Scalar::Bool(_) => ScalarKind::Bool,
    }
}

impl Scalar {
    pub fn kind(&self) -> (r: ScalarKind)
        ensures
            r == kind_of(*self),
    {
        match self {
            Scalar::Int(_) => ScalarKind::Int,
            Scalar::Uint(_) => ScalarKind::Uint,
            Scalar::FloatBits(_) => ScalarKind::FloatBits,
            Scalar::Bool(_) => ScalarKind::Bool,
        }
    }
}

/// The component store: entities with components keyed by type, and
/// resources with at most one instance per type.
///
/// A value is the flat sequence of its slots; a nested struct occupies a
/// contiguous range of the slots of its parent.
pub struct World {
    health: BevyHealthCheckPtr,
    next_entity: u64,
    components: HashMap<u128, HashMap<u64, Vec<Scalar>>>,
    resources: HashMap<u128, Vec<Scalar>>,
}

impl World {
    /// The component of type `t` on each entity that has one, keyed by
    /// (entity, type).
    pub closed spec fn comps(&self) -> Map<(u64, u128), Seq<Scalar>> {
        Map::new(
            |k: (u64, u128)|
                self.components@.contains_key(k.1) && self.components@[k.1]@.contains_key(k.0),
            |k: (u64, u128)| self.components@[k.1]@[k.0]@,
        )
    }

    /// The resource of each type that is present.
    pub closed spec fn res(&self) -> Map<u128, Seq<Scalar>> {
        self.resources@.map_values(|v: Vec<Scalar>| v@)
    }

    /// The slot of the liveness flag that this store owns.
    pub closed spec fn token(&self) -> int {
        self.health.id()
    }

    /// The entity that the next spawn hands out.
    pub closed spec fn next_entity(&self) -> u64 {
        self.next_entity
    }

    /// A store with no entity and no resource, owning the given token.
    pub fn new(health: BevyHealthCheckPtr) -> (r: Self)
        ensures
            r.comps() == Map::<(u64, u128), Seq<Scalar>>::empty(),
            r.res() == Map::<u128, Seq<Scalar>>::empty(),
            r.token() == health.id(),
            r.next_entity() == 0,
    {
        let r = World {
            health,
            next_entity: 0,
            components: HashMap::new(),
            resources: HashMap::new(),
        };
        assert(r.comps() =~= Map::empty());
        assert(r.res() =~= Map::empty());
        r
    }

    /// A weak observer of this store's liveness flag.
    pub fn alive_observer(&self) -> (r: AliveObserver)
        ensures
            r.id() == self.token(),
    {
        self.health.downgrade()
    }

    /// Gives the store up and hands back its liveness token.
    pub fn into_health(self) -> (r: BevyHealthCheckPtr)
        ensures
            r.id() == self.token(),
    {
        self.health
    }

    /// A fresh entity: one that no earlier spawn of this store handed out.
    pub fn spawn(&mut self) -> (r: Option<u64>)
        ensures
            old(self).next_entity() < u64::MAX ==> r == Some(old(self).next_entity())
                && final(self).next_entity() == old(self).next_entity() + 1,
            old(self).next_entity() == u64::MAX ==> r.is_none() && *final(self) == *old(self),
            final(self).comps() == old(self).comps(),
            final(self).res() == old(self).res(),
            final(self).token() == old(self).token(),
    {
        if self.next_entity == u64::MAX {
            None
        } else {
            let e = self.next_entity;
            self.next_entity = e + 1;
            Some(e)
        }
    }

    /// Whether entity `e` has a component of type `t`.
    pub fn has_component(&self, e: u64, t: u128) -> (r: bool)
        ensures
            r == self.comps().contains_key((e, t)),
    {
        match self.components.get(&t) {
            Some(m) => m.contains_key(&e),
            None => false,
        }
    }

    /// The component of type `t` on entity `e`, if it has one.
    pub fn get_component(&self, e: u64, t: u128) -> (r: Option<&Vec<Scalar>>)
        ensures
            r.is_some() == self.comps().contains_key((e, t)),
            r.is_some() ==> r.unwrap()@ == self.comps()[(e, t)],
    {
        match self.components.get(&t) {
            Some(m) => m.get(&e),
            None => None,
        }
    }

    /// Inserts (or replaces) the component of type `t` on entity `e`.
    pub fn insert_component(&mut self, e: u64, t: u128, v: Vec<Scalar>)
        ensures
            final(self).comps() == old(self).comps().insert((e, t), v@),
            final(self).res() == old(self).res(),
            final(self).token() == old(self).token(),
            final(self).next_entity() == old(self).next_entity(),
    {
        let ghost v_view = v@;
        let mut inner = match self.components.remove(&t) {
            Some(m) => m,
            None => HashMap::new(),
        };
        inner.insert(e, v);
        self.components.insert(t, inner);
        assert(self.comps() =~= old(self).comps().insert((e, t), v_view));
    }

    /// Removes the component of type `t` from entity `e` and hands it back.
    pub fn remove_component(&mut self, e: u64, t: u128) -> (r: Option<Vec<Scalar>>)
        ensures
            r.is_some() == old(self).comps().contains_key((e, t)),
            r.is_some() ==> r.unwrap()@ == old(self).comps()[(e, t)],
            final(self).comps() == old(self).comps().remove((e, t)),
            final(self).res() == old(self).res(),
            final(self).token() == old(self).token(),
            final(self).next_entity() == old(self).next_entity(),
    {
        match self.components.remove(&t) {
            Some(m) => {
                let mut inner = m;
                let r = inner.remove(&e);
                self.components.insert(t, inner);
                assert(self.comps() =~= old(self).comps().remove((e, t)));
                r
            },
            None => {
                assert(self.comps() =~= old(self).comps().remove((e, t)));
                None
            },
        }
    }

    /// Overwrites slot `i` of the component of type `t` on entity `e`.
    pub fn set_component_slot(&mut self, e: u64, t: u128, i: usize, s: Scalar)
        requires
            old(self).comps().contains_key((e, t)),
            i < old(self).comps()[(e, t)].len(),
        ensures
            final(self).comps() == old(self).comps().insert((e, t), old(self).comps()[(e, t)].update(i as int, s)),
            final(self).res() == old(self).res(),
            final(self).token() == old(self).token(),
            final(self).next_entity() == old(self).next_entity(),
    {
        let mut v = match self.remove_component(e, t) {
            Some(v) => v,
            None => Vec::new(),
        };
        v.set(i, s);
        self.insert_component(e, t, v);
        assert(self.comps() =~= old(self).comps().insert((e, t), old(self).comps()[(e, t)].update(i as int, s)));
    }

    /// Overwrites slot `i` of the resource of type `t`.
    pub fn set_resource_slot(&mut self, t: u128, i: usize, s: Scalar)
        requires
            old(self).res().contains_key(t),
            i < old(self).res()[t].len(),
        ensures
            final(self).res() == old(self).res().insert(t, old(self).res()[t].update(i as int, s)),
            final(self).comps() == old(self).comps(),
            final(self).token() == old(self).token(),
            final(self).next_entity() == old(self).next_entity(),
    {
        let mut v = match self.remove_resource(t) {
            Some(v) => v,
            None => Vec::new(),
        };
        v.set(i, s);
        self.insert_resource(t, v);
        assert(self.res() =~= old(self).res().insert(t, old(self).res()[t].update(i as int, s)));
    }

    /// Whether a resource of type `t` is present.
    pub fn has_resource(&self, t: u128) -> (r: bool)
        ensures
            r == self.res().contains_key(t),
    {
        self.resources.contains_key(&t)
    }

    /// The resource of type `t`, if present.
    pub fn get_resource(&self, t: u128) -> (r: Option<&Vec<Scalar>>)
        ensures
            r.is_some() == self.res().contains_key(t),
            r.is_some() ==> r.unwrap()@ == self.res()[t],
    {
        self.resources.get(&t)
    }

    /// Inserts (or replaces) the resource of type `t`.
    pub fn insert_resource(&mut self, t: u128, v: Vec<Scalar>)
        ensures
            final(self).res() == old(self).res().insert(t, v@),
            final(self).comps() == old(self).comps(),
            final(self).token() == old(self).token(),
            final(self).next_entity() == old(self).next_entity(),
    {
        let ghost v_view = v@;
        self.resources.insert(t, v);
        assert(self.res() =~= old(self).res().insert(t, v_view));
    }

    /// Removes the resource of type `t` and hands it back.
    pub fn remove_resource(&mut self, t: u128) -> (r: Option<Vec<Scalar>>)
        ensures
            r.is_some() == old(self).res().contains_key(t),
            r.is_some() ==> r.unwrap()@ == old(self).res()[t],
            final(self).res() == old(self).res().remove(t),
            final(self).comps() == old(self).comps(),
            final(self).token() == old(self).token(),
            final(self).next_entity() == old(self).next_entity(),
    {
        let r = self.resources.remove(&t);
        assert(self.res() =~= old(self).res().remove(t));
        r
    }
}

} // verus!
