use vstd::prelude::*;
use crate::liveness::{AliveObserver, BevyHealthCheckPtr, LivenessTable};
use crate::world::{kind_of, Scalar, World};

verus! {

/// Why an access through a handle failed.
#[derive(Clone, Copy, Debug, PartialEq, Eq, Structural)]
pub enum RefError {
    /// The store that the handle refers to has been destroyed.
    StaleReference,
    /// The store is alive but lacks the requested component or resource.
    MissingData,
    /// The type identifier is not registered.
    UnknownType,
    /// A value does not fit the layout of its type.
    WrongShape,
}

/// The owner of every store of a session, and of their liveness flags.
///
/// A store lives in a slot that is never reused: destroying it empties the
/// slot and marks its flag dead.
pub struct WorldHost {
    liveness: LivenessTable,
    worlds: Vec<Option<World>>,
}

/// A copyable handle on one store: the slot where it lives and a weak
/// observer of its liveness flag. It owns nothing.
#[derive(Clone, Copy, Debug)]
pub struct UnsafeWorldRef {
    world_ptr: usize,
    world_alive_ptr: AliveObserver,
}

/// A removal's result with the value seen through its view.
pub open spec fn removal_view(r: Result<Option<Vec<Scalar>>, RefError>) -> Result<Option<Seq<Scalar>>, RefError> {
    match r {
        Ok(Some(v)) => Ok(Some(v@)),
        Ok(None) => Ok(None),
        Err(err) => Err(err),
    }
}

impl WorldHost {
    /// The liveness flags of every store ever created here.
    pub closed spec fn liveness(&self) -> LivenessTable {
        self.liveness
    }

    /// The slots, each holding its store until that store is destroyed.
    pub closed spec fn worlds(&self) -> Seq<Option<World>> {
        self.worlds@
    }

    /// Each slot holds a store exactly while its flag is alive, and the
    /// store in slot `i` owns flag `i`.
    pub closed spec fn wf(&self) -> bool {
        &&& self.worlds@.len() == self.liveness@.len()
        &&& forall|i: int|
            0 <= i < self.worlds@.len() ==> {
                &&& (#[trigger] self.worlds@[i] is Some <==> self.liveness@[i])
                &&& (self.worlds@[i] is Some ==> self.worlds@[i].unwrap().token() == i)
            }
    }

    /// `later` is a state that this host can reach.
    pub open spec fn evolves_to(&self, later: &WorldHost) -> bool {
        self.liveness().evolves_to(&later.liveness())
    }

    /// `later` differs from this host at most in the store of `slot`, which
    /// keeps its flag and its entity counter.
    pub open spec fn same_but_slot(&self, later: &WorldHost, slot: int) -> bool {
        &&& later.liveness() == self.liveness()
        &&& later.worlds().len() == self.worlds().len()
        &&& later.worlds()[slot] is Some
        &&& later.worlds()[slot].unwrap().token() == self.worlds()[slot].unwrap().token()
        &&& later.worlds()[slot].unwrap().next_entity() == self.worlds()[slot].unwrap().next_entity()
        &&& forall|i: int|
            0 <= i < self.worlds().len() && i != slot ==> #[trigger] later.worlds()[i]
                == self.worlds()[i]
    }

    /// In a well-formed host a slot holds a store exactly while its flag is
    /// alive.
    pub proof fn lemma_slot_flag(&self, slot: int)
        requires
            self.wf(),
        ensures
            self.worlds().len() == self.liveness()@.len(),
            0 <= slot < self.worlds().len() ==> (self.worlds()[slot] is Some <==> self.liveness()@[slot]),
    {
    }

    /// Nothing in `later` differs from this host.
    pub open spec fn unchanged(&self, later: &WorldHost) -> bool {
        later.worlds() == self.worlds() && later.liveness() == self.liveness()
    }

    pub fn new() -> (r: Self)
        ensures
            r.wf(),
            r.worlds().len() == 0,
    {
        WorldHost { liveness: LivenessTable::new(), worlds: Vec::new() }
    }

    /// The number of slots, live or not.
    pub fn world_count(&self) -> (r: usize)
        ensures
            r == self.worlds().len(),
    {
        self.worlds.len()
    }

    /// Whether the flag that `w` observes is still alive.
    pub fn upgrade(&self, w: &AliveObserver) -> (r: bool)
        ensures
            r == self.liveness().is_alive(*w),
    {
        self.liveness.upgrade(w)
    }

    /// Creates an empty store, with a live flag of its own, in a new slot.
    pub fn create_world(&mut self) -> (r: usize)
        requires
            old(self).wf(),
            old(self).worlds().len() < usize::MAX,
        ensures
            final(self).wf(),
            r == old(self).worlds().len(),
            final(self).worlds().len() == old(self).worlds().len() + 1,
            forall|i: int|
                0 <= i < old(self).worlds().len() ==> #[trigger] final(self).worlds()[i]
                    == old(self).worlds()[i],
            final(self).worlds()[r as int] is Some,
            final(self).worlds()[r as int].unwrap().comps().is_empty(),
            final(self).worlds()[r as int].unwrap().res().is_empty(),
            final(self).worlds()[r as int].unwrap().next_entity() == 0,
            final(self).liveness()@ == old(self).liveness()@.push(true),
            old(self).evolves_to(&*final(self)),
    {
        let token = BevyHealthCheckPtr::new(&mut self.liveness);
        let slot = self.worlds.len();
        self.worlds.push(Some(World::new(token)));
        assert(self.worlds@[slot as int] is Some);
        slot
    }

    /// Destroys the store of `slot`, if it still exists: its data is gone
    /// and every handle on it is stale from now on.
    pub fn destroy_world(&mut self, slot: usize)
        requires
            old(self).wf(),
        ensures
            final(self).wf(),
            final(self).worlds().len() == old(self).worlds().len(),
            slot < old(self).worlds().len() ==> final(self).worlds()[slot as int] is None,
            forall|i: int|
                0 <= i < old(self).worlds().len() && i != slot ==> #[trigger] final(self).worlds()[i]
                    == old(self).worlds()[i],
            slot < old(self).worlds().len() ==> final(self).liveness()@ == old(self).liveness()@.update(slot as int, false),
            slot >= old(self).worlds().len() ==> final(self).liveness()@ == old(self).liveness()@,
            old(self).evolves_to(&*final(self)),
    {
        if slot < self.worlds.len() {
            let taken = self.worlds[slot].take();
            match taken {
                Some(w) => {
                    let token = w.into_health();
                    self.liveness.release(token);
                },
                None => {},
            }
        }
    }

    /// Hands out a fresh entity of the store in `slot`, if that store exists
    /// and has ids left.
    pub fn spawn(&mut self, slot: usize) -> (r: Option<u64>)
        requires
            old(self).wf(),
        ensures
            final(self).wf(),
            r.is_some() <==> slot < old(self).worlds().len() && old(self).worlds()[slot as int] is Some
                && old(self).worlds()[slot as int].unwrap().next_entity() < u64::MAX,
            r.is_some() ==> r.unwrap() == old(self).worlds()[slot as int].unwrap().next_entity()
                && final(self).worlds()[slot as int] is Some
                && final(self).worlds()[slot as int].unwrap().next_entity() == r.unwrap() + 1
                && final(self).worlds()[slot as int].unwrap().comps() == old(self).worlds()[slot as int].unwrap().comps()
                && final(self).worlds()[slot as int].unwrap().res() == old(self).worlds()[slot as int].unwrap().res(),
            r.is_some() ==> final(self).liveness() == old(self).liveness() && final(self).worlds().len() == old(self).worlds().len()
                && forall|i: int| 0 <= i < old(self).worlds().len() && i != slot ==> #[trigger] final(self).worlds()[i] == old(self).worlds()[i],
            r.is_none() ==> final(self).worlds() == old(self).worlds() && final(self).liveness() == old(self).liveness(),
    {
        if slot >= self.worlds.len() {
            return None;
        }
        let r = match &mut self.worlds[slot] {
            Some(w) => w.spawn(),
            None => None,
        };
        r
    }
}

impl UnsafeWorldRef {
    /// The slot of the store that this handle refers to.
    pub closed spec fn slot(&self) -> int {
        self.world_ptr as int
    }

    /// The observer of the liveness flag of that store.
    pub closed spec fn observer(&self) -> AliveObserver {
        self.world_alive_ptr
    }

    /// The handle's store still exists in `host`.
    pub open spec fn is_live(&self, host: &WorldHost) -> bool {
        &&& host.liveness().is_alive(self.observer())
        &&& 0 <= self.slot() < host.worlds().len()
        &&& host.worlds()[self.slot()] is Some
    }

    /// The store that the handle refers to, while it is live.
    pub open spec fn world(&self, host: &WorldHost) -> World {
        host.worlds()[self.slot()].unwrap()
    }

    /// The handle was derived from a store of `host`: it observes the flag
    /// of its own slot, and that flag exists there, alive or dead.
    pub open spec fn belongs_to(&self, host: &WorldHost) -> bool {
        &&& self.observer().id() == self.slot()
        &&& 0 <= self.slot() < host.liveness()@.len()
    }

    /// `after` is `before` with the component of type `t` on entity `e` set
    /// to `v` in the handle's store, and nothing else changed.
    pub open spec fn comp_inserted(&self, before: &WorldHost, after: &WorldHost, e: u64, t: u128, v: Seq<Scalar>) -> bool {
        &&& before.same_but_slot(after, self.slot())
        &&& self.world(after).comps() == self.world(before).comps().insert((e, t), v)
        &&& self.world(after).res() == self.world(before).res()
    }

    /// `after` is `before` without the component of type `t` on entity `e`
    /// in the handle's store, and nothing else changed.
    pub open spec fn comp_removed(&self, before: &WorldHost, after: &WorldHost, e: u64, t: u128) -> bool {
        &&& before.same_but_slot(after, self.slot())
        &&& self.world(after).comps() == self.world(before).comps().remove((e, t))
        &&& self.world(after).res() == self.world(before).res()
    }

    /// `after` is `before` with the resource of type `t` set to `v` in the
    /// handle's store, and nothing else changed.
    pub open spec fn res_inserted(&self, before: &WorldHost, after: &WorldHost, t: u128, v: Seq<Scalar>) -> bool {
        &&& before.same_but_slot(after, self.slot())
        &&& self.world(after).res() == self.world(before).res().insert(t, v)
        &&& self.world(after).comps() == self.world(before).comps()
    }

    /// What removing the component of type `t` from entity `e` hands back.
    pub open spec fn comp_removal(&self, host: &WorldHost, e: u64, t: u128) -> Result<Option<Seq<Scalar>>, RefError> {
        if !self.is_live(host) {
            Err(RefError::StaleReference)
        } else if self.world(host).comps().contains_key((e, t)) {
            Ok(Some(self.world(host).comps()[(e, t)]))
        } else {
            Ok(None)
        }
    }

    /// A handle on the store of `slot`, if that store exists.
    pub fn new(host: &WorldHost, slot: usize) -> (r: Option<Self>)
        requires
            host.wf(),
        ensures
            r.is_some() == (slot < host.worlds().len() && host.worlds()[slot as int] is Some),
            r.is_some() ==> r.unwrap().slot() == slot && r.unwrap().observer().id() == slot
                && r.unwrap().is_live(host) && r.unwrap().belongs_to(host),
    {
        if slot >= host.worlds.len() {
            return None;
        }
        match &host.worlds[slot] {
            Some(w) => Some(UnsafeWorldRef { world_ptr: slot, world_alive_ptr: w.alive_observer() }),
            None => None,
        }
    }

    /// The observer of the store's liveness flag.
    pub fn get_world_alive_ptr(&self) -> (r: AliveObserver)
        ensures
            r == self.observer(),
    {
        self.world_alive_ptr
    }

    /// Tests liveness: the flag upgrades and the slot still holds a store.
    fn check_live(&self, host: &WorldHost) -> (r: bool)
        ensures
            r == self.is_live(host),
    {
        host.liveness.upgrade(&self.world_alive_ptr) && self.world_ptr < host.worlds.len()
            && host.worlds[self.world_ptr].is_some()
    }

    /// The store, if it is still alive; the one gate before any access.
    pub fn map_to_world<'a>(&self, host: &'a WorldHost) -> (r: Result<&'a World, RefError>)
        ensures
            r is Ok == self.is_live(host),
            r is Ok ==> *r->Ok_0 == self.world(host),
            r is Err ==> r->Err_0 == RefError::StaleReference,
    {
        if !self.check_live(host) {
            return Err(RefError::StaleReference);
        }
        match &host.worlds[self.world_ptr] {
            Some(w) => Ok(w),
            None => Err(RefError::StaleReference),
        }
    }

    /// The component of type `t` on entity `e`.
    pub fn get_comp<'a>(&self, host: &'a WorldHost, e: u64, t: u128) -> (r: Result<&'a Vec<Scalar>, RefError>)
        ensures
            r is Ok == (self.is_live(host) && self.world(host).comps().contains_key((e, t))),
            r is Ok ==> r->Ok_0@ == self.world(host).comps()[(e, t)],
            r is Err ==> r->Err_0 == (if self.is_live(host) { RefError::MissingData } else { RefError::StaleReference }),
    {
        let w = self.map_to_world(host)?;
        match w.get_component(e, t) {
            Some(v) => Ok(v),
            None => Err(RefError::MissingData),
        }
    }

    /// Whether entity `e` has a component of type `t`.
    pub fn entity_has_comp(&self, host: &WorldHost, e: u64, t: u128) -> (r: Result<bool, RefError>)
        ensures
            r == (if self.is_live(host) {
                Ok::<bool, RefError>(self.world(host).comps().contains_key((e, t)))
            } else {
                Err::<bool, RefError>(RefError::StaleReference)
            }),
    {
        let w = self.map_to_world(host)?;
        Ok(w.has_component(e, t))
    }

    /// The resource of type `t`.
    pub fn get_res<'a>(&self, host: &'a WorldHost, t: u128) -> (r: Result<&'a Vec<Scalar>, RefError>)
        ensures
            r is Ok == (self.is_live(host) && self.world(host).res().contains_key(t)),
            r is Ok ==> r->Ok_0@ == self.world(host).res()[t],
            r is Err ==> r->Err_0 == (if self.is_live(host) { RefError::MissingData } else { RefError::StaleReference }),
    {
        let w = self.map_to_world(host)?;
        match w.get_resource(t) {
            Some(v) => Ok(v),
            None => Err(RefError::MissingData),
        }
    }
}

impl UnsafeWorldRef {
    /// Inserts (or replaces) the component of type `t` on entity `e`.
    pub fn insert_comp(&self, host: &mut WorldHost, e: u64, t: u128, v: Vec<Scalar>) -> (r: Result<(), RefError>)
        requires
            old(host).wf(),
        ensures
            final(host).wf(),
            old(host).evolves_to(&*final(host)),
            r == (if self.is_live(old(host)) {
                Ok::<(), RefError>(())
            } else {
                Err(RefError::StaleReference)
            }),
            r is Err ==> old(host).unchanged(final(host)),
            r is Ok ==> self.comp_inserted(old(host), final(host), e, t, v@),
    {
        if !self.check_live(host) {
            return Err(RefError::StaleReference);
        }
        match &mut host.worlds[self.world_ptr] {
            Some(w) => {
                w.insert_component(e, t, v);
                Ok(())
            },
            None => Err(RefError::StaleReference),
        }
    }

    /// Removes the component of type `t` from entity `e` and hands it back;
    /// `Ok(None)` when the entity had none.
    pub fn remove_comp(&self, host: &mut WorldHost, e: u64, t: u128) -> (r: Result<Option<Vec<Scalar>>, RefError>)
        requires
            old(host).wf(),
        ensures
            final(host).wf(),
            old(host).evolves_to(&*final(host)),
            removal_view(r) == self.comp_removal(old(host), e, t),
            r is Err ==> old(host).unchanged(final(host)),
            r is Ok ==> self.comp_removed(old(host), final(host), e, t),
    {
        if !self.check_live(host) {
            return Err(RefError::StaleReference);
        }
        match &mut host.worlds[self.world_ptr] {
            Some(w) => Ok(w.remove_component(e, t)),
            None => Err(RefError::StaleReference),
        }
    }

    /// Inserts (or replaces) the resource of type `t`.
    pub fn insert_res(&self, host: &mut WorldHost, t: u128, v: Vec<Scalar>) -> (r: Result<(), RefError>)
        requires
            old(host).wf(),
        ensures
            final(host).wf(),
            old(host).evolves_to(&*final(host)),
            r == (if self.is_live(old(host)) {
                Ok::<(), RefError>(())
            } else {
                Err(RefError::StaleReference)
            }),
            r is Err ==> old(host).unchanged(final(host)),
            r is Ok ==> self.res_inserted(old(host), final(host), t, v@),
    {
        if !self.check_live(host) {
            return Err(RefError::StaleReference);
        }
        match &mut host.worlds[self.world_ptr] {
            Some(w) => {
                w.insert_resource(t, v);
                Ok(())
            },
            None => Err(RefError::StaleReference),
        }
    }

    /// Overwrites slot `i` of the component of type `t` on entity `e` with a
    /// value of the same kind.
    pub fn set_comp_slot(&self, host: &mut WorldHost, e: u64, t: u128, i: usize, s: Scalar) -> (r: Result<(), RefError>)
        requires
            old(host).wf(),
        ensures
            final(host).wf(),
            old(host).evolves_to(&*final(host)),
            r == (if !self.is_live(old(host)) {
                Err(RefError::StaleReference)
            } else if !self.world(old(host)).comps().contains_key((e, t)) {
                Err(RefError::MissingData)
            } else if i >= self.world(old(host)).comps()[(e, t)].len()
                || kind_of(self.world(old(host)).comps()[(e, t)][i as int]) != kind_of(s) {
                Err(RefError::WrongShape)
            } else {
                Ok::<(), RefError>(())
            }),
            r is Err ==> old(host).unchanged(final(host)),
            r is Ok ==> old(host).same_but_slot(final(host), self.slot())
                && self.world(final(host)).comps() == self.world(old(host)).comps().insert(
                    (e, t), self.world(old(host)).comps()[(e, t)].update(i as int, s))
                && self.world(final(host)).res() == self.world(old(host)).res(),
    {
        let current = self.get_comp(host, e, t)?;
        if i >= current.len() || current[i].kind() != s.kind() {
            return Err(RefError::WrongShape);
        }
        match &mut host.worlds[self.world_ptr] {
            Some(w) => {
                w.set_component_slot(e, t, i, s);
                Ok(())
            },
            None => Err(RefError::StaleReference),
        }
    }

    /// Overwrites slot `i` of the resource of type `t` with a value of the
    /// same kind.
    pub fn set_res_slot(&self, host: &mut WorldHost, t: u128, i: usize, s: Scalar) -> (r: Result<(), RefError>)
        requires
            old(host).wf(),
        ensures
            final(host).wf(),
            old(host).evolves_to(&*final(host)),
            r == (if !self.is_live(old(host)) {
                Err(RefError::StaleReference)
            } else if !self.world(old(host)).res().contains_key(t) {
                Err(RefError::MissingData)
            } else if i >= self.world(old(host)).res()[t].len()
                || kind_of(self.world(old(host)).res()[t][i as int]) != kind_of(s) {
                Err(RefError::WrongShape)
            } else {
                Ok::<(), RefError>(())
            }),
            r is Err ==> old(host).unchanged(final(host)),
            r is Ok ==> old(host).same_but_slot(final(host), self.slot())
                && self.world(final(host)).res() == self.world(old(host)).res().insert(
                    t, self.world(old(host)).res()[t].update(i as int, s))
                && self.world(final(host)).comps() == self.world(old(host)).comps(),
    {
        let current = self.get_res(host, t)?;
        if i >= current.len() || current[i].kind() != s.kind() {
            return Err(RefError::WrongShape);
        }
        match &mut host.worlds[self.world_ptr] {
            Some(w) => {
                w.set_resource_slot(t, i, s);
                Ok(())
            },
            None => Err(RefError::StaleReference),
        }
    }
}

} // verus!
