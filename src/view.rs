use vstd::prelude::*;
use crate::world::{kind_of, Scalar};
use crate::world_ref::{RefError, UnsafeWorldRef, WorldHost};

verus! {

/// What a view points at in its store.
#[derive(Clone, Copy, Debug, PartialEq, Eq, Structural)]
pub enum RefTarget {
    /// The resource of the view's type.
    Resource,
    /// The component of the view's type on this entity.
    Component(u64),
}

/// A view proxy: a handle, a key into the store and the range of slots
/// (`offset`, `len`) of the value that the view exposes.
///
/// A view holds no copy of the data: every access checks liveness again and
/// finds the value again through the handle. A nested struct field is a view
/// of its own, with the same handle and key and a larger offset.
#[derive(Clone, Copy, Debug)]
pub struct BevyRef {
    world: UnsafeWorldRef,
    target: RefTarget,
    type_hash: u128,
    offset: usize,
    len: usize,
}

impl BevyRef {
    /// The exposed range of slots has an end that a `usize` can hold.
    #[verifier::type_invariant]
    spec fn inv(&self) -> bool {
        self.offset + self.len <= usize::MAX
    }

    pub closed spec fn handle(&self) -> UnsafeWorldRef {
        self.world
    }

    pub closed spec fn target(&self) -> RefTarget {
        self.target
    }

    pub closed spec fn type_hash(&self) -> u128 {
        self.type_hash
    }

    pub closed spec fn offset(&self) -> nat {
        self.offset as nat
    }

    pub closed spec fn len(&self) -> nat {
        self.len as nat
    }

    /// The whole stored value that the view's key designates.
    pub open spec fn lookup(&self, host: &WorldHost) -> Result<Seq<Scalar>, RefError> {
        if !self.handle().is_live(host) {
            Err(RefError::StaleReference)
        } else {
            match self.target() {
                RefTarget::Resource => {
                    if self.handle().world(host).res().contains_key(self.type_hash()) {
                        Ok(self.handle().world(host).res()[self.type_hash()])
                    } else {
                        Err(RefError::MissingData)
                    }
                },
                RefTarget::Component(e) => {
                    if self.handle().world(host).comps().contains_key((e, self.type_hash())) {
                        Ok(self.handle().world(host).comps()[(e, self.type_hash())])
                    } else {
                        Err(RefError::MissingData)
                    }
                },
            }
        }
    }

    /// What reading field `i` of the view gives.
    pub open spec fn field_spec(&self, host: &WorldHost, i: int) -> Result<Scalar, RefError> {
        match self.lookup(host) {
            Err(err) => Err(err),
            Ok(v) => if 0 <= i < self.len() && self.offset() + i < v.len() {
                Ok(v[self.offset() + i])
            } else {
                Err(RefError::WrongShape)
            },
        }
    }

    /// What reading every field of the view gives.
    pub open spec fn read_all_spec(&self, host: &WorldHost) -> Result<Seq<Scalar>, RefError> {
        match self.lookup(host) {
            Err(err) => Err(err),
            Ok(v) => if self.offset() + self.len() <= v.len() {
                Ok(v.subrange(self.offset() as int, (self.offset() + self.len()) as int))
            } else {
                Err(RefError::WrongShape)
            },
        }
    }

    /// A view of the whole value of type `type_hash` at `target`, which has
    /// `len` slots.
    pub fn new(world: UnsafeWorldRef, target: RefTarget, type_hash: u128, len: usize) -> (r: Self)
        ensures
            r.handle() == world,
            r.target() == target,
            r.type_hash() == type_hash,
            r.offset() == 0,
            r.len() == len,
    {
        BevyRef { world, target, type_hash, offset: 0, len }
    }

    /// The handle through which the view reaches the store.
    pub fn world_ref(&self) -> (r: UnsafeWorldRef)
        ensures
            r == self.handle(),
    {
        self.world
    }

    /// The number of fields that the view exposes.
    pub fn field_count(&self) -> (r: usize)
        ensures
            r == self.len(),
    {
        self.len
    }

    /// The view of the nested struct that occupies `len` slots of this view
    /// from slot `offset` on; `None` when that range leaves this view.
    pub fn nested(&self, offset: usize, len: usize) -> (r: Option<BevyRef>)
        ensures
            r is Some == (offset + len <= self.len()),
            r is Some ==> r->Some_0.handle() == self.handle() && r->Some_0.target() == self.target()
                && r->Some_0.type_hash() == self.type_hash() && r->Some_0.offset() == self.offset() + offset
                && r->Some_0.len() == len,
    {
        proof {
            use_type_invariant(self);
        }
        if offset > self.len || len > self.len - offset {
            return None;
        }
        match self.offset.checked_add(offset) {
            Some(start) => Some(BevyRef { world: self.world, target: self.target, type_hash: self.type_hash, offset: start, len }),
            None => None,
        }
    }

    /// The stored value, found again through the handle.
    fn resolve<'a>(&self, host: &'a WorldHost) -> (r: Result<&'a Vec<Scalar>, RefError>)
        ensures
            r is Ok == self.lookup(host) is Ok,
            r is Ok ==> r->Ok_0@ == self.lookup(host)->Ok_0,
            r is Err ==> r->Err_0 == self.lookup(host)->Err_0,
    {
        match self.target {
            RefTarget::Resource => self.world.get_res(host, self.type_hash),
            RefTarget::Component(e) => self.world.get_comp(host, e, self.type_hash),
        }
    }

    /// Reads field `i` of the view.
    pub fn get_field(&self, host: &WorldHost, i: usize) -> (r: Result<Scalar, RefError>)
        ensures
            r == self.field_spec(host, i as int),
    {
        proof {
            use_type_invariant(self);
        }
        let v = self.resolve(host)?;
        if i >= self.len {
            return Err(RefError::WrongShape);
        }
        match self.offset.checked_add(i) {
            Some(pos) => if pos < v.len() {
                Ok(v[pos])
            } else {
                Err(RefError::WrongShape)
            },
            None => Err(RefError::WrongShape),
        }
    }

    /// Reads every field of the view, in order.
    pub fn read_all(&self, host: &WorldHost) -> (r: Result<Vec<Scalar>, RefError>)
        ensures
            r is Ok == self.read_all_spec(host) is Ok,
            r is Ok ==> r->Ok_0@ == self.read_all_spec(host)->Ok_0,
            r is Err ==> r->Err_0 == self.read_all_spec(host)->Err_0,
    {
        proof {
            use_type_invariant(self);
        }
        let v = self.resolve(host)?;
        if self.offset > v.len() || self.len > v.len() - self.offset {
            return Err(RefError::WrongShape);
        }
        let mut out: Vec<Scalar> = Vec::new();
        let mut k: usize = 0;
        while k < self.len
            invariant
                k <= self.len,
                self.offset + self.len <= v@.len(),
                self.offset + self.len <= usize::MAX,
                out@ == v@.subrange(self.offset as int, self.offset + k),
            decreases self.len - k,
        {
            out.push(v[self.offset + k]);
            k = k + 1;
            assert(out@ =~= v@.subrange(self.offset as int, self.offset + k));
        }
        Ok(out)
    }

    /// Writes field `i` of the view with a value of the field's kind.
    pub fn set_field(&self, host: &mut WorldHost, i: usize, s: Scalar) -> (r: Result<(), RefError>)
        requires
            old(host).wf(),
        ensures
            final(host).wf(),
            old(host).evolves_to(&*final(host)),
            r is Err ==> old(host).unchanged(final(host)),
            self.field_spec(old(host), i as int) is Err ==> r is Err
                && r->Err_0 == self.field_spec(old(host), i as int)->Err_0,
            self.field_spec(old(host), i as int) is Ok
                && kind_of(self.field_spec(old(host), i as int)->Ok_0) != kind_of(s)
                ==> r == Err::<(), RefError>(RefError::WrongShape),
            self.field_spec(old(host), i as int) is Ok
                && kind_of(self.field_spec(old(host), i as int)->Ok_0) == kind_of(s) ==> r is Ok
                && self.field_spec(final(host), i as int) == Ok::<Scalar, RefError>(s)
                && old(host).same_but_slot(final(host), self.handle().slot()),
    {
        proof {
            use_type_invariant(self);
        }
        if i >= self.len {
            let _ = self.resolve(host)?;
            return Err(RefError::WrongShape);
        }
        let pos = match self.offset.checked_add(i) {
            Some(pos) => pos,
            None => {
                let _ = self.resolve(host)?;
                return Err(RefError::WrongShape);
            },
        };
        match self.target {
            RefTarget::Resource => self.world.set_res_slot(host, self.type_hash, pos, s),
            RefTarget::Component(e) => self.world.set_comp_slot(host, e, self.type_hash, pos, s),
        }
    }
}

} // verus!
