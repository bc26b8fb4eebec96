use vstd::prelude::*;

verus! {

/// The table of liveness flags of a session.
///
/// Slot `i` holds the flag of the `i`-th token ever created. A flag starts
/// alive and can only ever be switched to dead, and slots are never reused,
/// so an observer that once saw a dead flag sees it dead forever after.
pub struct LivenessTable {
    flags: Vec<bool>,
}

/// The strong owner of one liveness flag.
///
/// It is neither `Clone` nor `Copy`: the store that holds it is the only
/// owner, and releasing it marks the flag dead.
pub struct BevyHealthCheckPtr {
    id: usize,
}

/// A weak observer of one liveness flag. Any number of them may exist.
#[derive(Clone, Copy, Debug, PartialEq, Eq, Structural)]
pub struct AliveObserver {
    id: usize,
}

impl BevyHealthCheckPtr {
    /// Creates a new live flag in `table` and hands back its only strong
    /// owner.
    pub fn new(table: &mut LivenessTable) -> (r: Self)
        requires
            old(table)@.len() < usize::MAX,
        ensures
            final(table)@ == old(table)@.push(true),
            r.id() == old(table)@.len(),
            old(table).evolves_to(&*final(table)),
    {
        let id = table.flags.len();
        table.flags.push(true);
        BevyHealthCheckPtr { id }
    }

    /// The slot of the flag that this token owns.
    pub closed spec fn id(&self) -> int {
        self.id as int
    }

    /// A new weak observer of this token's flag.
    pub fn downgrade(&self) -> (r: AliveObserver)
        ensures
            r.id() == self.id(),
    {
        AliveObserver { id: self.id }
    }
}

impl AliveObserver {
    /// The slot of the flag that this observer watches.
    pub closed spec fn id(&self) -> int {
        self.id as int
    }
}

impl LivenessTable {
    /// The flag of each token ever created, by slot.
    pub closed spec fn view(&self) -> Seq<bool> {
        self.flags@
    }

    /// Whether the flag that `w` observes is alive in this table.
    pub open spec fn is_alive(&self, w: AliveObserver) -> bool {
        0 <= w.id() < self@.len() && self@[w.id()]
    }

    /// `later` is a state that this table can reach: no slot disappears and
    /// no dead flag comes back to life.
    pub open spec fn evolves_to(&self, later: &LivenessTable) -> bool {
        &&& self@.len() <= later@.len()
        &&& forall|i: int| 0 <= i < self@.len() && !#[trigger] self@[i] ==> !later@[i]
    }

    pub fn new() -> (r: Self)
        ensures
            r@ == Seq::<bool>::empty(),
    {
        LivenessTable { flags: Vec::new() }
    }

    /// Whether the strong owner of the observed flag still exists.
    pub fn upgrade(&self, w: &AliveObserver) -> (r: bool)
        ensures
            r == self.is_alive(*w),
    {
        w.id < self.flags.len() && self.flags[w.id]
    }

    /// Drops the strong owner: its flag is dead from now on.
    pub fn release(&mut self, token: BevyHealthCheckPtr)
        ensures
            0 <= token.id() < old(self)@.len() ==> final(self)@ == old(self)@.update(token.id(), false),
            !(0 <= token.id() < old(self)@.len()) ==> final(self)@ == old(self)@,
            old(self).evolves_to(&*final(self)),
    {
        if token.id < self.flags.len() {
            self.flags.set(token.id, false);
        }
    }
}

/// Reaching a later state of a liveness table is transitive.
pub proof fn lemma_evolves_to_transitive(a: &LivenessTable, b: &LivenessTable, c: &LivenessTable)
    requires
        a.evolves_to(b),
        b.evolves_to(c),
    ensures
        a.evolves_to(c),
{
}

} // verus!
