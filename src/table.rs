use vstd::prelude::*;
use crate::counting::{Resource, Kind, kind_of};

verus! {

/// Largest handle the table can hand out.
pub const MAX_HANDLE: u32 = 0xffff_fffe;

/// Why a table operation did not go through.
#[derive(PartialEq, Eq, Structural, Clone, Copy, Debug)]
pub enum TableError {
    /// The handle was never issued, was deleted, or names a value of another kind.
    InvalidHandle,
    /// Every handle has been issued once already.
    Exhausted,
}

/// Owns every host-side value a guest refers to, keyed by an opaque integer handle.
///
/// Handle `h` is slot `h`; a slot is filled once and, once emptied, never filled again,
/// so a handle is never reused for another value.
pub struct ResourceTable {
    slots: Vec<Option<Resource>>,
}

impl View for ResourceTable {
    type V = Seq<Option<Resource>>;

    closed spec fn view(&self) -> Seq<Option<Resource>> {
        self.slots@
    }
}

impl ResourceTable {
    /// `h` has been issued and not deleted since.
    pub open spec fn live(&self, h: u32) -> bool {
        (h as int) < self@.len() && self@[h as int] is Some
    }

    /// `h` was returned by some `push` on this table.
    pub open spec fn issued(&self, h: u32) -> bool {
        (h as int) < self@.len()
    }

    /// `later` can follow from `self` by table operations: no slot is lost, and an
    /// emptied slot stays empty.
    pub open spec fn evolves(&self, later: &ResourceTable) -> bool {
        &&& self@.len() <= later@.len()
        &&& forall|i: int| 0 <= i < self@.len() && self@[i] is None ==> later@[i] is None
    }

    pub open spec fn entry(&self, h: u32) -> Resource {
        self@[h as int].unwrap()
    }

    /// `h` resolves to a value of kind `k`.
    pub open spec fn holds(&self, h: u32, k: Kind) -> bool {
        self.live(h) && kind_of(self.entry(h)) == k
    }

    pub fn new() -> (r: ResourceTable)
        ensures
            r@ == Seq::<Option<Resource>>::empty(),
    {
        ResourceTable { slots: Vec::new() }
    }

    /// Number of handles issued so far; the next `push` returns this value.
    pub fn issued_count(&self) -> (r: usize)
        ensures
            r == self@.len(),
    {
        self.slots.len()
    }

    /// Stores `v` under a handle never issued before.
    pub fn push(&mut self, v: Resource) -> (r: Result<u32, TableError>)
        ensures
            match r {
                Ok(h) => {
                    &&& old(self)@.len() <= MAX_HANDLE as int
                    &&& h as int == old(self)@.len()
                    &&& final(self)@ == old(self)@.push(Some(v))
                    &&& old(self).evolves(final(self))
                },
                Err(e) => {
                    &&& e == TableError::Exhausted
                    &&& old(self)@.len() > MAX_HANDLE as int
                    &&& final(self)@ == old(self)@
                },
            },
    {
        let n = self.slots.len();
        if n > MAX_HANDLE as usize {
            return Err(TableError::Exhausted);
        }
        self.slots.push(Some(v));
        Ok(n as u32)
    }

    /// Borrows the value under `h`, provided it is of kind `k`.
    pub fn get(&self, h: u32, k: Kind) -> (r: Result<&Resource, TableError>)
        ensures
            match r {
                Ok(v) => self.holds(h, k) && *v == self.entry(h),
                Err(e) => !self.holds(h, k) && e == TableError::InvalidHandle,
            },
    {
        let i = h as usize;
        if i >= self.slots.len() {
            return Err(TableError::InvalidHandle);
        }
        match &self.slots[i] {
            Some(v) => {
                if v.kind() == k {
                    Ok(v)
                } else {
                    Err(TableError::InvalidHandle)
                }
            },
            None => Err(TableError::InvalidHandle),
        }
    }

    /// Checks that `h` resolves to a value of kind `k`.
    pub fn check(&self, h: u32, k: Kind) -> (r: Result<(), TableError>)
        ensures
            r is Ok <==> self.holds(h, k),
            r is Err ==> r == Err::<(), TableError>(TableError::InvalidHandle),
    {
        match self.get(h, k) {
            Ok(_) => Ok(()),
            Err(e) => Err(e),
        }
    }

    /// Puts `v` in place of the live value under `h`, which keeps its handle.
    pub fn replace(&mut self, h: u32, v: Resource)
        requires
            old(self).live(h),
        ensures
            final(self)@ == old(self)@.update(h as int, Some(v)),
            old(self).evolves(final(self)),
    {
        self.slots.set(h as usize, Some(v));
    }

    /// Moves the value under `h` out of the table; `h` is dead from then on.
    pub fn delete(&mut self, h: u32, k: Kind) -> (r: Result<Resource, TableError>)
        ensures
            match r {
                Ok(v) => {
                    &&& old(self).holds(h, k)
                    &&& v == old(self).entry(h)
                    &&& final(self)@ == old(self)@.update(h as int, None)
                    &&& old(self).evolves(final(self))
                },
                Err(e) => {
                    &&& !old(self).holds(h, k)
                    &&& e == TableError::InvalidHandle
                    &&& final(self)@ == old(self)@
                },
            },
    {
        match self.check(h, k) {
            Err(e) => Err(e),
            Ok(()) => {
                let i = h as usize;
                self.slots.push(None);
                let taken = self.slots.swap_remove(i);
                proof {
                    assert(self.slots@ =~= old(self)@.update(h as int, None));
                }
                match taken {
                    Some(v) => Ok(v),
                    None => Err(TableError::InvalidHandle),
                }
            },
        }
    }
}

/// A handle that no `push` returned resolves to nothing, whatever kind is asked for.
pub proof fn lemma_unissued_handle_invalid(t: &ResourceTable, h: u32, k: Kind)
    requires
        !t.issued(h),
    ensures
        !t.holds(h, k),
{
}

/// Once `h` has been deleted, it resolves to nothing in any table that follows,
/// whatever kind is asked for.
pub proof fn lemma_deleted_handle_stays_invalid(
    t: &ResourceTable,
    later: &ResourceTable,
    h: u32,
    k: Kind,
)
    requires
        t.issued(h),
        !t.live(h),
        t.evolves(later),
    ensures
        !later.holds(h, k),
{
}

/// Table evolution composes: a run of operations is again an evolution.
pub proof fn lemma_evolves_trans(a: &ResourceTable, b: &ResourceTable, c: &ResourceTable)
    requires
        a.evolves(b),
        b.evolves(c),
    ensures
        a.evolves(c),
{
}

/// A handle returned by `push` differs from every handle issued before it,
/// live or deleted.
pub proof fn lemma_pushed_handle_fresh(t: &ResourceTable, later: &ResourceTable, h: u32, v: Resource)
    requires
        h as int == t@.len(),
        later@ == t@.push(Some(v)),
    ensures
        forall|g: u32| t.issued(g) ==> g != h,
        later.holds(h, kind_of(v)),
        forall|g: u32| g != h ==> (later.live(g) <==> t.live(g)),
{
}

} // verus!
