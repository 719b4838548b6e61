//! Table pointers and the static storage they point into.
//!
//! A foreign process keeps one table instance per implementing type, built
//! once and then living, effectively immutable, for the life of the
//! process.  [`TableStore`] stands for that static storage: tables are
//! installed once and addressed by position, and an address, once handed
//! out, stays valid for the store's life.  [`VTablePtr`] is a non-null
//! address of one installed table.  Next to the address it carries a ghost
//! capability recording whether it was created from exclusive access:
//! dereferencing for reading is always allowed on a valid pointer, while
//! writing through one demands the capability, because tables are
//! conventionally shared and mutation invalidates what every other holder
//! assumes.  Equality of pointers is address identity.

use core::marker::PhantomData;

use vstd::prelude::*;

verus! {

/// The static storage that table instances live in.  An installed table is
/// addressed by its position; installation never moves or removes what was
/// installed before, so an address stays valid for the store's life.
#[derive(Debug)]
pub struct TableStore<VTable> {
    tables: Vec<VTable>,
}

impl<VTable> View for TableStore<VTable> {
    type V = Seq<VTable>;

    closed spec fn view(&self) -> Seq<VTable> {
        self.tables@
    }
}

impl<VTable> TableStore<VTable> {
    /// Returns an empty store.
    pub fn new() -> (s: Self)
        ensures
            s@.len() == 0,
    {
        TableStore { tables: Vec::new() }
    }

    /// Installs a table and returns its address.  Every table installed
    /// earlier keeps its address and its value.
    pub fn install(&mut self, table: VTable) -> (address: usize)
        ensures
            final(self)@ == old(self)@.push(table),
            address == old(self)@.len(),
    {
        let address = self.tables.len();
        self.tables.push(table);
        address
    }

    /// Returns the number of installed tables: addresses below it are the
    /// valid ones.
    pub fn len(&self) -> (n: usize)
        ensures
            n == self@.len(),
    {
        self.tables.len()
    }

    /// Returns the table installed at `address`.
    pub fn table_at<'a>(&'a self, address: usize) -> (t: &'a VTable)
        requires
            address < self@.len(),
        ensures
            *t == self@[address as int],
    {
        &self.tables[address]
    }

    fn table_at_mut<'a>(&'a mut self, address: usize) -> (t: &'a mut VTable)
        requires
            address < old(self)@.len(),
        ensures
            *t == old(self)@[address as int],
            final(self)@ == old(self)@.update(address as int, *final(t)),
    {
        &mut self.tables[address]
    }
}

/// A non-null pointer to a table instance installed in a [`TableStore`].
///
/// The pointer performs no validation of its own: that its address names an
/// installed table is asserted by whoever constructs it and demanded again,
/// as a precondition, wherever it is dereferenced.  The `writable`
/// capability is ghost: it leaves no trace in the value, exactly as the
/// distinction between a pointer obtained from shared and from exclusive
/// access leaves no trace in a machine word.
///
/// The pointer adds no synchronization of its own: through its marker field
/// it may cross or be shared between threads exactly when the table type
/// itself may, forwarding that property structurally and establishing
/// nothing beyond it.
pub struct VTablePtr<VTable> {
    /// The address of the table within its store.
    pub index: usize,
    /// Whether this pointer was constructed from exclusive access and may
    /// therefore be written through.
    pub writable: Ghost<bool>,
    /// Marker tying the pointer to the type of table it points to.
    pub table_type: PhantomData<VTable>,
}

/// The table a pointer dereferences to within a store.
pub open spec fn spec_deref<VTable>(p: VTablePtr<VTable>, store: TableStore<VTable>) -> VTable {
    store@[p.index as int]
}

impl<VTable> VTablePtr<VTable> {
    /// Returns a new pointer to the given address.  No validation is
    /// performed: that the address names an installed table is the
    /// caller's assertion, and every dereference demands it again.
    pub fn new(address: usize) -> (p: Self)
        ensures
            p.index == address,
            !p.writable@,
    {
        VTablePtr { index: address, writable: Ghost(false), table_type: PhantomData }
    }

    /// Converts shared access to an installed table into a pointer to it.
    pub fn from_ref(store: &TableStore<VTable>, address: usize) -> (p: Self)
        requires
            address < store@.len(),
        ensures
            p.index == address,
            !p.writable@,
    {
        VTablePtr { index: address, writable: Ghost(false), table_type: PhantomData }
    }

    /// Converts exclusive access to an installed table into a pointer that
    /// carries the capability to write through it.  The store itself is
    /// left unchanged.
    pub fn from_mut(store: &mut TableStore<VTable>, address: usize) -> (p: Self)
        requires
            address < old(store)@.len(),
        ensures
            final(store)@ == old(store)@,
            p.index == address,
            p.writable@,
    {
        VTablePtr { index: address, writable: Ghost(true), table_type: PhantomData }
    }

    /// Consumes this pointer, returning the address it holds.
    pub fn into_ptr(self) -> (address: usize)
        ensures
            address == self.index,
    {
        self.index
    }

    /// Dereferences this pointer to a shared reference to the table it
    /// points to.
    pub fn as_ref<'a>(&self, store: &'a TableStore<VTable>) -> (t: &'a VTable)
        requires
            self.index < store@.len(),
        ensures
            *t == spec_deref(*self, *store),
    {
        store.table_at(self.index)
    }

    /// Dereferences this pointer to an exclusive reference to the table it
    /// points to.  Demands the exclusive capability: tables are
    /// conventionally shared, and mutating one invalidates what every
    /// other holder assumes.
    pub fn as_mut<'a>(&self, store: &'a mut TableStore<VTable>) -> (t: &'a mut VTable)
        requires
            self.writable@,
            self.index < old(store)@.len(),
        ensures
            *t == spec_deref(*self, *old(store)),
            final(store)@ == old(store)@.update(self.index as int, *final(t)),
    {
        store.table_at_mut(self.index)
    }

    /// Returns whether two pointers are equal: equality is address
    /// identity, nothing else.
    pub fn addr_eq(&self, other: &Self) -> (r: bool)
        ensures
            r == (self.index == other.index),
    {
        self.index == other.index
    }
}

/// Law: constructing a pointer to an installed table and dereferencing it
/// yields exactly the table installed at that address — the round trip
/// through the pointer gives back the original.
pub proof fn lemma_ptr_round_trip<VTable>(
    store: TableStore<VTable>,
    address: usize,
    p: VTablePtr<VTable>,
)
    requires
        address < store@.len(),
        p.index == address,
    ensures
        spec_deref(p, store) == store@[address as int],
{
}

} // verus!
