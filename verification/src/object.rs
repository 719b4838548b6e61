//! Object handles: the token threaded through every dispatch call.
//!
//! A foreign compiler places the table pointer as the first field of a
//! polymorphic object; everything after it is the object's own data, which
//! this layer never reads.  A [`VtObject`] models the head of such an
//! object: the table pointer paired with the opaque address of the
//! instance.  The handle never owns or manages the instance; the address is
//! carried through to the callee as the call's first argument and nothing
//! more.  Handles are transient — built just in time for a call — and
//! whether the address really fronts an object of the modelled layout is
//! entirely the caller's obligation.

use vstd::prelude::*;

use crate::vtable_ptr::TableStore;
use crate::vtable_ptr::VTablePtr;
use crate::vtable_ptr::spec_deref;

verus! {

/// An object handle: a table pointer paired with the opaque address of the
/// object instance the table describes.
pub struct VtObject<VTable> {
    /// Pointer to the object's table, the head field of its layout.
    pub table_ptr: VTablePtr<VTable>,
    /// Opaque address of the object instance.  Never dereferenced here;
    /// forwarded to the callee as the first argument of every dispatch.
    pub address: u64,
}

impl<VTable> VtObject<VTable> {
    /// Builds a handle from the head of an object's layout: its table
    /// pointer and its address.
    pub fn new(table_ptr: VTablePtr<VTable>, address: u64) -> (o: Self)
        ensures
            o.table_ptr == table_ptr,
            o.address == address,
    {
        VtObject { table_ptr, address }
    }

    /// Returns the handle's table pointer.
    pub fn vtable(&self) -> (p: &VTablePtr<VTable>)
        ensures
            *p == self.table_ptr,
    {
        &self.table_ptr
    }

    /// Loads the table the handle's pointer points to: the first step of
    /// every dispatch.
    pub fn table<'a>(&self, store: &'a TableStore<VTable>) -> (t: &'a VTable)
        requires
            self.table_ptr.index < store@.len(),
        ensures
            *t == spec_deref(self.table_ptr, *store),
    {
        self.table_ptr.as_ref(store)
    }

    /// Returns the raw object address, in shared form, for use as a call's
    /// first argument.
    pub fn as_ptr(&self) -> (a: u64)
        ensures
            a == self.address,
    {
        self.address
    }

    /// Returns the raw object address, in exclusive form, for a call that
    /// mutates the object.  The handle itself is unchanged; exclusivity is
    /// the caller's to keep, exactly as it is at a foreign call site.
    pub fn as_mut_ptr(&mut self) -> (a: u64)
        ensures
            *final(self) == *old(self),
            a == old(self).address,
    {
        self.address
    }
}

} // verus!
