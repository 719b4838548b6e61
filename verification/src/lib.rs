//! Utilities for modelling C++ virtual function tables and the calls made
//! through them.
//!
//! A foreign compiler lays a polymorphic object out as a pointer to a table
//! of function addresses followed by the object's own data.  This crate
//! models that object layout: table descriptors and populated table
//! instances, non-null table pointers into static table storage, object
//! handles pairing a table pointer with an opaque instance address, the
//! dispatch protocol that walks nested base sections and selects a slot,
//! and the platform-dependent choice of calling convention for each slot.

pub mod convention;
pub mod dispatch;
pub mod object;
pub mod table;
pub mod vtable_ptr;

pub use convention::Arch;
pub use convention::Convention;
pub use convention::ConventionKind;
pub use convention::Os;
pub use convention::Target;
pub use convention::select_convention;
pub use dispatch::Invocation;
pub use dispatch::dispatch;
pub use dispatch::dispatch_call;
pub use object::VtObject;
pub use vtable_ptr::TableStore;
pub use vtable_ptr::VTablePtr;
