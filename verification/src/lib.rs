//! A typed object model and status taxonomy for a remote, shared
//! object store.  Objects are type-erased at the storage layer -- the
//! store knows a typename string and a metadata tree -- while callers
//! get statically-checked, capability-specific access: construction is
//! gated on the canonical typename, downcasting is a runtime-checked
//! recovery of the concrete kind, and every outcome is reported
//! through a closed status taxonomy whose kinds are the stable,
//! programmatic part of each error.

pub mod codec;
pub mod convert;
pub mod dataframe;
pub mod meta;
pub mod object;
pub mod status;
pub mod tensor;
pub mod text;
