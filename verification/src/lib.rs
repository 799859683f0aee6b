//! Compile-time-checked heterogeneous key-by-type maps.
//!
//! A schema of named, typed slots is turned into a typestate-parameterized
//! container: one type parameter per slot records whether the slot is
//! occupied or vacant, so that reading a slot that was never set is rejected
//! when the using program is built, with no runtime tag or lookup.

pub mod codegen;
pub mod emit;
pub mod handler;
pub mod iters;
pub mod lifecycle;
pub mod markers;
pub mod names;
pub mod prefilled;
pub mod schema;
pub mod unfilled;
pub mod wiring;

pub use handler::{Attach, Fork, Handler};
pub use markers::{Available, MaybeAvailable, Occupied, OccupiedM, Sealed, Vacancy};
/// The capability traits the generated implementations are written against:
/// the consumed, pre-existing interface of the `param` crate.
pub use param::{Param, ParamMaybeMut, ParamMaybeRef, ParamMut, ParamRef, ParamRemove, ParamSet,
    ParamTake};
