//! Storage backends for generic containers.
//!
//! Each backend supplies space for either a single value (element storage) or
//! a buffer of values (range storage), addressed through opaque handles, and
//! never knows the container's own logic. Memory is modelled by typed slots:
//! a slot either holds a value or is unoccupied, and every request carries the
//! size and alignment the value demands, which the backend checks against the
//! space it manages.

pub mod allocator;
pub mod alternative;
pub mod fallback;
pub mod inline;
pub mod layout;
pub mod traits;
pub mod utils;
