//! Storage adaptors over a general-purpose allocator.

mod alloc_element;
mod builder;

pub use alloc_element::{AllocElementHandle, AllocRangeHandle, AllocStorage};
pub use builder::AllocatorBuilder;
