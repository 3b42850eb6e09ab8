//! Fallback composition: a pair of backends of the same kind, preferring the
//! first and transparently using the second when the first cannot serve a
//! request, migrating live data across the boundary as a range grows or
//! shrinks.

mod fallback_element;
mod fallback_range;

pub use fallback_element::{lemma_failure_leaves_fallback_unchanged, FallbackElement,
    FallbackElementHandle};
pub use fallback_range::{range_block_released, FallbackRange, FallbackRangeHandle};
