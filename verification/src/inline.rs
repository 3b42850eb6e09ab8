//! Inline fixed-capacity storage: the space is embedded in the storage value
//! itself, with no general-purpose allocator behind it.

mod non_tracking_element;
mod non_tracking_range;
mod single_element;
mod tracking_elements;

pub use non_tracking_element::{NonTrackingElement, NonTrackingElementHandle};
pub use non_tracking_range::{NonTrackingRange, NonTrackingRangeHandle};
pub use single_element::{SingleElement, SingleElementHandle};
pub use tracking_elements::{TrackingElement, TrackingElementHandle};
