//! Capability interfaces for alternative delivery backends. Nothing in the
//! library implements them; they are for the surrounding service's own
//! backends to fill in.

use vstd::prelude::*;
use crate::models::Format;
use crate::models::MediaType;

verus! {

/// A backend that can name what it serves and perform a delivery.
pub trait Delivery {
    fn title(&mut self) -> String;

    fn download(&mut self, media_type: MediaType, format: Option<Format>) -> String;
}

/// A backend that can describe what it serves.
pub trait Description {
    fn description(&mut self) -> Option<String>;
}

} // verus!
