//! A small-object callback handle for waking suspended computations.
//!
//! A caller that owns a notifier builds an [`UnparkHandle`] around it: by
//! reference when the value is small enough to be kept inline, or through a
//! shared heap allocation otherwise. When the notifier has to outlive the
//! current call, the handle is turned into an [`UnparkObj`], which owns its
//! payload and can be duplicated and invoked any number of times.
use vstd::prelude::*;

pub mod unpark;
pub mod unpark_handle;
pub mod laws;

pub use unpark::Unpark;
pub use unpark_handle::{MAX_OBJ_BYTES, UnparkHandle, UnparkObj, UnparkTooLarge};
