use vstd::prelude::*;
use std::sync::Arc;

verus! {

/// A value that can be told that the computation waiting on it may go on.
///
/// `unpark` may be called any number of times, and from several threads at
/// once where the implementing type allows it.
pub trait Unpark {
    fn unpark(&self);
}

/// A shared notifier notifies by notifying the value it points to.
impl<T: Unpark> Unpark for Arc<T> {
    fn unpark(&self) {
        (**self).unpark()
    }
}

} // verus!
