use vstd::prelude::*;
use vstd::layout::size_of;
use std::sync::Arc;
use crate::unpark::Unpark;

verus! {

/// Largest payload, in bytes, that is kept inline rather than moved to the heap.
///
/// This value may grow in a compatible release, but never shrink.
pub const MAX_OBJ_BYTES: usize = 64;

/// Whether a value of type `T` fits an inline buffer of `capacity` bytes.
pub open spec fn fits_inline<T>(capacity: nat) -> bool {
    size_of::<T>() <= capacity
}

/// `r` is what strict-inline construction from `v` gives against a capacity of
/// `capacity` bytes: a handle borrowing `v` when `T` fits, and otherwise an
/// error carrying the size of `T`.
pub open spec fn strict_result<T>(
    r: Result<UnparkHandle<'_, T>, UnparkTooLarge>,
    v: T,
    capacity: nat,
) -> bool {
    &&& r is Ok <==> fits_inline::<T>(capacity)
    &&& r matches Ok(h) ==> !h.is_owned() && h.target() == v
    &&& r matches Err(e) ==> e.0 == size_of::<T>()
}

/// `h` is what best-effort-inline construction from `v` gives against a
/// capacity of `capacity` bytes: a handle borrowing `v` when `T` fits, and
/// otherwise one owning a shared allocation that holds a duplicate of `v`.
pub open spec fn best_effort_result<T: Clone>(h: UnparkHandle<'_, T>, v: T, capacity: nat) -> bool {
    &&& fits_inline::<T>(capacity) ==> !h.is_owned() && h.target() == v
    &&& !fits_inline::<T>(capacity) ==> h.is_owned() && cloned(v, h.target())
}

/// `h` is what heap construction from `v` gives: a handle owning a shared
/// allocation that holds `v` itself.
pub open spec fn heap_result<T>(h: UnparkHandle<'_, T>, v: T) -> bool {
    h.is_owned() && h.target() == v
}

/// Relies on `Arc::clone`: the new pointer refers to the same allocation,
/// and so to the same value.
#[verifier::external_body]
fn share<T>(a: &Arc<T>) -> (r: Arc<T>)
    ensures
        r == *a,
{
    Arc::clone(a)
}

/// The payload of a notifier was larger than the inline capacity.
///
/// Holds the size, in bytes, of the rejected type.
#[derive(Debug, PartialEq, Eq, Structural)]
pub struct UnparkTooLarge(pub usize);

impl UnparkTooLarge {
    /// The size, in bytes, of the type that did not fit.
    pub fn size(&self) -> (r: usize)
        ensures
            r == self.0,
    {
        self.0
    }
}

/// Where the payload of a handle lives.
enum Data<'a, T> {
    /// The caller's own value: it is neither duplicated nor destroyed here.
    Borrowed(&'a T),
    /// A shared heap allocation that the handle holds one reference to.
    Owned(Arc<T>),
}

impl<'a, T> Data<'a, T> {
    spec fn target(&self) -> T {
        match self {
            Data::Borrowed(r) => **r,
            Data::Owned(a) => **a,
        }
    }

    /// The value that notifications go to, wherever it lives.
    fn as_ref(&self) -> (r: &T)
        ensures
            *r == self.target(),
    {
        match self {
            Data::Borrowed(r) => r,
            Data::Owned(a) => a,
        }
    }
}

/// A short-lived notifier handle, made while a computation is about to be
/// suspended.
///
/// It either borrows the caller's value, which stays the caller's to destroy,
/// or holds a reference to a shared heap allocation, which it releases when
/// it is dropped. Turning it into an [`UnparkObj`] duplicates the payload.
pub struct UnparkHandle<'a, T> {
    data: Data<'a, T>,
}

impl<'a, T> UnparkHandle<'a, T> {
    /// Whether the handle owns a reference to a shared heap allocation,
    /// rather than borrowing the caller's value.
    pub closed spec fn is_owned(&self) -> bool {
        self.data is Owned
    }

    /// The value that the handle notifies.
    pub closed spec fn target(&self) -> T {
        self.data.target()
    }

    /// Strict-inline construction against an inline capacity of `capacity`
    /// bytes: borrows `unpark` if its type fits, and fails otherwise.
    pub fn try_with_capacity(unpark: &'a T, capacity: usize) -> (r: Result<
        UnparkHandle<'a, T>,
        UnparkTooLarge,
    >) where T: Unpark + Clone
        ensures
            strict_result(r, *unpark, capacity as nat),
    {
        let size = core::mem::size_of::<T>();
        if size <= capacity {
            Ok(UnparkHandle { data: Data::Borrowed(unpark) })
        } else {
            Err(UnparkTooLarge(size))
        }
    }

    /// Strict-inline construction: the same as [`UnparkHandle::by_clone`],
    /// but fails with the size of `T` where `T` is larger than
    /// [`MAX_OBJ_BYTES`]. Allocates nothing.
    pub fn try_by_clone(unpark: &'a T) -> (r: Result<UnparkHandle<'a, T>, UnparkTooLarge>) where
        T: Unpark + Clone,
        ensures
            strict_result(r, *unpark, MAX_OBJ_BYTES as nat),
    {
        Self::try_with_capacity(unpark, MAX_OBJ_BYTES)
    }

    /// Best-effort-inline construction against an inline capacity of
    /// `capacity` bytes: borrows `unpark` if its type fits, and otherwise
    /// moves a duplicate of it into a shared heap allocation.
    pub fn by_clone_with_capacity(unpark: &'a T, capacity: usize) -> (r: UnparkHandle<'a, T>) where
        T: Unpark + Clone + Sync,
        ensures
            best_effort_result(r, *unpark, capacity as nat),
    {
        match Self::try_with_capacity(unpark, capacity) {
            Ok(handle) => handle,
            Err(_) => Self::boxed(unpark.clone()),
        }
    }

    /// Best-effort-inline construction: on `park` the value is duplicated
    /// into the task. Where `T` is larger than [`MAX_OBJ_BYTES`], a duplicate
    /// is moved to a shared heap allocation instead.
    pub fn by_clone(unpark: &'a T) -> (r: UnparkHandle<'a, T>) where T: Unpark + Clone + Sync
        ensures
            best_effort_result(r, *unpark, MAX_OBJ_BYTES as nat),
    {
        Self::by_clone_with_capacity(unpark, MAX_OBJ_BYTES)
    }

    /// Heap construction: moves `unpark` into a shared heap allocation.
    /// `T` need not be duplicable: duplicating the handle's payload adds a
    /// reference to the allocation.
    pub fn boxed(unpark: T) -> (r: UnparkHandle<'a, T>) where T: Unpark + Sync
        ensures
            heap_result(r, unpark),
    {
        let arc = Arc::new(unpark);
        UnparkHandle { data: Data::Owned(arc) }
    }
}

/// Copying a handle borrows the same value, or adds a reference to the same
/// allocation; it never duplicates `T`.
impl<'a, T> Clone for UnparkHandle<'a, T> {
    fn clone(&self) -> (r: Self)
        ensures
            r.is_owned() == self.is_owned(),
            r.target() == self.target(),
    {
        match &self.data {
            Data::Borrowed(t) => UnparkHandle { data: Data::Borrowed(*t) },
            Data::Owned(a) => UnparkHandle { data: Data::Owned(share(a)) },
        }
    }
}

/// Notifying a handle notifies its payload, wherever it lives.
impl<'a, T: Unpark> Unpark for UnparkHandle<'a, T> {
    fn unpark(&self) {
        self.data.as_ref().unpark()
    }
}

/// Where the payload of a persisted object lives.
enum Payload<T> {
    /// A duplicate of the caller's value, owned by the object.
    Inline(T),
    /// One reference to a shared heap allocation.
    Shared(Arc<T>),
}

/// A long-lived notifier that owns its payload.
///
/// Made from an [`UnparkHandle`] when a computation is suspended; it can be
/// stored, duplicated and invoked any number of times, and releases its
/// payload exactly once, when it is dropped.
pub struct UnparkObj<T> {
    payload: Payload<T>,
}

impl<T> UnparkObj<T> {
    /// Whether the object holds a reference to a shared heap allocation,
    /// rather than a value of its own.
    pub closed spec fn is_shared(&self) -> bool {
        self.payload is Shared
    }

    /// The value that the object notifies.
    pub closed spec fn target(&self) -> T {
        match self.payload {
            Payload::Inline(t) => t,
            Payload::Shared(a) => *a,
        }
    }

    /// `self` is what persisting `handle` gives: a reference to the same
    /// allocation when the handle owns one, and a duplicate of the borrowed
    /// value otherwise.
    pub open spec fn persisted_from(&self, handle: UnparkHandle<'_, T>) -> bool where T: Clone {
        &&& self.is_shared() == handle.is_owned()
        &&& handle.is_owned() ==> self.target() == handle.target()
        &&& !handle.is_owned() ==> cloned(handle.target(), self.target())
    }

    /// `self` is what duplicating `other` gives: a new reference to the same
    /// allocation, or a duplicate of the value that `other` owns.
    pub open spec fn duplicate_of(&self, other: UnparkObj<T>) -> bool where T: Clone {
        &&& self.is_shared() == other.is_shared()
        &&& other.is_shared() ==> self.target() == other.target()
        &&& !other.is_shared() ==> cloned(other.target(), self.target())
    }

    /// Persists `handle`: duplicates its payload into an object that owns
    /// what it holds.
    pub fn from_handle(handle: &UnparkHandle<'_, T>) -> (r: UnparkObj<T>) where T: Clone
        ensures
            r.persisted_from(*handle),
    {
        match &handle.data {
            Data::Borrowed(t) => UnparkObj { payload: Payload::Inline((*t).clone()) },
            Data::Owned(a) => UnparkObj { payload: Payload::Shared(share(a)) },
        }
    }

    /// Persists a handle whose payload needs no duplication of `T`: one that
    /// owns a shared heap allocation. A borrowing handle gives `None`.
    pub fn from_shared(handle: &UnparkHandle<'_, T>) -> (r: Option<UnparkObj<T>>)
        ensures
            r is Some <==> handle.is_owned(),
            r matches Some(o) ==> o.is_shared() && o.target() == handle.target(),
    {
        match &handle.data {
            Data::Borrowed(_) => None,
            Data::Owned(a) => Some(UnparkObj { payload: Payload::Shared(share(a)) }),
        }
    }

    /// The value that notifications go to, wherever it lives.
    fn as_ref(&self) -> (r: &T)
        ensures
            *r == self.target(),
    {
        match &self.payload {
            Payload::Inline(t) => t,
            Payload::Shared(a) => a,
        }
    }
}

impl<T: Clone> Clone for UnparkObj<T> {
    fn clone(&self) -> (r: Self)
        ensures
            r.duplicate_of(*self),
    {
        match &self.payload {
            Payload::Inline(t) => UnparkObj { payload: Payload::Inline(t.clone()) },
            Payload::Shared(a) => UnparkObj { payload: Payload::Shared(share(a)) },
        }
    }
}

/// Notifying an object notifies its payload, wherever it lives.
impl<T: Unpark> Unpark for UnparkObj<T> {
    fn unpark(&self) {
        self.as_ref().unpark()
    }
}

} // verus!
