//! Shims of `std::sync::atomic`.
//!
//! These types perform the operations; they do not yield by themselves. The
//! runtime wraps each of them so that every operation on a shared atomic is
//! one atomic transition of the model, with a preemption point before it. The
//! value that an atomic holds
//! depends on every thread that shares it, so the contracts state only what
//! std promises of every outcome, and leave out the orderings on which std panics.
use vstd::prelude::*;

pub use std::sync::atomic::Ordering;

mod integer;

pub use integer::{
    AtomicI16, AtomicI32, AtomicI64, AtomicI8, AtomicIsize, AtomicU16, AtomicU32, AtomicU64, AtomicU8,
    AtomicUsize,
};

verus! {

/// The orderings with which std can load: it panics on `Release` and `AcqRel`
/// for a load, for the failure case of a compare-exchange and for the fetch of
/// `fetch_update`.
pub open spec fn load_ordering(order: Ordering) -> bool {
    !(order is Release) && !(order is AcqRel)
}

/// The orderings with which std can store: it panics on `Acquire` and `AcqRel`.
pub open spec fn store_ordering(order: Ordering) -> bool {
    !(order is Acquire) && !(order is AcqRel)
}

/// Shim of `std::sync::atomic::AtomicBool`.
#[derive(Debug)]
pub struct AtomicBool(std::sync::atomic::AtomicBool);

/// Calls `std::sync::atomic::AtomicBool::compare_exchange`. Its documentation
/// promises that it stores `new` exactly when the value equals `current`, and
/// returns the previous value: as `Ok` on success, which then equals
/// `current`, and as `Err` otherwise, which then differs from `current`.
#[verifier::external_body]
fn bool_compare_exchange(
    a: &std::sync::atomic::AtomicBool,
    current: bool,
    new: bool,
    success: Ordering,
    failure: Ordering,
) -> (r: Result<bool, bool>)
    requires
        load_ordering(failure),
    ensures
        match r {
            Ok(v) => v == current,
            Err(v) => v != current,
        },
{
    a.compare_exchange(current, new, success, failure)
}

/// Calls `std::sync::atomic::AtomicBool::into_inner`; the value depends on
/// what the atomic went through, and nothing is stated of it.
#[verifier::external_body]
fn bool_into_inner(a: std::sync::atomic::AtomicBool) -> bool {
    a.into_inner()
}

/// Calls `std::sync::atomic::AtomicBool::get_mut`; nothing is stated of the value.
#[verifier::external_body]
fn bool_get_mut(a: &mut std::sync::atomic::AtomicBool) -> &mut bool {
    a.get_mut()
}

/// Calls the deprecated `std::sync::atomic::AtomicBool::compare_and_swap`,
/// which returns the previous value; it depends on other threads, and nothing
/// is stated of it.
#[verifier::external_body]
#[allow(deprecated)]
fn bool_compare_and_swap(a: &std::sync::atomic::AtomicBool, current: bool, new: bool, order: Ordering) -> bool {
    a.compare_and_swap(current, new, order)
}

/// Calls `std::sync::atomic::AtomicBool::fetch_update`, which applies `f`
/// to the current value until `f` answers `None` or a compare-exchange of
/// its answer succeeds. Its documentation promises `Ok(prev)` when `f`
/// answered `Some` on `prev`, and `Err(prev)` when `f` answered `None` on `prev`. std may call `f` on any
/// value that the atomic holds, so `f` must accept every value.
#[verifier::external_body]
fn bool_fetch_update<F>(a: &std::sync::atomic::AtomicBool, set_order: Ordering, fetch_order: Ordering, f: F) -> (r: Result<bool, bool>)
    where
        F: FnMut(bool) -> Option<bool>,
    requires
        load_ordering(fetch_order),
        forall|x: bool| call_requires(f, (x,)),
    ensures
        match r {
            Ok(v) => exists|x: bool| call_ensures(f, (v,), Some(x)),
            Err(v) => call_ensures(f, (v,), None),
        },
{
    a.fetch_update(set_order, fetch_order, f)
}

impl AtomicBool {
    /// Creates a new instance of `AtomicBool`.
    pub fn new(v: bool) -> Self {
        AtomicBool(std::sync::atomic::AtomicBool::new(v))
    }

    /// Get access to a mutable reference to the inner value.
    pub fn get_mut(&mut self) -> &mut bool {
        bool_get_mut(&mut self.0)
    }

    /// Consumes the atomic and returns the contained value.
    pub fn into_inner(self) -> bool {
        bool_into_inner(self.0)
    }

    /// Loads a value from the atomic bool.
    pub fn load(&self, order: Ordering) -> bool
        requires
            load_ordering(order),
    {
        self.0.load(order)
    }

    /// Stores a value into the atomic bool.
    pub fn store(&self, val: bool, order: Ordering)
        requires
            store_ordering(order),
    {
        self.0.store(val, order)
    }

    /// Stores a value into the atomic bool, returning the previous value.
    pub fn swap(&self, val: bool, order: Ordering) -> bool {
        self.0.swap(val, order)
    }

    /// Stores a value into the atomic bool if the current value is the same as the `current` value.
    pub fn compare_and_swap(&self, current: bool, new: bool, order: Ordering) -> bool {
        bool_compare_and_swap(&self.0, current, new, order)
    }

    /// Stores a value into the atomic if the current value is the same as the
    /// `current` value; returns the previous value, as `Ok` exactly when it
    /// equals `current`.
    pub fn compare_exchange(&self, current: bool, new: bool, success: Ordering, failure: Ordering) -> (r: Result<bool, bool>)
        requires
            load_ordering(failure),
        ensures
            match r {
                Ok(v) => v == current,
                Err(v) => v != current,
            },
    {
        bool_compare_exchange(&self.0, current, new, success, failure)
    }

    /// Stores a value into the atomic if the current value is the same as the
    /// `current` value. Unlike the weak operation of std, it never fails
    /// spuriously: it fails only when the value differs from `current`.
    pub fn compare_exchange_weak(&self, current: bool, new: bool, success: Ordering, failure: Ordering) -> (r: Result<bool, bool>)
        requires
            load_ordering(failure),
        ensures
            match r {
                Ok(v) => v == current,
                Err(v) => v != current,
            },
    {
        self.compare_exchange(current, new, success, failure)
    }

    /// Logical "and" with the current value.
    pub fn fetch_and(&self, val: bool, order: Ordering) -> bool {
        self.0.fetch_and(val, order)
    }

    /// Logical "nand" with the current value.
    pub fn fetch_nand(&self, val: bool, order: Ordering) -> bool {
        self.0.fetch_nand(val, order)
    }

    /// Logical "or" with the current value.
    pub fn fetch_or(&self, val: bool, order: Ordering) -> bool {
        self.0.fetch_or(val, order)
    }

    /// Logical "xor" with the current value.
    pub fn fetch_xor(&self, val: bool, order: Ordering) -> bool {
        self.0.fetch_xor(val, order)
    }

    /// Fetches the value, and applies a function to it that returns an optional new value:
    /// `Ok(prev)` when the function answered `Some` on `prev`, `Err(prev)` when it answered `None`.
    /// The function may be called on any value, so it must accept every value.
    pub fn fetch_update<F>(&self, set_order: Ordering, fetch_order: Ordering, f: F) -> (r: Result<bool, bool>)
        where
            F: FnMut(bool) -> Option<bool>,
        requires
            load_ordering(fetch_order),
            forall|x: bool| call_requires(f, (x,)),
        ensures
            match r {
                Ok(v) => exists|x: bool| call_ensures(f, (v,), Some(x)),
                Err(v) => call_ensures(f, (v,), None),
            },
    {
        bool_fetch_update(&self.0, set_order, fetch_order, f)
    }
}

impl Default for AtomicBool {
    fn default() -> Self {
        Self::new(false)
    }
}

} // verus!

verus! {

impl From<bool> for AtomicBool {
    fn from(v: bool) -> Self {
        Self::new(v)
    }
}

/// The value of a fresh atomic is not observable in contracts, so `from`
/// promises nothing beyond creating the atomic.
impl vstd::std_specs::convert::FromSpecImpl<bool> for AtomicBool {
    open spec fn obeys_from_spec() -> bool {
        false
    }

    closed spec fn from_spec(v: bool) -> Self {
        vstd::pervasive::arbitrary()
    }
}

} // verus!

verus! {

/// Calls `std::sync::atomic::fence`, which only orders memory accesses; it
/// panics on `Relaxed`, which `requires` leaves out.
#[verifier::external_body]
fn std_fence(order: Ordering)
    requires
        !(order is Relaxed),
{
    std::sync::atomic::fence(order)
}

/// Shim of `std::sync::atomic::fence`. A `Relaxed` fence is refused, as std refuses it.
pub fn fence(order: Ordering)
    requires
        !(order is Relaxed),
{
    std_fence(order)
}

} // verus!


