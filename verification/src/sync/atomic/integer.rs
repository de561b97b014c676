//! Shims of the integer atomics of `std::sync::atomic`.
use vstd::prelude::*;

use std::sync::atomic::Ordering;

use crate::sync::atomic::{load_ordering, store_ordering};

verus! {

/// Shim of `std::sync::atomic::AtomicU8`.
#[derive(Debug)]
pub struct AtomicU8(std::sync::atomic::AtomicU8);

/// Calls `std::sync::atomic::AtomicU8::compare_exchange`. Its documentation promises that it stores
/// `new` exactly when the value equals `current`, and returns the previous
/// value: as `Ok` on success, which then equals `current`, and as `Err`
/// otherwise, which then differs from `current`.
#[verifier::external_body]
fn u8_compare_exchange(a: &std::sync::atomic::AtomicU8, current: u8, new: u8, success: Ordering, failure: Ordering) -> (r: Result<u8, u8>)
    requires
        load_ordering(failure),
    ensures
        match r {
            Ok(v) => v == current,
            Err(v) => v != current,
        },
{
    a.compare_exchange(current, new, success, failure)
}

/// Calls `std::sync::atomic::AtomicU8::into_inner`; nothing is stated of the value.
#[verifier::external_body]
fn u8_into_inner(a: std::sync::atomic::AtomicU8) -> u8 {
    a.into_inner()
}

/// Calls `std::sync::atomic::AtomicU8::get_mut`; nothing is stated of the value.
#[verifier::external_body]
fn u8_get_mut(a: &mut std::sync::atomic::AtomicU8) -> &mut u8 {
    a.get_mut()
}

/// Calls the deprecated `std::sync::atomic::AtomicU8::compare_and_swap`, which returns the previous
/// value; nothing is stated of it.
#[verifier::external_body]
#[allow(deprecated)]
fn u8_compare_and_swap(a: &std::sync::atomic::AtomicU8, current: u8, new: u8, order: Ordering) -> u8 {
    a.compare_and_swap(current, new, order)
}

/// Calls `std::sync::atomic::AtomicU8::fetch_update`, which applies `f` to the current value until
/// `f` answers `None` or a compare-exchange of its answer succeeds. Its
/// documentation promises `Ok(prev)` when `f` answered `Some` on `prev`, and
/// `Err(prev)` when `f` answered `None` on `prev`. std may call `f` on any
/// value that the atomic holds, so `f` must accept every value.
#[verifier::external_body]
fn u8_fetch_update<F>(a: &std::sync::atomic::AtomicU8, set_order: Ordering, fetch_order: Ordering, f: F) -> (r: Result<u8, u8>)
    where
        F: FnMut(u8) -> Option<u8>,
    requires
        load_ordering(fetch_order),
        forall|x: u8| call_requires(f, (x,)),
    ensures
        match r {
            Ok(v) => exists|x: u8| call_ensures(f, (v,), Some(x)),
            Err(v) => call_ensures(f, (v,), None),
        },
{
    a.fetch_update(set_order, fetch_order, f)
}

impl AtomicU8 {
    /// Creates a new instance of `AtomicU8`.
    pub fn new(v: u8) -> Self {
        AtomicU8(std::sync::atomic::AtomicU8::new(v))
    }

    /// Get access to a mutable reference to the inner value.
    pub fn get_mut(&mut self) -> &mut u8 {
        u8_get_mut(&mut self.0)
    }

    /// Consumes the atomic and returns the contained value.
    pub fn into_inner(self) -> u8 {
        u8_into_inner(self.0)
    }

    /// Loads a value from the atomic integer.
    pub fn load(&self, order: Ordering) -> u8
        requires
            load_ordering(order),
    {
        self.0.load(order)
    }

    /// Stores a value into the atomic integer.
    pub fn store(&self, val: u8, order: Ordering)
        requires
            store_ordering(order),
    {
        self.0.store(val, order)
    }

    /// Stores a value into the atomic integer, returning the previous value.
    pub fn swap(&self, val: u8, order: Ordering) -> u8 {
        self.0.swap(val, order)
    }

    /// Stores a value into the atomic integer if the current value is the same as the `current` value.
    pub fn compare_and_swap(&self, current: u8, new: u8, order: Ordering) -> u8 {
        u8_compare_and_swap(&self.0, current, new, order)
    }

    /// Stores a value into the atomic if the current value is the same as the
    /// `current` value; returns the previous value, as `Ok` exactly when it
    /// equals `current`.
    pub fn compare_exchange(&self, current: u8, new: u8, success: Ordering, failure: Ordering) -> (r: Result<u8, u8>)
        requires
            load_ordering(failure),
        ensures
            match r {
                Ok(v) => v == current,
                Err(v) => v != current,
            },
    {
        u8_compare_exchange(&self.0, current, new, success, failure)
    }

    /// Stores a value into the atomic if the current value is the same as the
    /// `current` value. Unlike the weak operation of std, it never fails
    /// spuriously: it fails only when the value differs from `current`.
    pub fn compare_exchange_weak(&self, current: u8, new: u8, success: Ordering, failure: Ordering) -> (r: Result<u8, u8>)
        requires
            load_ordering(failure),
        ensures
            match r {
                Ok(v) => v == current,
                Err(v) => v != current,
            },
    {
        self.compare_exchange(current, new, success, failure)
    }

    /// Adds to the current value, returning the previous value.
    pub fn fetch_add(&self, val: u8, order: Ordering) -> u8 {
        self.0.fetch_add(val, order)
    }

    /// Subtracts from the current value, returning the previous value.
    pub fn fetch_sub(&self, val: u8, order: Ordering) -> u8 {
        self.0.fetch_sub(val, order)
    }

    /// Bitwise "and" with the current value.
    pub fn fetch_and(&self, val: u8, order: Ordering) -> u8 {
        self.0.fetch_and(val, order)
    }

    /// Bitwise "nand" with the current value.
    pub fn fetch_nand(&self, val: u8, order: Ordering) -> u8 {
        self.0.fetch_nand(val, order)
    }

    /// Bitwise "or" with the current value.
    pub fn fetch_or(&self, val: u8, order: Ordering) -> u8 {
        self.0.fetch_or(val, order)
    }

    /// Bitwise "xor" with the current value.
    pub fn fetch_xor(&self, val: u8, order: Ordering) -> u8 {
        self.0.fetch_xor(val, order)
    }

    /// Stores the maximum of the current and provided value, returning the previous value.
    pub fn fetch_max(&self, val: u8, order: Ordering) -> u8 {
        self.0.fetch_max(val, order)
    }

    /// Stores the minimum of the current and provided value, returning the previous value.
    pub fn fetch_min(&self, val: u8, order: Ordering) -> u8 {
        self.0.fetch_min(val, order)
    }

    /// Fetches the value, and applies a function to it that returns an optional new value:
    /// `Ok(prev)` when the function answered `Some` on `prev`, `Err(prev)` when it answered `None`.
    /// The function may be called on any value, so it must accept every value.
    pub fn fetch_update<F>(&self, set_order: Ordering, fetch_order: Ordering, f: F) -> (r: Result<u8, u8>)
        where
            F: FnMut(u8) -> Option<u8>,
        requires
            load_ordering(fetch_order),
            forall|x: u8| call_requires(f, (x,)),
        ensures
            match r {
                Ok(v) => exists|x: u8| call_ensures(f, (v,), Some(x)),
                Err(v) => call_ensures(f, (v,), None),
            },
    {
        u8_fetch_update(&self.0, set_order, fetch_order, f)
    }
}

impl Default for AtomicU8 {
    fn default() -> Self {
        Self::new(0)
    }
}

impl From<u8> for AtomicU8 {
    fn from(v: u8) -> Self {
        Self::new(v)
    }
}

/// The value of a fresh atomic is not observable in contracts, so `from`
/// promises nothing beyond creating the atomic.
impl vstd::std_specs::convert::FromSpecImpl<u8> for AtomicU8 {
    open spec fn obeys_from_spec() -> bool {
        false
    }

    closed spec fn from_spec(v: u8) -> Self {
        vstd::pervasive::arbitrary()
    }
}

/// Shim of `std::sync::atomic::AtomicU16`.
#[derive(Debug)]
pub struct AtomicU16(std::sync::atomic::AtomicU16);

/// Calls `std::sync::atomic::AtomicU16::compare_exchange`. Its documentation promises that it stores
/// `new` exactly when the value equals `current`, and returns the previous
/// value: as `Ok` on success, which then equals `current`, and as `Err`
/// otherwise, which then differs from `current`.
#[verifier::external_body]
fn u16_compare_exchange(a: &std::sync::atomic::AtomicU16, current: u16, new: u16, success: Ordering, failure: Ordering) -> (r: Result<u16, u16>)
    requires
        load_ordering(failure),
    ensures
        match r {
            Ok(v) => v == current,
            Err(v) => v != current,
        },
{
    a.compare_exchange(current, new, success, failure)
}

/// Calls `std::sync::atomic::AtomicU16::into_inner`; nothing is stated of the value.
#[verifier::external_body]
fn u16_into_inner(a: std::sync::atomic::AtomicU16) -> u16 {
    a.into_inner()
}

/// Calls `std::sync::atomic::AtomicU16::get_mut`; nothing is stated of the value.
#[verifier::external_body]
fn u16_get_mut(a: &mut std::sync::atomic::AtomicU16) -> &mut u16 {
    a.get_mut()
}

/// Calls the deprecated `std::sync::atomic::AtomicU16::compare_and_swap`, which returns the previous
/// value; nothing is stated of it.
#[verifier::external_body]
#[allow(deprecated)]
fn u16_compare_and_swap(a: &std::sync::atomic::AtomicU16, current: u16, new: u16, order: Ordering) -> u16 {
    a.compare_and_swap(current, new, order)
}

/// Calls `std::sync::atomic::AtomicU16::fetch_update`, which applies `f` to the current value until
/// `f` answers `None` or a compare-exchange of its answer succeeds. Its
/// documentation promises `Ok(prev)` when `f` answered `Some` on `prev`, and
/// `Err(prev)` when `f` answered `None` on `prev`. std may call `f` on any
/// value that the atomic holds, so `f` must accept every value.
#[verifier::external_body]
fn u16_fetch_update<F>(a: &std::sync::atomic::AtomicU16, set_order: Ordering, fetch_order: Ordering, f: F) -> (r: Result<u16, u16>)
    where
        F: FnMut(u16) -> Option<u16>,
    requires
        load_ordering(fetch_order),
        forall|x: u16| call_requires(f, (x,)),
    ensures
        match r {
            Ok(v) => exists|x: u16| call_ensures(f, (v,), Some(x)),
            Err(v) => call_ensures(f, (v,), None),
        },
{
    a.fetch_update(set_order, fetch_order, f)
}

impl AtomicU16 {
    /// Creates a new instance of `AtomicU16`.
    pub fn new(v: u16) -> Self {
        AtomicU16(std::sync::atomic::AtomicU16::new(v))
    }

    /// Get access to a mutable reference to the inner value.
    pub fn get_mut(&mut self) -> &mut u16 {
        u16_get_mut(&mut self.0)
    }

    /// Consumes the atomic and returns the contained value.
    pub fn into_inner(self) -> u16 {
        u16_into_inner(self.0)
    }

    /// Loads a value from the atomic integer.
    pub fn load(&self, order: Ordering) -> u16
        requires
            load_ordering(order),
    {
        self.0.load(order)
    }

    /// Stores a value into the atomic integer.
    pub fn store(&self, val: u16, order: Ordering)
        requires
            store_ordering(order),
    {
        self.0.store(val, order)
    }

    /// Stores a value into the atomic integer, returning the previous value.
    pub fn swap(&self, val: u16, order: Ordering) -> u16 {
        self.0.swap(val, order)
    }

    /// Stores a value into the atomic integer if the current value is the same as the `current` value.
    pub fn compare_and_swap(&self, current: u16, new: u16, order: Ordering) -> u16 {
        u16_compare_and_swap(&self.0, current, new, order)
    }

    /// Stores a value into the atomic if the current value is the same as the
    /// `current` value; returns the previous value, as `Ok` exactly when it
    /// equals `current`.
    pub fn compare_exchange(&self, current: u16, new: u16, success: Ordering, failure: Ordering) -> (r: Result<u16, u16>)
        requires
            load_ordering(failure),
        ensures
            match r {
                Ok(v) => v == current,
                Err(v) => v != current,
            },
    {
        u16_compare_exchange(&self.0, current, new, success, failure)
    }

    /// Stores a value into the atomic if the current value is the same as the
    /// `current` value. Unlike the weak operation of std, it never fails
    /// spuriously: it fails only when the value differs from `current`.
    pub fn compare_exchange_weak(&self, current: u16, new: u16, success: Ordering, failure: Ordering) -> (r: Result<u16, u16>)
        requires
            load_ordering(failure),
        ensures
            match r {
                Ok(v) => v == current,
                Err(v) => v != current,
            },
    {
        self.compare_exchange(current, new, success, failure)
    }

    /// Adds to the current value, returning the previous value.
    pub fn fetch_add(&self, val: u16, order: Ordering) -> u16 {
        self.0.fetch_add(val, order)
    }

    /// Subtracts from the current value, returning the previous value.
    pub fn fetch_sub(&self, val: u16, order: Ordering) -> u16 {
        self.0.fetch_sub(val, order)
    }

    /// Bitwise "and" with the current value.
    pub fn fetch_and(&self, val: u16, order: Ordering) -> u16 {
        self.0.fetch_and(val, order)
    }

    /// Bitwise "nand" with the current value.
    pub fn fetch_nand(&self, val: u16, order: Ordering) -> u16 {
        self.0.fetch_nand(val, order)
    }

    /// Bitwise "or" with the current value.
    pub fn fetch_or(&self, val: u16, order: Ordering) -> u16 {
        self.0.fetch_or(val, order)
    }

    /// Bitwise "xor" with the current value.
    pub fn fetch_xor(&self, val: u16, order: Ordering) -> u16 {
        self.0.fetch_xor(val, order)
    }

    /// Stores the maximum of the current and provided value, returning the previous value.
    pub fn fetch_max(&self, val: u16, order: Ordering) -> u16 {
        self.0.fetch_max(val, order)
    }

    /// Stores the minimum of the current and provided value, returning the previous value.
    pub fn fetch_min(&self, val: u16, order: Ordering) -> u16 {
        self.0.fetch_min(val, order)
    }

    /// Fetches the value, and applies a function to it that returns an optional new value:
    /// `Ok(prev)` when the function answered `Some` on `prev`, `Err(prev)` when it answered `None`.
    /// The function may be called on any value, so it must accept every value.
    pub fn fetch_update<F>(&self, set_order: Ordering, fetch_order: Ordering, f: F) -> (r: Result<u16, u16>)
        where
            F: FnMut(u16) -> Option<u16>,
        requires
            load_ordering(fetch_order),
            forall|x: u16| call_requires(f, (x,)),
        ensures
            match r {
                Ok(v) => exists|x: u16| call_ensures(f, (v,), Some(x)),
                Err(v) => call_ensures(f, (v,), None),
            },
    {
        u16_fetch_update(&self.0, set_order, fetch_order, f)
    }
}

impl Default for AtomicU16 {
    fn default() -> Self {
        Self::new(0)
    }
}

impl From<u16> for AtomicU16 {
    fn from(v: u16) -> Self {
        Self::new(v)
    }
}

/// The value of a fresh atomic is not observable in contracts, so `from`
/// promises nothing beyond creating the atomic.
impl vstd::std_specs::convert::FromSpecImpl<u16> for AtomicU16 {
    open spec fn obeys_from_spec() -> bool {
        false
    }

    closed spec fn from_spec(v: u16) -> Self {
        vstd::pervasive::arbitrary()
    }
}

/// Shim of `std::sync::atomic::AtomicU32`.
#[derive(Debug)]
pub struct AtomicU32(std::sync::atomic::AtomicU32);

/// Calls `std::sync::atomic::AtomicU32::compare_exchange`. Its documentation promises that it stores
/// `new` exactly when the value equals `current`, and returns the previous
/// value: as `Ok` on success, which then equals `current`, and as `Err`
/// otherwise, which then differs from `current`.
#[verifier::external_body]
fn u32_compare_exchange(a: &std::sync::atomic::AtomicU32, current: u32, new: u32, success: Ordering, failure: Ordering) -> (r: Result<u32, u32>)
    requires
        load_ordering(failure),
    ensures
        match r {
            Ok(v) => v == current,
            Err(v) => v != current,
        },
{
    a.compare_exchange(current, new, success, failure)
}

/// Calls `std::sync::atomic::AtomicU32::into_inner`; nothing is stated of the value.
#[verifier::external_body]
fn u32_into_inner(a: std::sync::atomic::AtomicU32) -> u32 {
    a.into_inner()
}

/// Calls `std::sync::atomic::AtomicU32::get_mut`; nothing is stated of the value.
#[verifier::external_body]
fn u32_get_mut(a: &mut std::sync::atomic::AtomicU32) -> &mut u32 {
    a.get_mut()
}

/// Calls the deprecated `std::sync::atomic::AtomicU32::compare_and_swap`, which returns the previous
/// value; nothing is stated of it.
#[verifier::external_body]
#[allow(deprecated)]
fn u32_compare_and_swap(a: &std::sync::atomic::AtomicU32, current: u32, new: u32, order: Ordering) -> u32 {
    a.compare_and_swap(current, new, order)
}

/// Calls `std::sync::atomic::AtomicU32::fetch_update`, which applies `f` to the current value until
/// `f` answers `None` or a compare-exchange of its answer succeeds. Its
/// documentation promises `Ok(prev)` when `f` answered `Some` on `prev`, and
/// `Err(prev)` when `f` answered `None` on `prev`. std may call `f` on any
/// value that the atomic holds, so `f` must accept every value.
#[verifier::external_body]
fn u32_fetch_update<F>(a: &std::sync::atomic::AtomicU32, set_order: Ordering, fetch_order: Ordering, f: F) -> (r: Result<u32, u32>)
    where
        F: FnMut(u32) -> Option<u32>,
    requires
        load_ordering(fetch_order),
        forall|x: u32| call_requires(f, (x,)),
    ensures
        match r {
            Ok(v) => exists|x: u32| call_ensures(f, (v,), Some(x)),
            Err(v) => call_ensures(f, (v,), None),
        },
{
    a.fetch_update(set_order, fetch_order, f)
}

impl AtomicU32 {
    /// Creates a new instance of `AtomicU32`.
    pub fn new(v: u32) -> Self {
        AtomicU32(std::sync::atomic::AtomicU32::new(v))
    }

    /// Get access to a mutable reference to the inner value.
    pub fn get_mut(&mut self) -> &mut u32 {
        u32_get_mut(&mut self.0)
    }

    /// Consumes the atomic and returns the contained value.
    pub fn into_inner(self) -> u32 {
        u32_into_inner(self.0)
    }

    /// Loads a value from the atomic integer.
    pub fn load(&self, order: Ordering) -> u32
        requires
            load_ordering(order),
    {
        self.0.load(order)
    }

    /// Stores a value into the atomic integer.
    pub fn store(&self, val: u32, order: Ordering)
        requires
            store_ordering(order),
    {
        self.0.store(val, order)
    }

    /// Stores a value into the atomic integer, returning the previous value.
    pub fn swap(&self, val: u32, order: Ordering) -> u32 {
        self.0.swap(val, order)
    }

    /// Stores a value into the atomic integer if the current value is the same as the `current` value.
    pub fn compare_and_swap(&self, current: u32, new: u32, order: Ordering) -> u32 {
        u32_compare_and_swap(&self.0, current, new, order)
    }

    /// Stores a value into the atomic if the current value is the same as the
    /// `current` value; returns the previous value, as `Ok` exactly when it
    /// equals `current`.
    pub fn compare_exchange(&self, current: u32, new: u32, success: Ordering, failure: Ordering) -> (r: Result<u32, u32>)
        requires
            load_ordering(failure),
        ensures
            match r {
                Ok(v) => v == current,
                Err(v) => v != current,
            },
    {
        u32_compare_exchange(&self.0, current, new, success, failure)
    }

    /// Stores a value into the atomic if the current value is the same as the
    /// `current` value. Unlike the weak operation of std, it never fails
    /// spuriously: it fails only when the value differs from `current`.
    pub fn compare_exchange_weak(&self, current: u32, new: u32, success: Ordering, failure: Ordering) -> (r: Result<u32, u32>)
        requires
            load_ordering(failure),
        ensures
            match r {
                Ok(v) => v == current,
                Err(v) => v != current,
            },
    {
        self.compare_exchange(current, new, success, failure)
    }

    /// Adds to the current value, returning the previous value.
    pub fn fetch_add(&self, val: u32, order: Ordering) -> u32 {
        self.0.fetch_add(val, order)
    }

    /// Subtracts from the current value, returning the previous value.
    pub fn fetch_sub(&self, val: u32, order: Ordering) -> u32 {
        self.0.fetch_sub(val, order)
    }

    /// Bitwise "and" with the current value.
    pub fn fetch_and(&self, val: u32, order: Ordering) -> u32 {
        self.0.fetch_and(val, order)
    }

    /// Bitwise "nand" with the current value.
    pub fn fetch_nand(&self, val: u32, order: Ordering) -> u32 {
        self.0.fetch_nand(val, order)
    }

    /// Bitwise "or" with the current value.
    pub fn fetch_or(&self, val: u32, order: Ordering) -> u32 {
        self.0.fetch_or(val, order)
    }

    /// Bitwise "xor" with the current value.
    pub fn fetch_xor(&self, val: u32, order: Ordering) -> u32 {
        self.0.fetch_xor(val, order)
    }

    /// Stores the maximum of the current and provided value, returning the previous value.
    pub fn fetch_max(&self, val: u32, order: Ordering) -> u32 {
        self.0.fetch_max(val, order)
    }

    /// Stores the minimum of the current and provided value, returning the previous value.
    pub fn fetch_min(&self, val: u32, order: Ordering) -> u32 {
        self.0.fetch_min(val, order)
    }

    /// Fetches the value, and applies a function to it that returns an optional new value:
    /// `Ok(prev)` when the function answered `Some` on `prev`, `Err(prev)` when it answered `None`.
    /// The function may be called on any value, so it must accept every value.
    pub fn fetch_update<F>(&self, set_order: Ordering, fetch_order: Ordering, f: F) -> (r: Result<u32, u32>)
        where
            F: FnMut(u32) -> Option<u32>,
        requires
            load_ordering(fetch_order),
            forall|x: u32| call_requires(f, (x,)),
        ensures
            match r {
                Ok(v) => exists|x: u32| call_ensures(f, (v,), Some(x)),
                Err(v) => call_ensures(f, (v,), None),
            },
    {
        u32_fetch_update(&self.0, set_order, fetch_order, f)
    }
}

impl Default for AtomicU32 {
    fn default() -> Self {
        Self::new(0)
    }
}

impl From<u32> for AtomicU32 {
    fn from(v: u32) -> Self {
        Self::new(v)
    }
}

/// The value of a fresh atomic is not observable in contracts, so `from`
/// promises nothing beyond creating the atomic.
impl vstd::std_specs::convert::FromSpecImpl<u32> for AtomicU32 {
    open spec fn obeys_from_spec() -> bool {
        false
    }

    closed spec fn from_spec(v: u32) -> Self {
        vstd::pervasive::arbitrary()
    }
}

/// Shim of `std::sync::atomic::AtomicU64`.
#[derive(Debug)]
pub struct AtomicU64(std::sync::atomic::AtomicU64);

/// Calls `std::sync::atomic::AtomicU64::compare_exchange`. Its documentation promises that it stores
/// `new` exactly when the value equals `current`, and returns the previous
/// value: as `Ok` on success, which then equals `current`, and as `Err`
/// otherwise, which then differs from `current`.
#[verifier::external_body]
fn u64_compare_exchange(a: &std::sync::atomic::AtomicU64, current: u64, new: u64, success: Ordering, failure: Ordering) -> (r: Result<u64, u64>)
    requires
        load_ordering(failure),
    ensures
        match r {
            Ok(v) => v == current,
            Err(v) => v != current,
        },
{
    a.compare_exchange(current, new, success, failure)
}

/// Calls `std::sync::atomic::AtomicU64::into_inner`; nothing is stated of the value.
#[verifier::external_body]
fn u64_into_inner(a: std::sync::atomic::AtomicU64) -> u64 {
    a.into_inner()
}

/// Calls `std::sync::atomic::AtomicU64::get_mut`; nothing is stated of the value.
#[verifier::external_body]
fn u64_get_mut(a: &mut std::sync::atomic::AtomicU64) -> &mut u64 {
    a.get_mut()
}

/// Calls the deprecated `std::sync::atomic::AtomicU64::compare_and_swap`, which returns the previous
/// value; nothing is stated of it.
#[verifier::external_body]
#[allow(deprecated)]
fn u64_compare_and_swap(a: &std::sync::atomic::AtomicU64, current: u64, new: u64, order: Ordering) -> u64 {
    a.compare_and_swap(current, new, order)
}

/// Calls `std::sync::atomic::AtomicU64::fetch_update`, which applies `f` to the current value until
/// `f` answers `None` or a compare-exchange of its answer succeeds. Its
/// documentation promises `Ok(prev)` when `f` answered `Some` on `prev`, and
/// `Err(prev)` when `f` answered `None` on `prev`. std may call `f` on any
/// value that the atomic holds, so `f` must accept every value.
#[verifier::external_body]
fn u64_fetch_update<F>(a: &std::sync::atomic::AtomicU64, set_order: Ordering, fetch_order: Ordering, f: F) -> (r: Result<u64, u64>)
    where
        F: FnMut(u64) -> Option<u64>,
    requires
        load_ordering(fetch_order),
        forall|x: u64| call_requires(f, (x,)),
    ensures
        match r {
            Ok(v) => exists|x: u64| call_ensures(f, (v,), Some(x)),
            Err(v) => call_ensures(f, (v,), None),
        },
{
    a.fetch_update(set_order, fetch_order, f)
}

impl AtomicU64 {
    /// Creates a new instance of `AtomicU64`.
    pub fn new(v: u64) -> Self {
        AtomicU64(std::sync::atomic::AtomicU64::new(v))
    }

    /// Get access to a mutable reference to the inner value.
    pub fn get_mut(&mut self) -> &mut u64 {
        u64_get_mut(&mut self.0)
    }

    /// Consumes the atomic and returns the contained value.
    pub fn into_inner(self) -> u64 {
        u64_into_inner(self.0)
    }

    /// Loads a value from the atomic integer.
    pub fn load(&self, order: Ordering) -> u64
        requires
            load_ordering(order),
    {
        self.0.load(order)
    }

    /// Stores a value into the atomic integer.
    pub fn store(&self, val: u64, order: Ordering)
        requires
            store_ordering(order),
    {
        self.0.store(val, order)
    }

    /// Stores a value into the atomic integer, returning the previous value.
    pub fn swap(&self, val: u64, order: Ordering) -> u64 {
        self.0.swap(val, order)
    }

    /// Stores a value into the atomic integer if the current value is the same as the `current` value.
    pub fn compare_and_swap(&self, current: u64, new: u64, order: Ordering) -> u64 {
        u64_compare_and_swap(&self.0, current, new, order)
    }

    /// Stores a value into the atomic if the current value is the same as the
    /// `current` value; returns the previous value, as `Ok` exactly when it
    /// equals `current`.
    pub fn compare_exchange(&self, current: u64, new: u64, success: Ordering, failure: Ordering) -> (r: Result<u64, u64>)
        requires
            load_ordering(failure),
        ensures
            match r {
                Ok(v) => v == current,
                Err(v) => v != current,
            },
    {
        u64_compare_exchange(&self.0, current, new, success, failure)
    }

    /// Stores a value into the atomic if the current value is the same as the
    /// `current` value. Unlike the weak operation of std, it never fails
    /// spuriously: it fails only when the value differs from `current`.
    pub fn compare_exchange_weak(&self, current: u64, new: u64, success: Ordering, failure: Ordering) -> (r: Result<u64, u64>)
        requires
            load_ordering(failure),
        ensures
            match r {
                Ok(v) => v == current,
                Err(v) => v != current,
            },
    {
        self.compare_exchange(current, new, success, failure)
    }

    /// Adds to the current value, returning the previous value.
    pub fn fetch_add(&self, val: u64, order: Ordering) -> u64 {
        self.0.fetch_add(val, order)
    }

    /// Subtracts from the current value, returning the previous value.
    pub fn fetch_sub(&self, val: u64, order: Ordering) -> u64 {
        self.0.fetch_sub(val, order)
    }

    /// Bitwise "and" with the current value.
    pub fn fetch_and(&self, val: u64, order: Ordering) -> u64 {
        self.0.fetch_and(val, order)
    }

    /// Bitwise "nand" with the current value.
    pub fn fetch_nand(&self, val: u64, order: Ordering) -> u64 {
        self.0.fetch_nand(val, order)
    }

    /// Bitwise "or" with the current value.
    pub fn fetch_or(&self, val: u64, order: Ordering) -> u64 {
        self.0.fetch_or(val, order)
    }

    /// Bitwise "xor" with the current value.
    pub fn fetch_xor(&self, val: u64, order: Ordering) -> u64 {
        self.0.fetch_xor(val, order)
    }

    /// Stores the maximum of the current and provided value, returning the previous value.
    pub fn fetch_max(&self, val: u64, order: Ordering) -> u64 {
        self.0.fetch_max(val, order)
    }

    /// Stores the minimum of the current and provided value, returning the previous value.
    pub fn fetch_min(&self, val: u64, order: Ordering) -> u64 {
        self.0.fetch_min(val, order)
    }

    /// Fetches the value, and applies a function to it that returns an optional new value:
    /// `Ok(prev)` when the function answered `Some` on `prev`, `Err(prev)` when it answered `None`.
    /// The function may be called on any value, so it must accept every value.
    pub fn fetch_update<F>(&self, set_order: Ordering, fetch_order: Ordering, f: F) -> (r: Result<u64, u64>)
        where
            F: FnMut(u64) -> Option<u64>,
        requires
            load_ordering(fetch_order),
            forall|x: u64| call_requires(f, (x,)),
        ensures
            match r {
                Ok(v) => exists|x: u64| call_ensures(f, (v,), Some(x)),
                Err(v) => call_ensures(f, (v,), None),
            },
    {
        u64_fetch_update(&self.0, set_order, fetch_order, f)
    }
}

impl Default for AtomicU64 {
    fn default() -> Self {
        Self::new(0)
    }
}

impl From<u64> for AtomicU64 {
    fn from(v: u64) -> Self {
        Self::new(v)
    }
}

/// The value of a fresh atomic is not observable in contracts, so `from`
/// promises nothing beyond creating the atomic.
impl vstd::std_specs::convert::FromSpecImpl<u64> for AtomicU64 {
    open spec fn obeys_from_spec() -> bool {
        false
    }

    closed spec fn from_spec(v: u64) -> Self {
        vstd::pervasive::arbitrary()
    }
}

/// Shim of `std::sync::atomic::AtomicUsize`.
#[derive(Debug)]
pub struct AtomicUsize(std::sync::atomic::AtomicUsize);

/// Calls `std::sync::atomic::AtomicUsize::compare_exchange`. Its documentation promises that it stores
/// `new` exactly when the value equals `current`, and returns the previous
/// value: as `Ok` on success, which then equals `current`, and as `Err`
/// otherwise, which then differs from `current`.
#[verifier::external_body]
fn usize_compare_exchange(a: &std::sync::atomic::AtomicUsize, current: usize, new: usize, success: Ordering, failure: Ordering) -> (r: Result<usize, usize>)
    requires
        load_ordering(failure),
    ensures
        match r {
            Ok(v) => v == current,
            Err(v) => v != current,
        },
{
    a.compare_exchange(current, new, success, failure)
}

/// Calls `std::sync::atomic::AtomicUsize::into_inner`; nothing is stated of the value.
#[verifier::external_body]
fn usize_into_inner(a: std::sync::atomic::AtomicUsize) -> usize {
    a.into_inner()
}

/// Calls `std::sync::atomic::AtomicUsize::get_mut`; nothing is stated of the value.
#[verifier::external_body]
fn usize_get_mut(a: &mut std::sync::atomic::AtomicUsize) -> &mut usize {
    a.get_mut()
}

/// Calls the deprecated `std::sync::atomic::AtomicUsize::compare_and_swap`, which returns the previous
/// value; nothing is stated of it.
#[verifier::external_body]
#[allow(deprecated)]
fn usize_compare_and_swap(a: &std::sync::atomic::AtomicUsize, current: usize, new: usize, order: Ordering) -> usize {
    a.compare_and_swap(current, new, order)
}

/// Calls `std::sync::atomic::AtomicUsize::fetch_update`, which applies `f` to the current value until
/// `f` answers `None` or a compare-exchange of its answer succeeds. Its
/// documentation promises `Ok(prev)` when `f` answered `Some` on `prev`, and
/// `Err(prev)` when `f` answered `None` on `prev`. std may call `f` on any
/// value that the atomic holds, so `f` must accept every value.
#[verifier::external_body]
fn usize_fetch_update<F>(a: &std::sync::atomic::AtomicUsize, set_order: Ordering, fetch_order: Ordering, f: F) -> (r: Result<usize, usize>)
    where
        F: FnMut(usize) -> Option<usize>,
    requires
        load_ordering(fetch_order),
        forall|x: usize| call_requires(f, (x,)),
    ensures
        match r {
            Ok(v) => exists|x: usize| call_ensures(f, (v,), Some(x)),
            Err(v) => call_ensures(f, (v,), None),
        },
{
    a.fetch_update(set_order, fetch_order, f)
}

impl AtomicUsize {
    /// Creates a new instance of `AtomicUsize`.
    pub fn new(v: usize) -> Self {
        AtomicUsize(std::sync::atomic::AtomicUsize::new(v))
    }

    /// Get access to a mutable reference to the inner value.
    pub fn get_mut(&mut self) -> &mut usize {
        usize_get_mut(&mut self.0)
    }

    /// Consumes the atomic and returns the contained value.
    pub fn into_inner(self) -> usize {
        usize_into_inner(self.0)
    }

    /// Loads a value from the atomic integer.
    pub fn load(&self, order: Ordering) -> usize
        requires
            load_ordering(order),
    {
        self.0.load(order)
    }

    /// Stores a value into the atomic integer.
    pub fn store(&self, val: usize, order: Ordering)
        requires
            store_ordering(order),
    {
        self.0.store(val, order)
    }

    /// Stores a value into the atomic integer, returning the previous value.
    pub fn swap(&self, val: usize, order: Ordering) -> usize {
        self.0.swap(val, order)
    }

    /// Stores a value into the atomic integer if the current value is the same as the `current` value.
    pub fn compare_and_swap(&self, current: usize, new: usize, order: Ordering) -> usize {
        usize_compare_and_swap(&self.0, current, new, order)
    }

    /// Stores a value into the atomic if the current value is the same as the
    /// `current` value; returns the previous value, as `Ok` exactly when it
    /// equals `current`.
    pub fn compare_exchange(&self, current: usize, new: usize, success: Ordering, failure: Ordering) -> (r: Result<usize, usize>)
        requires
            load_ordering(failure),
        ensures
            match r {
                Ok(v) => v == current,
                Err(v) => v != current,
            },
    {
        usize_compare_exchange(&self.0, current, new, success, failure)
    }

    /// Stores a value into the atomic if the current value is the same as the
    /// `current` value. Unlike the weak operation of std, it never fails
    /// spuriously: it fails only when the value differs from `current`.
    pub fn compare_exchange_weak(&self, current: usize, new: usize, success: Ordering, failure: Ordering) -> (r: Result<usize, usize>)
        requires
            load_ordering(failure),
        ensures
            match r {
                Ok(v) => v == current,
                Err(v) => v != current,
            },
    {
        self.compare_exchange(current, new, success, failure)
    }

    /// Adds to the current value, returning the previous value.
    pub fn fetch_add(&self, val: usize, order: Ordering) -> usize {
        self.0.fetch_add(val, order)
    }

    /// Subtracts from the current value, returning the previous value.
    pub fn fetch_sub(&self, val: usize, order: Ordering) -> usize {
        self.0.fetch_sub(val, order)
    }

    /// Bitwise "and" with the current value.
    pub fn fetch_and(&self, val: usize, order: Ordering) -> usize {
        self.0.fetch_and(val, order)
    }

    /// Bitwise "nand" with the current value.
    pub fn fetch_nand(&self, val: usize, order: Ordering) -> usize {
        self.0.fetch_nand(val, order)
    }

    /// Bitwise "or" with the current value.
    pub fn fetch_or(&self, val: usize, order: Ordering) -> usize {
        self.0.fetch_or(val, order)
    }

    /// Bitwise "xor" with the current value.
    pub fn fetch_xor(&self, val: usize, order: Ordering) -> usize {
        self.0.fetch_xor(val, order)
    }

    /// Stores the maximum of the current and provided value, returning the previous value.
    pub fn fetch_max(&self, val: usize, order: Ordering) -> usize {
        self.0.fetch_max(val, order)
    }

    /// Stores the minimum of the current and provided value, returning the previous value.
    pub fn fetch_min(&self, val: usize, order: Ordering) -> usize {
        self.0.fetch_min(val, order)
    }

    /// Fetches the value, and applies a function to it that returns an optional new value:
    /// `Ok(prev)` when the function answered `Some` on `prev`, `Err(prev)` when it answered `None`.
    /// The function may be called on any value, so it must accept every value.
    pub fn fetch_update<F>(&self, set_order: Ordering, fetch_order: Ordering, f: F) -> (r: Result<usize, usize>)
        where
            F: FnMut(usize) -> Option<usize>,
        requires
            load_ordering(fetch_order),
            forall|x: usize| call_requires(f, (x,)),
        ensures
            match r {
                Ok(v) => exists|x: usize| call_ensures(f, (v,), Some(x)),
                Err(v) => call_ensures(f, (v,), None),
            },
    {
        usize_fetch_update(&self.0, set_order, fetch_order, f)
    }
}

impl Default for AtomicUsize {
    fn default() -> Self {
        Self::new(0)
    }
}

impl From<usize> for AtomicUsize {
    fn from(v: usize) -> Self {
        Self::new(v)
    }
}

/// The value of a fresh atomic is not observable in contracts, so `from`
/// promises nothing beyond creating the atomic.
impl vstd::std_specs::convert::FromSpecImpl<usize> for AtomicUsize {
    open spec fn obeys_from_spec() -> bool {
        false
    }

    closed spec fn from_spec(v: usize) -> Self {
        vstd::pervasive::arbitrary()
    }
}

/// Shim of `std::sync::atomic::AtomicI8`.
#[derive(Debug)]
pub struct AtomicI8(std::sync::atomic::AtomicI8);

/// Calls `std::sync::atomic::AtomicI8::compare_exchange`. Its documentation promises that it stores
/// `new` exactly when the value equals `current`, and returns the previous
/// value: as `Ok` on success, which then equals `current`, and as `Err`
/// otherwise, which then differs from `current`.
#[verifier::external_body]
fn i8_compare_exchange(a: &std::sync::atomic::AtomicI8, current: i8, new: i8, success: Ordering, failure: Ordering) -> (r: Result<i8, i8>)
    requires
        load_ordering(failure),
    ensures
        match r {
            Ok(v) => v == current,
            Err(v) => v != current,
        },
{
    a.compare_exchange(current, new, success, failure)
}

/// Calls `std::sync::atomic::AtomicI8::into_inner`; nothing is stated of the value.
#[verifier::external_body]
fn i8_into_inner(a: std::sync::atomic::AtomicI8) -> i8 {
    a.into_inner()
}

/// Calls `std::sync::atomic::AtomicI8::get_mut`; nothing is stated of the value.
#[verifier::external_body]
fn i8_get_mut(a: &mut std::sync::atomic::AtomicI8) -> &mut i8 {
    a.get_mut()
}

/// Calls the deprecated `std::sync::atomic::AtomicI8::compare_and_swap`, which returns the previous
/// value; nothing is stated of it.
#[verifier::external_body]
#[allow(deprecated)]
fn i8_compare_and_swap(a: &std::sync::atomic::AtomicI8, current: i8, new: i8, order: Ordering) -> i8 {
    a.compare_and_swap(current, new, order)
}

/// Calls `std::sync::atomic::AtomicI8::fetch_update`, which applies `f` to the current value until
/// `f` answers `None` or a compare-exchange of its answer succeeds. Its
/// documentation promises `Ok(prev)` when `f` answered `Some` on `prev`, and
/// `Err(prev)` when `f` answered `None` on `prev`. std may call `f` on any
/// value that the atomic holds, so `f` must accept every value.
#[verifier::external_body]
fn i8_fetch_update<F>(a: &std::sync::atomic::AtomicI8, set_order: Ordering, fetch_order: Ordering, f: F) -> (r: Result<i8, i8>)
    where
        F: FnMut(i8) -> Option<i8>,
    requires
        load_ordering(fetch_order),
        forall|x: i8| call_requires(f, (x,)),
    ensures
        match r {
            Ok(v) => exists|x: i8| call_ensures(f, (v,), Some(x)),
            Err(v) => call_ensures(f, (v,), None),
        },
{
    a.fetch_update(set_order, fetch_order, f)
}

impl AtomicI8 {
    /// Creates a new instance of `AtomicI8`.
    pub fn new(v: i8) -> Self {
        AtomicI8(std::sync::atomic::AtomicI8::new(v))
    }

    /// Get access to a mutable reference to the inner value.
    pub fn get_mut(&mut self) -> &mut i8 {
        i8_get_mut(&mut self.0)
    }

    /// Consumes the atomic and returns the contained value.
    pub fn into_inner(self) -> i8 {
        i8_into_inner(self.0)
    }

    /// Loads a value from the atomic integer.
    pub fn load(&self, order: Ordering) -> i8
        requires
            load_ordering(order),
    {
        self.0.load(order)
    }

    /// Stores a value into the atomic integer.
    pub fn store(&self, val: i8, order: Ordering)
        requires
            store_ordering(order),
    {
        self.0.store(val, order)
    }

    /// Stores a value into the atomic integer, returning the previous value.
    pub fn swap(&self, val: i8, order: Ordering) -> i8 {
        self.0.swap(val, order)
    }

    /// Stores a value into the atomic integer if the current value is the same as the `current` value.
    pub fn compare_and_swap(&self, current: i8, new: i8, order: Ordering) -> i8 {
        i8_compare_and_swap(&self.0, current, new, order)
    }

    /// Stores a value into the atomic if the current value is the same as the
    /// `current` value; returns the previous value, as `Ok` exactly when it
    /// equals `current`.
    pub fn compare_exchange(&self, current: i8, new: i8, success: Ordering, failure: Ordering) -> (r: Result<i8, i8>)
        requires
            load_ordering(failure),
        ensures
            match r {
                Ok(v) => v == current,
                Err(v) => v != current,
            },
    {
        i8_compare_exchange(&self.0, current, new, success, failure)
    }

    /// Stores a value into the atomic if the current value is the same as the
    /// `current` value. Unlike the weak operation of std, it never fails
    /// spuriously: it fails only when the value differs from `current`.
    pub fn compare_exchange_weak(&self, current: i8, new: i8, success: Ordering, failure: Ordering) -> (r: Result<i8, i8>)
        requires
            load_ordering(failure),
        ensures
            match r {
                Ok(v) => v == current,
                Err(v) => v != current,
            },
    {
        self.compare_exchange(current, new, success, failure)
    }

    /// Adds to the current value, returning the previous value.
    pub fn fetch_add(&self, val: i8, order: Ordering) -> i8 {
        self.0.fetch_add(val, order)
    }

    /// Subtracts from the current value, returning the previous value.
    pub fn fetch_sub(&self, val: i8, order: Ordering) -> i8 {
        self.0.fetch_sub(val, order)
    }

    /// Bitwise "and" with the current value.
    pub fn fetch_and(&self, val: i8, order: Ordering) -> i8 {
        self.0.fetch_and(val, order)
    }

    /// Bitwise "nand" with the current value.
    pub fn fetch_nand(&self, val: i8, order: Ordering) -> i8 {
        self.0.fetch_nand(val, order)
    }

    /// Bitwise "or" with the current value.
    pub fn fetch_or(&self, val: i8, order: Ordering) -> i8 {
        self.0.fetch_or(val, order)
    }

    /// Bitwise "xor" with the current value.
    pub fn fetch_xor(&self, val: i8, order: Ordering) -> i8 {
        self.0.fetch_xor(val, order)
    }

    /// Stores the maximum of the current and provided value, returning the previous value.
    pub fn fetch_max(&self, val: i8, order: Ordering) -> i8 {
        self.0.fetch_max(val, order)
    }

    /// Stores the minimum of the current and provided value, returning the previous value.
    pub fn fetch_min(&self, val: i8, order: Ordering) -> i8 {
        self.0.fetch_min(val, order)
    }

    /// Fetches the value, and applies a function to it that returns an optional new value:
    /// `Ok(prev)` when the function answered `Some` on `prev`, `Err(prev)` when it answered `None`.
    /// The function may be called on any value, so it must accept every value.
    pub fn fetch_update<F>(&self, set_order: Ordering, fetch_order: Ordering, f: F) -> (r: Result<i8, i8>)
        where
            F: FnMut(i8) -> Option<i8>,
        requires
            load_ordering(fetch_order),
            forall|x: i8| call_requires(f, (x,)),
        ensures
            match r {
                Ok(v) => exists|x: i8| call_ensures(f, (v,), Some(x)),
                Err(v) => call_ensures(f, (v,), None),
            },
    {
        i8_fetch_update(&self.0, set_order, fetch_order, f)
    }
}

impl Default for AtomicI8 {
    fn default() -> Self {
        Self::new(0)
    }
}

impl From<i8> for AtomicI8 {
    fn from(v: i8) -> Self {
        Self::new(v)
    }
}

/// The value of a fresh atomic is not observable in contracts, so `from`
/// promises nothing beyond creating the atomic.
impl vstd::std_specs::convert::FromSpecImpl<i8> for AtomicI8 {
    open spec fn obeys_from_spec() -> bool {
        false
    }

    closed spec fn from_spec(v: i8) -> Self {
        vstd::pervasive::arbitrary()
    }
}

/// Shim of `std::sync::atomic::AtomicI16`.
#[derive(Debug)]
pub struct AtomicI16(std::sync::atomic::AtomicI16);

/// Calls `std::sync::atomic::AtomicI16::compare_exchange`. Its documentation promises that it stores
/// `new` exactly when the value equals `current`, and returns the previous
/// value: as `Ok` on success, which then equals `current`, and as `Err`
/// otherwise, which then differs from `current`.
#[verifier::external_body]
fn i16_compare_exchange(a: &std::sync::atomic::AtomicI16, current: i16, new: i16, success: Ordering, failure: Ordering) -> (r: Result<i16, i16>)
    requires
        load_ordering(failure),
    ensures
        match r {
            Ok(v) => v == current,
            Err(v) => v != current,
        },
{
    a.compare_exchange(current, new, success, failure)
}

/// Calls `std::sync::atomic::AtomicI16::into_inner`; nothing is stated of the value.
#[verifier::external_body]
fn i16_into_inner(a: std::sync::atomic::AtomicI16) -> i16 {
    a.into_inner()
}

/// Calls `std::sync::atomic::AtomicI16::get_mut`; nothing is stated of the value.
#[verifier::external_body]
fn i16_get_mut(a: &mut std::sync::atomic::AtomicI16) -> &mut i16 {
    a.get_mut()
}

/// Calls the deprecated `std::sync::atomic::AtomicI16::compare_and_swap`, which returns the previous
/// value; nothing is stated of it.
#[verifier::external_body]
#[allow(deprecated)]
fn i16_compare_and_swap(a: &std::sync::atomic::AtomicI16, current: i16, new: i16, order: Ordering) -> i16 {
    a.compare_and_swap(current, new, order)
}

/// Calls `std::sync::atomic::AtomicI16::fetch_update`, which applies `f` to the current value until
/// `f` answers `None` or a compare-exchange of its answer succeeds. Its
/// documentation promises `Ok(prev)` when `f` answered `Some` on `prev`, and
/// `Err(prev)` when `f` answered `None` on `prev`. std may call `f` on any
/// value that the atomic holds, so `f` must accept every value.
#[verifier::external_body]
fn i16_fetch_update<F>(a: &std::sync::atomic::AtomicI16, set_order: Ordering, fetch_order: Ordering, f: F) -> (r: Result<i16, i16>)
    where
        F: FnMut(i16) -> Option<i16>,
    requires
        load_ordering(fetch_order),
        forall|x: i16| call_requires(f, (x,)),
    ensures
        match r {
            Ok(v) => exists|x: i16| call_ensures(f, (v,), Some(x)),
            Err(v) => call_ensures(f, (v,), None),
        },
{
    a.fetch_update(set_order, fetch_order, f)
}

impl AtomicI16 {
    /// Creates a new instance of `AtomicI16`.
    pub fn new(v: i16) -> Self {
        AtomicI16(std::sync::atomic::AtomicI16::new(v))
    }

    /// Get access to a mutable reference to the inner value.
    pub fn get_mut(&mut self) -> &mut i16 {
        i16_get_mut(&mut self.0)
    }

    /// Consumes the atomic and returns the contained value.
    pub fn into_inner(self) -> i16 {
        i16_into_inner(self.0)
    }

    /// Loads a value from the atomic integer.
    pub fn load(&self, order: Ordering) -> i16
        requires
            load_ordering(order),
    {
        self.0.load(order)
    }

    /// Stores a value into the atomic integer.
    pub fn store(&self, val: i16, order: Ordering)
        requires
            store_ordering(order),
    {
        self.0.store(val, order)
    }

    /// Stores a value into the atomic integer, returning the previous value.
    pub fn swap(&self, val: i16, order: Ordering) -> i16 {
        self.0.swap(val, order)
    }

    /// Stores a value into the atomic integer if the current value is the same as the `current` value.
    pub fn compare_and_swap(&self, current: i16, new: i16, order: Ordering) -> i16 {
        i16_compare_and_swap(&self.0, current, new, order)
    }

    /// Stores a value into the atomic if the current value is the same as the
    /// `current` value; returns the previous value, as `Ok` exactly when it
    /// equals `current`.
    pub fn compare_exchange(&self, current: i16, new: i16, success: Ordering, failure: Ordering) -> (r: Result<i16, i16>)
        requires
            load_ordering(failure),
        ensures
            match r {
                Ok(v) => v == current,
                Err(v) => v != current,
            },
    {
        i16_compare_exchange(&self.0, current, new, success, failure)
    }

    /// Stores a value into the atomic if the current value is the same as the
    /// `current` value. Unlike the weak operation of std, it never fails
    /// spuriously: it fails only when the value differs from `current`.
    pub fn compare_exchange_weak(&self, current: i16, new: i16, success: Ordering, failure: Ordering) -> (r: Result<i16, i16>)
        requires
            load_ordering(failure),
        ensures
            match r {
                Ok(v) => v == current,
                Err(v) => v != current,
            },
    {
        self.compare_exchange(current, new, success, failure)
    }

    /// Adds to the current value, returning the previous value.
    pub fn fetch_add(&self, val: i16, order: Ordering) -> i16 {
        self.0.fetch_add(val, order)
    }

    /// Subtracts from the current value, returning the previous value.
    pub fn fetch_sub(&self, val: i16, order: Ordering) -> i16 {
        self.0.fetch_sub(val, order)
    }

    /// Bitwise "and" with the current value.
    pub fn fetch_and(&self, val: i16, order: Ordering) -> i16 {
        self.0.fetch_and(val, order)
    }

    /// Bitwise "nand" with the current value.
    pub fn fetch_nand(&self, val: i16, order: Ordering) -> i16 {
        self.0.fetch_nand(val, order)
    }

    /// Bitwise "or" with the current value.
    pub fn fetch_or(&self, val: i16, order: Ordering) -> i16 {
        self.0.fetch_or(val, order)
    }

    /// Bitwise "xor" with the current value.
    pub fn fetch_xor(&self, val: i16, order: Ordering) -> i16 {
        self.0.fetch_xor(val, order)
    }

    /// Stores the maximum of the current and provided value, returning the previous value.
    pub fn fetch_max(&self, val: i16, order: Ordering) -> i16 {
        self.0.fetch_max(val, order)
    }

    /// Stores the minimum of the current and provided value, returning the previous value.
    pub fn fetch_min(&self, val: i16, order: Ordering) -> i16 {
        self.0.fetch_min(val, order)
    }

    /// Fetches the value, and applies a function to it that returns an optional new value:
    /// `Ok(prev)` when the function answered `Some` on `prev`, `Err(prev)` when it answered `None`.
    /// The function may be called on any value, so it must accept every value.
    pub fn fetch_update<F>(&self, set_order: Ordering, fetch_order: Ordering, f: F) -> (r: Result<i16, i16>)
        where
            F: FnMut(i16) -> Option<i16>,
        requires
            load_ordering(fetch_order),
            forall|x: i16| call_requires(f, (x,)),
        ensures
            match r {
                Ok(v) => exists|x: i16| call_ensures(f, (v,), Some(x)),
                Err(v) => call_ensures(f, (v,), None),
            },
    {
        i16_fetch_update(&self.0, set_order, fetch_order, f)
    }
}

impl Default for AtomicI16 {
    fn default() -> Self {
        Self::new(0)
    }
}

impl From<i16> for AtomicI16 {
    fn from(v: i16) -> Self {
        Self::new(v)
    }
}

/// The value of a fresh atomic is not observable in contracts, so `from`
/// promises nothing beyond creating the atomic.
impl vstd::std_specs::convert::FromSpecImpl<i16> for AtomicI16 {
    open spec fn obeys_from_spec() -> bool {
        false
    }

    closed spec fn from_spec(v: i16) -> Self {
        vstd::pervasive::arbitrary()
    }
}

/// Shim of `std::sync::atomic::AtomicI32`.
#[derive(Debug)]
pub struct AtomicI32(std::sync::atomic::AtomicI32);

/// Calls `std::sync::atomic::AtomicI32::compare_exchange`. Its documentation promises that it stores
/// `new` exactly when the value equals `current`, and returns the previous
/// value: as `Ok` on success, which then equals `current`, and as `Err`
/// otherwise, which then differs from `current`.
#[verifier::external_body]
fn i32_compare_exchange(a: &std::sync::atomic::AtomicI32, current: i32, new: i32, success: Ordering, failure: Ordering) -> (r: Result<i32, i32>)
    requires
        load_ordering(failure),
    ensures
        match r {
            Ok(v) => v == current,
            Err(v) => v != current,
        },
{
    a.compare_exchange(current, new, success, failure)
}

/// Calls `std::sync::atomic::AtomicI32::into_inner`; nothing is stated of the value.
#[verifier::external_body]
fn i32_into_inner(a: std::sync::atomic::AtomicI32) -> i32 {
    a.into_inner()
}

/// Calls `std::sync::atomic::AtomicI32::get_mut`; nothing is stated of the value.
#[verifier::external_body]
fn i32_get_mut(a: &mut std::sync::atomic::AtomicI32) -> &mut i32 {
    a.get_mut()
}

/// Calls the deprecated `std::sync::atomic::AtomicI32::compare_and_swap`, which returns the previous
/// value; nothing is stated of it.
#[verifier::external_body]
#[allow(deprecated)]
fn i32_compare_and_swap(a: &std::sync::atomic::AtomicI32, current: i32, new: i32, order: Ordering) -> i32 {
    a.compare_and_swap(current, new, order)
}

/// Calls `std::sync::atomic::AtomicI32::fetch_update`, which applies `f` to the current value until
/// `f` answers `None` or a compare-exchange of its answer succeeds. Its
/// documentation promises `Ok(prev)` when `f` answered `Some` on `prev`, and
/// `Err(prev)` when `f` answered `None` on `prev`. std may call `f` on any
/// value that the atomic holds, so `f` must accept every value.
#[verifier::external_body]
fn i32_fetch_update<F>(a: &std::sync::atomic::AtomicI32, set_order: Ordering, fetch_order: Ordering, f: F) -> (r: Result<i32, i32>)
    where
        F: FnMut(i32) -> Option<i32>,
    requires
        load_ordering(fetch_order),
        forall|x: i32| call_requires(f, (x,)),
    ensures
        match r {
            Ok(v) => exists|x: i32| call_ensures(f, (v,), Some(x)),
            Err(v) => call_ensures(f, (v,), None),
        },
{
    a.fetch_update(set_order, fetch_order, f)
}

impl AtomicI32 {
    /// Creates a new instance of `AtomicI32`.
    pub fn new(v: i32) -> Self {
        AtomicI32(std::sync::atomic::AtomicI32::new(v))
    }

    /// Get access to a mutable reference to the inner value.
    pub fn get_mut(&mut self) -> &mut i32 {
        i32_get_mut(&mut self.0)
    }

    /// Consumes the atomic and returns the contained value.
    pub fn into_inner(self) -> i32 {
        i32_into_inner(self.0)
    }

    /// Loads a value from the atomic integer.
    pub fn load(&self, order: Ordering) -> i32
        requires
            load_ordering(order),
    {
        self.0.load(order)
    }

    /// Stores a value into the atomic integer.
    pub fn store(&self, val: i32, order: Ordering)
        requires
            store_ordering(order),
    {
        self.0.store(val, order)
    }

    /// Stores a value into the atomic integer, returning the previous value.
    pub fn swap(&self, val: i32, order: Ordering) -> i32 {
        self.0.swap(val, order)
    }

    /// Stores a value into the atomic integer if the current value is the same as the `current` value.
    pub fn compare_and_swap(&self, current: i32, new: i32, order: Ordering) -> i32 {
        i32_compare_and_swap(&self.0, current, new, order)
    }

    /// Stores a value into the atomic if the current value is the same as the
    /// `current` value; returns the previous value, as `Ok` exactly when it
    /// equals `current`.
    pub fn compare_exchange(&self, current: i32, new: i32, success: Ordering, failure: Ordering) -> (r: Result<i32, i32>)
        requires
            load_ordering(failure),
        ensures
            match r {
                Ok(v) => v == current,
                Err(v) => v != current,
            },
    {
        i32_compare_exchange(&self.0, current, new, success, failure)
    }

    /// Stores a value into the atomic if the current value is the same as the
    /// `current` value. Unlike the weak operation of std, it never fails
    /// spuriously: it fails only when the value differs from `current`.
    pub fn compare_exchange_weak(&self, current: i32, new: i32, success: Ordering, failure: Ordering) -> (r: Result<i32, i32>)
        requires
            load_ordering(failure),
        ensures
            match r {
                Ok(v) => v == current,
                Err(v) => v != current,
            },
    {
        self.compare_exchange(current, new, success, failure)
    }

    /// Adds to the current value, returning the previous value.
    pub fn fetch_add(&self, val: i32, order: Ordering) -> i32 {
        self.0.fetch_add(val, order)
    }

    /// Subtracts from the current value, returning the previous value.
    pub fn fetch_sub(&self, val: i32, order: Ordering) -> i32 {
        self.0.fetch_sub(val, order)
    }

    /// Bitwise "and" with the current value.
    pub fn fetch_and(&self, val: i32, order: Ordering) -> i32 {
        self.0.fetch_and(val, order)
    }

    /// Bitwise "nand" with the current value.
    pub fn fetch_nand(&self, val: i32, order: Ordering) -> i32 {
        self.0.fetch_nand(val, order)
    }

    /// Bitwise "or" with the current value.
    pub fn fetch_or(&self, val: i32, order: Ordering) -> i32 {
        self.0.fetch_or(val, order)
    }

    /// Bitwise "xor" with the current value.
    pub fn fetch_xor(&self, val: i32, order: Ordering) -> i32 {
        self.0.fetch_xor(val, order)
    }

    /// Stores the maximum of the current and provided value, returning the previous value.
    pub fn fetch_max(&self, val: i32, order: Ordering) -> i32 {
        self.0.fetch_max(val, order)
    }

    /// Stores the minimum of the current and provided value, returning the previous value.
    pub fn fetch_min(&self, val: i32, order: Ordering) -> i32 {
        self.0.fetch_min(val, order)
    }

    /// Fetches the value, and applies a function to it that returns an optional new value:
    /// `Ok(prev)` when the function answered `Some` on `prev`, `Err(prev)` when it answered `None`.
    /// The function may be called on any value, so it must accept every value.
    pub fn fetch_update<F>(&self, set_order: Ordering, fetch_order: Ordering, f: F) -> (r: Result<i32, i32>)
        where
            F: FnMut(i32) -> Option<i32>,
        requires
            load_ordering(fetch_order),
            forall|x: i32| call_requires(f, (x,)),
        ensures
            match r {
                Ok(v) => exists|x: i32| call_ensures(f, (v,), Some(x)),
                Err(v) => call_ensures(f, (v,), None),
            },
    {
        i32_fetch_update(&self.0, set_order, fetch_order, f)
    }
}

impl Default for AtomicI32 {
    fn default() -> Self {
        Self::new(0)
    }
}

impl From<i32> for AtomicI32 {
    fn from(v: i32) -> Self {
        Self::new(v)
    }
}

/// The value of a fresh atomic is not observable in contracts, so `from`
/// promises nothing beyond creating the atomic.
impl vstd::std_specs::convert::FromSpecImpl<i32> for AtomicI32 {
    open spec fn obeys_from_spec() -> bool {
        false
    }

    closed spec fn from_spec(v: i32) -> Self {
        vstd::pervasive::arbitrary()
    }
}

/// Shim of `std::sync::atomic::AtomicI64`.
#[derive(Debug)]
pub struct AtomicI64(std::sync::atomic::AtomicI64);

/// Calls `std::sync::atomic::AtomicI64::compare_exchange`. Its documentation promises that it stores
/// `new` exactly when the value equals `current`, and returns the previous
/// value: as `Ok` on success, which then equals `current`, and as `Err`
/// otherwise, which then differs from `current`.
#[verifier::external_body]
fn i64_compare_exchange(a: &std::sync::atomic::AtomicI64, current: i64, new: i64, success: Ordering, failure: Ordering) -> (r: Result<i64, i64>)
    requires
        load_ordering(failure),
    ensures
        match r {
            Ok(v) => v == current,
            Err(v) => v != current,
        },
{
    a.compare_exchange(current, new, success, failure)
}

/// Calls `std::sync::atomic::AtomicI64::into_inner`; nothing is stated of the value.
#[verifier::external_body]
fn i64_into_inner(a: std::sync::atomic::AtomicI64) -> i64 {
    a.into_inner()
}

/// Calls `std::sync::atomic::AtomicI64::get_mut`; nothing is stated of the value.
#[verifier::external_body]
fn i64_get_mut(a: &mut std::sync::atomic::AtomicI64) -> &mut i64 {
    a.get_mut()
}

/// Calls the deprecated `std::sync::atomic::AtomicI64::compare_and_swap`, which returns the previous
/// value; nothing is stated of it.
#[verifier::external_body]
#[allow(deprecated)]
fn i64_compare_and_swap(a: &std::sync::atomic::AtomicI64, current: i64, new: i64, order: Ordering) -> i64 {
    a.compare_and_swap(current, new, order)
}

/// Calls `std::sync::atomic::AtomicI64::fetch_update`, which applies `f` to the current value until
/// `f` answers `None` or a compare-exchange of its answer succeeds. Its
/// documentation promises `Ok(prev)` when `f` answered `Some` on `prev`, and
/// `Err(prev)` when `f` answered `None` on `prev`. std may call `f` on any
/// value that the atomic holds, so `f` must accept every value.
#[verifier::external_body]
fn i64_fetch_update<F>(a: &std::sync::atomic::AtomicI64, set_order: Ordering, fetch_order: Ordering, f: F) -> (r: Result<i64, i64>)
    where
        F: FnMut(i64) -> Option<i64>,
    requires
        load_ordering(fetch_order),
        forall|x: i64| call_requires(f, (x,)),
    ensures
        match r {
            Ok(v) => exists|x: i64| call_ensures(f, (v,), Some(x)),
            Err(v) => call_ensures(f, (v,), None),
        },
{
    a.fetch_update(set_order, fetch_order, f)
}

impl AtomicI64 {
    /// Creates a new instance of `AtomicI64`.
    pub fn new(v: i64) -> Self {
        AtomicI64(std::sync::atomic::AtomicI64::new(v))
    }

    /// Get access to a mutable reference to the inner value.
    pub fn get_mut(&mut self) -> &mut i64 {
        i64_get_mut(&mut self.0)
    }

    /// Consumes the atomic and returns the contained value.
    pub fn into_inner(self) -> i64 {
        i64_into_inner(self.0)
    }

    /// Loads a value from the atomic integer.
    pub fn load(&self, order: Ordering) -> i64
        requires
            load_ordering(order),
    {
        self.0.load(order)
    }

    /// Stores a value into the atomic integer.
    pub fn store(&self, val: i64, order: Ordering)
        requires
            store_ordering(order),
    {
        self.0.store(val, order)
    }

    /// Stores a value into the atomic integer, returning the previous value.
    pub fn swap(&self, val: i64, order: Ordering) -> i64 {
        self.0.swap(val, order)
    }

    /// Stores a value into the atomic integer if the current value is the same as the `current` value.
    pub fn compare_and_swap(&self, current: i64, new: i64, order: Ordering) -> i64 {
        i64_compare_and_swap(&self.0, current, new, order)
    }

    /// Stores a value into the atomic if the current value is the same as the
    /// `current` value; returns the previous value, as `Ok` exactly when it
    /// equals `current`.
    pub fn compare_exchange(&self, current: i64, new: i64, success: Ordering, failure: Ordering) -> (r: Result<i64, i64>)
        requires
            load_ordering(failure),
        ensures
            match r {
                Ok(v) => v == current,
                Err(v) => v != current,
            },
    {
        i64_compare_exchange(&self.0, current, new, success, failure)
    }

    /// Stores a value into the atomic if the current value is the same as the
    /// `current` value. Unlike the weak operation of std, it never fails
    /// spuriously: it fails only when the value differs from `current`.
    pub fn compare_exchange_weak(&self, current: i64, new: i64, success: Ordering, failure: Ordering) -> (r: Result<i64, i64>)
        requires
            load_ordering(failure),
        ensures
            match r {
                Ok(v) => v == current,
                Err(v) => v != current,
            },
    {
        self.compare_exchange(current, new, success, failure)
    }

    /// Adds to the current value, returning the previous value.
    pub fn fetch_add(&self, val: i64, order: Ordering) -> i64 {
        self.0.fetch_add(val, order)
    }

    /// Subtracts from the current value, returning the previous value.
    pub fn fetch_sub(&self, val: i64, order: Ordering) -> i64 {
        self.0.fetch_sub(val, order)
    }

    /// Bitwise "and" with the current value.
    pub fn fetch_and(&self, val: i64, order: Ordering) -> i64 {
        self.0.fetch_and(val, order)
    }

    /// Bitwise "nand" with the current value.
    pub fn fetch_nand(&self, val: i64, order: Ordering) -> i64 {
        self.0.fetch_nand(val, order)
    }

    /// Bitwise "or" with the current value.
    pub fn fetch_or(&self, val: i64, order: Ordering) -> i64 {
        self.0.fetch_or(val, order)
    }

    /// Bitwise "xor" with the current value.
    pub fn fetch_xor(&self, val: i64, order: Ordering) -> i64 {
        self.0.fetch_xor(val, order)
    }

    /// Stores the maximum of the current and provided value, returning the previous value.
    pub fn fetch_max(&self, val: i64, order: Ordering) -> i64 {
        self.0.fetch_max(val, order)
    }

    /// Stores the minimum of the current and provided value, returning the previous value.
    pub fn fetch_min(&self, val: i64, order: Ordering) -> i64 {
        self.0.fetch_min(val, order)
    }

    /// Fetches the value, and applies a function to it that returns an optional new value:
    /// `Ok(prev)` when the function answered `Some` on `prev`, `Err(prev)` when it answered `None`.
    /// The function may be called on any value, so it must accept every value.
    pub fn fetch_update<F>(&self, set_order: Ordering, fetch_order: Ordering, f: F) -> (r: Result<i64, i64>)
        where
            F: FnMut(i64) -> Option<i64>,
        requires
            load_ordering(fetch_order),
            forall|x: i64| call_requires(f, (x,)),
        ensures
            match r {
                Ok(v) => exists|x: i64| call_ensures(f, (v,), Some(x)),
                Err(v) => call_ensures(f, (v,), None),
            },
    {
        i64_fetch_update(&self.0, set_order, fetch_order, f)
    }
}

impl Default for AtomicI64 {
    fn default() -> Self {
        Self::new(0)
    }
}

impl From<i64> for AtomicI64 {
    fn from(v: i64) -> Self {
        Self::new(v)
    }
}

/// The value of a fresh atomic is not observable in contracts, so `from`
/// promises nothing beyond creating the atomic.
impl vstd::std_specs::convert::FromSpecImpl<i64> for AtomicI64 {
    open spec fn obeys_from_spec() -> bool {
        false
    }

    closed spec fn from_spec(v: i64) -> Self {
        vstd::pervasive::arbitrary()
    }
}

/// Shim of `std::sync::atomic::AtomicIsize`.
#[derive(Debug)]
pub struct AtomicIsize(std::sync::atomic::AtomicIsize);

/// Calls `std::sync::atomic::AtomicIsize::compare_exchange`. Its documentation promises that it stores
/// `new` exactly when the value equals `current`, and returns the previous
/// value: as `Ok` on success, which then equals `current`, and as `Err`
/// otherwise, which then differs from `current`.
#[verifier::external_body]
fn isize_compare_exchange(a: &std::sync::atomic::AtomicIsize, current: isize, new: isize, success: Ordering, failure: Ordering) -> (r: Result<isize, isize>)
    requires
        load_ordering(failure),
    ensures
        match r {
            Ok(v) => v == current,
            Err(v) => v != current,
        },
{
    a.compare_exchange(current, new, success, failure)
}

/// Calls `std::sync::atomic::AtomicIsize::into_inner`; nothing is stated of the value.
#[verifier::external_body]
fn isize_into_inner(a: std::sync::atomic::AtomicIsize) -> isize {
    a.into_inner()
}

/// Calls `std::sync::atomic::AtomicIsize::get_mut`; nothing is stated of the value.
#[verifier::external_body]
fn isize_get_mut(a: &mut std::sync::atomic::AtomicIsize) -> &mut isize {
    a.get_mut()
}

/// Calls the deprecated `std::sync::atomic::AtomicIsize::compare_and_swap`, which returns the previous
/// value; nothing is stated of it.
#[verifier::external_body]
#[allow(deprecated)]
fn isize_compare_and_swap(a: &std::sync::atomic::AtomicIsize, current: isize, new: isize, order: Ordering) -> isize {
    a.compare_and_swap(current, new, order)
}

/// Calls `std::sync::atomic::AtomicIsize::fetch_update`, which applies `f` to the current value until
/// `f` answers `None` or a compare-exchange of its answer succeeds. Its
/// documentation promises `Ok(prev)` when `f` answered `Some` on `prev`, and
/// `Err(prev)` when `f` answered `None` on `prev`. std may call `f` on any
/// value that the atomic holds, so `f` must accept every value.
#[verifier::external_body]
fn isize_fetch_update<F>(a: &std::sync::atomic::AtomicIsize, set_order: Ordering, fetch_order: Ordering, f: F) -> (r: Result<isize, isize>)
    where
        F: FnMut(isize) -> Option<isize>,
    requires
        load_ordering(fetch_order),
        forall|x: isize| call_requires(f, (x,)),
    ensures
        match r {
            Ok(v) => exists|x: isize| call_ensures(f, (v,), Some(x)),
            Err(v) => call_ensures(f, (v,), None),
        },
{
    a.fetch_update(set_order, fetch_order, f)
}

impl AtomicIsize {
    /// Creates a new instance of `AtomicIsize`.
    pub fn new(v: isize) -> Self {
        AtomicIsize(std::sync::atomic::AtomicIsize::new(v))
    }

    /// Get access to a mutable reference to the inner value.
    pub fn get_mut(&mut self) -> &mut isize {
        isize_get_mut(&mut self.0)
    }

    /// Consumes the atomic and returns the contained value.
    pub fn into_inner(self) -> isize {
        isize_into_inner(self.0)
    }

    /// Loads a value from the atomic integer.
    pub fn load(&self, order: Ordering) -> isize
        requires
            load_ordering(order),
    {
        self.0.load(order)
    }

    /// Stores a value into the atomic integer.
    pub fn store(&self, val: isize, order: Ordering)
        requires
            store_ordering(order),
    {
        self.0.store(val, order)
    }

    /// Stores a value into the atomic integer, returning the previous value.
    pub fn swap(&self, val: isize, order: Ordering) -> isize {
        self.0.swap(val, order)
    }

    /// Stores a value into the atomic integer if the current value is the same as the `current` value.
    pub fn compare_and_swap(&self, current: isize, new: isize, order: Ordering) -> isize {
        isize_compare_and_swap(&self.0, current, new, order)
    }

    /// Stores a value into the atomic if the current value is the same as the
    /// `current` value; returns the previous value, as `Ok` exactly when it
    /// equals `current`.
    pub fn compare_exchange(&self, current: isize, new: isize, success: Ordering, failure: Ordering) -> (r: Result<isize, isize>)
        requires
            load_ordering(failure),
        ensures
            match r {
                Ok(v) => v == current,
                Err(v) => v != current,
            },
    {
        isize_compare_exchange(&self.0, current, new, success, failure)
    }

    /// Stores a value into the atomic if the current value is the same as the
    /// `current` value. Unlike the weak operation of std, it never fails
    /// spuriously: it fails only when the value differs from `current`.
    pub fn compare_exchange_weak(&self, current: isize, new: isize, success: Ordering, failure: Ordering) -> (r: Result<isize, isize>)
        requires
            load_ordering(failure),
        ensures
            match r {
                Ok(v) => v == current,
                Err(v) => v != current,
            },
    {
        self.compare_exchange(current, new, success, failure)
    }

    /// Adds to the current value, returning the previous value.
    pub fn fetch_add(&self, val: isize, order: Ordering) -> isize {
        self.0.fetch_add(val, order)
    }

    /// Subtracts from the current value, returning the previous value.
    pub fn fetch_sub(&self, val: isize, order: Ordering) -> isize {
        self.0.fetch_sub(val, order)
    }

    /// Bitwise "and" with the current value.
    pub fn fetch_and(&self, val: isize, order: Ordering) -> isize {
        self.0.fetch_and(val, order)
    }

    /// Bitwise "nand" with the current value.
    pub fn fetch_nand(&self, val: isize, order: Ordering) -> isize {
        self.0.fetch_nand(val, order)
    }

    /// Bitwise "or" with the current value.
    pub fn fetch_or(&self, val: isize, order: Ordering) -> isize {
        self.0.fetch_or(val, order)
    }

    /// Bitwise "xor" with the current value.
    pub fn fetch_xor(&self, val: isize, order: Ordering) -> isize {
        self.0.fetch_xor(val, order)
    }

    /// Stores the maximum of the current and provided value, returning the previous value.
    pub fn fetch_max(&self, val: isize, order: Ordering) -> isize {
        self.0.fetch_max(val, order)
    }

    /// Stores the minimum of the current and provided value, returning the previous value.
    pub fn fetch_min(&self, val: isize, order: Ordering) -> isize {
        self.0.fetch_min(val, order)
    }

    /// Fetches the value, and applies a function to it that returns an optional new value:
    /// `Ok(prev)` when the function answered `Some` on `prev`, `Err(prev)` when it answered `None`.
    /// The function may be called on any value, so it must accept every value.
    pub fn fetch_update<F>(&self, set_order: Ordering, fetch_order: Ordering, f: F) -> (r: Result<isize, isize>)
        where
            F: FnMut(isize) -> Option<isize>,
        requires
            load_ordering(fetch_order),
            forall|x: isize| call_requires(f, (x,)),
        ensures
            match r {
                Ok(v) => exists|x: isize| call_ensures(f, (v,), Some(x)),
                Err(v) => call_ensures(f, (v,), None),
            },
    {
        isize_fetch_update(&self.0, set_order, fetch_order, f)
    }
}

impl Default for AtomicIsize {
    fn default() -> Self {
        Self::new(0)
    }
}

impl From<isize> for AtomicIsize {
    fn from(v: isize) -> Self {
        Self::new(v)
    }
}

/// The value of a fresh atomic is not observable in contracts, so `from`
/// promises nothing beyond creating the atomic.
impl vstd::std_specs::convert::FromSpecImpl<isize> for AtomicIsize {
    open spec fn obeys_from_spec() -> bool {
        false
    }

    closed spec fn from_spec(v: isize) -> Self {
        vstd::pervasive::arbitrary()
    }
}

} // verus!
