//! Validated, scoped access to syscall arguments in the calling process's
//! address space.
//!
//! The pointer-validation and copy layer itself is an external collaborator
//! of this core; here a user pointer is modeled at its boundary as a slot
//! that is either accessible or not. Reads and writes through an
//! inaccessible range fail with the access-fault error, and a write that
//! fails leaves the target untouched.

use crate::error::LxError;
use vstd::prelude::*;

verus! {

/// A read pointer into user memory: null, unmapped, or holding a value.
pub struct UserInPtr<T> {
    /// Whether this is the null pointer.
    null: bool,
    /// The value behind the pointer when the range is valid for reading.
    value: Option<T>,
}

impl<T> UserInPtr<T> {
    /// Whether this is the null pointer.
    pub closed spec fn is_null_spec(self) -> bool {
        self.null
    }

    /// The value behind the pointer, when its range is valid for reading.
    pub closed spec fn value_spec(self) -> Option<T> {
        self.value
    }

    /// A read through this pointer succeeds.
    pub open spec fn readable(self) -> bool {
        !self.is_null_spec() && self.value_spec() is Some
    }

    /// A non-null pointer to a valid range holding `v`.
    pub fn with_value(v: T) -> (r: UserInPtr<T>)
        ensures
            !r.is_null_spec(),
            r.value_spec() == Some(v),
    {
        UserInPtr { null: false, value: Some(v) }
    }

    /// The null pointer.
    pub fn null_ptr() -> (r: UserInPtr<T>)
        ensures
            r.is_null_spec(),
            !r.readable(),
    {
        UserInPtr { null: true, value: None }
    }

    /// A non-null pointer whose range is not mapped for reading.
    pub fn dangling() -> (r: UserInPtr<T>)
        ensures
            !r.is_null_spec(),
            !r.readable(),
    {
        UserInPtr { null: false, value: None }
    }

    /// Whether this is the null pointer.
    pub fn is_null(&self) -> (r: bool)
        ensures
            r == self.is_null_spec(),
    {
        self.null
    }

    /// Copies the value out of user memory; fails with the access-fault
    /// error exactly when the pointer is null or its range is invalid.
    pub fn read(&self) -> (r: Result<T, LxError>) where T: Copy
        ensures
            match r {
                Ok(v) => self.readable() && self.value_spec() == Some(v),
                Err(e) => !self.readable() && e == LxError::EFAULT,
            },
    {
        if self.null {
            return Err(LxError::EFAULT);
        }
        match &self.value {
            Some(v) => Ok(*v),
            None => Err(LxError::EFAULT),
        }
    }
}

/// A write pointer into user memory: a slot that accepts a value when its
/// range is valid for writing.
pub struct UserOutPtr<T> {
    /// Whether the pointed-to range is valid for writing.
    writable: bool,
    /// What has been written through the pointer so far.
    slot: Option<T>,
}

impl<T> UserOutPtr<T> {
    /// Whether the pointed-to range is valid for writing.
    pub closed spec fn writable_spec(self) -> bool {
        self.writable
    }

    /// What has been written through the pointer so far.
    pub closed spec fn written(self) -> Option<T> {
        self.slot
    }

    /// A pointer to a valid, not yet written range.
    pub fn writable_slot() -> (r: UserOutPtr<T>)
        ensures
            r.writable_spec(),
            r.written() is None,
    {
        UserOutPtr { writable: true, slot: None }
    }

    /// A pointer whose range is not mapped for writing.
    pub fn dangling() -> (r: UserOutPtr<T>)
        ensures
            !r.writable_spec(),
            r.written() is None,
    {
        UserOutPtr { writable: false, slot: None }
    }

    /// Writes `v` into user memory; fails with the access-fault error
    /// exactly when the range is invalid, and then writes nothing.
    pub fn write(&mut self, v: T) -> (r: Result<(), LxError>)
        ensures
            old(self).writable_spec() ==> r == Ok::<(), LxError>(()) && final(self).writable_spec()
                && final(self).written() == Some(v),
            !old(self).writable_spec() ==> r == Err::<(), LxError>(LxError::EFAULT) && *final(self)
                == *old(self),
    {
        if self.writable {
            self.slot = Some(v);
            Ok(())
        } else {
            Err(LxError::EFAULT)
        }
    }

    /// What stands in the slot, for the owner of the buffer to inspect.
    pub fn written_value(&self) -> (r: &Option<T>)
        ensures
            *r == self.written(),
    {
        &self.slot
    }
}

} // verus!
