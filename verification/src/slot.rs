//! The transfer slot: a single-value channel used once per switch.
//!
//! Each crossing of the caller/task boundary hands over exactly one owned
//! value. The slot's contracts pin the discipline down: a deposit demands an
//! empty slot, so no two values are ever live in it at once, and a retrieve
//! moves the value out and leaves the slot empty, so a value can never be
//! read twice. Ownership of a deposited value moves completely: `deposit`
//! consumes it, and the only way back out is the one `retrieve`.

use vstd::prelude::*;
use vstd::pervasive::unreached;

verus! {

/// A single-value hand-off cell.
pub struct TransferSlot<T> {
    value: Option<T>,
}

impl<T> TransferSlot<T> {
    /// The value in flight, if any.
    pub closed spec fn contents(&self) -> Option<T> {
        self.value
    }

    /// Whether no value is in flight.
    pub open spec fn is_empty(&self) -> bool {
        self.contents() is None
    }

    /// A fresh slot holds nothing.
    pub fn new() -> (slot: TransferSlot<T>)
        ensures
            slot.is_empty(),
    {
        TransferSlot { value: None }
    }

    /// Place a value in flight. The empty-slot precondition is the
    /// invariant that the slot never holds two live values.
    pub fn deposit(&mut self, t: T)
        requires
            old(self).is_empty(),
        ensures
            final(self).contents() == Some(t),
    {
        self.value = Some(t);
    }

    /// Move the value in flight out. The slot is empty afterwards, so the
    /// same value can never be retrieved a second time.
    pub fn retrieve(&mut self) -> (t: T)
        requires
            !old(self).is_empty(),
        ensures
            Some(t) == old(self).contents(),
            final(self).is_empty(),
    {
        match self.value.take() {
            Some(t) => t,
            None => unreached(),
        }
    }

    /// Whether a retrieve would currently be allowed.
    pub fn has_value(&self) -> (b: bool)
        ensures
            b == !self.is_empty(),
    {
        self.value.is_some()
    }
}

} // verus!
