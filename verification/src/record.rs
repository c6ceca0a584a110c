//! The two record shapes. Each holds one 64-bit count and is viewed as the
//! natural number it stores.

use vstd::prelude::*;

verus! {

/// The counter record kept at an address of the caller's choosing.
#[derive(Clone, Copy, Debug, PartialEq, Eq, Structural)]
pub struct Counter {
    pub count: u64,
}

/// The counter record kept at the address derived from its owner's identity.
#[derive(Clone, Copy, Debug, PartialEq, Eq, Structural)]
pub struct State {
    pub count: u64,
}

impl View for Counter {
    type V = nat;

    open spec fn view(&self) -> nat {
        self.count as nat
    }
}

impl View for State {
    type V = nat;

    open spec fn view(&self) -> nat {
        self.count as nat
    }
}

/// The largest count a record can hold.
pub open spec fn max_count() -> nat {
    u64::MAX as nat
}

/// The count that follows `count`, where there is one: a record at the
/// largest count has no successor.
pub open spec fn next_count(count: nat) -> Option<nat> {
    if count < max_count() {
        Some(count + 1)
    } else {
        None
    }
}

} // verus!
