//! The four instructions and the records each one works on.
//!
//! An instruction takes its context by mutable reference. On `Ok` the context
//! holds the new state; on `Err` it holds exactly what it held before.

use vstd::prelude::*;

use crate::record::{next_count, Counter, State};

verus! {

/// Why an instruction failed.
#[derive(Clone, Copy, Debug, PartialEq, Eq, Structural)]
pub enum CounterError {
    /// The record already holds the largest count.
    Overflow,
}

/// What `initialize` works on: the record being created.
#[derive(Clone, Copy, Debug, PartialEq, Eq, Structural)]
pub struct Initialize {
    pub counter: Counter,
}

/// What `increment` works on: an existing, writable record.
#[derive(Clone, Copy, Debug, PartialEq, Eq, Structural)]
pub struct Increment {
    pub counter: Counter,
}

/// What `initialize_pda` works on: the record being created at the derived
/// address of `payer`, and the identity of that party.
#[derive(Clone, Copy, Debug, PartialEq, Eq)]
pub struct InitializePda {
    pub state: State,
    pub payer: [u8; 32],
}

/// What `update_pda` works on: the existing record at the derived address of
/// `payer`, and the identity of that party.
#[derive(Clone, Copy, Debug, PartialEq, Eq)]
pub struct UpdatePda {
    pub state: State,
    pub payer: [u8; 32],
}

/// The outcome of advancing a record that holds `before`: the count it
/// holds afterwards, and whether the instruction succeeded.
pub open spec fn advance(before: nat) -> (nat, Result<(), CounterError>) {
    match next_count(before) {
        Some(after) => (after, Ok(())),
        None => (before, Err(CounterError::Overflow)),
    }
}

/// Sets a newly created record to zero. Always succeeds, whatever the
/// record's storage held before.
pub fn initialize(ctx: &mut Initialize) -> (r: Result<(), CounterError>)
    ensures
        r is Ok,
        final(ctx).counter@ == 0,
        *final(ctx) == (Initialize { counter: Counter { count: 0 } }),
{
    ctx.counter.count = 0;
    Ok(())
}

/// Adds one to the record. At the largest count it fails with
/// `CounterError::Overflow` and changes nothing.
pub fn increment(ctx: &mut Increment) -> (r: Result<(), CounterError>)
    ensures
        (final(ctx).counter@, r) == advance(old(ctx).counter@),
        old(ctx).counter.count < u64::MAX ==> {
            &&& r is Ok
            &&& final(ctx).counter.count == old(ctx).counter.count + 1
        },
        old(ctx).counter.count == u64::MAX ==> {
            &&& r == Err::<(), CounterError>(CounterError::Overflow)
            &&& *final(ctx) == *old(ctx)
        },
        old(ctx).counter@ <= final(ctx).counter@ <= old(ctx).counter@ + 1,
{
    match ctx.counter.count.checked_add(1) {
        Some(count) => {
            ctx.counter.count = count;
            Ok(())
        },
        None => Err(CounterError::Overflow),
    }
}

/// Sets a newly created derived-address record to zero. Always succeeds and
/// leaves the payer's identity as it was.
pub fn initialize_pda(ctx: &mut InitializePda) -> (r: Result<(), CounterError>)
    ensures
        r is Ok,
        final(ctx).state@ == 0,
        *final(ctx) == (InitializePda { state: State { count: 0 }, payer: old(ctx).payer }),
{
    ctx.state.count = 0;
    Ok(())
}

/// Adds one to the derived-address record. At the largest count it fails
/// with `CounterError::Overflow` and changes nothing.
pub fn update_pda(ctx: &mut UpdatePda) -> (r: Result<(), CounterError>)
    ensures
        (final(ctx).state@, r) == advance(old(ctx).state@),
        old(ctx).state.count < u64::MAX ==> {
            &&& r is Ok
            &&& final(ctx).state.count == old(ctx).state.count + 1
        },
        old(ctx).state.count == u64::MAX ==> {
            &&& r == Err::<(), CounterError>(CounterError::Overflow)
            &&& *final(ctx) == *old(ctx)
        },
        old(ctx).state@ <= final(ctx).state@ <= old(ctx).state@ + 1,
        final(ctx).payer == old(ctx).payer,
{
    match ctx.state.count.checked_add(1) {
        Some(count) => {
            ctx.state.count = count;
            Ok(())
        },
        None => Err(CounterError::Overflow),
    }
}

} // verus!
