//! A counter record, the instructions that create and advance it, and the
//! derived address at which a party's own record is kept.
//!
//! Every instruction either succeeds as a whole or fails and leaves the
//! record as it was. A record starts at zero and moves up by exactly one on
//! each successful increment; it never wraps.

pub mod address;
pub mod instructions;
pub mod record;

pub use address::{is_state_address, matches_derived, state_address, STATE_LABEL};
pub use instructions::{
    increment, initialize, initialize_pda, update_pda, CounterError, Increment, Initialize,
    InitializePda, UpdatePda,
};
pub use record::{Counter, State};
