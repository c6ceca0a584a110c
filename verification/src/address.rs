//! The address at which a party's `State` record is kept.
//!
//! The address is derived from a fixed label, the party's identity and the
//! program's own address. The derivation itself is the host framework's; this
//! module fixes what is handed to it and compares what comes back.

use anchor_lang::prelude::Pubkey;
use vstd::prelude::*;

verus! {

/// The label under which `State` records are derived: the bytes of `state`.
pub const STATE_LABEL: [u8; 5] = [115, 116, 97, 116, 101];

/// The program-derived address that the host framework finds for `seeds`
/// under `program_id`, with the bump seed it settled on, or `None` where it
/// finds none.
pub uninterp spec fn program_address(seeds: Seq<Seq<u8>>, program_id: Seq<u8>) -> Option<(Seq<u8>, u8)>;

/// A derivation's outcome as plain sequences.
pub open spec fn derived_view(derived: Option<([u8; 32], u8)>) -> Option<(Seq<u8>, u8)> {
    match derived {
        Some((address, bump)) => Some((address@, bump)),
        None => None,
    }
}

/// The seeds of a party's `State` record: the label, then the identity.
pub open spec fn state_seeds(payer: Seq<u8>) -> Seq<Seq<u8>> {
    seq![STATE_LABEL@, payer]
}

/// The address of the `State` record of `payer` under `program_id`.
pub open spec fn derived_state_address(payer: Seq<u8>, program_id: Seq<u8>) -> Option<(Seq<u8>, u8)> {
    program_address(state_seeds(payer), program_id)
}

/// Calls `Pubkey::try_find_program_address` with the two seeds `label` and
/// `identity`, in that order, under the program `program_id`.
///
/// Not proved, but taken from the framework: what comes back is its
/// derivation for exactly those seeds and that program, and depends on
/// nothing else. Nothing is claimed about which address that is, nor that one
/// is found.
#[verifier::external_body]
fn try_find_program_address(label: &[u8], identity: &[u8; 32], program_id: &[u8; 32]) -> (r: Option<([u8; 32], u8)>)
    ensures
        derived_view(r) == program_address(seq![label@, identity@], program_id@),
{
    let program = Pubkey::new_from_array(*program_id);
    match Pubkey::try_find_program_address(&[label, identity.as_slice()], &program) {
        Some((address, bump)) => Some((address.to_bytes(), bump)),
        None => None,
    }
}

/// Derives the address of the `State` record of `payer` under `program_id`,
/// with its bump seed.
pub fn state_address(payer: &[u8; 32], program_id: &[u8; 32]) -> (r: Option<([u8; 32], u8)>)
    ensures
        derived_view(r) == derived_state_address(payer@, program_id@),
{
    let label = STATE_LABEL;
    try_find_program_address(label.as_slice(), payer, program_id)
}

/// Whether `address` is the address that a derivation gave.
pub fn matches_derived(address: &[u8; 32], derived: &Option<([u8; 32], u8)>) -> (r: bool)
    ensures
        r <==> (derived matches Some(found) && found.0@ == address@),
{
    match derived {
        Some((found, _)) => {
            let mut i: usize = 0;
            while i < 32
                invariant
                    i <= 32,
                    derived matches Some(pair) && pair.0 == *found,
                    forall|j: int| 0 <= j < i ==> found@[j] == address@[j],
                decreases 32 - i,
            {
                if found[i] != address[i] {
                    assert(found@[i as int] != address@[i as int]);
                    return false;
                }
                i += 1;
            }
            assert(found@ =~= address@);
            true
        },
        None => false,
    }
}

/// Whether `address` is where the `State` record of `payer` is kept under
/// `program_id`.
pub fn is_state_address(address: &[u8; 32], payer: &[u8; 32], program_id: &[u8; 32]) -> (r: bool)
    ensures
        r <==> (derived_state_address(payer@, program_id@) matches Some(found) && found.0 == address@),
{
    let derived = state_address(payer, program_id);
    matches_derived(address, &derived)
}

/// The derived address is a function of the label, the identity and the
/// program alone: equal inputs give the same address and the same bump seed.
pub proof fn lemma_derivation_is_a_function(
    label_a: Seq<u8>,
    identity_a: Seq<u8>,
    program_a: Seq<u8>,
    label_b: Seq<u8>,
    identity_b: Seq<u8>,
    program_b: Seq<u8>,
)
    requires
        label_a == label_b,
        identity_a == identity_b,
        program_a == program_b,
    ensures
        program_address(seq![label_a, identity_a], program_a) == program_address(
            seq![label_b, identity_b],
            program_b,
        ),
{
}

/// The address is stable across calls: any two outcomes of `state_address`
/// for the same payer under the same program are the same value, byte for
/// byte and bump for bump.
pub proof fn lemma_state_address_is_stable(
    first: Option<([u8; 32], u8)>,
    second: Option<([u8; 32], u8)>,
    payer: [u8; 32],
    program_id: [u8; 32],
)
    requires
        derived_view(first) == derived_state_address(payer@, program_id@),
        derived_view(second) == derived_state_address(payer@, program_id@),
    ensures
        first == second,
{
    match (first, second) {
        (Some((a, _)), Some((b, _))) => {
            assert(a@ == b@);
            assert(a == b);
        },
        _ => {},
    }
}

} // verus!
