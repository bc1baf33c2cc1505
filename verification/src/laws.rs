//! Laws of the validator, proved once and for all inputs.
//!
//! [`crate::validator::validate`] already pins its result down exactly:
//! it returns `Ok` iff [`claim_matches`] holds of its inputs. The proofs
//! here state what that predicate itself guarantees — that every correctly
//! built payload is accepted, and that each way of damaging an instruction
//! (a corrupted byte, a truncation, a wrong count, a wrong identity, a
//! stray account) is rejected.

use vstd::prelude::*;

use crate::layout::{
    claim_matches, expected_payload, MAX_MESSAGE_LEN, MESSAGE_OFFSET, PUBLIC_KEY_LEN,
    SIGNATURE_LEN, TRUSTED_VERIFIER_ID,
};
use crate::validator::{spec_validate, CandidateInstruction, ErrorCode, ExpectedClaim};

verus! {

/// Completeness: for every message that fits the 16-bit length field, an
/// instruction addressed to the trusted verifier, carrying no auxiliary
/// accounts and carrying exactly the expected payload, is accepted.
pub proof fn lemma_correct_payload_accepted(msg: Seq<u8>, sig: Seq<u8>, pk: Seq<u8>)
    requires
        sig.len() == SIGNATURE_LEN,
        pk.len() == PUBLIC_KEY_LEN,
        msg.len() <= MAX_MESSAGE_LEN,
    ensures
        claim_matches(TRUSTED_VERIFIER_ID@, 0, expected_payload(msg, sig, pk), msg, sig, pk),
{
}

/// Corrupting exactly one byte of a correct payload — anywhere: in the
/// 16-byte header or in the public-key, signature, or message region —
/// makes validation fail, whatever the rest of the instruction looks like.
pub proof fn lemma_corrupted_byte_rejected(
    target_identity: Seq<u8>,
    n_auxiliary_accounts: nat,
    msg: Seq<u8>,
    sig: Seq<u8>,
    pk: Seq<u8>,
    i: int,
    b: u8,
)
    requires
        0 <= i < expected_payload(msg, sig, pk).len(),
        b != expected_payload(msg, sig, pk)[i],
    ensures
        !claim_matches(
            target_identity,
            n_auxiliary_accounts,
            expected_payload(msg, sig, pk).update(i, b),
            msg,
            sig,
            pk,
        ),
{
    let correct = expected_payload(msg, sig, pk);
    let corrupted = correct.update(i, b);
    assert(corrupted[i] == b);
    assert(corrupted != correct) by {
        if corrupted == correct {
            assert(corrupted[i] == correct[i]);
        }
    }
}

/// Truncating a correct payload by any amount, down to the empty payload,
/// makes validation fail.
pub proof fn lemma_truncated_payload_rejected(
    target_identity: Seq<u8>,
    n_auxiliary_accounts: nat,
    msg: Seq<u8>,
    sig: Seq<u8>,
    pk: Seq<u8>,
    n: int,
)
    requires
        0 <= n < expected_payload(msg, sig, pk).len(),
    ensures
        !claim_matches(
            target_identity,
            n_auxiliary_accounts,
            expected_payload(msg, sig, pk).subrange(0, n),
            msg,
            sig,
            pk,
        ),
{
    let correct = expected_payload(msg, sig, pk);
    let truncated = correct.subrange(0, n);
    assert(truncated.len() != correct.len());
}

/// A payload of the exact expected length whose signature-count byte is not
/// 1 fails, whatever its remaining bytes hold.
pub proof fn lemma_wrong_signature_count_rejected(
    target_identity: Seq<u8>,
    n_auxiliary_accounts: nat,
    payload: Seq<u8>,
    msg: Seq<u8>,
    sig: Seq<u8>,
    pk: Seq<u8>,
)
    requires
        payload.len() == MESSAGE_OFFSET + msg.len(),
        payload[0] != 1,
    ensures
        !claim_matches(target_identity, n_auxiliary_accounts, payload, msg, sig, pk),
{
    let correct = expected_payload(msg, sig, pk);
    assert(correct[0] == 1);
    assert(payload != correct) by {
        if payload == correct {
            assert(payload[0] == correct[0]);
        }
    }
}

/// An instruction whose target identity differs from the trusted verifier's
/// fails, regardless of its accounts and payload.
pub proof fn lemma_wrong_target_rejected(
    target_identity: Seq<u8>,
    n_auxiliary_accounts: nat,
    payload: Seq<u8>,
    msg: Seq<u8>,
    sig: Seq<u8>,
    pk: Seq<u8>,
)
    requires
        target_identity != TRUSTED_VERIFIER_ID@,
    ensures
        !claim_matches(target_identity, n_auxiliary_accounts, payload, msg, sig, pk),
{
}

/// An instruction accompanied by one or more auxiliary accounts fails, even
/// if every byte of its payload is correct.
pub proof fn lemma_auxiliary_accounts_rejected(
    target_identity: Seq<u8>,
    n_auxiliary_accounts: nat,
    payload: Seq<u8>,
    msg: Seq<u8>,
    sig: Seq<u8>,
    pk: Seq<u8>,
)
    requires
        n_auxiliary_accounts != 0,
    ensures
        !claim_matches(target_identity, n_auxiliary_accounts, payload, msg, sig, pk),
{
}

/// Validation is a pure predicate over its inputs: any two calls of
/// `validate` on the same unchanged inputs return the same result.
pub proof fn lemma_validate_deterministic(
    candidate: CandidateInstruction,
    expected: ExpectedClaim,
    first: Result<(), ErrorCode>,
    second: Result<(), ErrorCode>,
)
    requires
        first == spec_validate(candidate, expected),
        second == spec_validate(candidate, expected),
    ensures
        first == second,
{
}

} // verus!
