//! The layout validator: a pure predicate over a candidate instruction and
//! an expected claim, returning success exactly when the instruction encodes
//! one Ed25519 signature check of the claimed message, signature, and public
//! key per the wire format in [`crate::layout`].

use vstd::prelude::*;

use crate::layout::{
    claim_matches, expected_payload, header_byte, le_high_byte, le_low_byte, HEADER_LEN,
    MAX_MESSAGE_LEN, MESSAGE_OFFSET, PUBLIC_KEY_LEN, PUBLIC_KEY_OFFSET, SIGNATURE_LEN,
    SIGNATURE_OFFSET, TRUSTED_VERIFIER_ID,
};

verus! {

/// One account reference carried by an instruction.
pub struct AccountRef {
    pub identity: [u8; 32],
    pub is_signer: bool,
    pub is_writable: bool,
}

/// A candidate instruction as fetched from the transaction's instruction
/// list: the identity of the program it targets, the accounts it carries,
/// and its opaque byte payload. The validator only inspects these bytes; it
/// trusts nothing about where they came from.
pub struct CandidateInstruction {
    pub target_identity: [u8; 32],
    pub auxiliary_accounts: Vec<AccountRef>,
    pub payload: Vec<u8>,
}

/// The values the caller expects the Ed25519 program to have verified:
/// a message of arbitrary length, a 64-byte signature, a 32-byte public key.
pub struct ExpectedClaim {
    pub message: Vec<u8>,
    pub signature: [u8; 64],
    pub public_key: [u8; 32],
}

/// The single, deliberately undetailed failure: the validator does not say
/// which check failed, so a caller constructing adversarial payloads learns
/// nothing about the layout from the error.
#[derive(Clone, Copy, Debug, PartialEq, Eq, Structural)]
pub enum ErrorCode {
    SigVerificationFailed,
}

/// The exact result `validate` returns for the given inputs.
pub open spec fn spec_validate(
    candidate: CandidateInstruction,
    expected: ExpectedClaim,
) -> Result<(), ErrorCode> {
    if claim_matches(
        candidate.target_identity@,
        candidate.auxiliary_accounts@.len(),
        candidate.payload@,
        expected.message@,
        expected.signature@,
        expected.public_key@,
    ) {
        Ok(())
    } else {
        Err(ErrorCode::SigVerificationFailed)
    }
}

/// True iff the bytes of `expected` appear in `data` starting at `start`.
fn region_matches(data: &[u8], start: usize, expected: &[u8]) -> (r: bool)
    requires
        start + expected@.len() <= data@.len(),
    ensures
        r <==> (forall|j: int|
            0 <= j < expected@.len() ==> data@[start + j] == expected@[j]),
{
    let n = expected.len();
    let data_len = data.len();
    let mut i: usize = 0;
    while i < n
        invariant
            i <= n,
            n == expected@.len(),
            data_len == data@.len(),
            start + n <= data_len,
            forall|j: int| 0 <= j < i ==> data@[start + j] == expected@[j],
        decreases n - i,
    {
        if data[start + i] != expected[i] {
            return false;
        }
        i = i + 1;
    }
    true
}

/// Verify the serialized instruction payload: the nine header fields against
/// their expected values, then the public-key, signature, and message regions
/// byte-for-byte. The caller has already checked the payload length, so no
/// read here can go out of bounds.
pub fn check_data(data: &[u8], msg: &[u8], sig: &[u8], pubkey: &[u8]) -> (result: Result<
    (),
    ErrorCode,
>)
    requires
        sig@.len() == SIGNATURE_LEN,
        pubkey@.len() == PUBLIC_KEY_LEN,
        msg@.len() <= MAX_MESSAGE_LEN,
        data@.len() == MESSAGE_OFFSET + msg@.len(),
    ensures
        result == (if data@ == expected_payload(msg@, sig@, pubkey@) {
            Result::<(), ErrorCode>::Ok(())
        } else {
            Result::<(), ErrorCode>::Err(ErrorCode::SigVerificationFailed)
        }),
{
    let ghost goal = expected_payload(msg@, sig@, pubkey@);
    let msg_len = msg.len();
    let len_low = (msg_len % 256) as u8;
    let len_high = ((msg_len / 256) % 256) as u8;

    let header_ok = data[0] == 1 && data[1] == 0  // signature_count, padding
     && data[2] == 48 && data[3] == 0  // signature_offset
     && data[4] == 0xFF && data[5] == 0xFF  // signature_instruction_index
     && data[6] == 16 && data[7] == 0  // public_key_offset
     && data[8] == 0xFF && data[9] == 0xFF  // public_key_instruction_index
     && data[10] == 112 && data[11] == 0  // message_offset
     && data[12] == len_low && data[13] == len_high  // message_length
     && data[14] == 0xFF && data[15] == 0xFF;  // message_instruction_index

    if !header_ok {
        proof {
            assert(data@ != goal) by {
                if data@ == goal {
                    assert(forall|i: int| 0 <= i < HEADER_LEN ==> data@[i] == #[trigger] goal[i]);
                    assert(goal[12] == le_low_byte(msg@.len()));
                    assert(goal[13] == le_high_byte(msg@.len()));
                }
            }
        }
        return Err(ErrorCode::SigVerificationFailed);
    }

    if !region_matches(data, PUBLIC_KEY_OFFSET, pubkey) {
        proof {
            assert(data@ != goal) by {
                if data@ == goal {
                    assert forall|j: int| 0 <= j < pubkey@.len() implies data@[PUBLIC_KEY_OFFSET
                        + j] == pubkey@[j] by {
                        assert(data@[PUBLIC_KEY_OFFSET + j] == goal[PUBLIC_KEY_OFFSET + j]);
                    }
                }
            }
        }
        return Err(ErrorCode::SigVerificationFailed);
    }

    if !region_matches(data, SIGNATURE_OFFSET, sig) {
        proof {
            assert(data@ != goal) by {
                if data@ == goal {
                    assert forall|j: int| 0 <= j < sig@.len() implies data@[SIGNATURE_OFFSET + j]
                        == sig@[j] by {
                        assert(data@[SIGNATURE_OFFSET + j] == goal[SIGNATURE_OFFSET + j]);
                    }
                }
            }
        }
        return Err(ErrorCode::SigVerificationFailed);
    }

    if !region_matches(data, MESSAGE_OFFSET, msg) {
        proof {
            assert(data@ != goal) by {
                if data@ == goal {
                    assert forall|j: int| 0 <= j < msg@.len() implies data@[MESSAGE_OFFSET + j]
                        == msg@[j] by {
                        assert(data@[MESSAGE_OFFSET + j] == goal[MESSAGE_OFFSET + j]);
                    }
                }
            }
        }
        return Err(ErrorCode::SigVerificationFailed);
    }

    proof {
        assert forall|i: int| 0 <= i < data@.len() implies data@[i] == goal[i] by {
            if i < HEADER_LEN {
                assert(goal[i] == header_byte(i, msg@.len()));
            } else if i < SIGNATURE_OFFSET {
                let j = i - PUBLIC_KEY_OFFSET;
                assert(data@[PUBLIC_KEY_OFFSET + j] == pubkey@[j]);
            } else if i < MESSAGE_OFFSET {
                let j = i - SIGNATURE_OFFSET;
                assert(data@[SIGNATURE_OFFSET + j] == sig@[j]);
            } else {
                let j = i - MESSAGE_OFFSET;
                assert(data@[MESSAGE_OFFSET + j] == msg@[j]);
            }
        }
        assert(data@ =~= goal);
    }
    Ok(())
}

/// Verify a whole candidate instruction: trusted target identity, no
/// auxiliary accounts, a payload of exactly the expected size — checked
/// before any field is decoded — and then the payload bytes themselves.
/// A message too long for the 16-bit length field is rejected outright.
pub fn sig_verify(
    ix: &CandidateInstruction,
    msg: &[u8],
    sig: &[u8],
    pubkey: &[u8],
) -> (result: Result<(), ErrorCode>)
    requires
        sig@.len() == SIGNATURE_LEN,
        pubkey@.len() == PUBLIC_KEY_LEN,
    ensures
        result == (if claim_matches(
            ix.target_identity@,
            ix.auxiliary_accounts@.len(),
            ix.payload@,
            msg@,
            sig@,
            pubkey@,
        ) {
            Result::<(), ErrorCode>::Ok(())
        } else {
            Result::<(), ErrorCode>::Err(ErrorCode::SigVerificationFailed)
        }),
{
    let trusted: [u8; 32] = TRUSTED_VERIFIER_ID;
    if !region_matches(ix.target_identity.as_slice(), 0, trusted.as_slice()) {
        proof {
            assert(ix.target_identity@ != TRUSTED_VERIFIER_ID@) by {
                if ix.target_identity@ == TRUSTED_VERIFIER_ID@ {
                    assert(forall|j: int|
                        0 <= j < 32 ==> #[trigger] ix.target_identity@[0 + j] == trusted@[j]);
                }
            }
        }
        return Err(ErrorCode::SigVerificationFailed);
    }
    proof {
        assert(ix.target_identity@ =~= TRUSTED_VERIFIER_ID@) by {
            assert(forall|j: int|
                0 <= j < 32 ==> #[trigger] ix.target_identity@[j] == ix.target_identity@[0 + j]);
        }
    }

    if ix.auxiliary_accounts.len() != 0 {
        return Err(ErrorCode::SigVerificationFailed);
    }

    if msg.len() > MAX_MESSAGE_LEN {
        return Err(ErrorCode::SigVerificationFailed);
    }

    if ix.payload.len() != MESSAGE_OFFSET + msg.len() {
        proof {
            assert(expected_payload(msg@, sig@, pubkey@).len() == MESSAGE_OFFSET + msg@.len());
        }
        return Err(ErrorCode::SigVerificationFailed);
    }

    check_data(ix.payload.as_slice(), msg, sig, pubkey)
}

/// Append every byte of `s` to `v`, in order.
fn append_bytes(v: &mut Vec<u8>, s: &[u8])
    ensures
        final(v)@ == old(v)@ + s@,
{
    let n = s.len();
    let mut i: usize = 0;
    while i < n
        invariant
            i <= n,
            n == s@.len(),
            v@ == old(v)@ + s@.subrange(0, i as int),
        decreases n - i,
    {
        v.push(s[i]);
        proof {
            assert(s@.subrange(0, i + 1) =~= s@.subrange(0, i as int).push(s@[i as int]));
        }
        i = i + 1;
    }
    proof {
        assert(s@.subrange(0, n as int) =~= s@);
    }
}

/// Build the exact payload the trusted verifier emits for a single-signature
/// check of `msg` under `pubkey` and `sig`: the 16-byte header followed by
/// the public key, the signature, and the message.
pub fn build_payload(msg: &[u8], sig: &[u8], pubkey: &[u8]) -> (payload: Vec<u8>)
    requires
        sig@.len() == SIGNATURE_LEN,
        pubkey@.len() == PUBLIC_KEY_LEN,
        msg@.len() <= MAX_MESSAGE_LEN,
    ensures
        payload@ == expected_payload(msg@, sig@, pubkey@),
{
    let msg_len = msg.len();
    let mut payload: Vec<u8> = Vec::new();
    payload.push(1);  // signature_count
    payload.push(0);  // padding
    payload.push(48);  // signature_offset
    payload.push(0);
    payload.push(0xFF);  // signature_instruction_index
    payload.push(0xFF);
    payload.push(16);  // public_key_offset
    payload.push(0);
    payload.push(0xFF);  // public_key_instruction_index
    payload.push(0xFF);
    payload.push(112);  // message_offset
    payload.push(0);
    payload.push((msg_len % 256) as u8);  // message_length
    payload.push(((msg_len / 256) % 256) as u8);
    payload.push(0xFF);  // message_instruction_index
    payload.push(0xFF);
    let ghost header = payload@;
    append_bytes(&mut payload, pubkey);
    append_bytes(&mut payload, sig);
    append_bytes(&mut payload, msg);
    proof {
        let goal = expected_payload(msg@, sig@, pubkey@);
        assert(header.len() == HEADER_LEN);
        assert forall|i: int| 0 <= i < payload@.len() implies payload@[i] == goal[i] by {
            if i < HEADER_LEN {
                assert(goal[i] == header_byte(i, msg@.len()));
            }
        }
        assert(payload@ =~= goal);
    }
    payload
}

/// The one public operation: does `candidate` encode exactly one Ed25519
/// signature check of `expected`, issued to the trusted verifier? Success
/// and failure are pinned down completely by [`spec_validate`]; no input is
/// rejected unsafely, and nothing is mutated.
pub fn validate(candidate: &CandidateInstruction, expected: &ExpectedClaim) -> (result: Result<
    (),
    ErrorCode,
>)
    ensures
        result == spec_validate(*candidate, *expected),
{
    sig_verify(
        candidate,
        expected.message.as_slice(),
        expected.signature.as_slice(),
        expected.public_key.as_slice(),
    )
}

} // verus!
