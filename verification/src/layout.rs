//! The wire format of a single-signature Ed25519 verification instruction.
//!
//! The layout is an external contract owned by the Ed25519 program, so it is
//! written down here as explicit offsets and byte values rather than as an
//! overlaid structure. The payload starts with a 16-byte header of nine
//! little-endian fields, followed by the public key, the signature, and the
//! message:
//!
//! | offset | size | field                        | expected value |
//! |--------|------|------------------------------|----------------|
//! | 0      | 1    | signature_count              | 1              |
//! | 1      | 1    | padding                      | 0              |
//! | 2      | 2    | signature_offset             | 48             |
//! | 4      | 2    | signature_instruction_index  | 0xFFFF         |
//! | 6      | 2    | public_key_offset            | 16             |
//! | 8      | 2    | public_key_instruction_index | 0xFFFF         |
//! | 10     | 2    | message_offset               | 112            |
//! | 12     | 2    | message_length               | len(message)   |
//! | 14     | 2    | message_instruction_index    | 0xFFFF         |
//! | 16     | 32   | public key bytes             |                |
//! | 48     | 64   | signature bytes              |                |
//! | 112    | var  | message bytes                |                |
//!
//! The 0xFFFF instruction indexes are the Ed25519 program's sentinel for
//! "the data lives in this same instruction".

use vstd::prelude::*;

verus! {

/// Identity of the trusted Ed25519 signature-verification program
/// (the 32 bytes of the address `Ed25519SigVerify111111111111111111111111111`).
pub const TRUSTED_VERIFIER_ID: [u8; 32] = [
    3, 125, 70, 214, 124, 147, 251, 190, 18, 249, 66, 143, 131, 141, 64, 255,
    5, 112, 116, 73, 39, 244, 138, 100, 252, 202, 112, 68, 128, 0, 0, 0,
];

/// Header size: two one-byte fields followed by seven two-byte fields.
pub const HEADER_LEN: usize = 16;
/// A public key is a fixed 32 bytes.
pub const PUBLIC_KEY_LEN: usize = 32;
/// A signature is a fixed 64 bytes.
pub const SIGNATURE_LEN: usize = 64;
/// The public key follows the header directly.
pub const PUBLIC_KEY_OFFSET: usize = HEADER_LEN;
/// The signature follows the public key.
pub const SIGNATURE_OFFSET: usize = PUBLIC_KEY_OFFSET + PUBLIC_KEY_LEN;
/// The message follows the signature.
pub const MESSAGE_OFFSET: usize = SIGNATURE_OFFSET + SIGNATURE_LEN;
/// The message length must fit the 16-bit header field.
pub const MAX_MESSAGE_LEN: usize = 0xFFFF;
/// Sentinel byte pair 0xFFFF: "refers to this same instruction".
pub const SAME_INSTRUCTION_SENTINEL_BYTE: u8 = 0xFF;

/// Low byte of a value encoded as a 16-bit little-endian integer.
pub open spec fn le_low_byte(n: nat) -> u8 {
    (n % 256) as u8
}

/// High byte of a value encoded as a 16-bit little-endian integer.
pub open spec fn le_high_byte(n: nat) -> u8 {
    ((n / 256) % 256) as u8
}

/// Byte `i` of the 16-byte header for a message of length `msg_len`.
pub open spec fn header_byte(i: int, msg_len: nat) -> u8
    recommends
        0 <= i < HEADER_LEN,
{
    if i == 0 {
        1u8  // signature_count
    } else if i == 1 {
        0u8  // padding
    } else if i == 2 {
        le_low_byte(SIGNATURE_OFFSET as nat)
    } else if i == 3 {
        le_high_byte(SIGNATURE_OFFSET as nat)
    } else if i == 4 || i == 5 {
        SAME_INSTRUCTION_SENTINEL_BYTE  // signature_instruction_index
    } else if i == 6 {
        le_low_byte(PUBLIC_KEY_OFFSET as nat)
    } else if i == 7 {
        le_high_byte(PUBLIC_KEY_OFFSET as nat)
    } else if i == 8 || i == 9 {
        SAME_INSTRUCTION_SENTINEL_BYTE  // public_key_instruction_index
    } else if i == 10 {
        le_low_byte(MESSAGE_OFFSET as nat)
    } else if i == 11 {
        le_high_byte(MESSAGE_OFFSET as nat)
    } else if i == 12 {
        le_low_byte(msg_len)  // message_length
    } else if i == 13 {
        le_high_byte(msg_len)
    } else {
        SAME_INSTRUCTION_SENTINEL_BYTE  // message_instruction_index
    }
}

/// The exact payload the Ed25519 program accepts for a single signature
/// check of `msg` under `pk` and `sig`: the 16-byte header, then the public
/// key, the signature, and the message, in that order.
pub open spec fn expected_payload(msg: Seq<u8>, sig: Seq<u8>, pk: Seq<u8>) -> Seq<u8>
    recommends
        sig.len() == SIGNATURE_LEN,
        pk.len() == PUBLIC_KEY_LEN,
        msg.len() <= MAX_MESSAGE_LEN,
{
    Seq::new(
        (MESSAGE_OFFSET + msg.len()) as nat,
        |i: int|
            {
                if i < HEADER_LEN {
                    header_byte(i, msg.len())
                } else if i < SIGNATURE_OFFSET {
                    pk[i - PUBLIC_KEY_OFFSET]
                } else if i < MESSAGE_OFFSET {
                    sig[i - SIGNATURE_OFFSET]
                } else {
                    msg[i - MESSAGE_OFFSET]
                }
            },
    )
}

/// The validation predicate: a candidate instruction with identity
/// `target_identity`, `n_auxiliary_accounts` auxiliary accounts and payload
/// `payload` encodes exactly one Ed25519 signature check of `msg` under `pk`
/// and `sig` — and nothing else — iff the identity is the trusted verifier's,
/// the account list is empty, the message length fits the 16-bit header
/// field, and the payload is byte-exact with the expected layout.
pub open spec fn claim_matches(
    target_identity: Seq<u8>,
    n_auxiliary_accounts: nat,
    payload: Seq<u8>,
    msg: Seq<u8>,
    sig: Seq<u8>,
    pk: Seq<u8>,
) -> bool {
    &&& target_identity == TRUSTED_VERIFIER_ID@
    &&& n_auxiliary_accounts == 0
    &&& msg.len() <= MAX_MESSAGE_LEN
    &&& payload == expected_payload(msg, sig, pk)
}

} // verus!
