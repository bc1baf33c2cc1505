//! Structural validator for Ed25519 signature-verification instructions.
//!
//! The Solana runtime ships a native Ed25519 program: a transaction may carry
//! an instruction addressed to it, and the runtime executes the cryptographic
//! check before the transaction's own programs run. A program that wants to
//! rely on that check inspects the instruction list, fetches the candidate
//! instruction, and must then decide — by structural inspection of the raw
//! bytes alone — whether that instruction really encodes exactly one Ed25519
//! signature check over the message, signature, and public key it expects.
//!
//! This crate holds that deserialization-and-comparison logic. It performs no
//! cryptography and no instruction introspection itself: it is a pure
//! predicate over a candidate instruction (target identity, auxiliary account
//! list, opaque byte payload) and an expected claim (message, 64-byte
//! signature, 32-byte public key). Validation succeeds exactly when the
//! target identity is the trusted Ed25519 program, the auxiliary account list
//! is empty, and the payload is byte-for-byte the single-signature layout the
//! Ed25519 program accepts for those expected values.

pub mod layout;
pub mod validator;
pub mod laws;
