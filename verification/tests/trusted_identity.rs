use solana_ed25519_sig_verification::layout::TRUSTED_VERIFIER_ID;

#[test]
fn trusted_verifier_id_is_the_ed25519_program() {
    // The constant baked into the library must be the identity of the real
    // Ed25519 native program, as the Solana SDK declares it.
    assert_eq!(
        TRUSTED_VERIFIER_ID,
        solana_program::ed25519_program::ID.to_bytes()
    );
}
