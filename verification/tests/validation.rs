use solana_ed25519_sig_verification::layout::TRUSTED_VERIFIER_ID;
use solana_ed25519_sig_verification::validator::{
    build_payload, check_data, sig_verify, validate, AccountRef, CandidateInstruction, ErrorCode,
    ExpectedClaim,
};

fn sample_message() -> Vec<u8> {
    b"attest: order 4021 settled".to_vec()
}

fn sample_signature() -> [u8; 64] {
    let mut sig = [0u8; 64];
    for (i, b) in sig.iter_mut().enumerate() {
        *b = (100 + i) as u8;
    }
    sig
}

fn sample_public_key() -> [u8; 32] {
    let mut pk = [0u8; 32];
    for (i, b) in pk.iter_mut().enumerate() {
        *b = (3 * i + 1) as u8;
    }
    pk
}

fn sample_claim() -> ExpectedClaim {
    ExpectedClaim {
        message: sample_message(),
        signature: sample_signature(),
        public_key: sample_public_key(),
    }
}

fn correct_candidate() -> CandidateInstruction {
    let claim = sample_claim();
    CandidateInstruction {
        target_identity: TRUSTED_VERIFIER_ID,
        auxiliary_accounts: Vec::new(),
        payload: build_payload(&claim.message, &claim.signature, &claim.public_key),
    }
}

#[test]
fn accepts_correct_payload() {
    assert_eq!(validate(&correct_candidate(), &sample_claim()), Ok(()));
}

#[test]
fn accepts_empty_message() {
    let claim = ExpectedClaim {
        message: Vec::new(),
        signature: sample_signature(),
        public_key: sample_public_key(),
    };
    let payload = build_payload(&claim.message, &claim.signature, &claim.public_key);
    assert_eq!(payload.len(), 112);
    let candidate = CandidateInstruction {
        target_identity: TRUSTED_VERIFIER_ID,
        auxiliary_accounts: Vec::new(),
        payload,
    };
    assert_eq!(validate(&candidate, &claim), Ok(()));
}

#[test]
fn builds_exact_expected_bytes() {
    // Hand-built payload for message "hello", all-zero signature and key,
    // following the wire table: header, then key, signature, message.
    let mut expected: Vec<u8> = vec![
        1, 0, // signature_count, padding
        48, 0, // signature_offset = 48
        0xFF, 0xFF, // signature_instruction_index
        16, 0, // public_key_offset = 16
        0xFF, 0xFF, // public_key_instruction_index
        112, 0, // message_offset = 112
        5, 0, // message_length = 5
        0xFF, 0xFF, // message_instruction_index
    ];
    expected.extend_from_slice(&[0u8; 32]);
    expected.extend_from_slice(&[0u8; 64]);
    expected.extend_from_slice(b"hello");
    assert_eq!(build_payload(b"hello", &[0u8; 64], &[0u8; 32]), expected);
}

#[test]
fn example_scenario_hello_zero_keys() {
    let claim = ExpectedClaim {
        message: b"hello".to_vec(),
        signature: [0u8; 64],
        public_key: [0u8; 32],
    };
    let payload = build_payload(&claim.message, &claim.signature, &claim.public_key);
    assert_eq!(payload.len(), 117);
    assert_eq!(payload[12], 5); // message_length, low byte
    let candidate = CandidateInstruction {
        target_identity: TRUSTED_VERIFIER_ID,
        auxiliary_accounts: Vec::new(),
        payload: payload.clone(),
    };
    assert_eq!(validate(&candidate, &claim), Ok(()));

    // Flipping the message_length byte at offset 12 must fail.
    let mut wrong = payload;
    wrong[12] = 6;
    let candidate = CandidateInstruction {
        target_identity: TRUSTED_VERIFIER_ID,
        auxiliary_accounts: Vec::new(),
        payload: wrong,
    };
    assert_eq!(
        validate(&candidate, &claim),
        Err(ErrorCode::SigVerificationFailed)
    );
}

#[test]
fn rejects_corrupted_header_byte() {
    let claim = sample_claim();
    for offset in 0..16 {
        let mut candidate = correct_candidate();
        candidate.payload[offset] ^= 0x01;
        assert_eq!(
            validate(&candidate, &claim),
            Err(ErrorCode::SigVerificationFailed),
            "header byte {offset}"
        );
    }
}

#[test]
fn rejects_corrupted_body_byte() {
    let claim = sample_claim();
    let len = correct_candidate().payload.len();
    for offset in 16..len {
        let mut candidate = correct_candidate();
        candidate.payload[offset] ^= 0x80;
        assert_eq!(
            validate(&candidate, &claim),
            Err(ErrorCode::SigVerificationFailed),
            "body byte {offset}"
        );
    }
}

#[test]
fn rejects_truncated_payload() {
    let claim = sample_claim();
    let len = correct_candidate().payload.len();
    for keep in 0..len {
        let mut candidate = correct_candidate();
        candidate.payload.truncate(keep);
        assert_eq!(
            validate(&candidate, &claim),
            Err(ErrorCode::SigVerificationFailed),
            "truncated to {keep} bytes"
        );
    }
}

#[test]
fn rejects_wrong_signature_count() {
    let claim = sample_claim();
    for count in [0u8, 2, 255] {
        let mut candidate = correct_candidate();
        candidate.payload[0] = count;
        assert_eq!(
            validate(&candidate, &claim),
            Err(ErrorCode::SigVerificationFailed),
            "signature_count {count}"
        );
    }
}

#[test]
fn rejects_wrong_target_identity() {
    let claim = sample_claim();
    let mut candidate = correct_candidate();
    candidate.target_identity[31] ^= 0x01;
    assert_eq!(
        validate(&candidate, &claim),
        Err(ErrorCode::SigVerificationFailed)
    );
}

#[test]
fn rejects_auxiliary_account() {
    let claim = sample_claim();
    let mut candidate = correct_candidate();
    candidate.auxiliary_accounts.push(AccountRef {
        identity: [9u8; 32],
        is_signer: true,
        is_writable: false,
    });
    assert_eq!(
        validate(&candidate, &claim),
        Err(ErrorCode::SigVerificationFailed)
    );
}

#[test]
fn rejects_oversized_message() {
    // A message of 65536 bytes does not fit the 16-bit length field and is
    // rejected outright, even for a payload assembled along the same layout.
    let message = vec![0xABu8; 65536];
    let claim = ExpectedClaim {
        message: message.clone(),
        signature: sample_signature(),
        public_key: sample_public_key(),
    };
    let mut payload: Vec<u8> = vec![
        1, 0, 48, 0, 0xFF, 0xFF, 16, 0, 0xFF, 0xFF, 112, 0,
        0, 0, // 65536 truncated to 16 bits
        0xFF, 0xFF,
    ];
    payload.extend_from_slice(&claim.public_key);
    payload.extend_from_slice(&claim.signature);
    payload.extend_from_slice(&message);
    let candidate = CandidateInstruction {
        target_identity: TRUSTED_VERIFIER_ID,
        auxiliary_accounts: Vec::new(),
        payload,
    };
    assert_eq!(
        validate(&candidate, &claim),
        Err(ErrorCode::SigVerificationFailed)
    );
}

#[test]
fn validate_is_idempotent() {
    let claim = sample_claim();
    let good = correct_candidate();
    assert_eq!(validate(&good, &claim), validate(&good, &claim));
    assert_eq!(validate(&good, &claim), Ok(()));

    let mut bad = correct_candidate();
    bad.payload[50] ^= 0xFF;
    assert_eq!(validate(&bad, &claim), validate(&bad, &claim));
    assert_eq!(validate(&bad, &claim), Err(ErrorCode::SigVerificationFailed));
}

#[test]
fn sig_verify_checks_whole_instruction() {
    let claim = sample_claim();
    let good = correct_candidate();
    assert_eq!(
        sig_verify(&good, &claim.message, &claim.signature, &claim.public_key),
        Ok(())
    );

    let mut wrong_id = correct_candidate();
    wrong_id.target_identity[0] = 0;
    assert_eq!(
        sig_verify(
            &wrong_id,
            &claim.message,
            &claim.signature,
            &claim.public_key
        ),
        Err(ErrorCode::SigVerificationFailed)
    );
}

#[test]
fn check_data_compares_payload_bytes() {
    let claim = sample_claim();
    let payload = build_payload(&claim.message, &claim.signature, &claim.public_key);
    assert_eq!(
        check_data(&payload, &claim.message, &claim.signature, &claim.public_key),
        Ok(())
    );

    let mut other_key = sample_public_key();
    other_key[4] ^= 0x10;
    assert_eq!(
        check_data(&payload, &claim.message, &claim.signature, &other_key),
        Err(ErrorCode::SigVerificationFailed)
    );
}
