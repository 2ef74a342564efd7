use solana_http_core::codec::Address;
use solana_http_core::error::{ApiResponse, EngineError, Field};
use solana_http_core::instruction::derive_associated_address;
use solana_http_core::requests::{
    create_token, mint_token, render_instruction, send_sol, send_token,
};
use solana_http_core::signing::{
    decode_secret_key, generate_keypair, sign_message, verify_message, Signature,
};

// RFC 8032, test 1: seed, public key, and the signature of the empty message.
const SEED_HEX: &str = "9d61b19deffd5a60ba844af492ec2cc44449c5697b326919703bac031cae7f60";
const PUBLIC_HEX: &str = "d75a980182b10ab7d54bfed3c964073a0ee172f3daa62325af021a68f707511a";
const SECRET_TEXT: &str =
    "49W385L4rePHy6PAaQUovbD2aacgN4HsKXSMeUzRg4fmwXszN91JuMFrQRj3vMDpZuRF3ZknQBuRBoWQJEfXstMw";
const PUBLIC_TEXT: &str = "FVen3X669xLzsi6N2V91DoiyzHzg1uAgqiT8jZ9nS96Z";
const EMPTY_MESSAGE_SIGNATURE: &str =
    "5awYiUvGiDFA33EJjj4TXJG44a5afJc8QjWRpGgQiu6b23jCr7yndW2fmp9ujwqJVe32J456wV3VF78Asb1obnTc";

// The addresses of 32 bytes of 1s, 2s and 3s.
const ADDR_A: &str = "4vJ9JU1bJJE96FWSJKvHsmmFADCg4gpZQff4P3bkLKi";
const ADDR_B: &str = "8qbHbw2BbbTHBW1sbeqakYXVKRQM8Ne7pLK7m6CVfeR";
const ADDR_C: &str = "CktRuQ2mttgRGkXJtyksdKHjUdc2C4TgDzyB98oEzy8";

const SYSTEM_PROGRAM: &str = "11111111111111111111111111111111";
const TOKEN_PROGRAM: &str = "TokenkegQfeZyiNwAJbNbGKPFXCWuBvf9Ss623VQ5DA";
const RENT_SYSVAR: &str = "SysvarRent111111111111111111111111111111111";

fn hex(s: &str) -> Vec<u8> {
    (0..s.len()).step_by(2).map(|i| u8::from_str_radix(&s[i..i + 2], 16).unwrap()).collect()
}

fn addr(s: &str) -> Address {
    Address::from_text(s).unwrap()
}

#[test]
fn address_decodes_to_its_bytes() {
    assert_eq!(addr(ADDR_A).bytes, [1u8; 32]);
    assert_eq!(addr(SYSTEM_PROGRAM).bytes, [0u8; 32]);
}

#[test]
fn address_round_trip() {
    for text in [ADDR_A, ADDR_B, ADDR_C, SYSTEM_PROGRAM, TOKEN_PROGRAM, PUBLIC_TEXT] {
        assert_eq!(addr(text).to_text(), text);
    }
}

#[test]
fn address_rejects_wrong_length_and_bad_characters() {
    assert!(Address::from_text("abc").is_none());
    assert!(Address::from_text("").is_none());
    assert!(Address::from_text(SECRET_TEXT).is_none());
    assert!(Address::from_text("0vJ9JU1bJJE96FWSJKvHsmmFADCg4gpZQff4P3bkLKi").is_none());
}

#[test]
fn secret_key_test_vector_gives_known_public_key() {
    let kp = decode_secret_key(SECRET_TEXT).unwrap();
    assert_eq!(kp.secret.to_vec(), hex(SEED_HEX));
    assert_eq!(kp.public.bytes.to_vec(), hex(PUBLIC_HEX));
    assert_eq!(kp.public.to_text(), PUBLIC_TEXT);
}

#[test]
fn secret_key_round_trip() {
    let kp = decode_secret_key(SECRET_TEXT).unwrap();
    assert_eq!(kp.to_text(), SECRET_TEXT);
}

#[test]
fn secret_key_errors() {
    // 32 bytes only.
    assert_eq!(decode_secret_key(ADDR_A).unwrap_err(), EngineError::InvalidSecretKey);
    // not base58
    assert_eq!(decode_secret_key("0OIl").unwrap_err(), EngineError::InvalidSecretKey);
    // 64 bytes whose second half is not the derived public key
    let mut bytes = hex(SEED_HEX);
    bytes.extend_from_slice(&[1u8; 32]);
    let text = bs58::encode(&bytes).into_string();
    assert_eq!(decode_secret_key(&text).unwrap_err(), EngineError::MalformedKeypair);
}

#[test]
fn signature_round_trip_and_errors() {
    let sig = Signature::from_text(EMPTY_MESSAGE_SIGNATURE).unwrap();
    assert_eq!(sig.to_text(), EMPTY_MESSAGE_SIGNATURE);
    assert_eq!(Signature::from_text("0").unwrap_err(), EngineError::InvalidSignatureEncoding);
    assert_eq!(Signature::from_text(ADDR_A).unwrap_err(), EngineError::InvalidSignatureLength);
}

#[test]
fn known_signature_of_empty_message_verifies() {
    let out = verify_message("", EMPTY_MESSAGE_SIGNATURE, PUBLIC_TEXT).unwrap();
    assert!(out.valid);
    assert_eq!(out.pubkey, PUBLIC_TEXT);
    assert_eq!(out.message, "");
}

#[test]
fn sign_message_returns_public_key_and_verifiable_signature() {
    let signed = sign_message("hello", SECRET_TEXT).unwrap();
    assert_eq!(signed.pubkey, PUBLIC_TEXT);
    assert_eq!(signed.message, "hello");
    assert_eq!(bs58::decode(&signed.signature).into_vec().unwrap().len(), 64);
    let again = sign_message("hello", SECRET_TEXT).unwrap();
    assert_eq!(again.signature, signed.signature);
    assert!(verify_message("hello", &signed.signature, &signed.pubkey).unwrap().valid);
}

#[test]
fn generated_keypair_signs_and_verifies() {
    let kp = generate_keypair();
    let decoded = decode_secret_key(&kp.secret).unwrap();
    assert_eq!(decoded.public.to_text(), kp.pubkey);
    for message in ["m", "with\0zero\0bytes", "ünïcode"] {
        let signed = sign_message(message, &kp.secret).unwrap();
        assert_eq!(signed.pubkey, kp.pubkey);
        assert!(verify_message(message, &signed.signature, &kp.pubkey).unwrap().valid);
    }
}

#[test]
fn generated_keypairs_differ() {
    assert_ne!(generate_keypair().secret, generate_keypair().secret);
}

#[test]
fn tampered_signature_or_other_key_does_not_verify() {
    let signed = sign_message("hello", SECRET_TEXT).unwrap();
    let mut bytes = bs58::decode(&signed.signature).into_vec().unwrap();
    for bit in [0usize, 9, 255, 511] {
        bytes[bit / 8] ^= 1 << (bit % 8);
        let tampered = bs58::encode(&bytes).into_string();
        assert!(!verify_message("hello", &tampered, PUBLIC_TEXT).unwrap().valid);
        bytes[bit / 8] ^= 1 << (bit % 8);
    }
    let other = generate_keypair();
    assert!(!verify_message("hello", &signed.signature, &other.pubkey).unwrap().valid);
    assert!(!verify_message("hellp", &signed.signature, PUBLIC_TEXT).unwrap().valid);
}

#[test]
fn sign_message_field_errors() {
    assert_eq!(
        sign_message("", SECRET_TEXT).unwrap_err(),
        EngineError::EmptyField(Field::Message)
    );
    assert_eq!(sign_message("", "").unwrap_err(), EngineError::EmptyField(Field::Message));
    assert_eq!(sign_message("hi", "").unwrap_err(), EngineError::EmptyField(Field::Secret));
    assert_eq!(sign_message("hi", ADDR_A).unwrap_err(), EngineError::InvalidSecretKey);
}

#[test]
fn verify_message_field_errors() {
    assert_eq!(
        verify_message("hi", EMPTY_MESSAGE_SIGNATURE, "abc").unwrap_err(),
        EngineError::InvalidAddress(Field::Pubkey)
    );
    assert_eq!(
        verify_message("hi", "0", PUBLIC_TEXT).unwrap_err(),
        EngineError::InvalidSignatureEncoding
    );
    assert_eq!(
        verify_message("hi", ADDR_A, PUBLIC_TEXT).unwrap_err(),
        EngineError::InvalidSignatureLength
    );
}

#[test]
fn native_transfer_layout() {
    let ix = send_sol(ADDR_A, ADDR_B, 1_000_000).unwrap();
    assert_eq!(ix.program_id.bytes, [0u8; 32]);
    assert_eq!(ix.accounts.len(), 2);
    assert_eq!(ix.accounts[0].address, addr(ADDR_A));
    assert!(ix.accounts[0].is_signer && ix.accounts[0].is_writable);
    assert_eq!(ix.accounts[1].address, addr(ADDR_B));
    assert!(!ix.accounts[1].is_signer && ix.accounts[1].is_writable);
    assert_eq!(ix.data, vec![2, 0, 0, 0, 0x40, 0x42, 0x0f, 0, 0, 0, 0, 0]);
    assert_eq!(ix.data[4..].to_vec(), 1_000_000u64.to_le_bytes().to_vec());

    let out = render_instruction(&ix);
    assert_eq!(out.program_id, SYSTEM_PROGRAM);
    assert_eq!(out.accounts[0].pubkey, ADDR_A);
    assert_eq!(out.accounts[1].pubkey, ADDR_B);
    assert_eq!(out.instruction_data, "AgAAAEBCDwAAAAAA");
}

#[test]
fn zero_amount_is_rejected_everywhere() {
    let zero = EngineError::InvalidAmount(Field::Amount);
    assert_eq!(send_sol(ADDR_A, ADDR_B, 0).unwrap_err(), zero);
    assert_eq!(mint_token(ADDR_A, ADDR_B, ADDR_C, 0).unwrap_err(), zero);
    assert_eq!(send_token(ADDR_A, ADDR_B, ADDR_C, 0).unwrap_err(), zero);
    // minting and token transfers check the amount before any address
    assert_eq!(mint_token("x", "y", "z", 0).unwrap_err(), zero);
    assert_eq!(send_token("x", "y", "z", 0).unwrap_err(), zero);
}

#[test]
fn smallest_and_largest_amounts_are_accepted() {
    for amount in [1u64, u64::MAX] {
        let ix = send_sol(ADDR_A, ADDR_B, amount).unwrap();
        assert_eq!(ix.data[4..].to_vec(), amount.to_le_bytes().to_vec());
        let ix = mint_token(ADDR_A, ADDR_B, ADDR_C, amount).unwrap();
        assert_eq!(ix.data[1..].to_vec(), amount.to_le_bytes().to_vec());
        let ix = send_token(ADDR_A, ADDR_B, ADDR_C, amount).unwrap();
        assert_eq!(ix.data[1..].to_vec(), amount.to_le_bytes().to_vec());
    }
}

#[test]
fn decimals_boundary() {
    let ix = create_token(ADDR_C, ADDR_A, 9).unwrap();
    assert_eq!(ix.data[..2].to_vec(), vec![0u8, 9]);
    assert_eq!(
        create_token(ADDR_C, ADDR_A, 10).unwrap_err(),
        EngineError::InvalidDecimals
    );
    assert!(create_token(ADDR_C, ADDR_A, 0).is_ok());
}

#[test]
fn mint_initialize_layout() {
    let ix = create_token(ADDR_C, ADDR_A, 6).unwrap();
    assert_eq!(ix.program_id.to_text(), TOKEN_PROGRAM);
    assert_eq!(ix.accounts.len(), 2);
    assert_eq!(ix.accounts[0].address, addr(ADDR_A));
    assert!(!ix.accounts[0].is_signer && ix.accounts[0].is_writable);
    assert_eq!(ix.accounts[1].address.to_text(), RENT_SYSVAR);
    assert!(!ix.accounts[1].is_signer && !ix.accounts[1].is_writable);
    let mut data = vec![0u8, 6];
    data.extend_from_slice(&[3u8; 32]);
    data.push(0);
    assert_eq!(ix.data, data);
}

#[test]
fn create_token_field_errors() {
    assert_eq!(
        create_token("  ", ADDR_A, 6).unwrap_err(),
        EngineError::EmptyField(Field::MintAuthority)
    );
    assert_eq!(
        create_token(ADDR_C, "\t\n", 6).unwrap_err(),
        EngineError::EmptyField(Field::Mint)
    );
    assert_eq!(
        create_token(ADDR_C, "abc", 6).unwrap_err(),
        EngineError::InvalidAddress(Field::Mint)
    );
    assert_eq!(
        create_token("abc", ADDR_A, 6).unwrap_err(),
        EngineError::InvalidAddress(Field::MintAuthority)
    );
}

#[test]
fn mint_to_layout() {
    let ix = mint_token(ADDR_A, ADDR_B, ADDR_C, 42).unwrap();
    let ata = derive_associated_address(&addr(ADDR_B), &addr(ADDR_A));
    assert_eq!(ix.program_id.to_text(), TOKEN_PROGRAM);
    assert_eq!(ix.accounts.len(), 3);
    assert_eq!(ix.accounts[0].address, addr(ADDR_A));
    assert!(!ix.accounts[0].is_signer && ix.accounts[0].is_writable);
    assert_eq!(ix.accounts[1].address, ata);
    assert!(!ix.accounts[1].is_signer && ix.accounts[1].is_writable);
    assert_eq!(ix.accounts[2].address, addr(ADDR_C));
    assert!(ix.accounts[2].is_signer && !ix.accounts[2].is_writable);
    assert_eq!(ix.data, vec![7, 42, 0, 0, 0, 0, 0, 0, 0]);
}

#[test]
fn token_transfer_layout() {
    let ix = send_token(ADDR_A, ADDR_B, ADDR_C, 5).unwrap();
    let source = derive_associated_address(&addr(ADDR_C), &addr(ADDR_A));
    let destination = derive_associated_address(&addr(ADDR_B), &addr(ADDR_A));
    assert_eq!(ix.program_id.to_text(), TOKEN_PROGRAM);
    assert_eq!(ix.accounts.len(), 3);
    assert_eq!(ix.accounts[0].address, source);
    assert!(!ix.accounts[0].is_signer && ix.accounts[0].is_writable);
    assert_eq!(ix.accounts[1].address, destination);
    assert!(!ix.accounts[1].is_signer && ix.accounts[1].is_writable);
    assert_eq!(ix.accounts[2].address, addr(ADDR_C));
    assert!(ix.accounts[2].is_signer && !ix.accounts[2].is_writable);
    assert_eq!(ix.data, vec![3, 5, 0, 0, 0, 0, 0, 0, 0]);
}

#[test]
fn malformed_address_names_its_field() {
    let bad = "abc";
    let e = |f| EngineError::InvalidAddress(f);
    assert_eq!(send_sol(bad, ADDR_B, 1).unwrap_err(), e(Field::Sender));
    assert_eq!(send_sol(ADDR_A, bad, 1).unwrap_err(), e(Field::Recipient));
    assert_eq!(mint_token(bad, ADDR_B, ADDR_C, 1).unwrap_err(), e(Field::Mint));
    assert_eq!(mint_token(ADDR_A, bad, ADDR_C, 1).unwrap_err(), e(Field::Destination));
    assert_eq!(mint_token(ADDR_A, ADDR_B, bad, 1).unwrap_err(), e(Field::Authority));
    assert_eq!(send_token(bad, ADDR_B, ADDR_C, 1).unwrap_err(), e(Field::Mint));
    assert_eq!(send_token(ADDR_A, bad, ADDR_C, 1).unwrap_err(), e(Field::Destination));
    assert_eq!(send_token(ADDR_A, ADDR_B, bad, 1).unwrap_err(), e(Field::Owner));
}

#[test]
fn same_owner_different_mints_use_distinct_associated_accounts() {
    let first = send_token(ADDR_A, ADDR_C, ADDR_C, 5).unwrap();
    let second = send_token(ADDR_B, ADDR_C, ADDR_C, 5).unwrap();
    assert_eq!(first.accounts[0].address, first.accounts[1].address);
    assert_ne!(first.accounts[0].address, second.accounts[0].address);
    assert!(first.accounts[0].is_writable && second.accounts[0].is_writable);
    assert_ne!(first.accounts[0].address, addr(ADDR_C));
}

#[test]
fn associated_address_is_deterministic() {
    let a = derive_associated_address(&addr(ADDR_A), &addr(ADDR_B));
    let b = derive_associated_address(&addr(ADDR_A), &addr(ADDR_B));
    let c = derive_associated_address(&addr(ADDR_B), &addr(ADDR_A));
    assert_eq!(a, b);
    assert_ne!(a, c);
}

#[test]
fn error_messages_and_envelopes() {
    assert_eq!(
        EngineError::InvalidAddress(Field::Sender).message(),
        "invalid address: sender"
    );
    assert_eq!(EngineError::InvalidDecimals.message(), "invalid decimal places");
    assert_eq!(
        EngineError::InstructionConstructionFailed("bad id".to_string()).message(),
        "failed to create instruction: bad id"
    );
    match ApiResponse::from_result(Ok::<u8, EngineError>(7)) {
        ApiResponse::Success { success, data } => assert!(success && data == 7),
        _ => panic!("expected a success envelope"),
    }
    match ApiResponse::<u8>::from_result(Err(EngineError::InvalidAmount(Field::Amount))) {
        ApiResponse::Error { success, error } => {
            assert!(!success);
            assert_eq!(error, "invalid amount: amount");
        }
        _ => panic!("expected an error envelope"),
    }
}
