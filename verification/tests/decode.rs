use solana_token_viewer::account::{
    account_from_fields, decode, DecodeError, DecodedTokenAccount, RawAccount, TokenFields,
};

const MINT_OF_TWOS: &str = "8qbHbw2BbbTHBW1sbeqakYXVKRQM8Ne7pLK7m6CVfeR";
const OWNER_OF_THREES: &str = "CktRuQ2mttgRGkXJtyksdKHjUdc2C4TgDzyB98oEzy8";

/// A token account payload: mint, owner, amount, no delegate, the given
/// state byte, not native, nothing delegated, no close authority.
fn token_payload(mint: u8, owner: u8, amount: u64, state: u8) -> Vec<u8> {
    let mut data = Vec::new();
    data.extend_from_slice(&[mint; 32]);
    data.extend_from_slice(&[owner; 32]);
    data.extend_from_slice(&amount.to_le_bytes());
    data.extend_from_slice(&[0u8; 36]);
    data.push(state);
    data.extend_from_slice(&[0u8; 12]);
    data.extend_from_slice(&[0u8; 8]);
    data.extend_from_slice(&[0u8; 36]);
    assert_eq!(data.len(), 165);
    data
}

#[test]
fn decode_reads_mint_owner_and_amount() {
    let raw = RawAccount::new("acc1".to_string(), token_payload(2, 3, 42, 1));
    let account = decode(&raw).unwrap();
    assert_eq!(account.address, "acc1");
    assert_eq!(account.mint, MINT_OF_TWOS);
    assert_eq!(account.owner, OWNER_OF_THREES);
    assert_eq!(account.amount, "42");
}

#[test]
fn decode_keeps_the_smallest_unit() {
    let raw = RawAccount::new("a".to_string(), token_payload(2, 3, u64::MAX, 1));
    assert_eq!(decode(&raw).unwrap().amount, "18446744073709551615");
    let raw = RawAccount::new("a".to_string(), token_payload(2, 3, 0, 2));
    assert_eq!(decode(&raw).unwrap().amount, "0");
}

#[test]
fn decode_rejects_short_payload() {
    let raw = RawAccount::new("acc2".to_string(), vec![0u8; 4]);
    assert_eq!(decode(&raw), Err(DecodeError::NotTokenAccount));
}

#[test]
fn decode_rejects_empty_payload() {
    let raw = RawAccount::new("acc2".to_string(), Vec::new());
    assert_eq!(decode(&raw), Err(DecodeError::NotTokenAccount));
}

#[test]
fn decode_rejects_uninitialized_account() {
    let raw = RawAccount::new("acc3".to_string(), token_payload(2, 3, 42, 0));
    assert_eq!(decode(&raw), Err(DecodeError::NotTokenAccount));
}

#[test]
fn decode_rejects_unknown_state() {
    let raw = RawAccount::new("acc3".to_string(), token_payload(2, 3, 42, 9));
    assert_eq!(decode(&raw), Err(DecodeError::NotTokenAccount));
}

#[test]
fn decoded_amount_is_a_run_of_digits() {
    for amount in [0u64, 1, 9, 10, 42, 1_000_000, u64::MAX] {
        let raw = RawAccount::new("a".to_string(), token_payload(7, 9, amount, 1));
        let account = decode(&raw).unwrap();
        assert!(!account.amount.is_empty());
        assert!(account.amount.chars().all(|c| c.is_ascii_digit()));
        assert_eq!(account.amount, amount.to_string());
    }
}

#[test]
fn decode_rejects_a_mint_payload() {
    let mut data = vec![0u8; 82];
    data[0] = 1;
    data[4..36].copy_from_slice(&[3u8; 32]);
    data[36..44].copy_from_slice(&42u64.to_le_bytes());
    data[44] = 3;
    data[45] = 1;
    let raw = RawAccount::new("mint".to_string(), data);
    assert_eq!(decode(&raw), Err(DecodeError::NotTokenAccount));
}

#[test]
fn decode_rejects_a_truncated_account() {
    let mut data = token_payload(2, 3, 42, 1);
    data.pop();
    let raw = RawAccount::new("short".to_string(), data);
    assert_eq!(decode(&raw), Err(DecodeError::NotTokenAccount));
}

fn fields(amount: &str) -> Option<TokenFields> {
    Some(TokenFields { mint: "M".to_string(), owner: "O".to_string(), amount: amount.to_string() })
}

#[test]
fn record_is_built_from_read_fields() {
    assert_eq!(
        account_from_fields("A".to_string(), fields("42")),
        Ok(DecodedTokenAccount {
            address: "A".to_string(),
            mint: "M".to_string(),
            owner: "O".to_string(),
            amount: "42".to_string(),
        })
    );
}

#[test]
fn record_is_refused_without_fields() {
    assert_eq!(account_from_fields("A".to_string(), None), Err(DecodeError::NotTokenAccount));
}

#[test]
fn record_is_refused_for_an_amount_that_is_no_run_of_digits() {
    for amount in ["", "-4", "+4", "4.2", "4e2", " 4", "four"] {
        assert_eq!(
            account_from_fields("A".to_string(), fields(amount)),
            Err(DecodeError::InvalidAmount)
        );
    }
}

#[test]
fn decode_reads_an_account_that_carries_an_extension() {
    let mut data = token_payload(2, 3, 77, 1);
    // account type, then one extension entry: type 7 (immutable owner), length 0
    data.extend_from_slice(&[2, 7, 0, 0, 0]);
    let raw = RawAccount::new("ext".to_string(), data);
    let account = decode(&raw).unwrap();
    assert_eq!(account.mint, MINT_OF_TWOS);
    assert_eq!(account.owner, OWNER_OF_THREES);
    assert_eq!(account.amount, "77");
}

#[test]
fn decode_rejects_a_multisig_payload() {
    let mut data = vec![0u8; 355];
    data[0] = 1;
    data[1] = 1;
    data[2] = 1;
    data[3..35].copy_from_slice(&[3u8; 32]);
    let raw = RawAccount::new("multisig".to_string(), data);
    assert_eq!(decode(&raw), Err(DecodeError::NotTokenAccount));
}

#[test]
fn decode_rejects_an_invalid_delegate_tag() {
    let mut data = token_payload(2, 3, 42, 1);
    data[72] = 9;
    let raw = RawAccount::new("bad".to_string(), data);
    assert_eq!(decode(&raw), Err(DecodeError::NotTokenAccount));
}
