use pump_sniper::address::Address;
use pump_sniper::constants::create_discriminator;
use pump_sniper::instructions::CreateInstruction;
use pump_sniper::parser::{
    extract_mint_from_instruction, is_create_transaction, parse_token_creation,
    CompiledInstruction, TxMessage,
};

#[test]
fn test_create_discriminator() {
    let disc = create_discriminator();
    assert_eq!(disc.len(), 8);
    // Verify discriminator matches expected value
    assert_eq!(disc, [24, 30, 200, 40, 5, 28, 7, 119]);
}

fn create_payload(name: &str, symbol: &str, uri: &str, creator: [u8; 32]) -> Vec<u8> {
    let ci = CreateInstruction {
        name: name.to_string(),
        symbol: symbol.to_string(),
        uri: uri.to_string(),
        creator: Address::from_bytes(&creator),
    };
    ci.data()
}

#[test]
fn test_create_payload_matches_borsh_layout() {
    let payload = create_payload("coin", "CN", "https://x", [4u8; 32]);
    let tail = borsh::to_vec(&(
        "coin".to_string(),
        "CN".to_string(),
        "https://x".to_string(),
        [4u8; 32],
    ))
    .unwrap();
    let mut expected = vec![24u8, 30, 200, 40, 5, 28, 7, 119];
    expected.extend(tail);
    assert_eq!(payload, expected);
}

#[test]
fn test_create_payload_round_trip() {
    let payload = create_payload("my token", "MTK", "ipfs://meta", [8u8; 32]);
    let parsed = CreateInstruction::from_bytes(&payload).unwrap();
    assert_eq!(parsed.name, "my token");
    assert_eq!(parsed.symbol, "MTK");
    assert_eq!(parsed.uri, "ipfs://meta");
    assert_eq!(parsed.creator.to_bytes(), vec![8u8; 32]);
}

#[test]
fn test_create_from_bytes_rejects_bad_input() {
    assert!(CreateInstruction::from_bytes(&[1, 2, 3]).is_err());
    let wrong_tag = [0u8; 60];
    assert!(CreateInstruction::from_bytes(&wrong_tag).is_err());
    let mut truncated = create_payload("abc", "A", "u", [1u8; 32]);
    truncated.pop();
    assert!(CreateInstruction::from_bytes(&truncated).is_err());
    let mut trailing = create_payload("abc", "A", "u", [1u8; 32]);
    trailing.push(0);
    assert!(CreateInstruction::from_bytes(&trailing).is_err());
}

#[test]
fn test_is_create_transaction() {
    let creation = CompiledInstruction {
        accounts: vec![0],
        data: create_payload("tok", "T", "u", [2u8; 32]),
    };
    let other = CompiledInstruction { accounts: vec![1], data: vec![9, 9, 9] };
    let msg = TxMessage {
        account_keys: vec![vec![6u8; 32], vec![7u8; 32]],
        instructions: vec![other, creation],
    };
    assert!(is_create_transaction(&msg));

    let empty = TxMessage {
        account_keys: vec![],
        instructions: vec![CompiledInstruction { accounts: vec![], data: vec![1, 2] }],
    };
    assert!(!is_create_transaction(&empty));
}

#[test]
fn test_extract_mint_from_instruction() {
    let msg = TxMessage {
        account_keys: vec![vec![6u8; 32], vec![7u8; 32]],
        instructions: vec![CompiledInstruction { accounts: vec![1, 0], data: vec![] }],
    };
    let mint = extract_mint_from_instruction(&msg, 0).unwrap();
    assert_eq!(mint.to_bytes(), vec![7u8; 32]);

    let no_accounts = TxMessage {
        account_keys: vec![vec![6u8; 32]],
        instructions: vec![CompiledInstruction { accounts: vec![], data: vec![] }],
    };
    assert!(extract_mint_from_instruction(&no_accounts, 0).is_none());

    let bad_index = TxMessage {
        account_keys: vec![vec![6u8; 32]],
        instructions: vec![CompiledInstruction { accounts: vec![5], data: vec![] }],
    };
    assert!(extract_mint_from_instruction(&bad_index, 0).is_none());
}

#[test]
fn test_parse_token_creation() {
    let mint_bytes = [13u8; 32];
    let msg = TxMessage {
        account_keys: vec![mint_bytes.to_vec()],
        instructions: vec![CompiledInstruction {
            accounts: vec![0],
            data: create_payload("fresh", "FRS", "https://meta", [21u8; 32]),
        }],
    };
    let token = parse_token_creation(&msg, "sig123".to_string(), 1_700_000_000).unwrap();
    assert_eq!(token.name, "fresh");
    assert_eq!(token.symbol, "FRS");
    assert_eq!(token.uri, "https://meta");
    assert_eq!(token.creator.to_bytes(), vec![21u8; 32]);
    assert_eq!(token.mint.to_bytes(), mint_bytes.to_vec());
    assert_eq!(token.creation_signature, "sig123");
    assert_eq!(token.created_at, 1_700_000_000);

    let expected_curve =
        pump_sniper::pda::derive_bonding_curve_pda(&Address::from_bytes(&mint_bytes)).unwrap();
    assert_eq!(token.bonding_curve, expected_curve);
}

#[test]
fn test_parse_token_creation_no_create() {
    let msg = TxMessage {
        account_keys: vec![vec![1u8; 32]],
        instructions: vec![CompiledInstruction { accounts: vec![0], data: vec![1, 2, 3] }],
    };
    assert!(parse_token_creation(&msg, "s".to_string(), 0).is_none());
}
