use pump_sniper::codec::{decode_bonding_curve_account, decode_global_account};
use pump_sniper::error::SniperError;
use pump_sniper::instructions::{BuyInstruction, SellInstruction};

fn curve_bytes(
    disc: u64,
    vtok: u64,
    vsol: u64,
    rtok: u64,
    rsol: u64,
    supply: u64,
    complete: bool,
    creator: [u8; 32],
) -> Vec<u8> {
    borsh::to_vec(&(disc, vtok, vsol, rtok, rsol, supply, complete, creator)).unwrap()
}

#[test]
fn test_decode_bonding_curve_account() {
    let data = curve_bytes(
        6_966_180_631_402_821_399,
        1_000_000_000,
        30_000_000_000,
        800_000_000,
        12_345,
        1_000_000_000,
        false,
        [9u8; 32],
    );
    assert_eq!(data.len(), 81);
    let curve = decode_bonding_curve_account(&data).unwrap();
    assert_eq!(curve.discriminator, 6_966_180_631_402_821_399);
    assert_eq!(curve.virtual_token_reserves, 1_000_000_000);
    assert_eq!(curve.virtual_sol_reserves, 30_000_000_000);
    assert_eq!(curve.real_token_reserves, 800_000_000);
    assert_eq!(curve.real_sol_reserves, 12_345);
    assert_eq!(curve.token_total_supply, 1_000_000_000);
    assert!(!curve.complete);
    assert_eq!(curve.creator.to_bytes(), vec![9u8; 32]);
}

#[test]
fn test_decode_bonding_curve_complete_flag_and_trailing_bytes() {
    let mut data = curve_bytes(1, 2, 3, 4, 5, 6, true, [0u8; 32]);
    data.extend([0u8; 7]);
    let curve = decode_bonding_curve_account(&data).unwrap();
    assert!(curve.complete);
    assert_eq!(curve.virtual_token_reserves, 2);
}

#[test]
fn test_decode_bonding_curve_errors() {
    let short = vec![0u8; 80];
    assert!(matches!(
        decode_bonding_curve_account(&short),
        Err(SniperError::SerializationError(_))
    ));
    let mut bad_flag = curve_bytes(1, 2, 3, 4, 5, 6, false, [0u8; 32]);
    bad_flag[48] = 2;
    assert!(matches!(
        decode_bonding_curve_account(&bad_flag),
        Err(SniperError::SerializationError(_))
    ));
}

#[test]
fn test_decode_global_account() {
    let fee_recipients = [[7u8; 32]; 7];
    let data = borsh::to_vec(&(
        99u64,
        true,
        [1u8; 32],
        [2u8; 32],
        1_073_000_000_000_000u64,
        30_000_000_000u64,
        793_100_000_000_000u64,
        1_000_000_000_000_000u64,
        100u64,
        [3u8; 32],
        false,
        500u64,
        50u64,
        fee_recipients,
        [4u8; 32],
    ))
    .unwrap();
    assert_eq!(data.len(), 418);
    let global = decode_global_account(&data).unwrap();
    assert_eq!(global.discriminator, 99);
    assert!(global.initialized);
    assert_eq!(global.authority.to_bytes(), vec![1u8; 32]);
    assert_eq!(global.fee_recipient.to_bytes(), vec![2u8; 32]);
    assert_eq!(global.initial_virtual_token_reserves, 1_073_000_000_000_000);
    assert_eq!(global.initial_virtual_sol_reserves, 30_000_000_000);
    assert_eq!(global.initial_real_token_reserves, 793_100_000_000_000);
    assert_eq!(global.token_total_supply, 1_000_000_000_000_000);
    assert_eq!(global.fee_basis_points, 100);
    assert_eq!(global.withdraw_authority.to_bytes(), vec![3u8; 32]);
    assert!(!global.enable_migrate);
    assert_eq!(global.pool_migration_fee, 500);
    assert_eq!(global.creator_fee_basis_points, 50);
    for recipient in global.fee_recipients.iter() {
        assert_eq!(recipient.to_bytes(), vec![7u8; 32]);
    }
    assert_eq!(global.set_creator_authority.to_bytes(), vec![4u8; 32]);
}

#[test]
fn test_decode_global_account_errors() {
    assert!(matches!(
        decode_global_account(&vec![0u8; 417]),
        Err(SniperError::SerializationError(_))
    ));
    let mut bad = vec![0u8; 418];
    bad[8] = 3;
    assert!(matches!(
        decode_global_account(&bad),
        Err(SniperError::SerializationError(_))
    ));
}

#[test]
fn test_buy_instruction_data_matches_borsh() {
    let ix = BuyInstruction { amount: 123_456_789, max_sol_cost: 52_500_000 };
    let data = ix.data();
    let mut expected = vec![102u8, 6, 61, 18, 1, 218, 235, 234];
    expected.extend(borsh::to_vec(&(123_456_789u64, 52_500_000u64)).unwrap());
    assert_eq!(data, expected);
    assert_eq!(data.len(), 24);
    assert_eq!(BuyInstruction::discriminator(), [102, 6, 61, 18, 1, 218, 235, 234]);
}

#[test]
fn test_sell_instruction_data_matches_borsh() {
    let ix = SellInstruction { amount: 77, min_sol_output: 88 };
    let data = ix.data();
    assert_eq!(data, borsh::to_vec(&(77u64, 88u64)).unwrap());
    assert_eq!(data.len(), 16);
}

#[test]
fn test_decode_rejects_invalid_utf8_in_create() {
    // A creation payload whose name bytes are not UTF-8.
    let mut data = vec![24u8, 30, 200, 40, 5, 28, 7, 119];
    data.extend(2u32.to_le_bytes());
    data.extend([0xff, 0xfe]);
    data.extend(0u32.to_le_bytes());
    data.extend(0u32.to_le_bytes());
    data.extend([0u8; 32]);
    assert!(pump_sniper::instructions::CreateInstruction::from_bytes(&data).is_err());
}
