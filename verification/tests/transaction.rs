use pump_sniper::address::Address;
use pump_sniper::bonding_curve::BondingCurveAccount;
use pump_sniper::config::Config;
use pump_sniper::error::SniperError;
use pump_sniper::transaction::{
    build_buy_transaction, create_associated_token_account, resolve_curve_fetch, retry_delay_ms,
    set_compute_unit_limit, set_compute_unit_price,
};

fn test_config() -> Config {
    Config {
        grpc_endpoint: String::new(),
        rpc_endpoint: String::new(),
        market_cap_threshold_usd_cents: 800_000,
        max_slippage_bps: 500,
        buy_amount_sol: 50_000_000,
        priority_fee_sol: 5_000_000,
        compute_unit_limit: 200_000,
    }
}

fn test_curve() -> BondingCurveAccount {
    BondingCurveAccount {
        discriminator: 1,
        virtual_token_reserves: 1_000_000_000,
        virtual_sol_reserves: 30_000_000_000,
        real_token_reserves: 800_000_000,
        real_sol_reserves: 0,
        token_total_supply: 1_000_000_000,
        complete: false,
        creator: Address::from_bytes(&[77u8; 32]),
    }
}

fn curve_bytes(curve: &BondingCurveAccount) -> Vec<u8> {
    let creator: [u8; 32] = curve.creator.to_bytes().try_into().unwrap();
    borsh::to_vec(&(
        curve.discriminator,
        curve.virtual_token_reserves,
        curve.virtual_sol_reserves,
        curve.real_token_reserves,
        curve.real_sol_reserves,
        curve.token_total_supply,
        curve.complete,
        creator,
    ))
    .unwrap()
}

#[test]
fn test_retry_delays() {
    assert_eq!(retry_delay_ms(0), 0);
    assert_eq!(retry_delay_ms(1), 100);
    assert_eq!(retry_delay_ms(2), 200);
}

#[test]
fn test_retry_two_failures_then_success() {
    let attempts = vec![None, None, Some(curve_bytes(&test_curve()))];
    let fetched = resolve_curve_fetch(&attempts).unwrap();
    assert_eq!(fetched.virtual_sol_reserves, 30_000_000_000);
}

#[test]
fn test_retry_three_failures_classified() {
    let attempts: Vec<Option<Vec<u8>>> = vec![None, None, None];
    assert!(matches!(resolve_curve_fetch(&attempts), Err(SniperError::RpcError(_))));
}

#[test]
fn test_retry_first_success_wins() {
    let mut early = test_curve();
    early.real_sol_reserves = 1;
    let mut late = test_curve();
    late.real_sol_reserves = 2;
    let attempts = vec![Some(curve_bytes(&early)), Some(curve_bytes(&late)), None];
    assert_eq!(resolve_curve_fetch(&attempts).unwrap().real_sol_reserves, 1);
}

#[test]
fn test_retry_decode_error_not_retried() {
    let attempts = vec![Some(vec![1u8, 2, 3]), Some(curve_bytes(&test_curve())), None];
    assert!(matches!(
        resolve_curve_fetch(&attempts),
        Err(SniperError::SerializationError(_))
    ));
}

#[test]
fn test_compute_budget_instructions() {
    let price_ix = set_compute_unit_price(25_000);
    assert_eq!(
        bs58::encode(price_ix.program_id.to_bytes()).into_string(),
        "ComputeBudget111111111111111111111111111111"
    );
    assert!(price_ix.accounts.is_empty());
    let mut expected = vec![3u8];
    expected.extend(25_000u64.to_le_bytes());
    assert_eq!(price_ix.data, expected);

    let limit_ix = set_compute_unit_limit(200_000);
    let mut expected = vec![2u8];
    expected.extend(200_000u32.to_le_bytes());
    assert_eq!(limit_ix.data, expected);
}

#[test]
fn test_create_ata_instruction_matches_spl_builder() {
    let funding = Address::from_bytes(&[1u8; 32]);
    let wallet = Address::from_bytes(&[1u8; 32]);
    let mint = Address::from_bytes(&[2u8; 32]);
    let built = create_associated_token_account(&funding, &wallet, &mint);

    let to_pubkey = |a: &Address| {
        let bytes: [u8; 32] = a.to_bytes().try_into().unwrap();
        solana_pubkey::Pubkey::new_from_array(bytes)
    };
    let expected = spl_associated_token_account::instruction::create_associated_token_account(
        &to_pubkey(&funding),
        &to_pubkey(&wallet),
        &to_pubkey(&mint),
        &to_pubkey(&pump_sniper::constants::token_program()),
    );
    assert_eq!(built.program_id.to_bytes(), expected.program_id.to_bytes().to_vec());
    assert_eq!(built.data, expected.data);
    assert_eq!(built.accounts.len(), expected.accounts.len());
    for (mine, theirs) in built.accounts.iter().zip(expected.accounts.iter()) {
        assert_eq!(mine.address.to_bytes(), theirs.pubkey.to_bytes().to_vec());
        assert_eq!(mine.is_signer, theirs.is_signer);
        assert_eq!(mine.is_writable, theirs.is_writable);
    }
}

#[test]
fn test_build_buy_transaction_plan() {
    let payer = Address::from_bytes(&[11u8; 32]);
    let fee_recipient = Address::from_bytes(&[12u8; 32]);
    let mint = Address::from_bytes(&[13u8; 32]);
    let bonding_curve = pump_sniper::pda::derive_bonding_curve_pda(&mint).unwrap();
    let token = pump_sniper::token_info::TokenInfo::new(
        mint,
        "t".to_string(),
        "T".to_string(),
        Address::from_bytes(&[14u8; 32]),
        "u".to_string(),
        bonding_curve,
        "sig".to_string(),
        0,
    );
    let curve = test_curve();
    let config = test_config();
    let sol_amount = 50_000_000u64;
    let plan = build_buy_transaction(&payer, &token, &curve, sol_amount, &fee_recipient, &config)
        .unwrap();
    assert_eq!(plan.len(), 4);

    // Priority fee: 5_000_000 * 1_000_000 / 200_000 microlamports.
    let mut expected = vec![3u8];
    expected.extend(25_000_000u64.to_le_bytes());
    assert_eq!(plan[0].data, expected);

    let mut expected = vec![2u8];
    expected.extend(200_000u32.to_le_bytes());
    assert_eq!(plan[1].data, expected);

    assert_eq!(plan[2].data, vec![0u8]);
    assert_eq!(plan[2].accounts.len(), 6);

    // Buy data: discriminator + expected tokens + slippage-bound max cost.
    let expected_tokens = curve.get_buy_price(sol_amount).unwrap();
    let max_cost = sol_amount + sol_amount * 500 / 10_000;
    assert_eq!(max_cost, 52_500_000);
    let mut expected = vec![102u8, 6, 61, 18, 1, 218, 235, 234];
    expected.extend(expected_tokens.to_le_bytes());
    expected.extend(max_cost.to_le_bytes());
    assert_eq!(plan[3].data, expected);
    assert_eq!(
        bs58::encode(plan[3].program_id.to_bytes()).into_string(),
        "6EF8rrecthR5Dkzon8Nwu78hRvfCKubJ14M5uBEwF6P"
    );
    assert_eq!(plan[3].accounts.len(), 12);
    assert_eq!(plan[3].accounts[2].address, mint);
    assert_eq!(plan[3].accounts[3].address, bonding_curve);
    assert_eq!(plan[3].accounts[1].address, fee_recipient);
    assert!(plan[3].accounts[6].is_signer);
    assert_eq!(plan[3].accounts[6].address, payer);
}

#[test]
fn test_build_buy_transaction_complete_curve() {
    let payer = Address::from_bytes(&[11u8; 32]);
    let fee_recipient = Address::from_bytes(&[12u8; 32]);
    let mint = Address::from_bytes(&[13u8; 32]);
    let bonding_curve = pump_sniper::pda::derive_bonding_curve_pda(&mint).unwrap();
    let token = pump_sniper::token_info::TokenInfo::new(
        mint,
        "t".to_string(),
        "T".to_string(),
        Address::from_bytes(&[14u8; 32]),
        "u".to_string(),
        bonding_curve,
        "sig".to_string(),
        0,
    );
    let mut curve = test_curve();
    curve.complete = true;
    let r = build_buy_transaction(&payer, &token, &curve, 1, &fee_recipient, &test_config());
    assert!(matches!(r, Err(SniperError::BondingCurveComplete)));
}

#[test]
fn test_global_initial_values() {
    let global = pump_sniper::global::GlobalAccount {
        discriminator: 0,
        initialized: true,
        authority: Address { w0: 0, w1: 0, w2: 0, w3: 0 },
        fee_recipient: Address { w0: 0, w1: 0, w2: 0, w3: 0 },
        initial_virtual_token_reserves: 1_073_000_000_000_000,
        initial_virtual_sol_reserves: 30_000_000_000,
        initial_real_token_reserves: 793_100_000_000_000,
        token_total_supply: 1_000_000_000_000_000,
        fee_basis_points: 100,
        withdraw_authority: Address { w0: 0, w1: 0, w2: 0, w3: 0 },
        enable_migrate: false,
        pool_migration_fee: 0,
        creator_fee_basis_points: 0,
        fee_recipients: [Address { w0: 0, w1: 0, w2: 0, w3: 0 }; 7],
        set_creator_authority: Address { w0: 0, w1: 0, w2: 0, w3: 0 },
    };
    assert_eq!(global.calculate_fee(1_000_000), 10_000);
    assert_eq!(
        global.get_initial_market_cap_sol(),
        (1_000_000_000_000_000u128 * 30_000_000_000u128 / 1_073_000_000_000_000u128) as u64
    );
    assert_eq!(global.get_initial_buy_price(0), 0);
    let bought = global.get_initial_buy_price(1_000_000_000);
    assert!(bought > 0);
    assert!(bought <= global.initial_real_token_reserves);
}
