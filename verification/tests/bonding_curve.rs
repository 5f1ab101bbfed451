use pump_sniper::address::Address;
use pump_sniper::bonding_curve::BondingCurveAccount;
use pump_sniper::error::SniperError;

fn create_test_bonding_curve() -> BondingCurveAccount {
    BondingCurveAccount {
        discriminator: 1,
        virtual_token_reserves: 1_000_000_000,
        virtual_sol_reserves: 30_000_000_000,
        real_token_reserves: 800_000_000,
        real_sol_reserves: 0,
        token_total_supply: 1_000_000_000,
        complete: false,
        creator: Address { w0: 11, w1: 22, w2: 33, w3: 44 },
    }
}

#[test]
fn bonding_curve_test_market_cap_calculation() {
    let curve = create_test_bonding_curve();
    assert_eq!(curve.get_market_cap_sol(), 30_000_000_000);
}

#[test]
fn test_buy_price_calculation() {
    let curve = create_test_bonding_curve();
    let tokens = curve.get_buy_price(1_000_000_000).unwrap();
    assert!(tokens > 0);
    assert!(tokens <= curve.real_token_reserves);
}

#[test]
fn test_curve_progress() {
    let curve = create_test_bonding_curve();
    let (num, den) = curve.get_curve_progress();
    let progress = num as f64 / den as f64;
    assert_eq!(progress, 20.0);
}

#[test]
fn test_buy_price_zero_input() {
    let curve = create_test_bonding_curve();
    assert_eq!(curve.get_buy_price(0).unwrap(), 0);
}

#[test]
fn test_buy_price_exact_value() {
    let curve = create_test_bonding_curve();
    // n = 30e9 * 1e9; i = 30e9 + 1e9; r = n / i + 1; tokens = 1e9 - r
    let n: u128 = 30_000_000_000u128 * 1_000_000_000u128;
    let i: u128 = 31_000_000_000u128;
    let expected = (1_000_000_000u128 - (n / i + 1)) as u64;
    assert_eq!(curve.get_buy_price(1_000_000_000).unwrap(), expected);
}

#[test]
fn test_buy_price_complete_curve_fails() {
    let mut curve = create_test_bonding_curve();
    curve.complete = true;
    assert!(matches!(curve.get_buy_price(0), Err(SniperError::BondingCurveComplete)));
    assert!(matches!(
        curve.get_buy_price(1_000_000_000),
        Err(SniperError::BondingCurveComplete)
    ));
    assert!(matches!(curve.get_sell_price(5, 100), Err(SniperError::BondingCurveComplete)));
}

#[test]
fn test_buy_price_capped_by_real_reserves() {
    let mut curve = create_test_bonding_curve();
    curve.real_token_reserves = 1_000;
    let tokens = curve.get_buy_price(29_000_000_000_000).unwrap();
    assert_eq!(tokens, 1_000);
}

#[test]
fn test_sell_price_zero_input_any_fee() {
    let curve = create_test_bonding_curve();
    assert_eq!(curve.get_sell_price(0, 0).unwrap(), 0);
    assert_eq!(curve.get_sell_price(0, 10_000).unwrap(), 0);
    assert_eq!(curve.get_sell_price(0, u64::MAX).unwrap(), 0);
}

#[test]
fn test_sell_price_exact_value() {
    let curve = create_test_bonding_curve();
    // n = 1e9 * 30e9 / (1e9 + 1e9) = 15e9; fee = n * 100 / 10000
    let sold = curve.get_sell_price(1_000_000_000, 100).unwrap();
    let n: u128 = 15_000_000_000;
    let fee = n * 100 / 10_000;
    assert_eq!(sold as u128, n - fee);
}

#[test]
fn test_market_cap_zero_virtual_reserves() {
    let mut curve = create_test_bonding_curve();
    curve.virtual_token_reserves = 0;
    assert_eq!(curve.get_market_cap_sol(), 0);
}

#[test]
fn test_curve_progress_zero_supply() {
    let mut curve = create_test_bonding_curve();
    curve.token_total_supply = 0;
    curve.real_token_reserves = 0;
    let (num, _den) = curve.get_curve_progress();
    assert_eq!(num, 0);
}

#[test]
fn test_curve_progress_strictly_increases() {
    let mut earlier = create_test_bonding_curve();
    let mut later = create_test_bonding_curve();
    earlier.real_token_reserves = 800_000_000;
    later.real_token_reserves = 799_999_999;
    let (n1, d1) = earlier.get_curve_progress();
    let (n2, d2) = later.get_curve_progress();
    assert_eq!(d1, d2);
    assert!(n2 > n1);
}

#[test]
fn test_has_sufficient_liquidity() {
    let mut curve = create_test_bonding_curve();
    curve.real_sol_reserves = 500;
    assert!(curve.has_sufficient_liquidity(500));
    assert!(!curve.has_sufficient_liquidity(501));
    curve.complete = true;
    assert!(!curve.has_sufficient_liquidity(1));
}
