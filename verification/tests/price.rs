#[test]
fn price_test_market_cap_calculation() {
    let sol_amount = 1_000_000_000;
    let sol_price = 100.0;

    let sol_amount_f64 = sol_amount as f64 / 1e9;
    let market_cap = sol_amount_f64 * sol_price;

    assert_eq!(market_cap, 100.0);
}
