use pump_sniper::address::Address;
use pump_sniper::bonding_curve::BondingCurveAccount;
use pump_sniper::config::Config;
use pump_sniper::error::SniperError;
use pump_sniper::events::SniperEvent;
use pump_sniper::market_data::MarketData;
use pump_sniper::sniper::{BuyAdmission, CurveLookup, Sniper};
use pump_sniper::token_info::TokenInfo;

fn test_config() -> Config {
    Config {
        grpc_endpoint: "http://stream.example".to_string(),
        rpc_endpoint: "http://rpc.example".to_string(),
        market_cap_threshold_usd_cents: 800_000,
        max_slippage_bps: 500,
        buy_amount_sol: 50_000_000,
        priority_fee_sol: 5_000_000,
        compute_unit_limit: 200_000,
    }
}

fn test_curve() -> BondingCurveAccount {
    BondingCurveAccount {
        discriminator: 1,
        virtual_token_reserves: 1_000_000_000,
        virtual_sol_reserves: 30_000_000_000,
        real_token_reserves: 800_000_000,
        real_sol_reserves: 0,
        token_total_supply: 1_000_000_000,
        complete: false,
        creator: Address { w0: 1, w1: 2, w2: 3, w3: 4 },
    }
}

fn test_token(mint_byte: u8) -> TokenInfo {
    let mint = Address::from_bytes(&[mint_byte; 32]);
    let bonding_curve = pump_sniper::pda::derive_bonding_curve_pda(&mint).unwrap();
    TokenInfo::new(
        mint,
        "token".to_string(),
        "TOK".to_string(),
        Address::from_bytes(&[200u8; 32]),
        "https://meta".to_string(),
        bonding_curve,
        "signature".to_string(),
        1_700_000_000,
    )
}

#[test]
fn test_sniper_new_validates_config() {
    assert!(Sniper::new(test_config()).is_ok());
    let mut bad = test_config();
    bad.buy_amount_sol = 0;
    assert!(matches!(Sniper::new(bad), Err(SniperError::InvalidConfig(_))));
}

#[test]
fn test_config_validate_each_rejection() {
    let mut c = test_config();
    c.market_cap_threshold_usd_cents = 0;
    assert!(c.validate().is_err());
    let mut c = test_config();
    c.max_slippage_bps = 10_001;
    assert!(c.validate().is_err());
    let mut c = test_config();
    c.buy_amount_sol = 0;
    assert!(c.validate().is_err());
    let mut c = test_config();
    c.priority_fee_sol = 0;
    assert!(c.validate().is_err());
    assert!(test_config().validate().is_ok());
}

#[test]
fn test_config_default_values() {
    let c = Config::default();
    assert_eq!(c.market_cap_threshold_usd_cents, 800_000);
    assert_eq!(c.max_slippage_bps, 500);
    assert_eq!(c.buy_amount_sol, 50_000_000);
    assert_eq!(c.priority_fee_sol, 5_000_000);
    assert_eq!(c.compute_unit_limit, 200_000);
}

#[test]
fn test_token_creation_needs_fetch_then_cached() {
    let mut sniper = Sniper::new(test_config()).unwrap();
    let token = test_token(50);
    match sniper.handle_token_creation(token.clone()) {
        CurveLookup::NeedsFetch(addr) => assert_eq!(addr, token.bonding_curve),
        CurveLookup::Cached(_) => panic!("cache should be empty"),
    }
    let hit = sniper.handle_bonding_curve_update(token.bonding_curve, test_curve());
    assert!(hit.is_some());
    match sniper.handle_token_creation(token.clone()) {
        CurveLookup::Cached(c) => assert_eq!(c.virtual_sol_reserves, 30_000_000_000),
        CurveLookup::NeedsFetch(_) => panic!("cache should hold the curve"),
    }
    assert_eq!(sniper.get_stats(), (1, 0));
}

#[test]
fn test_curve_update_finds_tracked_token() {
    let mut sniper = Sniper::new(test_config()).unwrap();
    let token = test_token(51);
    sniper.handle_token_creation(token.clone());
    let found = sniper.handle_bonding_curve_update(token.bonding_curve, test_curve());
    assert_eq!(found.unwrap().mint, token.mint);

    let unknown_curve = Address::from_bytes(&[123u8; 32]);
    assert!(sniper.handle_bonding_curve_update(unknown_curve, test_curve()).is_none());
}

#[test]
fn test_apply_threshold_paths() {
    let mut sniper = Sniper::new(test_config()).unwrap();
    sniper.set_wallet();
    let token = test_token(52);
    sniper.handle_token_creation(token.clone());

    // Failed price conversion: no trigger.
    assert!(sniper.apply_threshold(&token, 30_000_000_000, None).is_none());
    // Below threshold: no trigger.
    assert!(sniper.apply_threshold(&token, 30_000_000_000, Some(799_999)).is_none());
    // At threshold: one trigger with the configured amount.
    let event = sniper.apply_threshold(&token, 30_000_000_000, Some(800_000)).unwrap();
    match event {
        SniperEvent::BuyTriggered { token_info, market_cap, buy_amount } => {
            assert_eq!(token_info.mint, token.mint);
            assert_eq!(market_cap, 30_000_000_000);
            assert_eq!(buy_amount, 50_000_000);
        }
        _ => panic!("expected a buy trigger"),
    }
}

#[test]
fn test_begin_buy_admission_order() {
    let mut sniper = Sniper::new(test_config()).unwrap();
    let token = test_token(53);

    // No wallet yet: refused without touching the bought set.
    assert_eq!(sniper.begin_buy(token.mint), BuyAdmission::NoWallet);

    sniper.set_wallet();
    assert_eq!(sniper.begin_buy(token.mint), BuyAdmission::Proceed);
    // A second trigger delivered before completion is refused.
    assert_eq!(sniper.begin_buy(token.mint), BuyAdmission::AlreadyBought);
}

#[test]
fn test_at_most_one_buy_over_qualifying_updates() {
    // A sequence of qualifying curve updates before the buy completes
    // triggers at most one executed buy for the mint.
    let mut sniper = Sniper::new(test_config()).unwrap();
    sniper.set_wallet();
    let token = test_token(54);
    sniper.handle_token_creation(token.clone());

    let mut executed = 0;
    let mut pending: Vec<SniperEvent> = Vec::new();
    for _round in 0..3 {
        sniper.handle_bonding_curve_update(token.bonding_curve, test_curve());
        if let Some(event) = sniper.apply_threshold(&token, 30_000_000_000, Some(1_000_000)) {
            pending.push(event);
        }
    }
    for event in pending {
        if let SniperEvent::BuyTriggered { token_info, .. } = event {
            if sniper.begin_buy(token_info.mint) == BuyAdmission::Proceed {
                executed += 1;
                sniper.complete_buy(token_info.mint, true);
            }
        }
    }
    assert_eq!(executed, 1);
    // Later qualifying updates trigger nothing further.
    assert!(sniper.apply_threshold(&token, 30_000_000_000, Some(1_000_000)).is_none());
}

#[test]
fn test_failed_buy_allows_retry() {
    let mut sniper = Sniper::new(test_config()).unwrap();
    sniper.set_wallet();
    let token = test_token(55);
    sniper.handle_token_creation(token.clone());

    assert_eq!(sniper.begin_buy(token.mint), BuyAdmission::Proceed);
    let halt = sniper.complete_buy(token.mint, false);
    assert!(!halt);
    // The rollback re-admits a later attempt.
    assert_eq!(sniper.begin_buy(token.mint), BuyAdmission::Proceed);
}

#[test]
fn test_single_buy_test_mode() {
    let mut sniper = Sniper::new(test_config()).unwrap();
    sniper.set_wallet();
    sniper.enable_test_mode();
    let first = test_token(56);
    let second = test_token(57);
    sniper.handle_token_creation(first.clone());
    sniper.handle_token_creation(second.clone());

    assert_eq!(sniper.begin_buy(first.mint), BuyAdmission::Proceed);
    let halt = sniper.complete_buy(first.mint, true);
    assert!(halt);
    assert_eq!(sniper.begin_buy(second.mint), BuyAdmission::SkipTestMode);
    assert!(sniper.apply_threshold(&second, 30_000_000_000, Some(1_000_000)).is_none());
}

#[test]
fn test_fallback_fetch_scenario() {
    // Token created with no cached curve; the fallback fetch succeeds with
    // a qualifying curve: exactly one trigger; a re-delivered creation
    // after a successful buy produces no further trigger.
    let mut sniper = Sniper::new(test_config()).unwrap();
    sniper.set_wallet();
    let token = test_token(58);

    let lookup = sniper.handle_token_creation(token.clone());
    let fetched = match lookup {
        CurveLookup::NeedsFetch(addr) => {
            assert_eq!(addr, token.bonding_curve);
            test_curve()
        }
        CurveLookup::Cached(_) => panic!("no cache entry was expected"),
    };
    let market_cap = fetched.get_market_cap_sol();
    let mut triggers = 0;
    if let Some(SniperEvent::BuyTriggered { token_info, .. }) =
        sniper.apply_threshold(&token, market_cap, Some(900_000))
    {
        triggers += 1;
        assert_eq!(sniper.begin_buy(token_info.mint), BuyAdmission::Proceed);
        sniper.complete_buy(token_info.mint, true);
    }
    assert_eq!(triggers, 1);

    // Re-delivery of the same creation event after the successful buy.
    sniper.handle_token_creation(token.clone());
    assert!(sniper.apply_threshold(&token, market_cap, Some(900_000)).is_none());
}

#[test]
fn test_event_type_labels() {
    let token = test_token(59);
    let created = SniperEvent::TokenCreated(token.clone());
    assert_eq!(created.event_type(), "token_created");
    assert!(!created.is_critical());
    let trigger = SniperEvent::BuyTriggered {
        token_info: token.clone(),
        market_cap: 1,
        buy_amount: 2,
    };
    assert_eq!(trigger.event_type(), "buy_triggered");
    assert!(trigger.is_critical());
    let status = SniperEvent::ConnectionStatusChanged {
        connected: true,
        endpoint: "e".to_string(),
    };
    assert_eq!(status.event_type(), "connection_status_changed");
    assert!(!status.is_critical());
}

#[test]
fn test_market_data_fields() {
    let token = test_token(60);
    let market = MarketData::new(token.clone(), test_curve(), 1_700_000_100);
    assert_eq!(market.current_market_cap_sol, 30_000_000_000);
    assert_eq!(market.price_per_token_sol, 30);
    assert_eq!(market.last_updated, 1_700_000_100);
    assert!(market.volume_24h.is_none());
    assert!(market.meets_threshold(30_000_000_000));
    assert!(!market.meets_threshold(30_000_000_001));
    assert_eq!(market.age_seconds(1_700_000_130), 30);
    assert!(market.is_stale(1_700_000_200, 60));
    assert!(!market.is_stale(1_700_000_130, 60));
}

#[test]
fn test_market_data_update() {
    let token = test_token(61);
    let mut market = MarketData::new(token, test_curve(), 1);
    let mut richer = test_curve();
    richer.virtual_sol_reserves = 60_000_000_000;
    market.update(richer, 2);
    assert_eq!(market.current_market_cap_sol, 60_000_000_000);
    assert_eq!(market.price_per_token_sol, 60);
    assert_eq!(market.last_updated, 2);
}

#[test]
fn test_token_info_helpers() {
    let token = test_token(62);
    assert_eq!(token.display_name(), "token (TOK)");
    assert_eq!(token.age_seconds(1_700_000_010), 10);
    assert_eq!(token.age_seconds(0), 0);
}

#[test]
fn test_subscription_request_shape() {
    let client = pump_sniper::stream::StreamClient::new("http://stream.example".to_string());
    let spec = client.create_subscription_request();
    assert_eq!(spec.account_owner_program, "6EF8rrecthR5Dkzon8Nwu78hRvfCKubJ14M5uBEwF6P");
    assert_eq!(spec.transaction_program, "6EF8rrecthR5Dkzon8Nwu78hRvfCKubJ14M5uBEwF6P");
    assert_eq!(spec.account_data_size, 81);
    assert!(spec.exclude_votes);
    assert!(spec.exclude_failed);
    assert!(spec.commitment_processed);
}
