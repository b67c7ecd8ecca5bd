use smart_passport::cost::{NftCreationCost, RentQuotes, DEFAULT_FEE_PERCENT, FALLBACK_PRICE_CENTS, NETWORK_FEE};

fn quotes(mint: u64, holding: u64, metadata: u64) -> RentQuotes {
    RentQuotes { mint_account: mint, token_account: holding, metadata_account: metadata }
}

#[test]
fn cost_quote_default_rate_example() {
    let c = NftCreationCost::from_quotes(
        quotes(1_000_000, 2_000_000, 5_000_000),
        DEFAULT_FEE_PERCENT,
        FALLBACK_PRICE_CENTS,
        "owner".to_string(),
    )
    .unwrap();
    assert_eq!(c.mint_account, 1_000_000);
    assert_eq!(c.token_account, 2_000_000);
    assert_eq!(c.metadata_account, 5_000_000);
    assert_eq!(c.transaction_fee, 5_000);
    assert_eq!(c.total_cost, 8_005_000);
    assert_eq!(c.service_fee, 1_601_000);
    assert_eq!(c.total_with_fee, 9_606_000);
    assert_eq!(c.sol_price_cents, 10_000);
    assert_eq!(c.fee_recipient, "owner");
}

#[test]
fn service_fee_rounds_up() {
    // 1 + 0 + 0 + 5000 = 5001; 20% is 1000.2, charged as 1001.
    let c = NftCreationCost::from_quotes(quotes(1, 0, 0), 20, 0, String::new()).unwrap();
    assert_eq!(c.total_cost, 5_001);
    assert_eq!(c.service_fee, 1_001);
    assert_eq!(c.total_with_fee, 6_002);
}

#[test]
fn totals_add_up_over_many_quotes() {
    let samples = [(0u64, 0u64, 0u64), (890_880, 2_039_280, 5_616_720), (7, 11, 13), (999_999, 1, 123_456_789)];
    for (m, h, d) in samples {
        for pct in [0u64, 1, 20, 33, 100] {
            let c = NftCreationCost::from_quotes(quotes(m, h, d), pct, 0, String::new()).unwrap();
            let total = m + h + d + NETWORK_FEE;
            assert_eq!(c.total_cost, total);
            assert_eq!(c.total_with_fee, c.total_cost + c.service_fee);
            let exact = total as u128 * pct as u128;
            assert!(c.service_fee as u128 * 100 >= exact);
            assert!((c.service_fee as u128) * 100 < exact + 100);
        }
    }
}

#[test]
fn zero_rate_charges_nothing() {
    let c = NftCreationCost::from_quotes(quotes(10, 20, 30), 0, 0, String::new()).unwrap();
    assert_eq!(c.service_fee, 0);
    assert_eq!(c.total_with_fee, 5_060);
}

#[test]
fn overflowing_quote_is_refused() {
    assert!(NftCreationCost::from_quotes(quotes(u64::MAX, 1, 0), 20, 0, String::new()).is_none());
    assert!(NftCreationCost::from_quotes(quotes(u64::MAX - 5_000, 0, 0), 20, 0, String::new()).is_none());
    let max_total = u64::MAX - 5_000;
    assert!(NftCreationCost::from_quotes(quotes(max_total, 0, 0), 0, 0, String::new()).is_some());
}
