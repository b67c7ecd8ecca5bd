use vstd::prelude::*;

verus! {

/// Size in bytes of a mint account.
pub const MINT_ACCOUNT_SIZE: u64 = 82;

/// Size in bytes of a token holding account.
pub const HOLDING_ACCOUNT_SIZE: u64 = 165;

/// Size in bytes of a metadata record.
pub const METADATA_ACCOUNT_SIZE: u64 = 679;

/// The flat network-processing fee, in lamports.
pub const NETWORK_FEE: u64 = 5000;

/// The default service-fee rate, in percent.
pub const DEFAULT_FEE_PERCENT: u64 = 20;

/// The exchange rate shown when no price reference answers, in cents per coin.
pub const FALLBACK_PRICE_CENTS: u64 = 10000;

/// `ceil(amount * percent / 100)`.
pub open spec fn ceil_percent(amount: nat, percent: nat) -> nat {
    (amount * percent + 99) / 100
}

/// The minimum balances the network asks for the three accounts a mint creates.
#[derive(Clone, Copy, Debug, PartialEq, Eq, Structural)]
pub struct RentQuotes {
    pub mint_account: u64,
    pub token_account: u64,
    pub metadata_account: u64,
}

/// The cost of one mint: the minimum balances, the network fee, their sum,
/// the service fee on that sum, and the grand total.
#[derive(Clone, Debug)]
pub struct NftCreationCost {
    pub mint_account: u64,
    pub token_account: u64,
    pub metadata_account: u64,
    pub transaction_fee: u64,
    pub total_cost: u64,
    /// Reference exchange rate for display, in cents per coin.
    pub sol_price_cents: u64,
    pub service_fee: u64,
    pub total_with_fee: u64,
    pub fee_recipient: String,
}

/// What a cost breakdown must hold, for given quotes and fee rate.
pub open spec fn is_breakdown_of(c: NftCreationCost, q: RentQuotes, fee_percent: nat) -> bool {
    &&& c.mint_account == q.mint_account
    &&& c.token_account == q.token_account
    &&& c.metadata_account == q.metadata_account
    &&& c.transaction_fee == NETWORK_FEE
    &&& c.total_cost == q.mint_account + q.token_account + q.metadata_account + NETWORK_FEE
    &&& c.service_fee == ceil_percent(c.total_cost as nat, fee_percent)
    &&& c.total_with_fee == c.total_cost + c.service_fee
}

/// Whether the breakdown for `q` and `fee_percent` fits in 64-bit amounts.
pub open spec fn breakdown_fits(q: RentQuotes, fee_percent: nat) -> bool {
    let total = q.mint_account + q.token_account + q.metadata_account + NETWORK_FEE;
    total + ceil_percent(total as nat, fee_percent) <= u64::MAX
}

impl NftCreationCost {
    /// Computes the breakdown from fresh minimum-balance quotes; `None` when an
    /// amount would not fit in 64 bits.
    pub fn from_quotes(
        quotes: RentQuotes,
        fee_percent: u64,
        sol_price_cents: u64,
        fee_recipient: String,
    ) -> (r: Option<NftCreationCost>)
        ensures
            r is Some <==> breakdown_fits(quotes, fee_percent as nat),
            r matches Some(c) ==> is_breakdown_of(c, quotes, fee_percent as nat)
                && c.sol_price_cents == sol_price_cents && c.fee_recipient == fee_recipient,
    {
        let total: u128 = quotes.mint_account as u128 + quotes.token_account as u128
            + quotes.metadata_account as u128 + NETWORK_FEE as u128;
        if total > u64::MAX as u128 {
            return None;
        }
        let pct: u128 = fee_percent as u128;
        assert(total * pct <= 0xffff_ffff_ffff_ffffu128 * 0xffff_ffff_ffff_ffffu128) by (nonlinear_arith)
            requires total <= 0xffff_ffff_ffff_ffffu128, pct <= 0xffff_ffff_ffff_ffffu128;
        let scaled: u128 = total * pct + 99;
        let fee: u128 = scaled / 100;
        if total + fee > u64::MAX as u128 {
            return None;
        }
        Some(
            NftCreationCost {
                mint_account: quotes.mint_account,
                token_account: quotes.token_account,
                metadata_account: quotes.metadata_account,
                transaction_fee: NETWORK_FEE,
                total_cost: total as u64,
                sol_price_cents,
                service_fee: fee as u64,
                total_with_fee: (total + fee) as u64,
                fee_recipient,
            },
        )
    }
}

/// The service fee is the ceiling of `total * percent / 100`: the least amount
/// that is at least that fraction of the total, so the treasury is never
/// under-collected and never over-collected by a whole unit.
pub proof fn lemma_service_fee_is_ceiling(total: nat, percent: nat)
    ensures
        100 * ceil_percent(total, percent) >= total * percent,
        100 * ceil_percent(total, percent) < total * percent + 100,
{
    let p = total * percent;
    assert(100 * ((p + 99) / 100) >= p && 100 * ((p + 99) / 100) < p + 100) by (nonlinear_arith)
        requires p >= 0;
}

/// Every breakdown adds up: the grand total is the cost plus the service fee,
/// and the service fee is the rounded-up share of the cost.
pub proof fn lemma_breakdown_adds_up(c: NftCreationCost, q: RentQuotes, fee_percent: nat)
    requires
        is_breakdown_of(c, q, fee_percent),
    ensures
        c.total_with_fee == c.total_cost + c.service_fee,
        100 * c.service_fee >= c.total_cost * fee_percent,
        100 * c.service_fee < c.total_cost * fee_percent + 100,
{
    lemma_service_fee_is_ceiling(c.total_cost as nat, fee_percent);
}

} // verus!
