use vstd::prelude::*;
use crate::arith::mul_u64;
use crate::dex::pumpswap::accounts::{FeeConfig, FeeTier, Fees};
use crate::error::ErrorCode;

verus! {

/// The value of the whole base supply at the pool's price, in quote units
/// and rounded down.
pub open spec fn market_cap(base_mint_supply: u64, base_reserve: u64, quote_reserve: u64) -> int {
    quote_reserve * base_mint_supply / (base_reserve as int)
}

/// The market capitalization of a pool's base token. A pool without base
/// reserve has none.
pub fn pool_market_cap(base_mint_supply: u64, base_reserve: u64, quote_reserve: u64) -> (r: Result<
    u128,
    ErrorCode,
>)
    ensures
        r == if base_reserve == 0 {
            Err::<u128, ErrorCode>(ErrorCode::InvalidAccount)
        } else {
            Ok(market_cap(base_mint_supply, base_reserve, quote_reserve) as u128)
        },
{
    if base_reserve == 0 {
        return Err(ErrorCode::InvalidAccount);
    }
    Ok(mul_u64(quote_reserve, base_mint_supply) / (base_reserve as u128))
}

/// The last tier of the table whose threshold is not above `market_cap`,
/// or the first tier when there is none.
pub open spec fn highest_tier_reached(fee_tiers: Seq<FeeTier>, market_cap: u128) -> int
    decreases fee_tiers.len(),
{
    if fee_tiers.len() <= 1 {
        0
    } else if market_cap >= fee_tiers.last().market_cap_lamports_threshold {
        fee_tiers.len() - 1
    } else {
        highest_tier_reached(fee_tiers.drop_last(), market_cap)
    }
}

/// The tier that applies at `market_cap`: the first tier below the first
/// threshold, else the last tier whose threshold is reached.
pub open spec fn selected_tier(fee_tiers: Seq<FeeTier>, market_cap: u128) -> int {
    if market_cap < fee_tiers[0].market_cap_lamports_threshold {
        0
    } else {
        highest_tier_reached(fee_tiers, market_cap)
    }
}

/// The selected tier lies in the table; above the first threshold its own
/// threshold is reached and no later tier's is.
pub proof fn lemma_highest_tier_reached(fee_tiers: Seq<FeeTier>, market_cap: u128)
    requires
        fee_tiers.len() > 0,
        market_cap >= fee_tiers[0].market_cap_lamports_threshold,
    ensures
        0 <= highest_tier_reached(fee_tiers, market_cap) < fee_tiers.len(),
        market_cap >= fee_tiers[highest_tier_reached(
            fee_tiers,
            market_cap,
        )].market_cap_lamports_threshold,
        forall|j: int|
            highest_tier_reached(fee_tiers, market_cap) < j < fee_tiers.len() ==> market_cap
                < (#[trigger] fee_tiers[j]).market_cap_lamports_threshold,
    decreases fee_tiers.len(),
{
    if fee_tiers.len() > 1 && market_cap < fee_tiers.last().market_cap_lamports_threshold {
        let shorter = fee_tiers.drop_last();
        lemma_highest_tier_reached(shorter, market_cap);
        assert forall|j: int|
            highest_tier_reached(fee_tiers, market_cap) < j < fee_tiers.len() implies market_cap
            < (#[trigger] fee_tiers[j]).market_cap_lamports_threshold by {
            if j < shorter.len() {
                assert(shorter[j] == fee_tiers[j]);
            }
        }
    }
}

/// Picks the fees for a market capitalization from a tier table. An empty
/// table is an invalid account.
pub fn calculate_fee_tier(fee_tiers: &[FeeTier], market_cap: u128) -> (r: Result<Fees, ErrorCode>)
    ensures
        r == if fee_tiers@.len() == 0 {
            Err::<Fees, ErrorCode>(ErrorCode::InvalidAccount)
        } else {
            Ok(fee_tiers@[selected_tier(fee_tiers@, market_cap)].fees)
        },
{
    if fee_tiers.len() == 0 {
        return Err(ErrorCode::InvalidAccount);
    }
    if market_cap < fee_tiers[0].market_cap_lamports_threshold {
        return Ok(fee_tiers[0].fees);
    }
    let mut i: usize = fee_tiers.len();
    assert(fee_tiers@.take(i as int) =~= fee_tiers@);
    while i > 1
        invariant
            1 <= i <= fee_tiers@.len(),
            market_cap >= fee_tiers@[0].market_cap_lamports_threshold,
            highest_tier_reached(fee_tiers@, market_cap) == highest_tier_reached(
                fee_tiers@.take(i as int),
                market_cap,
            ),
        decreases i,
    {
        proof {
            assert(fee_tiers@.take(i as int).drop_last() =~= fee_tiers@.take(i - 1));
            assert(fee_tiers@.take(i as int).last() == fee_tiers@[i - 1]);
        }
        if market_cap >= fee_tiers[i - 1].market_cap_lamports_threshold {
            return Ok(fee_tiers[i - 1].fees);
        }
        i = i - 1;
    }
    Ok(fee_tiers[0].fees)
}

/// The fees of a pool: the tier of the fee table that the pool's market
/// capitalization selects.
pub open spec fn fees_bps(
    fee_tiers: Seq<FeeTier>,
    base_mint_supply: u64,
    base_reserve: u64,
    quote_reserve: u64,
) -> Result<Fees, ErrorCode> {
    if base_reserve == 0 || fee_tiers.len() == 0 {
        Err(ErrorCode::InvalidAccount)
    } else {
        Ok(
            fee_tiers[selected_tier(
                fee_tiers,
                market_cap(base_mint_supply, base_reserve, quote_reserve) as u128,
            )].fees,
        )
    }
}

/// Works out a pool's fees from the fee table, the base token's supply and
/// the pool's reserves.
pub fn compute_fees_bps(
    fee_config: FeeConfig,
    base_mint_supply: u64,
    base_reserve: u64,
    quote_reserve: u64,
) -> (r: Result<Fees, ErrorCode>)
    ensures
        r == fees_bps(fee_config.fee_tiers@, base_mint_supply, base_reserve, quote_reserve),
{
    let market_cap = match pool_market_cap(base_mint_supply, base_reserve, quote_reserve) {
        Ok(m) => m,
        Err(e) => {
            return Err(e);
        },
    };
    calculate_fee_tier(fee_config.fee_tiers.as_slice(), market_cap)
}

} // verus!
