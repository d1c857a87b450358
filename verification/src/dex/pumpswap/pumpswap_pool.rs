use vstd::prelude::*;
use crate::arbitrage_engine::base_pool_trait::BasePool;
use crate::arbitrage_engine::structures::{LiquidityType, SwapResult};
use crate::arith::mul_u64;
use crate::commons::{get_ata_balance, get_mint_supply, mint_supply, token_account_amount};
use crate::dex::constant_product::{input_reserve, output_reserve};
use crate::dex::mints::{check_mints, mints_match};
use crate::dex::pumpswap::accounts::{FeeConfig, PfAmmPool};
use crate::dex::pumpswap::fee_math::{compute_fees_bps, fees_bps};
use crate::dex::pumpswap::invocations::PumpswapCall;
use crate::dex::pumpswap::math::{
    amount_in_domain, amount_in_result, amount_out_domain, amount_out_result,
    checked_get_amount_in, checked_get_amount_out, lemma_net_amount_in_bounds, sum_rates,
};
use crate::error::ErrorCode;
use crate::price::Price;
use crate::pubkey::Pubkey;

verus! {

/// A snapshot of a pool with three fee stages, seen from a trade between a
/// source and an intermediate token.
#[derive(Clone, Copy, Debug, PartialEq, Eq, Structural)]
pub struct PumpswapPool {
    /// Whether the source token is the pool's quote side.
    pub is_source_quote: bool,
    pub protocol_fee_basis_points: u64,
    pub lp_fee_basis_points: u64,
    pub coin_creator_fee_basis_points: u64,
    pub base_reserve: u64,
    pub quote_reserve: u64,
}

/// Three fee stages sum to the sum of their rates.
pub proof fn lemma_sum_of_three_rates(first: u64, second: u64, third: u64)
    ensures
        sum_rates(seq![first, second, third]) == first + second + third,
{
    let all = seq![first, second, third];
    let two = seq![first, second];
    let one = seq![first];
    assert(all.drop_last() =~= two);
    assert(two.drop_last() =~= one);
    assert(one.drop_last() =~= Seq::<u64>::empty());
    reveal_with_fuel(sum_rates, 4);
}

impl PumpswapPool {
    /// The snapshot that `new` takes from the accounts' data, or the error
    /// on which it stops. The checks run in this order: the pool account and
    /// the fee table, the tokens, the two vaults and the base mint, the fee
    /// tier, and last the quote reserve and the sum of the fees.
    pub open spec fn snapshot(
        source_mint: Pubkey,
        intermediate_mint: Pubkey,
        pool: Seq<u8>,
        fee_config: Seq<u8>,
        base_token_account: Seq<u8>,
        quote_token_account: Seq<u8>,
        base_mint: Seq<u8>,
    ) -> Result<PumpswapPool, ErrorCode> {
        if !PfAmmPool::has_mints(pool) || !FeeConfig::is_account(fee_config) {
            Err(ErrorCode::InvalidAccount)
        } else if !mints_match(
            source_mint@,
            intermediate_mint@,
            pool.subrange(43, 75),
            pool.subrange(75, 107),
        ) {
            Err(ErrorCode::TokenMintMismatch)
        } else {
            match (
                token_account_amount(base_token_account),
                token_account_amount(quote_token_account),
                mint_supply(base_mint),
            ) {
                (Some(base_reserve), Some(quote_reserve), Some(supply)) => match fees_bps(
                    FeeConfig::tiers_of(fee_config),
                    supply,
                    base_reserve,
                    quote_reserve,
                ) {
                    Err(e) => Err(e),
                    Ok(fees) => if quote_reserve == 0 || fees.creator_fee_bps + fees.lp_fee_bps
                        + fees.protocol_fee_bps >= 10000 {
                        Err(ErrorCode::InvalidAccount)
                    } else {
                        Ok(
                            PumpswapPool {
                                is_source_quote: source_mint@ == pool.subrange(75, 107),
                                protocol_fee_basis_points: fees.protocol_fee_bps,
                                lp_fee_basis_points: fees.lp_fee_bps,
                                coin_creator_fee_basis_points: fees.creator_fee_bps,
                                base_reserve,
                                quote_reserve,
                            },
                        )
                    },
                },
                _ => Err(ErrorCode::InvalidAccount),
            }
        }
    }

    /// Takes a snapshot of a pool for a trade from `source_mint` to
    /// `intermediate_mint` and back, from the data of the pool account, of
    /// the fee table, of the pool's two vaults and of the base token's mint.
    pub fn new(
        source_mint: &Pubkey,
        intermediate_mint: &Pubkey,
        pool: &[u8],
        fee_config: &[u8],
        base_token_account: &[u8],
        quote_token_account: &[u8],
        base_mint: &[u8],
    ) -> (r: Result<Self, ErrorCode>)
        ensures
            r == Self::snapshot(
                *source_mint,
                *intermediate_mint,
                pool@,
                fee_config@,
                base_token_account@,
                quote_token_account@,
                base_mint@,
            ),
            r matches Ok(snapshot) ==> snapshot.wf(),
    {
        let (base_mint_pubkey, quote_mint_pubkey) = match PfAmmPool::deserialize_mints(pool) {
            Ok(mints) => mints,
            Err(e) => {
                return Err(e);
            },
        };
        let fee_config = match FeeConfig::deserialize_data(fee_config) {
            Ok(config) => config,
            Err(e) => {
                return Err(e);
            },
        };
        match check_mints(source_mint, intermediate_mint, &base_mint_pubkey, &quote_mint_pubkey) {
            Ok(()) => {},
            Err(e) => {
                return Err(e);
            },
        }
        let is_source_quote: bool = *source_mint == quote_mint_pubkey;
        let base_reserve = match get_ata_balance(base_token_account) {
            Ok(amount) => amount,
            Err(e) => {
                return Err(e);
            },
        };
        let quote_reserve = match get_ata_balance(quote_token_account) {
            Ok(amount) => amount,
            Err(e) => {
                return Err(e);
            },
        };
        let base_mint_supply = match get_mint_supply(base_mint) {
            Ok(supply) => supply,
            Err(e) => {
                return Err(e);
            },
        };
        let fees = match compute_fees_bps(fee_config, base_mint_supply, base_reserve, quote_reserve) {
            Ok(fees) => fees,
            Err(e) => {
                return Err(e);
            },
        };
        let total: u128 = fees.creator_fee_bps as u128 + fees.lp_fee_bps as u128
            + fees.protocol_fee_bps as u128;
        if quote_reserve == 0 || total >= 10000 {
            return Err(ErrorCode::InvalidAccount);
        }
        Ok(
            PumpswapPool {
                is_source_quote,
                protocol_fee_basis_points: fees.protocol_fee_bps,
                lp_fee_basis_points: fees.lp_fee_bps,
                coin_creator_fee_basis_points: fees.creator_fee_bps,
                base_reserve,
                quote_reserve,
            },
        )
    }

    /// The fee stages in the order in which a swap applies them: the coin
    /// creator's, the liquidity providers', the protocol's.
    pub open spec fn fee_stages(&self) -> Seq<u64> {
        seq![
            self.coin_creator_fee_basis_points,
            self.lp_fee_basis_points,
            self.protocol_fee_basis_points,
        ]
    }

    /// The direction of a swap in the pool's terms: `true` when the pool
    /// takes base and pays quote.
    pub open spec fn normalized_direction(&self, swap_for_quote: bool) -> bool {
        if self.is_source_quote {
            swap_for_quote
        } else {
            !swap_for_quote
        }
    }

    /// A price of the pool in the trade's terms: source units per
    /// intermediate unit.
    pub open spec fn normalized_price(&self, price: Price) -> Price {
        if self.is_source_quote {
            price
        } else {
            price.inverted()
        }
    }

    /// Turns a direction of the trade into a direction of the pool.
    pub fn normalize_swap_direction(&self, swap_for_quote: bool) -> (r: bool)
        ensures
            r == self.normalized_direction(swap_for_quote),
    {
        if self.is_source_quote {
            swap_for_quote
        } else {
            !swap_for_quote
        }
    }

    /// Turns a price of the pool into a price of the trade.
    pub fn normalize_price(&self, price: Price) -> (r: Price)
        ensures
            r == self.normalized_price(price),
    {
        if self.is_source_quote {
            price
        } else {
            price.invert()
        }
    }

    /// Whether the snapshot can be quoted on: both reserves are positive
    /// and the three fees sum to less than 100%.
    pub fn is_well_formed(&self) -> (r: bool)
        ensures
            r == self.wf(),
    {
        self.base_reserve > 0 && self.quote_reserve > 0 && self.coin_creator_fee_basis_points
            < 10000 && self.lp_fee_basis_points < 10000 - self.coin_creator_fee_basis_points
            && self.protocol_fee_basis_points < 10000 - self.coin_creator_fee_basis_points
            - self.lp_fee_basis_points
    }

    /// The call that carries out a swap of the trade on the venue. A swap
    /// that pays quote and receives base is a buy of at least
    /// `min_amount_out` base for at most `amount_in` quote; the other one is
    /// a sale of `amount_in` base for at least `min_amount_out` quote.
    pub open spec fn swap_call_of(
        &self,
        amount_in: u64,
        min_amount_out: u64,
        source_to_intermediate: bool,
    ) -> PumpswapCall {
        if source_to_intermediate == self.is_source_quote {
            PumpswapCall::Buy { base_amount_out: min_amount_out, max_quote_amount_in: amount_in }
        } else {
            PumpswapCall::Sell { base_amount_in: amount_in, min_quote_amount_out: min_amount_out }
        }
    }

    /// Decides how a swap of the trade is carried out on the venue.
    pub fn swap_call(&self, amount_in: u64, min_amount_out: u64, source_to_intermediate: bool) -> (call:
        PumpswapCall)
        ensures
            call == self.swap_call_of(amount_in, min_amount_out, source_to_intermediate),
    {
        if (source_to_intermediate && self.is_source_quote) || (!source_to_intermediate
            && !self.is_source_quote) {
            PumpswapCall::Buy { base_amount_out: min_amount_out, max_quote_amount_in: amount_in }
        } else {
            PumpswapCall::Sell { base_amount_in: amount_in, min_quote_amount_out: min_amount_out }
        }
    }

    /// Whether the user's account for the pool's base token is the account
    /// of the source token; else it is that of the intermediate token.
    pub fn user_base_account_is_source(&self) -> (r: bool)
        ensures
            r == !self.is_source_quote,
    {
        !self.is_source_quote
    }

    fn stages(&self) -> (fees: [u64; 3])
        ensures
            fees@ == self.fee_stages(),
    {
        let fees: [u64; 3] = [
            self.coin_creator_fee_basis_points,
            self.lp_fee_basis_points,
            self.protocol_fee_basis_points,
        ];
        assert(fees@ =~= self.fee_stages());
        fees
    }
}

/// A well-formed pool quotes every input that fits beside the reserve which
/// takes it.
pub proof fn lemma_quote_out_defined(pool: PumpswapPool, amount_in: u64, swap_for_quote: bool)
    requires
        pool.wf(),
        input_reserve(
            pool.base_reserve,
            pool.quote_reserve,
            pool.normalized_direction(swap_for_quote),
        ) + amount_in <= u64::MAX,
    ensures
        pool.quote_out(amount_in, swap_for_quote) is Ok,
{
    lemma_sum_of_three_rates(
        pool.coin_creator_fee_basis_points,
        pool.lp_fee_basis_points,
        pool.protocol_fee_basis_points,
    );
    lemma_net_amount_in_bounds(amount_in as int, sum_rates(pool.fee_stages()));
}

impl BasePool for PumpswapPool {
    /// Both reserves are positive and the three fees sum to less than
    /// 100%.
    open spec fn wf(&self) -> bool {
        &&& self.base_reserve > 0
        &&& self.quote_reserve > 0
        &&& self.coin_creator_fee_basis_points + self.lp_fee_basis_points
            + self.protocol_fee_basis_points < 10000
    }

    open spec fn fee_rate_bps(&self) -> u64 {
        (self.protocol_fee_basis_points + self.lp_fee_basis_points
            + self.coin_creator_fee_basis_points) as u64
    }

    open spec fn price(&self) -> Result<Price, ErrorCode> {
        Ok(
            self.normalized_price(
                Price { numerator: self.quote_reserve, denominator: self.base_reserve },
            ),
        )
    }

    /// The forward quote; `Overflow` when the input does not fit beside
    /// the reserve.
    open spec fn quote_out(&self, amount_in: u64, swap_for_quote: bool) -> Result<
        SwapResult,
        ErrorCode,
    > {
        let direction = self.normalized_direction(swap_for_quote);
        if amount_out_domain(
            self.base_reserve,
            self.quote_reserve,
            amount_in,
            self.fee_stages(),
            direction,
        ) {
            let quote = amount_out_result(
                self.base_reserve,
                self.quote_reserve,
                amount_in,
                self.fee_stages(),
                direction,
            );
            Ok(
                SwapResult {
                    amount_out: quote.amount_out,
                    consumed_in_amount: amount_in,
                    is_fully_filled: true,
                    new_price: self.normalized_price(quote.new_price),
                },
            )
        } else {
            Err(ErrorCode::Overflow)
        }
    }

    /// The inverse quote; `InsufficientLiquidity` when the output is not
    /// below its reserve, `Overflow` when the output before fees or the
    /// input does not fit.
    open spec fn quote_in(&self, amount_out: u64, swap_for_quote: bool) -> Result<
        SwapResult,
        ErrorCode,
    > {
        let direction = self.normalized_direction(swap_for_quote);
        if amount_out >= output_reserve(self.base_reserve, self.quote_reserve, direction) {
            Err(ErrorCode::InsufficientLiquidity)
        } else if amount_in_domain(
            self.base_reserve,
            self.quote_reserve,
            amount_out,
            self.fee_stages(),
            direction,
        ) {
            let quote = amount_in_result(
                self.base_reserve,
                self.quote_reserve,
                amount_out,
                self.fee_stages(),
                direction,
            );
            Ok(
                SwapResult {
                    amount_out,
                    consumed_in_amount: quote.amount_in,
                    is_fully_filled: true,
                    new_price: self.normalized_price(quote.new_price),
                },
            )
        } else {
            Err(ErrorCode::Overflow)
        }
    }

    open spec fn pool_type(&self) -> Result<LiquidityType, ErrorCode> {
        Ok(LiquidityType::Constant)
    }

    /// No depth limit is modelled: the pool trades any amount.
    open spec fn max_amount(&self, price_delta_bps: u64, swap_for_quote: bool) -> Result<
        u64,
        ErrorCode,
    > {
        Ok(u64::MAX)
    }

    open spec fn base_quote_product(&self) -> Result<u128, ErrorCode> {
        Ok((self.base_reserve * self.quote_reserve) as u128)
    }

    fn get_fee_rate_bps(&self) -> (r: u64) {
        self.protocol_fee_basis_points + self.lp_fee_basis_points
            + self.coin_creator_fee_basis_points
    }

    fn get_price(&self) -> (r: Result<Price, ErrorCode>) {
        Ok(self.normalize_price(Price { numerator: self.quote_reserve, denominator: self.base_reserve }))
    }

    fn get_amount_out(&self, amount_in: u64, swap_for_quote: bool) -> (r: Result<
        SwapResult,
        ErrorCode,
    >) {
        let normalized_swap_for_quote = self.normalize_swap_direction(swap_for_quote);
        let fees = self.stages();
        match checked_get_amount_out(
            self.base_reserve,
            self.quote_reserve,
            amount_in,
            fees.as_slice(),
            normalized_swap_for_quote,
        ) {
            Some(result) => Ok(
                SwapResult {
                    amount_out: result.amount_out,
                    consumed_in_amount: amount_in,
                    is_fully_filled: true,
                    new_price: self.normalize_price(result.new_price),
                },
            ),
            None => Err(ErrorCode::Overflow),
        }
    }

    fn get_amount_in(&self, amount_out: u64, swap_for_quote: bool) -> (r: Result<
        SwapResult,
        ErrorCode,
    >) {
        let normalized_swap_for_quote = self.normalize_swap_direction(swap_for_quote);
        let reserve: u64 = if normalized_swap_for_quote {
            self.quote_reserve
        } else {
            self.base_reserve
        };
        if amount_out >= reserve {
            return Err(ErrorCode::InsufficientLiquidity);
        }
        let fees = self.stages();
        match checked_get_amount_in(
            self.base_reserve,
            self.quote_reserve,
            amount_out,
            fees.as_slice(),
            normalized_swap_for_quote,
        ) {
            Some(result) => Ok(
                SwapResult {
                    amount_out,
                    consumed_in_amount: result.amount_in,
                    is_fully_filled: true,
                    new_price: self.normalize_price(result.new_price),
                },
            ),
            None => Err(ErrorCode::Overflow),
        }
    }

    fn get_pool_type(&self) -> (r: Result<LiquidityType, ErrorCode>) {
        Ok(LiquidityType::Constant)
    }

    fn get_max_amount(&self, price_delta_bps: u64, swap_for_quote: bool) -> (r: Result<
        u64,
        ErrorCode,
    >) {
        Ok(u64::MAX)
    }

    fn get_base_quote_product(&self) -> (r: Result<u128, ErrorCode>) {
        Ok(mul_u64(self.base_reserve, self.quote_reserve))
    }
}

} // verus!
