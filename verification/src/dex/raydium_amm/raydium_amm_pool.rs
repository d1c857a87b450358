use vstd::prelude::*;
use crate::arbitrage_engine::base_pool_trait::BasePool;
use crate::arbitrage_engine::structures::{LiquidityType, SwapResult};
use crate::arith::mul_u64;
use crate::bytes::u64_at;
use crate::commons::{get_ata_balance, token_account_amount};
use crate::dex::constant_product::output_reserve;
use crate::dex::mints::{check_mints, mints_match};
use crate::dex::raydium_amm::accounts::AmmInfo;
use crate::dex::raydium_amm::math::{
    amount_in_domain, amount_in_result, amount_out_domain, amount_out_result,
    calc_total_without_take_pnl_no_orderbook, checked_get_amount_in, checked_get_amount_out,
};
use crate::error::ErrorCode;
use crate::price::Price;
use crate::pubkey::Pubkey;

verus! {

/// A snapshot of a single-fee pool, seen from a trade between a source and
/// an intermediate token.
#[derive(Clone, Copy, Debug, PartialEq, Eq, Structural)]
pub struct RaydiumAmmPool {
    /// Whether the source token is the pool's quote (pc) side.
    pub is_source_quote: bool,
    /// The swap fee in basis points.
    pub swap_fee: u64,
    pub base_reserve: u64,
    pub quote_reserve: u64,
    /// The base reserve without the profit that waits to be taken out.
    pub base_reserve_without_take_pnl: u64,
    /// The quote reserve without the profit that waits to be taken out.
    pub quote_reserve_without_take_pnl: u64,
}

impl RaydiumAmmPool {
    /// The snapshot that `new` takes from a pool account and its two
    /// vaults, or the error on which it stops. The checks run in this order:
    /// the pool account's length, the tokens, the vaults, the profit that
    /// waits to be taken out, and last the reserves and the fee.
    pub open spec fn snapshot(
        source_mint: Pubkey,
        intermediate_mint: Pubkey,
        amm_info: Seq<u8>,
        coin_vault: Seq<u8>,
        pc_vault: Seq<u8>,
    ) -> Result<RaydiumAmmPool, ErrorCode> {
        if amm_info.len() < 464 {
            Err(ErrorCode::InvalidAccount)
        } else if !mints_match(
            source_mint@,
            intermediate_mint@,
            amm_info.subrange(400, 432),
            amm_info.subrange(432, 464),
        ) {
            Err(ErrorCode::TokenMintMismatch)
        } else {
            match (token_account_amount(coin_vault), token_account_amount(pc_vault)) {
                (Some(base_reserve), Some(quote_reserve)) => {
                    let pnl_coin = u64_at(amm_info, 192);
                    let pnl_pc = u64_at(amm_info, 200);
                    let swap_fee = u64_at(amm_info, 176);
                    if pnl_coin > base_reserve || pnl_pc > quote_reserve {
                        Err(ErrorCode::Overflow)
                    } else if pnl_coin == base_reserve || pnl_pc == quote_reserve || swap_fee
                        >= 10000 {
                        Err(ErrorCode::InvalidAccount)
                    } else {
                        Ok(
                            RaydiumAmmPool {
                                is_source_quote: source_mint@ == amm_info.subrange(432, 464),
                                swap_fee,
                                base_reserve,
                                quote_reserve,
                                base_reserve_without_take_pnl: (base_reserve - pnl_coin) as u64,
                                quote_reserve_without_take_pnl: (quote_reserve - pnl_pc) as u64,
                            },
                        )
                    }
                },
                _ => Err(ErrorCode::InvalidAccount),
            }
        }
    }

    /// Takes a snapshot of a pool for a trade from `source_mint` to
    /// `intermediate_mint` and back, from the data of the pool account and
    /// of its coin and pc vaults.
    pub fn new(
        source_mint: &Pubkey,
        intermediate_mint: &Pubkey,
        amm_info: &[u8],
        coin_vault: &[u8],
        pc_vault: &[u8],
    ) -> (r: Result<Self, ErrorCode>)
        ensures
            r == Self::snapshot(
                *source_mint,
                *intermediate_mint,
                amm_info@,
                coin_vault@,
                pc_vault@,
            ),
            r matches Ok(pool) ==> pool.wf(),
    {
        let (coin_mint, pc_mint) = match AmmInfo::deserialize_mints(amm_info) {
            Ok(mints) => mints,
            Err(e) => {
                return Err(e);
            },
        };
        let (swap_fee, _) = match AmmInfo::deserialize_swap_fees(amm_info) {
            Ok(fees) => fees,
            Err(e) => {
                return Err(e);
            },
        };
        let (need_take_pnl_coin, need_take_pnl_pc) = match AmmInfo::deserialize_need_take_pnl(
            amm_info,
        ) {
            Ok(pnl) => pnl,
            Err(e) => {
                return Err(e);
            },
        };
        match check_mints(source_mint, intermediate_mint, &coin_mint, &pc_mint) {
            Ok(()) => {},
            Err(e) => {
                return Err(e);
            },
        }
        let is_source_quote: bool = *source_mint == pc_mint;
        let base_reserve = match get_ata_balance(coin_vault) {
            Ok(amount) => amount,
            Err(e) => {
                return Err(e);
            },
        };
        let quote_reserve = match get_ata_balance(pc_vault) {
            Ok(amount) => amount,
            Err(e) => {
                return Err(e);
            },
        };
        if need_take_pnl_coin > base_reserve || need_take_pnl_pc > quote_reserve {
            return Err(ErrorCode::Overflow);
        }
        let (base_reserve_without_take_pnl, quote_reserve_without_take_pnl) =
            calc_total_without_take_pnl_no_orderbook(
            base_reserve,
            quote_reserve,
            need_take_pnl_pc,
            need_take_pnl_coin,
        );
        if base_reserve_without_take_pnl == 0 || quote_reserve_without_take_pnl == 0 || swap_fee
            >= 10000 {
            return Err(ErrorCode::InvalidAccount);
        }
        Ok(
            RaydiumAmmPool {
                is_source_quote,
                swap_fee,
                base_reserve,
                quote_reserve,
                base_reserve_without_take_pnl,
                quote_reserve_without_take_pnl,
            },
        )
    }

    /// The direction of a swap in the pool's terms: `true` when the pool
    /// takes base and pays quote.
    pub open spec fn normalized_direction(&self, swap_for_quote: bool) -> bool {
        if self.is_source_quote {
            swap_for_quote
        } else {
            !swap_for_quote
        }
    }

    /// A price of the pool in the trade's terms: source units per
    /// intermediate unit.
    pub open spec fn normalized_price(&self, price: Price) -> Price {
        if self.is_source_quote {
            price
        } else {
            price.inverted()
        }
    }

    /// Turns a direction of the trade into a direction of the pool.
    pub fn normalize_swap_direction(&self, swap_for_quote: bool) -> (r: bool)
        ensures
            r == self.normalized_direction(swap_for_quote),
    {
        if self.is_source_quote {
            swap_for_quote
        } else {
            !swap_for_quote
        }
    }

    /// Turns a price of the pool into a price of the trade.
    pub fn normalize_price(&self, price: Price) -> (r: Price)
        ensures
            r == self.normalized_price(price),
    {
        if self.is_source_quote {
            price
        } else {
            price.invert()
        }
    }
}

/// A swap on the venue: the amounts, and which of the user's two accounts
/// pays.
#[derive(Clone, Copy, Debug, PartialEq, Eq, Structural)]
pub struct RaydiumSwapCall {
    pub amount_in: u64,
    pub minimum_amount_out: u64,
    /// Whether the user's source account pays and the intermediate account
    /// receives; else the other way round.
    pub pays_from_source: bool,
}

impl RaydiumAmmPool {
    /// Whether the snapshot can be quoted on: both tradable reserves are
    /// positive and the fee is below 100%.
    pub fn is_well_formed(&self) -> (r: bool)
        ensures
            r == self.wf(),
    {
        self.base_reserve_without_take_pnl > 0 && self.quote_reserve_without_take_pnl > 0
            && self.swap_fee < 10000
    }

    /// Decides how a swap of the trade is carried out on the venue: the
    /// input is fixed, and the account of the token that the leg spends
    /// pays.
    pub fn swap_call(&self, amount_in: u64, min_amount_out: u64, source_to_intermediate: bool) -> (call:
        RaydiumSwapCall)
        ensures
            call == (RaydiumSwapCall {
                amount_in,
                minimum_amount_out: min_amount_out,
                pays_from_source: source_to_intermediate,
            }),
    {
        RaydiumSwapCall {
            amount_in,
            minimum_amount_out: min_amount_out,
            pays_from_source: source_to_intermediate,
        }
    }
}

impl BasePool for RaydiumAmmPool {
    /// Both tradable reserves are positive and the fee is below 100%.
    open spec fn wf(&self) -> bool {
        &&& self.base_reserve_without_take_pnl > 0
        &&& self.quote_reserve_without_take_pnl > 0
        &&& self.swap_fee < 10000
    }

    open spec fn fee_rate_bps(&self) -> u64 {
        self.swap_fee
    }

    open spec fn price(&self) -> Result<Price, ErrorCode> {
        Ok(
            self.normalized_price(
                Price {
                    numerator: self.quote_reserve_without_take_pnl,
                    denominator: self.base_reserve_without_take_pnl,
                },
            ),
        )
    }

    /// The forward quote on the tradable reserves; `Overflow` when the
    /// input does not fit beside the reserve.
    open spec fn quote_out(&self, amount_in: u64, swap_for_quote: bool) -> Result<
        SwapResult,
        ErrorCode,
    > {
        let direction = self.normalized_direction(swap_for_quote);
        if amount_out_domain(
            self.base_reserve_without_take_pnl,
            self.quote_reserve_without_take_pnl,
            amount_in,
            self.swap_fee,
            direction,
        ) {
            let quote = amount_out_result(
                self.base_reserve_without_take_pnl,
                self.quote_reserve_without_take_pnl,
                amount_in,
                self.swap_fee,
                direction,
            );
            Ok(
                SwapResult {
                    amount_out: quote.amount_out,
                    consumed_in_amount: amount_in,
                    is_fully_filled: true,
                    new_price: self.normalized_price(quote.new_price),
                },
            )
        } else {
            Err(ErrorCode::Overflow)
        }
    }

    /// The inverse quote on the tradable reserves; `InsufficientLiquidity`
    /// when the output is not below its reserve, `Overflow` when the input
    /// does not fit beside the reserve.
    open spec fn quote_in(&self, amount_out: u64, swap_for_quote: bool) -> Result<
        SwapResult,
        ErrorCode,
    > {
        let direction = self.normalized_direction(swap_for_quote);
        if amount_out >= output_reserve(
            self.base_reserve_without_take_pnl,
            self.quote_reserve_without_take_pnl,
            direction,
        ) {
            Err(ErrorCode::InsufficientLiquidity)
        } else if amount_in_domain(
            self.base_reserve_without_take_pnl,
            self.quote_reserve_without_take_pnl,
            amount_out,
            self.swap_fee,
            direction,
        ) {
            let quote = amount_in_result(
                self.base_reserve_without_take_pnl,
                self.quote_reserve_without_take_pnl,
                amount_out,
                self.swap_fee,
                direction,
            );
            Ok(
                SwapResult {
                    amount_out,
                    consumed_in_amount: quote.amount_in,
                    is_fully_filled: true,
                    new_price: self.normalized_price(quote.new_price),
                },
            )
        } else {
            Err(ErrorCode::Overflow)
        }
    }

    open spec fn pool_type(&self) -> Result<LiquidityType, ErrorCode> {
        Ok(LiquidityType::Constant)
    }

    /// No depth limit is modelled: the pool trades any amount.
    open spec fn max_amount(&self, price_delta_bps: u64, swap_for_quote: bool) -> Result<
        u64,
        ErrorCode,
    > {
        Ok(u64::MAX)
    }

    open spec fn base_quote_product(&self) -> Result<u128, ErrorCode> {
        Ok((self.base_reserve_without_take_pnl * self.quote_reserve_without_take_pnl) as u128)
    }

    fn get_fee_rate_bps(&self) -> (r: u64) {
        self.swap_fee
    }

    fn get_price(&self) -> (r: Result<Price, ErrorCode>) {
        Ok(
            self.normalize_price(
                Price {
                    numerator: self.quote_reserve_without_take_pnl,
                    denominator: self.base_reserve_without_take_pnl,
                },
            ),
        )
    }

    fn get_amount_out(&self, amount_in: u64, swap_for_quote: bool) -> (r: Result<
        SwapResult,
        ErrorCode,
    >) {
        let normalized_swap_for_quote = self.normalize_swap_direction(swap_for_quote);
        match checked_get_amount_out(
            self.base_reserve_without_take_pnl,
            self.quote_reserve_without_take_pnl,
            amount_in,
            self.swap_fee,
            normalized_swap_for_quote,
        ) {
            Some(result) => Ok(
                SwapResult {
                    amount_out: result.amount_out,
                    consumed_in_amount: amount_in,
                    is_fully_filled: true,
                    new_price: self.normalize_price(result.new_price),
                },
            ),
            None => Err(ErrorCode::Overflow),
        }
    }

    fn get_amount_in(&self, amount_out: u64, swap_for_quote: bool) -> (r: Result<
        SwapResult,
        ErrorCode,
    >) {
        let normalized_swap_for_quote = self.normalize_swap_direction(swap_for_quote);
        let reserve: u64 = if normalized_swap_for_quote {
            self.quote_reserve_without_take_pnl
        } else {
            self.base_reserve_without_take_pnl
        };
        if amount_out >= reserve {
            return Err(ErrorCode::InsufficientLiquidity);
        }
        match checked_get_amount_in(
            self.base_reserve_without_take_pnl,
            self.quote_reserve_without_take_pnl,
            amount_out,
            self.swap_fee,
            normalized_swap_for_quote,
        ) {
            Some(result) => Ok(
                SwapResult {
                    amount_out,
                    consumed_in_amount: result.amount_in,
                    is_fully_filled: true,
                    new_price: self.normalize_price(result.new_price),
                },
            ),
            None => Err(ErrorCode::Overflow),
        }
    }

    fn get_pool_type(&self) -> (r: Result<LiquidityType, ErrorCode>) {
        Ok(LiquidityType::Constant)
    }

    fn get_max_amount(&self, price_delta_bps: u64, swap_for_quote: bool) -> (r: Result<
        u64,
        ErrorCode,
    >) {
        Ok(u64::MAX)
    }

    fn get_base_quote_product(&self) -> (r: Result<u128, ErrorCode>) {
        Ok(mul_u64(self.base_reserve_without_take_pnl, self.quote_reserve_without_take_pnl))
    }
}

} // verus!
