use vstd::prelude::*;
use crate::bytes::{le_value, read_pubkey, read_u128_le, read_u64_le, u64_at};
use crate::dex::raydium_amm::typedefs::Fees;
use crate::error::ErrorCode;
use crate::pubkey::Pubkey;

verus! {

/// The running totals of a pool.
#[derive(Clone, Copy, Debug)]
pub struct StateData {
    /// Coin profit that waits to be taken out of the pool.
    pub need_take_pnl_coin: u64,
    /// Pc profit that waits to be taken out of the pool.
    pub need_take_pnl_pc: u64,
    pub total_pnl_pc: u64,
    pub total_pnl_coin: u64,
    pub pool_open_time: u64,
    pub padding: [u64; 2],
    pub orderbook_to_init_time: u64,
    pub swap_coin_in_amount: u128,
    pub swap_pc_out_amount: u128,
    pub swap_acc_pc_fee: u64,
    pub swap_pc_in_amount: u128,
    pub swap_coin_out_amount: u128,
    pub swap_acc_coin_fee: u64,
}

/// A pool account of the venue.
#[derive(Clone, Copy, Debug)]
pub struct AmmInfo {
    pub status: u64,
    pub nonce: u64,
    pub order_num: u64,
    pub depth: u64,
    pub coin_decimals: u64,
    pub pc_decimals: u64,
    pub state: u64,
    pub reset_flag: u64,
    pub min_size: u64,
    pub vol_max_cut_ratio: u64,
    pub amount_wave: u64,
    pub coin_lot_size: u64,
    pub pc_lot_size: u64,
    pub min_price_multiplier: u64,
    pub max_price_multiplier: u64,
    pub sys_decimal_value: u64,
    pub fees: Fees,
    pub state_data: StateData,
    pub coin_vault: Pubkey,
    pub pc_vault: Pubkey,
    pub coin_vault_mint: Pubkey,
    pub pc_vault_mint: Pubkey,
    pub lp_mint: Pubkey,
    pub open_orders: Pubkey,
    pub market: Pubkey,
    pub market_program: Pubkey,
    pub target_orders: Pubkey,
    pub padding1: [u64; 8],
    pub amm_owner: Pubkey,
    pub lp_amount: u64,
    pub client_order_id: u64,
    pub recent_epoch: u64,
    pub padding2: u64,
}

/// The 128-bit number that the sixteen bytes from `offset` spell.
pub open spec fn u128_at(data: Seq<u8>, offset: int) -> u128 {
    le_value(data.subrange(offset, offset + 16)) as u128
}

/// The fee settings that start at `offset`.
pub open spec fn fees_at(data: Seq<u8>, offset: int) -> Fees {
    Fees {
        min_separate_numerator: u64_at(data, offset),
        min_separate_denominator: u64_at(data, offset + 8),
        trade_fee_numerator: u64_at(data, offset + 16),
        trade_fee_denominator: u64_at(data, offset + 24),
        pnl_numerator: u64_at(data, offset + 32),
        pnl_denominator: u64_at(data, offset + 40),
        swap_fee_numerator: u64_at(data, offset + 48),
        swap_fee_denominator: u64_at(data, offset + 56),
    }
}

/// Whether `state` holds the running totals that start at `offset`.
pub open spec fn is_state_data_at(state: StateData, data: Seq<u8>, offset: int) -> bool {
    &&& state.need_take_pnl_coin == u64_at(data, offset)
    &&& state.need_take_pnl_pc == u64_at(data, offset + 8)
    &&& state.total_pnl_pc == u64_at(data, offset + 16)
    &&& state.total_pnl_coin == u64_at(data, offset + 24)
    &&& state.pool_open_time == u64_at(data, offset + 32)
    &&& state.padding@[0] == u64_at(data, offset + 40)
    &&& state.padding@[1] == u64_at(data, offset + 48)
    &&& state.orderbook_to_init_time == u64_at(data, offset + 56)
    &&& state.swap_coin_in_amount == u128_at(data, offset + 64)
    &&& state.swap_pc_out_amount == u128_at(data, offset + 80)
    &&& state.swap_acc_pc_fee == u64_at(data, offset + 96)
    &&& state.swap_pc_in_amount == u128_at(data, offset + 104)
    &&& state.swap_coin_out_amount == u128_at(data, offset + 120)
    &&& state.swap_acc_coin_fee == u64_at(data, offset + 136)
}

/// Whether `info` holds the fields of the pool account `data`, each at its
/// place.
pub open spec fn is_amm_info_of(info: AmmInfo, data: Seq<u8>) -> bool {
    &&& info.status == u64_at(data, 0)
    &&& info.nonce == u64_at(data, 8)
    &&& info.order_num == u64_at(data, 16)
    &&& info.depth == u64_at(data, 24)
    &&& info.coin_decimals == u64_at(data, 32)
    &&& info.pc_decimals == u64_at(data, 40)
    &&& info.state == u64_at(data, 48)
    &&& info.reset_flag == u64_at(data, 56)
    &&& info.min_size == u64_at(data, 64)
    &&& info.vol_max_cut_ratio == u64_at(data, 72)
    &&& info.amount_wave == u64_at(data, 80)
    &&& info.coin_lot_size == u64_at(data, 88)
    &&& info.pc_lot_size == u64_at(data, 96)
    &&& info.min_price_multiplier == u64_at(data, 104)
    &&& info.max_price_multiplier == u64_at(data, 112)
    &&& info.sys_decimal_value == u64_at(data, 120)
    &&& info.fees == fees_at(data, 128)
    &&& is_state_data_at(info.state_data, data, 192)
    &&& info.coin_vault@ == data.subrange(336, 368)
    &&& info.pc_vault@ == data.subrange(368, 400)
    &&& info.coin_vault_mint@ == data.subrange(400, 432)
    &&& info.pc_vault_mint@ == data.subrange(432, 464)
    &&& info.lp_mint@ == data.subrange(464, 496)
    &&& info.open_orders@ == data.subrange(496, 528)
    &&& info.market@ == data.subrange(528, 560)
    &&& info.market_program@ == data.subrange(560, 592)
    &&& info.target_orders@ == data.subrange(592, 624)
    &&& forall|i: int| 0 <= i < 8 ==> #[trigger] info.padding1@[i] == u64_at(data, 624 + 8 * i)
    &&& info.amm_owner@ == data.subrange(688, 720)
    &&& info.lp_amount == u64_at(data, 720)
    &&& info.client_order_id == u64_at(data, 728)
    &&& info.recent_epoch == u64_at(data, 736)
    &&& info.padding2 == u64_at(data, 744)
}

fn read_fees(data: &[u8], offset: usize) -> (fees: Fees)
    requires
        offset + 64 <= data@.len(),
    ensures
        fees == fees_at(data@, offset as int),
{
    let len: usize = data.len();
    Fees {
        min_separate_numerator: read_u64_le(data, offset),
        min_separate_denominator: read_u64_le(data, offset + 8),
        trade_fee_numerator: read_u64_le(data, offset + 16),
        trade_fee_denominator: read_u64_le(data, offset + 24),
        pnl_numerator: read_u64_le(data, offset + 32),
        pnl_denominator: read_u64_le(data, offset + 40),
        swap_fee_numerator: read_u64_le(data, offset + 48),
        swap_fee_denominator: read_u64_le(data, offset + 56),
    }
}

fn read_state_data(data: &[u8], offset: usize) -> (state: StateData)
    requires
        offset + 144 <= data@.len(),
    ensures
        is_state_data_at(state, data@, offset as int),
{
    let len: usize = data.len();
    let padding: [u64; 2] = [read_u64_le(data, offset + 40), read_u64_le(data, offset + 48)];
    StateData {
        need_take_pnl_coin: read_u64_le(data, offset),
        need_take_pnl_pc: read_u64_le(data, offset + 8),
        total_pnl_pc: read_u64_le(data, offset + 16),
        total_pnl_coin: read_u64_le(data, offset + 24),
        pool_open_time: read_u64_le(data, offset + 32),
        padding,
        orderbook_to_init_time: read_u64_le(data, offset + 56),
        swap_coin_in_amount: read_u128_le(data, offset + 64),
        swap_pc_out_amount: read_u128_le(data, offset + 80),
        swap_acc_pc_fee: read_u64_le(data, offset + 96),
        swap_pc_in_amount: read_u128_le(data, offset + 104),
        swap_coin_out_amount: read_u128_le(data, offset + 120),
        swap_acc_coin_fee: read_u64_le(data, offset + 136),
    }
}

impl AmmInfo {
    /// Reads a whole pool account, which is exactly 752 bytes long.
    pub fn deserialize_data(data: &[u8]) -> (r: Result<AmmInfo, ErrorCode>)
        ensures
            match r {
                Ok(info) => data@.len() == 752 && is_amm_info_of(info, data@),
                Err(e) => e == ErrorCode::InvalidAccount && data@.len() != 752,
            },
    {
        if data.len() != 752 {
            return Err(ErrorCode::InvalidAccount);
        }
        let mut padding1: [u64; 8] = [0u64; 8];
        let mut i: usize = 0;
        while i < 8
            invariant
                i <= 8,
                data@.len() == 752,
                forall|j: int| 0 <= j < i ==> #[trigger] padding1@[j] == u64_at(data@, 624 + 8 * j),
            decreases 8 - i,
        {
            let word = read_u64_le(data, 624 + 8 * i);
            padding1[i] = word;
            i = i + 1;
        }
        Ok(
            AmmInfo {
                status: read_u64_le(data, 0),
                nonce: read_u64_le(data, 8),
                order_num: read_u64_le(data, 16),
                depth: read_u64_le(data, 24),
                coin_decimals: read_u64_le(data, 32),
                pc_decimals: read_u64_le(data, 40),
                state: read_u64_le(data, 48),
                reset_flag: read_u64_le(data, 56),
                min_size: read_u64_le(data, 64),
                vol_max_cut_ratio: read_u64_le(data, 72),
                amount_wave: read_u64_le(data, 80),
                coin_lot_size: read_u64_le(data, 88),
                pc_lot_size: read_u64_le(data, 96),
                min_price_multiplier: read_u64_le(data, 104),
                max_price_multiplier: read_u64_le(data, 112),
                sys_decimal_value: read_u64_le(data, 120),
                fees: read_fees(data, 128),
                state_data: read_state_data(data, 192),
                coin_vault: read_pubkey(data, 336),
                pc_vault: read_pubkey(data, 368),
                coin_vault_mint: read_pubkey(data, 400),
                pc_vault_mint: read_pubkey(data, 432),
                lp_mint: read_pubkey(data, 464),
                open_orders: read_pubkey(data, 496),
                market: read_pubkey(data, 528),
                market_program: read_pubkey(data, 560),
                target_orders: read_pubkey(data, 592),
                padding1,
                amm_owner: read_pubkey(data, 688),
                lp_amount: read_u64_le(data, 720),
                client_order_id: read_u64_le(data, 728),
                recent_epoch: read_u64_le(data, 736),
                padding2: read_u64_le(data, 744),
            },
        )
    }

    /// Reads the coin mint and the pc mint of a pool account.
    pub fn deserialize_mints(data: &[u8]) -> (r: Result<(Pubkey, Pubkey), ErrorCode>)
        ensures
            match r {
                Ok((coin_vault_mint, pc_vault_mint)) => {
                    &&& data@.len() >= 464
                    &&& coin_vault_mint@ == data@.subrange(400, 432)
                    &&& pc_vault_mint@ == data@.subrange(432, 464)
                },
                Err(e) => e == ErrorCode::InvalidAccount && data@.len() < 464,
            },
    {
        if data.len() < 464 {
            return Err(ErrorCode::InvalidAccount);
        }
        Ok((read_pubkey(data, 400), read_pubkey(data, 432)))
    }

    /// Reads the numerator and the denominator of the swap fee.
    pub fn deserialize_swap_fees(data: &[u8]) -> (r: Result<(u64, u64), ErrorCode>)
        ensures
            r == if data@.len() >= 192 {
                Ok((u64_at(data@, 176), u64_at(data@, 184)))
            } else {
                Err(ErrorCode::InvalidAccount)
            },
    {
        if data.len() < 192 {
            return Err(ErrorCode::InvalidAccount);
        }
        Ok((read_u64_le(data, 176), read_u64_le(data, 184)))
    }

    /// Reads the profit that waits to be taken out of the pool, as
    /// `(coin, pc)`.
    pub fn deserialize_need_take_pnl(data: &[u8]) -> (r: Result<(u64, u64), ErrorCode>)
        ensures
            r == if data@.len() >= 208 {
                Ok((u64_at(data@, 192), u64_at(data@, 200)))
            } else {
                Err(ErrorCode::InvalidAccount)
            },
    {
        if data.len() < 208 {
            return Err(ErrorCode::InvalidAccount);
        }
        Ok((read_u64_le(data, 192), read_u64_le(data, 200)))
    }
}

} // verus!
