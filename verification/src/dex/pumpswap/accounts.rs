use vstd::prelude::*;
use crate::bytes::{
    has_discriminator, le_value, read_pubkey, read_u128_le, read_u32_le, read_u64_le, u64_at,
};
use crate::error::ErrorCode;
use crate::pubkey::Pubkey;

verus! {

/// The first eight bytes of a global-config account.
pub const GLOBAL_CONFIG_ACCOUNT_DISCM: [u8; 8] = [149, 8, 156, 202, 160, 252, 176, 217];

/// The first eight bytes of a pool account.
pub const PF_AMM_POOL_ACCOUNT_DISCM: [u8; 8] = [241, 154, 109, 4, 17, 177, 109, 188];

/// The venue's global settings.
#[derive(Clone, Copy, Debug)]
pub struct GlobalConfig {
    /// The admin's key.
    pub admin: Pubkey,
    /// The liquidity providers' fee in basis points.
    pub lp_fee_basis_points: u64,
    /// The protocol's fee in basis points.
    pub protocol_fee_basis_points: u64,
    /// One bit per disabled operation: create pool, deposit, withdraw, buy,
    /// sell, from the lowest bit up.
    pub disable_flags: u8,
    /// The accounts that may receive the protocol's fee.
    pub protocol_fee_recipients: [Pubkey; 8],
}

/// A pool account of the venue.
#[derive(Clone, Copy, Debug)]
pub struct PfAmmPool {
    pub pool_bump: u8,
    pub index: u16,
    pub creator: Pubkey,
    pub base_mint: Pubkey,
    pub quote_mint: Pubkey,
    pub lp_mint: Pubkey,
    pub pool_base_token_account: Pubkey,
    pub pool_quote_token_account: Pubkey,
    /// The circulating supply of pool shares, without burns and lock-ups.
    pub lp_supply: u64,
    pub coin_creator: Pubkey,
}

/// The three fee stages of a swap, in basis points.
#[derive(Clone, Copy, Debug, PartialEq, Eq, Structural)]
pub struct Fees {
    pub lp_fee_bps: u64,
    pub protocol_fee_bps: u64,
    pub creator_fee_bps: u64,
}

/// The fees that apply from a market capitalization upward.
#[derive(Clone, Copy, Debug, PartialEq, Eq, Structural)]
pub struct FeeTier {
    pub market_cap_lamports_threshold: u128,
    pub fees: Fees,
}

/// The venue's fee table.
#[derive(Clone, Debug)]
pub struct FeeConfig {
    pub bump: u8,
    pub admin: Pubkey,
    pub flat_fees: Fees,
    pub fee_tiers: Vec<FeeTier>,
}

/// The three fee rates that start at `offset`.
pub open spec fn fees_at(data: Seq<u8>, offset: int) -> Fees {
    Fees {
        lp_fee_bps: u64_at(data, offset),
        protocol_fee_bps: u64_at(data, offset + 8),
        creator_fee_bps: u64_at(data, offset + 16),
    }
}

/// The fee tier that starts at `offset`.
pub open spec fn fee_tier_at(data: Seq<u8>, offset: int) -> FeeTier {
    FeeTier {
        market_cap_lamports_threshold: le_value(data.subrange(offset, offset + 16)) as u128,
        fees: fees_at(data, offset + 16),
    }
}

fn read_fees(data: &[u8], offset: usize) -> (fees: Fees)
    requires
        offset + 24 <= data@.len(),
    ensures
        fees == fees_at(data@, offset as int),
{
    let len: usize = data.len();
    Fees {
        lp_fee_bps: read_u64_le(data, offset),
        protocol_fee_bps: read_u64_le(data, offset + 8),
        creator_fee_bps: read_u64_le(data, offset + 16),
    }
}

impl GlobalConfig {
    /// Whether `data` holds a global-config account: the discriminator,
    /// then at least `len - 8` bytes of fields.
    pub open spec fn is_account(data: Seq<u8>, len: int) -> bool {
        data.len() >= len && data.len() >= 8 && data.subrange(0, 8) == GLOBAL_CONFIG_ACCOUNT_DISCM@
    }

    /// Reads a global-config account. Anything shorter than the fields, or
    /// with another discriminator, is an invalid account.
    pub fn deserialize_data(data: &[u8]) -> (r: Result<GlobalConfig, ErrorCode>)
        ensures
            match r {
                Ok(config) => {
                    &&& Self::is_account(data@, 313)
                    &&& config.admin@ == data@.subrange(8, 40)
                    &&& config.lp_fee_basis_points == u64_at(data@, 40)
                    &&& config.protocol_fee_basis_points == u64_at(data@, 48)
                    &&& config.disable_flags == data@[56]
                    &&& forall|i: int|
                        0 <= i < 8 ==> (#[trigger] config.protocol_fee_recipients@[i])@
                            == data@.subrange(57 + 32 * i, 89 + 32 * i)
                },
                Err(e) => e == ErrorCode::InvalidAccount && !Self::is_account(data@, 313),
            },
    {
        if !has_discriminator(data, &GLOBAL_CONFIG_ACCOUNT_DISCM) || data.len() < 313 {
            return Err(ErrorCode::InvalidAccount);
        }
        let mut recipients: [Pubkey; 8] = [Pubkey { bytes: [0u8; 32] };8];
        let mut i: usize = 0;
        while i < 8
            invariant
                i <= 8,
                data@.len() >= 313,
                forall|j: int|
                    0 <= j < i ==> (#[trigger] recipients@[j])@ == data@.subrange(
                        57 + 32 * j,
                        89 + 32 * j,
                    ),
            decreases 8 - i,
        {
            let key = read_pubkey(data, 57 + 32 * i);
            recipients[i] = key;
            i = i + 1;
        }
        Ok(
            GlobalConfig {
                admin: read_pubkey(data, 8),
                lp_fee_basis_points: read_u64_le(data, 40),
                protocol_fee_basis_points: read_u64_le(data, 48),
                disable_flags: data[56],
                protocol_fee_recipients: recipients,
            },
        )
    }

    /// Reads the three fee rates of a global-config account: the liquidity
    /// providers', the protocol's and the coin creator's.
    pub fn deserialize_fees(data: &[u8]) -> (r: Result<(u64, u64, u64), ErrorCode>)
        ensures
            r == if Self::is_account(data@, 321) {
                Ok((u64_at(data@, 40), u64_at(data@, 48), u64_at(data@, 313)))
            } else {
                Err(ErrorCode::InvalidAccount)
            },
    {
        if !has_discriminator(data, &GLOBAL_CONFIG_ACCOUNT_DISCM) || data.len() < 321 {
            return Err(ErrorCode::InvalidAccount);
        }
        Ok((read_u64_le(data, 40), read_u64_le(data, 48), read_u64_le(data, 313)))
    }
}

impl PfAmmPool {
    /// Whether `data` holds a pool account up to its two mints.
    pub open spec fn has_mints(data: Seq<u8>) -> bool {
        data.len() >= 107 && data.subrange(0, 8) == PF_AMM_POOL_ACCOUNT_DISCM@
    }

    /// Reads the base mint and the quote mint of a pool account.
    pub fn deserialize_mints(data: &[u8]) -> (r: Result<(Pubkey, Pubkey), ErrorCode>)
        ensures
            match r {
                Ok((base_mint, quote_mint)) => {
                    &&& Self::has_mints(data@)
                    &&& base_mint@ == data@.subrange(43, 75)
                    &&& quote_mint@ == data@.subrange(75, 107)
                },
                Err(e) => e == ErrorCode::InvalidAccount && !Self::has_mints(data@),
            },
    {
        if !has_discriminator(data, &PF_AMM_POOL_ACCOUNT_DISCM) || data.len() < 107 {
            return Err(ErrorCode::InvalidAccount);
        }
        Ok((read_pubkey(data, 43), read_pubkey(data, 75)))
    }
}

impl FeeConfig {
    /// The number of fee tiers that the account announces.
    pub open spec fn tier_count(data: Seq<u8>) -> nat {
        le_value(data.subrange(65, 69))
    }

    /// Whether `data` holds a whole fee table: eight leading bytes, the
    /// fixed fields, the number of tiers, and that many tiers.
    pub open spec fn is_account(data: Seq<u8>) -> bool {
        data.len() >= 69 && data.len() >= 69 + 40 * Self::tier_count(data)
    }

    /// The tiers that the account holds, in the order of the account.
    pub open spec fn tiers_of(data: Seq<u8>) -> Seq<FeeTier> {
        Seq::new(Self::tier_count(data), |i: int| fee_tier_at(data, 69 + 40 * i))
    }

    /// Reads a fee-table account. The eight leading bytes are not checked.
    pub fn deserialize_data(data: &[u8]) -> (r: Result<FeeConfig, ErrorCode>)
        ensures
            match r {
                Ok(config) => {
                    &&& Self::is_account(data@)
                    &&& config.bump == data@[8]
                    &&& config.admin@ == data@.subrange(9, 41)
                    &&& config.flat_fees == fees_at(data@, 41)
                    &&& config.fee_tiers@ == Self::tiers_of(data@)
                },
                Err(e) => e == ErrorCode::InvalidAccount && !Self::is_account(data@),
            },
    {
        let len: usize = data.len();
        if len < 69 {
            return Err(ErrorCode::InvalidAccount);
        }
        let count: u32 = read_u32_le(data, 65);
        if ((len - 69) as u64) / 40 < count as u64 {
            return Err(ErrorCode::InvalidAccount);
        }
        let mut fee_tiers: Vec<FeeTier> = Vec::new();
        let mut i: usize = 0;
        while i < count as usize
            invariant
                i <= count,
                len == data@.len(),
                69 + 40 * count <= len,
                fee_tiers@.len() == i,
                forall|j: int|
                    0 <= j < i ==> #[trigger] fee_tiers@[j] == fee_tier_at(data@, 69 + 40 * j),
            decreases count - i,
        {
            let offset: usize = 69 + 40 * i;
            let tier = FeeTier {
                market_cap_lamports_threshold: read_u128_le(data, offset),
                fees: read_fees(data, offset + 16),
            };
            fee_tiers.push(tier);
            i = i + 1;
        }
        assert(fee_tiers@ =~= Self::tiers_of(data@));
        Ok(
            FeeConfig {
                bump: data[8],
                admin: read_pubkey(data, 9),
                flat_fees: read_fees(data, 41),
                fee_tiers,
            },
        )
    }
}

} // verus!
