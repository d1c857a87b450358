use vstd::prelude::*;
use anchor_lang::AccountDeserialize;
use crate::bytes::u64_at;
use crate::error::ErrorCode;
use crate::pubkey::Pubkey;

verus! {

/// Whether the four bytes at `offset` announce an absent or a present
/// optional field.
pub open spec fn is_option_tag(data: Seq<u8>, offset: int) -> bool {
    &&& data[offset] == 0 || data[offset] == 1
    &&& data[offset + 1] == 0
    &&& data[offset + 2] == 0
    &&& data[offset + 3] == 0
}

/// Whether `data` is the record of an initialized token account: 165 bytes
/// with well-formed option tags and a state of initialized or frozen.
pub open spec fn is_token_account(data: Seq<u8>) -> bool {
    &&& data.len() == 165
    &&& is_option_tag(data, 72)
    &&& data[108] == 1 || data[108] == 2
    &&& is_option_tag(data, 109)
    &&& is_option_tag(data, 129)
}

/// The balance that a token-account record holds.
pub open spec fn token_account_amount(data: Seq<u8>) -> Option<u64> {
    if is_token_account(data) {
        Some(u64_at(data, 64))
    } else {
        None
    }
}

/// Whether `data` is the record of an initialized mint: 82 bytes with
/// well-formed option tags and the initialized flag set.
pub open spec fn is_mint(data: Seq<u8>) -> bool {
    &&& data.len() == 82
    &&& is_option_tag(data, 0)
    &&& data[45] == 1
    &&& is_option_tag(data, 46)
}

/// The supply that a mint record holds.
pub open spec fn mint_supply(data: Seq<u8>) -> Option<u64> {
    if is_mint(data) {
        Some(u64_at(data, 36))
    } else {
        None
    }
}

/// Calls `anchor_spl::token::TokenAccount::try_deserialize`, which unpacks
/// a token program account, and hands out its `amount`. Not verified: the
/// contract claims that the call succeeds exactly on records of 165 bytes
/// whose three option tags are 0 or 1 and whose state byte is 1 or 2, and
/// that the amount is the little-endian number in bytes 64 to 71.
#[verifier::external_body]
fn unpack_token_amount(data: &[u8]) -> (r: Option<u64>)
    ensures
        r == token_account_amount(data@),
{
    let mut buf: &[u8] = data;
    match anchor_spl::token::TokenAccount::try_deserialize(&mut buf) {
        Ok(account) => Some(account.amount),
        Err(_) => None,
    }
}

/// Calls `anchor_spl::token::Mint::try_deserialize`, which unpacks a token
/// program mint, and hands out its `supply`. Not verified: the contract
/// claims that the call succeeds exactly on records of 82 bytes whose two
/// option tags are 0 or 1 and whose initialized byte is 1, and that the
/// supply is the little-endian number in bytes 36 to 43.
#[verifier::external_body]
fn unpack_mint_supply(data: &[u8]) -> (r: Option<u64>)
    ensures
        r == mint_supply(data@),
{
    let mut buf: &[u8] = data;
    match anchor_spl::token::Mint::try_deserialize(&mut buf) {
        Ok(mint) => Some(mint.supply),
        Err(_) => None,
    }
}

/// The balance of a token account, from the account's data.
pub fn get_ata_balance(ata_account: &[u8]) -> (r: Result<u64, ErrorCode>)
    ensures
        r == match token_account_amount(ata_account@) {
            Some(amount) => Ok::<u64, ErrorCode>(amount),
            None => Err(ErrorCode::InvalidAccount),
        },
{
    match unpack_token_amount(ata_account) {
        Some(amount) => Ok(amount),
        None => Err(ErrorCode::InvalidAccount),
    }
}

/// The supply of a token, from its mint account's data.
pub fn get_mint_supply(mint_account: &[u8]) -> (r: Result<u64, ErrorCode>)
    ensures
        r == match mint_supply(mint_account@) {
            Some(supply) => Ok::<u64, ErrorCode>(supply),
            None => Err(ErrorCode::InvalidAccount),
        },
{
    match unpack_mint_supply(mint_account) {
        Some(supply) => Ok(supply),
        None => Err(ErrorCode::InvalidAccount),
    }
}

/// What an account was worth when an attempt began.
#[derive(Clone, Copy, Debug)]
pub struct ArbCtx {
    pub bump: u8,
    pub owner: Pubkey,
    /// The native balance at the start.
    pub start_sol: u64,
    /// The source-token balance at the start.
    pub start_src: u64,
}

/// Records the user's native balance and source-token balance before an
/// attempt.
pub fn init_arbitrage_context(
    bump: u8,
    owner: Pubkey,
    user_lamports: u64,
    user_source_token_account: &[u8],
) -> (r: Result<ArbCtx, ErrorCode>)
    ensures
        match r {
            Ok(ctx) => {
                &&& token_account_amount(user_source_token_account@) == Some(ctx.start_src)
                &&& ctx.bump == bump
                &&& ctx.owner == owner
                &&& ctx.start_sol == user_lamports
            },
            Err(e) => e == ErrorCode::InvalidAccount && token_account_amount(
                user_source_token_account@,
            ) is None,
        },
{
    let start_src = match get_ata_balance(user_source_token_account) {
        Ok(amount) => amount,
        Err(e) => {
            return Err(e);
        },
    };
    Ok(ArbCtx { bump, owner, start_sol: user_lamports, start_src })
}

/// What `verify_arbitrage_context` decides: the attempt stands when the
/// native and the source-token balance together are no less than at the
/// start.
pub open spec fn arbitrage_verdict(arb_ctx: ArbCtx, user_lamports: u64, balance: Option<u64>) -> Result<
    (),
    ErrorCode,
> {
    match balance {
        None => Err(ErrorCode::InvalidAccount),
        Some(curr_src) => if user_lamports + curr_src >= arb_ctx.start_sol + arb_ctx.start_src {
            Ok(())
        } else {
            Err(ErrorCode::ArbitrageVerificationFailed)
        },
    }
}

/// Rejects an attempt that left the user with less than before.
pub fn verify_arbitrage_context(
    arb_ctx: &ArbCtx,
    user_lamports: u64,
    user_source_token_account: &[u8],
) -> (r: Result<(), ErrorCode>)
    ensures
        r == arbitrage_verdict(
            *arb_ctx,
            user_lamports,
            token_account_amount(user_source_token_account@),
        ),
{
    let curr_src = match get_ata_balance(user_source_token_account) {
        Ok(amount) => amount,
        Err(e) => {
            return Err(e);
        },
    };
    let start_total: u128 = arb_ctx.start_sol as u128 + arb_ctx.start_src as u128;
    let curr_total: u128 = user_lamports as u128 + curr_src as u128;
    if curr_total >= start_total {
        Ok(())
    } else {
        Err(ErrorCode::ArbitrageVerificationFailed)
    }
}

} // verus!
