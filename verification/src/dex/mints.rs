use vstd::prelude::*;
use crate::error::ErrorCode;
use crate::pubkey::Pubkey;

verus! {

/// Whether both tokens of a trade are the two tokens of a pool, and differ.
/// Each token is given by the bytes of its mint's key.
pub open spec fn mints_match(
    source_mint: Seq<u8>,
    intermediate_mint: Seq<u8>,
    base_mint: Seq<u8>,
    quote_mint: Seq<u8>,
) -> bool {
    &&& source_mint == base_mint || source_mint == quote_mint
    &&& intermediate_mint == base_mint || intermediate_mint == quote_mint
    &&& source_mint != intermediate_mint
}

/// Checks that both tokens of a trade are the two tokens of a pool, and
/// differ.
pub fn check_mints(
    source_mint: &Pubkey,
    intermediate_mint: &Pubkey,
    base_mint: &Pubkey,
    quote_mint: &Pubkey,
) -> (r: Result<(), ErrorCode>)
    ensures
        r == if mints_match(source_mint@, intermediate_mint@, base_mint@, quote_mint@) {
            Ok::<(), ErrorCode>(())
        } else {
            Err(ErrorCode::TokenMintMismatch)
        },
{
    let source_in_pool = *source_mint == *base_mint || *source_mint == *quote_mint;
    let intermediate_in_pool = *intermediate_mint == *base_mint || *intermediate_mint
        == *quote_mint;
    if !(source_in_pool && intermediate_in_pool) {
        return Err(ErrorCode::TokenMintMismatch);
    }
    if *source_mint == *intermediate_mint {
        return Err(ErrorCode::TokenMintMismatch);
    }
    Ok(())
}

} // verus!
