use vstd::prelude::*;
use crate::bytes::{le_bytes, push_u64_le};

verus! {

/// The number of the venue's swap instruction with a fixed input.
pub const SWAP_BASE_IN_INSTRUCTION: u8 = 9;

/// The data of a swap instruction: the instruction's number, then the
/// input and the least output in eight bytes each, least significant byte
/// first.
pub open spec fn swap_data(amount_in: u64, minimum_amount_out: u64) -> Seq<u8> {
    seq![SWAP_BASE_IN_INSTRUCTION] + le_bytes(amount_in as nat, 8) + le_bytes(
        minimum_amount_out as nat,
        8,
    )
}

/// The data of a swap instruction.
pub fn raydium_amm_v4_swap_data(amount_in: u64, minimum_amount_out: u64) -> (data: Vec<u8>)
    ensures
        data@ == swap_data(amount_in, minimum_amount_out),
{
    let mut data: Vec<u8> = Vec::with_capacity(17);
    data.push(SWAP_BASE_IN_INSTRUCTION);
    push_u64_le(&mut data, amount_in);
    push_u64_le(&mut data, minimum_amount_out);
    proof {
        assert(data@ =~= swap_data(amount_in, minimum_amount_out));
    }
    data
}

} // verus!
