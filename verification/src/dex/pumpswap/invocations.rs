use vstd::prelude::*;
use crate::bytes::{le_bytes, push_all, push_u64_le};

verus! {

/// The first eight bytes of a buy instruction.
pub const BUY_INSTRUCTION_DISCM: [u8; 8] = [102, 6, 61, 18, 1, 218, 235, 234];

/// The first eight bytes of a sell instruction.
pub const SELL_INSTRUCTION_DISCM: [u8; 8] = [51, 230, 133, 164, 1, 127, 131, 173];

/// The call that a swap makes on the venue.
#[derive(Clone, Copy, Debug, PartialEq, Eq, Structural)]
pub enum PumpswapCall {
    /// Buys base tokens with quote tokens.
    Buy { base_amount_out: u64, max_quote_amount_in: u64 },
    /// Sells base tokens for quote tokens.
    Sell { base_amount_in: u64, min_quote_amount_out: u64 },
}

/// The data of an instruction with two amounts: the discriminator, then
/// each amount in eight bytes, least significant byte first.
pub open spec fn instruction_data(discriminator: Seq<u8>, first: u64, second: u64) -> Seq<u8> {
    discriminator + le_bytes(first as nat, 8) + le_bytes(second as nat, 8)
}

impl PumpswapCall {
    /// The data of the instruction that makes the call.
    pub open spec fn data_of(self) -> Seq<u8> {
        match self {
            PumpswapCall::Buy { base_amount_out, max_quote_amount_in } => instruction_data(
                BUY_INSTRUCTION_DISCM@,
                base_amount_out,
                max_quote_amount_in,
            ),
            PumpswapCall::Sell { base_amount_in, min_quote_amount_out } => instruction_data(
                SELL_INSTRUCTION_DISCM@,
                base_amount_in,
                min_quote_amount_out,
            ),
        }
    }

    /// Builds the data of the instruction that makes the call.
    pub fn data(&self) -> (data: Vec<u8>)
        ensures
            data@ == self.data_of(),
    {
        match *self {
            PumpswapCall::Buy { base_amount_out, max_quote_amount_in } => pumpswap_buy_data(
                base_amount_out,
                max_quote_amount_in,
            ),
            PumpswapCall::Sell { base_amount_in, min_quote_amount_out } => pumpswap_sell_data(
                base_amount_in,
                min_quote_amount_out,
            ),
        }
    }
}

/// The data of a buy instruction.
pub fn pumpswap_buy_data(base_amount_out: u64, max_quote_amount_in: u64) -> (data: Vec<u8>)
    ensures
        data@ == instruction_data(BUY_INSTRUCTION_DISCM@, base_amount_out, max_quote_amount_in),
{
    let mut data: Vec<u8> = Vec::with_capacity(24);
    push_all(&mut data, BUY_INSTRUCTION_DISCM.as_slice());
    push_u64_le(&mut data, base_amount_out);
    push_u64_le(&mut data, max_quote_amount_in);
    proof {
        assert(Seq::<u8>::empty() + BUY_INSTRUCTION_DISCM@ =~= BUY_INSTRUCTION_DISCM@);
    }
    data
}

/// The data of a sell instruction.
pub fn pumpswap_sell_data(base_amount_in: u64, min_quote_amount_out: u64) -> (data: Vec<u8>)
    ensures
        data@ == instruction_data(SELL_INSTRUCTION_DISCM@, base_amount_in, min_quote_amount_out),
{
    let mut data: Vec<u8> = Vec::with_capacity(24);
    push_all(&mut data, SELL_INSTRUCTION_DISCM.as_slice());
    push_u64_le(&mut data, base_amount_in);
    push_u64_le(&mut data, min_quote_amount_out);
    proof {
        assert(Seq::<u8>::empty() + SELL_INSTRUCTION_DISCM@ =~= SELL_INSTRUCTION_DISCM@);
    }
    data
}

} // verus!
