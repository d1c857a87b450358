use arbitrage_program::bytes::{push_all, push_u64_le, read_u64_le};
use arbitrage_program::dex::pumpswap::invocations::{
    pumpswap_buy_data, pumpswap_sell_data, PumpswapCall,
};
use arbitrage_program::dex::raydium_amm::invocations::raydium_amm_v4_swap_data;

#[test]
fn buy_data_is_discriminator_and_two_amounts() {
    let data = pumpswap_buy_data(0x0102030405060708, 1);
    assert_eq!(
        data,
        vec![
            102, 6, 61, 18, 1, 218, 235, 234, 8, 7, 6, 5, 4, 3, 2, 1, 1, 0, 0, 0, 0, 0, 0, 0
        ]
    );
    let call = PumpswapCall::Buy { base_amount_out: 0x0102030405060708, max_quote_amount_in: 1 };
    assert_eq!(call.data(), data);
}

#[test]
fn sell_data_is_discriminator_and_two_amounts() {
    let data = pumpswap_sell_data(u64::MAX, 256);
    assert_eq!(
        data,
        vec![
            51, 230, 133, 164, 1, 127, 131, 173, 255, 255, 255, 255, 255, 255, 255, 255, 0, 1, 0, 0,
            0, 0, 0, 0
        ]
    );
    let call = PumpswapCall::Sell { base_amount_in: u64::MAX, min_quote_amount_out: 256 };
    assert_eq!(call.data(), data);
}

#[test]
fn swap_data_is_number_and_two_amounts() {
    let data = raydium_amm_v4_swap_data(677970243, 25610754894);
    assert_eq!(data.len(), 17);
    assert_eq!(data[0], 9);
    assert_eq!(data[1..9], 677970243u64.to_le_bytes());
    assert_eq!(data[9..17], 25610754894u64.to_le_bytes());
}

#[test]
fn written_amounts_read_back() {
    let mut out: Vec<u8> = vec![0xaa];
    push_u64_le(&mut out, 0xfedcba9876543210);
    push_all(&mut out, &[1, 2, 3]);
    push_all(&mut out, &[]);
    assert_eq!(out, vec![0xaa, 0x10, 0x32, 0x54, 0x76, 0x98, 0xba, 0xdc, 0xfe, 1, 2, 3]);
    assert_eq!(read_u64_le(&out, 1), 0xfedcba9876543210);
}
