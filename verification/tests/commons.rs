use arbitrage_program::commons::{
    get_ata_balance, get_mint_supply, init_arbitrage_context, verify_arbitrage_context, ArbCtx,
};
use arbitrage_program::error::ErrorCode;
use arbitrage_program::pubkey::Pubkey;

fn token_account(amount: u64) -> Vec<u8> {
    let mut data: Vec<u8> = vec![0; 165];
    data[0..32].copy_from_slice(&[7; 32]);
    data[32..64].copy_from_slice(&[8; 32]);
    data[64..72].copy_from_slice(&amount.to_le_bytes());
    data[108] = 1;
    data[121..129].copy_from_slice(&u64::MAX.to_le_bytes());
    data
}

fn mint_account(supply: u64) -> Vec<u8> {
    let mut data: Vec<u8> = vec![0; 82];
    data[36..44].copy_from_slice(&supply.to_le_bytes());
    data[44] = 6;
    data[45] = 1;
    data
}

#[test]
fn balance_is_read_from_a_token_account() {
    assert_eq!(get_ata_balance(&token_account(0)), Ok(0));
    assert_eq!(get_ata_balance(&token_account(942150070694)), Ok(942150070694));
    assert_eq!(get_ata_balance(&token_account(u64::MAX)), Ok(u64::MAX));
}

#[test]
fn balance_is_read_from_a_frozen_or_delegated_account() {
    let mut data = token_account(55);
    data[108] = 2;
    assert_eq!(get_ata_balance(&data), Ok(55));
    data[72] = 1;
    data[76..108].copy_from_slice(&[9; 32]);
    data[109] = 1;
    data[129] = 1;
    assert_eq!(get_ata_balance(&data), Ok(55));
}

#[test]
fn balance_needs_an_initialized_account_of_the_right_length() {
    let data = token_account(55);
    assert_eq!(get_ata_balance(&data[..164]), Err(ErrorCode::InvalidAccount));
    let mut longer = data.clone();
    longer.push(0);
    assert_eq!(get_ata_balance(&longer), Err(ErrorCode::InvalidAccount));
    assert_eq!(get_ata_balance(&[]), Err(ErrorCode::InvalidAccount));
    let mut uninitialized = data.clone();
    uninitialized[108] = 0;
    assert_eq!(get_ata_balance(&uninitialized), Err(ErrorCode::InvalidAccount));
    let mut unknown_state = data.clone();
    unknown_state[108] = 3;
    assert_eq!(get_ata_balance(&unknown_state), Err(ErrorCode::InvalidAccount));
}

#[test]
fn balance_needs_well_formed_option_tags() {
    for offset in [72usize, 109, 129] {
        let mut data = token_account(55);
        data[offset] = 2;
        assert_eq!(get_ata_balance(&data), Err(ErrorCode::InvalidAccount));
        for byte in 1..4usize {
            let mut data = token_account(55);
            data[offset + byte] = 1;
            assert_eq!(get_ata_balance(&data), Err(ErrorCode::InvalidAccount));
        }
    }
}

#[test]
fn supply_is_read_from_a_mint() {
    assert_eq!(get_mint_supply(&mint_account(1_000_000_000_000_000)), Ok(1_000_000_000_000_000));
    let mut data = mint_account(77);
    data[0] = 1;
    data[46] = 1;
    assert_eq!(get_mint_supply(&data), Ok(77));
}

#[test]
fn supply_needs_an_initialized_mint_of_the_right_length() {
    let data = mint_account(77);
    assert_eq!(get_mint_supply(&data[..81]), Err(ErrorCode::InvalidAccount));
    let mut longer = data.clone();
    longer.push(0);
    assert_eq!(get_mint_supply(&longer), Err(ErrorCode::InvalidAccount));
    let mut uninitialized = data.clone();
    uninitialized[45] = 0;
    assert_eq!(get_mint_supply(&uninitialized), Err(ErrorCode::InvalidAccount));
    let mut odd_flag = data.clone();
    odd_flag[45] = 2;
    assert_eq!(get_mint_supply(&odd_flag), Err(ErrorCode::InvalidAccount));
    for offset in [0usize, 46] {
        let mut data = mint_account(77);
        data[offset] = 2;
        assert_eq!(get_mint_supply(&data), Err(ErrorCode::InvalidAccount));
        let mut data = mint_account(77);
        data[offset + 3] = 1;
        assert_eq!(get_mint_supply(&data), Err(ErrorCode::InvalidAccount));
    }
}

#[test]
fn context_records_the_starting_balances() {
    let owner = Pubkey::new_from_array([3; 32]);
    let ctx = init_arbitrage_context(254, owner, 1_000, &token_account(500)).unwrap();
    assert_eq!(ctx.bump, 254);
    assert_eq!(ctx.owner, owner);
    assert_eq!(ctx.start_sol, 1_000);
    assert_eq!(ctx.start_src, 500);
    assert_eq!(
        init_arbitrage_context(254, owner, 1_000, &[0; 165]).err(),
        Some(ErrorCode::InvalidAccount)
    );
}

#[test]
fn attempt_stands_when_the_total_did_not_fall() {
    let ctx = ArbCtx {
        bump: 1,
        owner: Pubkey::new_from_array([3; 32]),
        start_sol: 1_000,
        start_src: 500,
    };
    assert_eq!(verify_arbitrage_context(&ctx, 1_000, &token_account(500)), Ok(()));
    assert_eq!(verify_arbitrage_context(&ctx, 900, &token_account(600)), Ok(()));
    assert_eq!(verify_arbitrage_context(&ctx, 0, &token_account(1_501)), Ok(()));
    assert_eq!(
        verify_arbitrage_context(&ctx, 999, &token_account(500)),
        Err(ErrorCode::ArbitrageVerificationFailed)
    );
    assert_eq!(
        verify_arbitrage_context(&ctx, 1_000, &[0; 165]),
        Err(ErrorCode::InvalidAccount)
    );
}

#[test]
fn attempt_is_judged_without_wrapping() {
    let ctx = ArbCtx {
        bump: 1,
        owner: Pubkey::new_from_array([3; 32]),
        start_sol: u64::MAX,
        start_src: u64::MAX,
    };
    assert_eq!(
        verify_arbitrage_context(&ctx, u64::MAX, &token_account(u64::MAX - 1)),
        Err(ErrorCode::ArbitrageVerificationFailed)
    );
    assert_eq!(verify_arbitrage_context(&ctx, u64::MAX, &token_account(u64::MAX)), Ok(()));
}
