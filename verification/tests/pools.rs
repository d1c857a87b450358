use arbitrage_program::arbitrage_engine::base_pool_trait::BasePool;
use arbitrage_program::arbitrage_engine::structures::{LiquidityType, SwapResult};
use arbitrage_program::dex::pumpswap::accounts::PF_AMM_POOL_ACCOUNT_DISCM;
use arbitrage_program::dex::pumpswap::invocations::PumpswapCall;
use arbitrage_program::dex::pumpswap::pumpswap_pool::PumpswapPool;
use arbitrage_program::dex::raydium_amm::raydium_amm_pool::{RaydiumAmmPool, RaydiumSwapCall};
use arbitrage_program::dex::mints::check_mints;
use arbitrage_program::error::ErrorCode;
use arbitrage_program::price::Price;
use arbitrage_program::pubkey::Pubkey;

fn key(fill: u8) -> Pubkey {
    Pubkey::new_from_array([fill; 32])
}

fn token_account(amount: u64) -> Vec<u8> {
    let mut data: Vec<u8> = vec![0; 165];
    data[64..72].copy_from_slice(&amount.to_le_bytes());
    data[108] = 1;
    data
}

fn mint_account(supply: u64) -> Vec<u8> {
    let mut data: Vec<u8> = vec![0; 82];
    data[36..44].copy_from_slice(&supply.to_le_bytes());
    data[45] = 1;
    data
}

fn amm_info(swap_fee: u64, pnl_coin: u64, pnl_pc: u64) -> Vec<u8> {
    let mut data: Vec<u8> = vec![0; 752];
    data[176..184].copy_from_slice(&swap_fee.to_le_bytes());
    data[184..192].copy_from_slice(&10000u64.to_le_bytes());
    data[192..200].copy_from_slice(&pnl_coin.to_le_bytes());
    data[200..208].copy_from_slice(&pnl_pc.to_le_bytes());
    data[400..432].copy_from_slice(&[1; 32]);
    data[432..464].copy_from_slice(&[2; 32]);
    data
}

fn staged_pool_account() -> Vec<u8> {
    let mut data: Vec<u8> = Vec::new();
    data.extend_from_slice(&PF_AMM_POOL_ACCOUNT_DISCM);
    data.extend_from_slice(&[0; 35]);
    data.extend_from_slice(&[1; 32]);
    data.extend_from_slice(&[2; 32]);
    data.extend_from_slice(&[0; 104]);
    data
}

fn fee_table(tiers: &[(u128, u64, u64, u64)]) -> Vec<u8> {
    let mut data: Vec<u8> = vec![0; 65];
    data.extend_from_slice(&(tiers.len() as u32).to_le_bytes());
    for (threshold, lp, protocol, creator) in tiers {
        data.extend_from_slice(&threshold.to_le_bytes());
        data.extend_from_slice(&lp.to_le_bytes());
        data.extend_from_slice(&protocol.to_le_bytes());
        data.extend_from_slice(&creator.to_le_bytes());
    }
    data
}

const TIERS: [(u128, u64, u64, u64); 2] = [(0, 30, 10, 5), (26_373_990_570_250, 20, 5, 5)];

fn staged_pool(source: u8, intermediate: u8, base: u64, quote: u64) -> Result<PumpswapPool, ErrorCode> {
    PumpswapPool::new(
        &key(source),
        &key(intermediate),
        &staged_pool_account(),
        &fee_table(&TIERS),
        &token_account(base),
        &token_account(quote),
        &mint_account(1_000_000_000_000_000),
    )
}

#[test]
fn trade_tokens_must_be_the_pool_tokens() {
    assert_eq!(check_mints(&key(1), &key(2), &key(1), &key(2)), Ok(()));
    assert_eq!(check_mints(&key(2), &key(1), &key(1), &key(2)), Ok(()));
    assert_eq!(check_mints(&key(1), &key(1), &key(1), &key(2)), Err(ErrorCode::TokenMintMismatch));
    assert_eq!(check_mints(&key(1), &key(3), &key(1), &key(2)), Err(ErrorCode::TokenMintMismatch));
    assert_eq!(check_mints(&key(3), &key(2), &key(1), &key(2)), Err(ErrorCode::TokenMintMismatch));
}

#[test]
fn single_fee_pool_is_built_from_its_accounts() {
    let pool = RaydiumAmmPool::new(
        &key(2),
        &key(1),
        &amm_info(25, 400, 50),
        &token_account(1_000_000),
        &token_account(2_000_000),
    );
    assert_eq!(
        pool,
        Ok(RaydiumAmmPool {
            is_source_quote: true,
            swap_fee: 25,
            base_reserve: 1_000_000,
            quote_reserve: 2_000_000,
            base_reserve_without_take_pnl: 999_600,
            quote_reserve_without_take_pnl: 1_999_950,
        })
    );
    let pool = RaydiumAmmPool::new(
        &key(1),
        &key(2),
        &amm_info(25, 0, 0),
        &token_account(1_000_000),
        &token_account(2_000_000),
    );
    assert_eq!(pool.map(|p| p.is_source_quote), Ok(false));
}

#[test]
fn single_fee_pool_rejects_bad_accounts() {
    let coin = token_account(1_000_000);
    let pc = token_account(2_000_000);
    let info = amm_info(25, 400, 50);
    let build = |source: u8, intermediate: u8, info: &[u8], coin: &[u8], pc: &[u8]| {
        RaydiumAmmPool::new(&key(source), &key(intermediate), info, coin, pc).err()
    };
    assert_eq!(build(2, 1, &info[..463], &coin, &pc), Some(ErrorCode::InvalidAccount));
    assert_eq!(build(2, 3, &info, &coin, &pc), Some(ErrorCode::TokenMintMismatch));
    assert_eq!(build(2, 2, &info, &coin, &pc), Some(ErrorCode::TokenMintMismatch));
    assert_eq!(build(3, 1, &info[..463], &coin, &pc), Some(ErrorCode::InvalidAccount));
    assert_eq!(build(2, 1, &info, &coin[..100], &pc), Some(ErrorCode::InvalidAccount));
    assert_eq!(build(2, 1, &info, &coin, &[]), Some(ErrorCode::InvalidAccount));
    assert_eq!(build(2, 1, &amm_info(25, 1_000_001, 0), &coin, &pc), Some(ErrorCode::Overflow));
    assert_eq!(build(2, 1, &amm_info(25, 0, 2_000_001), &coin, &pc), Some(ErrorCode::Overflow));
    assert_eq!(build(2, 1, &amm_info(25, 1_000_000, 0), &coin, &pc), Some(ErrorCode::InvalidAccount));
    assert_eq!(build(2, 1, &amm_info(10000, 0, 0), &coin, &pc), Some(ErrorCode::InvalidAccount));
    assert_eq!(build(2, 1, &amm_info(9999, 0, 0), &coin, &pc), None);
}

#[test]
fn single_fee_pool_quotes_in_the_terms_of_the_trade() {
    let pool = RaydiumAmmPool {
        is_source_quote: true,
        swap_fee: 25,
        base_reserve: 0,
        quote_reserve: 0,
        base_reserve_without_take_pnl: 1_000_000,
        quote_reserve_without_take_pnl: 2_000_000,
    };
    assert_eq!(pool.get_fee_rate_bps(), 25);
    assert_eq!(pool.get_price(), Ok(Price { numerator: 2_000_000, denominator: 1_000_000 }));
    assert_eq!(pool.get_pool_type(), Ok(LiquidityType::Constant));
    assert_eq!(pool.get_max_amount(0, true), Ok(u64::MAX));
    assert_eq!(pool.get_base_quote_product(), Ok(2_000_000_000_000));
    // source is quote: source to intermediate pays quote and receives base
    assert_eq!(
        pool.get_amount_out(10_000, false),
        Ok(SwapResult {
            amount_out: 4962,
            consumed_in_amount: 10_000,
            is_fully_filled: true,
            new_price: Price { numerator: 2_010_000, denominator: 995_038 },
        })
    );
    assert_eq!(pool.get_amount_out(10_000, true).map(|q| q.amount_out), Ok(19752));
    assert!(!pool.normalize_swap_direction(false));

    let mirrored = RaydiumAmmPool { is_source_quote: false, ..pool };
    assert_eq!(mirrored.get_price(), Ok(Price { numerator: 1_000_000, denominator: 2_000_000 }));
    assert!(mirrored.normalize_swap_direction(false));
    assert_eq!(
        mirrored.get_amount_out(10_000, false),
        Ok(SwapResult {
            amount_out: 19752,
            consumed_in_amount: 10_000,
            is_fully_filled: true,
            new_price: Price { numerator: 1_010_000, denominator: 1_980_248 },
        })
    );
    assert_eq!(
        mirrored.normalize_price(Price { numerator: 3, denominator: 5 }),
        Price { numerator: 5, denominator: 3 }
    );
}

#[test]
fn single_fee_pool_reports_why_a_quote_fails() {
    let pool = RaydiumAmmPool {
        is_source_quote: true,
        swap_fee: 25,
        base_reserve: 1000,
        quote_reserve: 1000,
        base_reserve_without_take_pnl: 1000,
        quote_reserve_without_take_pnl: 1000,
    };
    assert_eq!(pool.get_amount_out(u64::MAX - 999, false), Err(ErrorCode::Overflow));
    assert!(pool.get_amount_out(u64::MAX - 1000, false).is_ok());
    assert_eq!(pool.get_amount_in(1000, false), Err(ErrorCode::InsufficientLiquidity));
    assert_eq!(pool.get_amount_in(10, true).map(|q| q.consumed_in_amount), Ok(12));
    let deep = RaydiumAmmPool { quote_reserve_without_take_pnl: u64::MAX, ..pool };
    assert_eq!(deep.get_amount_in(999, false), Err(ErrorCode::Overflow));
}

#[test]
fn single_fee_pool_swaps_from_the_account_that_the_leg_spends() {
    let pool = RaydiumAmmPool {
        is_source_quote: false,
        swap_fee: 25,
        base_reserve: 1000,
        quote_reserve: 1000,
        base_reserve_without_take_pnl: 1000,
        quote_reserve_without_take_pnl: 1000,
    };
    assert_eq!(
        pool.swap_call(7, 5, true),
        RaydiumSwapCall { amount_in: 7, minimum_amount_out: 5, pays_from_source: true }
    );
    assert!(!pool.swap_call(7, 5, false).pays_from_source);
}

#[test]
fn staged_pool_is_built_from_its_accounts() {
    // market cap 942150070694 * 10^15 / 35722696881401 = 26373990570250 reaches the second tier
    assert_eq!(
        staged_pool(2, 1, 35722696881401, 942150070694),
        Ok(PumpswapPool {
            is_source_quote: true,
            protocol_fee_basis_points: 5,
            lp_fee_basis_points: 20,
            coin_creator_fee_basis_points: 5,
            base_reserve: 35722696881401,
            quote_reserve: 942150070694,
        })
    );
    // one unit less of quote leaves the market cap below the second threshold
    assert_eq!(
        staged_pool(1, 2, 35722696881401, 942150070693),
        Ok(PumpswapPool {
            is_source_quote: false,
            protocol_fee_basis_points: 10,
            lp_fee_basis_points: 30,
            coin_creator_fee_basis_points: 5,
            base_reserve: 35722696881401,
            quote_reserve: 942150070693,
        })
    );
}

#[test]
fn staged_pool_rejects_bad_accounts() {
    let base = token_account(1_000_000);
    let quote = token_account(2_000_000);
    let mint = mint_account(1_000_000_000);
    let account = staged_pool_account();
    let table = fee_table(&TIERS);
    let build = |source: u8, pool: &[u8], table: &[u8], base: &[u8], quote: &[u8], mint: &[u8]| {
        PumpswapPool::new(&key(source), &key(1), pool, table, base, quote, mint).err()
    };
    assert_eq!(build(2, &account, &table, &base, &quote, &mint), None);
    assert_eq!(build(2, &account[..106], &table, &base, &quote, &mint), Some(ErrorCode::InvalidAccount));
    assert_eq!(build(2, &account[1..], &table, &base, &quote, &mint), Some(ErrorCode::InvalidAccount));
    assert_eq!(build(3, &account, &table[..68], &base, &quote, &mint), Some(ErrorCode::InvalidAccount));
    assert_eq!(build(3, &account, &table, &base, &quote, &mint), Some(ErrorCode::TokenMintMismatch));
    assert_eq!(build(1, &account, &table, &base, &quote, &mint), Some(ErrorCode::TokenMintMismatch));
    assert_eq!(build(2, &account, &table, &base[..9], &quote, &mint), Some(ErrorCode::InvalidAccount));
    assert_eq!(build(2, &account, &table, &base, &quote[..9], &mint), Some(ErrorCode::InvalidAccount));
    assert_eq!(build(2, &account, &table, &base, &quote, &mint[..9]), Some(ErrorCode::InvalidAccount));
    assert_eq!(build(2, &account, &fee_table(&[]), &base, &quote, &mint), Some(ErrorCode::InvalidAccount));
    assert_eq!(
        build(2, &account, &table, &token_account(0), &quote, &mint),
        Some(ErrorCode::InvalidAccount)
    );
    assert_eq!(
        build(2, &account, &table, &base, &token_account(0), &mint),
        Some(ErrorCode::InvalidAccount)
    );
    let greedy = fee_table(&[(0, 5000, 4000, 1000)]);
    assert_eq!(build(2, &account, &greedy, &base, &quote, &mint), Some(ErrorCode::InvalidAccount));
    let wrapping = fee_table(&[(0, u64::MAX, 1, 0)]);
    assert_eq!(build(2, &account, &wrapping, &base, &quote, &mint), Some(ErrorCode::InvalidAccount));
    let almost = fee_table(&[(0, 5000, 4000, 999)]);
    assert_eq!(build(2, &account, &almost, &base, &quote, &mint), None);
}

#[test]
fn staged_pool_quotes_in_the_terms_of_the_trade() {
    let pool = PumpswapPool {
        is_source_quote: true,
        protocol_fee_basis_points: 5,
        lp_fee_basis_points: 20,
        coin_creator_fee_basis_points: 5,
        base_reserve: 35722696881401,
        quote_reserve: 942150070694,
    };
    assert_eq!(pool.get_fee_rate_bps(), 30);
    assert_eq!(
        pool.get_price(),
        Ok(Price { numerator: 942150070694, denominator: 35722696881401 })
    );
    assert_eq!(pool.get_pool_type(), Ok(LiquidityType::Constant));
    assert_eq!(pool.get_max_amount(17, false), Ok(u64::MAX));
    assert_eq!(
        pool.get_base_quote_product(),
        Ok(35722696881401u128 * 942150070694u128)
    );
    assert_eq!(pool.get_amount_out(677970243, false).map(|q| q.amount_out), Ok(25608203651));
    assert_eq!(pool.get_amount_in(25610754894, false).map(|q| q.consumed_in_amount), Ok(677970243));
    let mirrored = PumpswapPool { is_source_quote: false, ..pool };
    assert_eq!(
        mirrored.get_price(),
        Ok(Price { numerator: 35722696881401, denominator: 942150070694 })
    );
    assert_eq!(mirrored.get_amount_out(677970243, true).map(|q| q.amount_out), Ok(25608203651));
    assert_eq!(
        mirrored.get_amount_out(677970243, true).map(|q| q.new_price),
        Ok(Price { numerator: 35722696881401 - 25608203651, denominator: 942150070694 + 675875030 })
    );
}

#[test]
fn staged_pool_reports_why_a_quote_fails() {
    let pool = PumpswapPool {
        is_source_quote: true,
        protocol_fee_basis_points: 5,
        lp_fee_basis_points: 20,
        coin_creator_fee_basis_points: 5,
        base_reserve: 1000,
        quote_reserve: 1000,
    };
    assert_eq!(pool.get_amount_out(u64::MAX - 999, true), Err(ErrorCode::Overflow));
    assert!(pool.get_amount_out(u64::MAX - 1000, true).is_ok());
    // buying base, only the input less its fee has to fit beside the reserve
    assert!(pool.get_amount_out(u64::MAX, false).is_ok());
    assert_eq!(pool.get_amount_in(1000, false), Err(ErrorCode::InsufficientLiquidity));
    assert_eq!(pool.get_amount_in(1000, true), Err(ErrorCode::InsufficientLiquidity));
    assert_eq!(pool.get_amount_in(997, true), Err(ErrorCode::Overflow));
}

#[test]
fn staged_pool_buys_base_with_quote_and_sells_base_for_quote() {
    let pool = PumpswapPool {
        is_source_quote: true,
        protocol_fee_basis_points: 5,
        lp_fee_basis_points: 20,
        coin_creator_fee_basis_points: 5,
        base_reserve: 1000,
        quote_reserve: 1000,
    };
    assert_eq!(
        pool.swap_call(70, 50, true),
        PumpswapCall::Buy { base_amount_out: 50, max_quote_amount_in: 70 }
    );
    assert_eq!(
        pool.swap_call(70, 50, false),
        PumpswapCall::Sell { base_amount_in: 70, min_quote_amount_out: 50 }
    );
    assert!(!pool.user_base_account_is_source());
    let mirrored = PumpswapPool { is_source_quote: false, ..pool };
    assert_eq!(
        mirrored.swap_call(70, 50, true),
        PumpswapCall::Sell { base_amount_in: 70, min_quote_amount_out: 50 }
    );
    assert_eq!(
        mirrored.swap_call(70, 50, false),
        PumpswapCall::Buy { base_amount_out: 50, max_quote_amount_in: 70 }
    );
    assert!(mirrored.user_base_account_is_source());
}

#[test]
fn snapshots_tell_whether_they_can_be_quoted_on() {
    let pool = RaydiumAmmPool {
        is_source_quote: true,
        swap_fee: 9999,
        base_reserve: 0,
        quote_reserve: 0,
        base_reserve_without_take_pnl: 1,
        quote_reserve_without_take_pnl: 1,
    };
    assert!(pool.is_well_formed());
    assert!(!RaydiumAmmPool { swap_fee: 10000, ..pool }.is_well_formed());
    assert!(!RaydiumAmmPool { base_reserve_without_take_pnl: 0, ..pool }.is_well_formed());
    assert!(!RaydiumAmmPool { quote_reserve_without_take_pnl: 0, ..pool }.is_well_formed());

    let staged = PumpswapPool {
        is_source_quote: true,
        protocol_fee_basis_points: 3333,
        lp_fee_basis_points: 3333,
        coin_creator_fee_basis_points: 3333,
        base_reserve: 1,
        quote_reserve: 1,
    };
    assert!(staged.is_well_formed());
    assert!(!PumpswapPool { lp_fee_basis_points: 3334, ..staged }.is_well_formed());
    assert!(!PumpswapPool { protocol_fee_basis_points: u64::MAX, ..staged }.is_well_formed());
    assert!(!PumpswapPool { coin_creator_fee_basis_points: 10000, ..staged }.is_well_formed());
    assert!(!PumpswapPool { base_reserve: 0, ..staged }.is_well_formed());
    assert!(!PumpswapPool { quote_reserve: 0, ..staged }.is_well_formed());
}
