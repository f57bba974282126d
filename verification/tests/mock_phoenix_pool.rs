use polaris::address::Address;
use polaris::mock_phoenix_pool::{MockPhoenixPool, PhoenixPoolError, SimulateSwapResponse};
use soroban_sdk::testutils::Address as _;
use soroban_sdk::token::{StellarAssetClient, TokenClient};
use soroban_sdk::testutils::EnvTestConfig;
use soroban_sdk::Env;

/// A test ledger that writes no snapshot files.
fn quiet_env() -> Env {
    Env::new_with_config(EnvTestConfig { capture_snapshot_at_drop: false })
}

/// The library's address for a ledger address: the bytes of its strkey.
fn addr(a: &soroban_sdk::Address) -> Address {
    let s = a.to_string();
    let mut buf = vec![0u8; s.len() as usize];
    s.copy_into_slice(&mut buf);
    Address::new(buf)
}

/// The ledger address for a library address.
fn ledger_addr(env: &Env, a: &Address) -> soroban_sdk::Address {
    soroban_sdk::Address::from_string_bytes(&soroban_sdk::Bytes::from_slice(env, &a.to_bytes()))
}

/// A swap by `trader` as the pool contract carries it out: the pool decides,
/// then the offer moves to the pool and the payout to the trader.
fn swap(
    env: &Env,
    pool: &MockPhoenixPool,
    pool_id: &soroban_sdk::Address,
    trader: &soroban_sdk::Address,
    offer_asset: &soroban_sdk::Address,
    offer_amount: i128,
    min: Option<i128>,
    max_spread: Option<u32>,
) -> i128 {
    match pool.swap(&addr(pool_id), &addr(trader), &addr(offer_asset), offer_amount, min, max_spread) {
        Ok(payout) => {
            for t in [&payout.offer_transfer, &payout.ask_transfer] {
                TokenClient::new(env, &ledger_addr(env, &t.token)).transfer(
                    &ledger_addr(env, &t.from),
                    &ledger_addr(env, &t.to),
                    &t.amount,
                );
            }
            payout.ask_amount
        }
        Err(e) => panic!("{}", e.message()),
    }
}

#[test]
fn swap_applies_fee_and_slippage_floor() {
    let env = quiet_env();
    env.mock_all_auths();

    let trader = soroban_sdk::Address::generate(&env);
    let issuer_a = soroban_sdk::Address::generate(&env);
    let issuer_b = soroban_sdk::Address::generate(&env);

    let usdc = env.register_stellar_asset_contract_v2(issuer_a.clone());
    let usdt = env.register_stellar_asset_contract_v2(issuer_b.clone());
    StellarAssetClient::new(&env, &usdc.address()).mint(&trader, &5_000);
    let pool_id = soroban_sdk::Address::generate(&env);
    StellarAssetClient::new(&env, &usdt.address()).mint(&pool_id, &5_000);

    let mut pool = MockPhoenixPool::new();
    pool.initialize(addr(&usdc.address()), addr(&usdt.address()), 30);

    let sim = pool.simulate_swap(1_000).unwrap();
    assert_eq!(sim.ask_amount, 997);

    let out = swap(&env, &pool, &pool_id, &trader, &usdc.address(), 1_000, Some(990), Some(50));
    assert_eq!(out, 997);
    assert_eq!(TokenClient::new(&env, &usdt.address()).balance(&trader), 997);
}

#[test]
#[should_panic(expected = "slippage exceeded")]
fn swap_rejects_insufficient_output() {
    let env = quiet_env();
    env.mock_all_auths();

    let trader = soroban_sdk::Address::generate(&env);
    let issuer_a = soroban_sdk::Address::generate(&env);
    let issuer_b = soroban_sdk::Address::generate(&env);

    let usdc = env.register_stellar_asset_contract_v2(issuer_a.clone());
    let usdt = env.register_stellar_asset_contract_v2(issuer_b.clone());
    StellarAssetClient::new(&env, &usdc.address()).mint(&trader, &1_000);
    let pool_id = soroban_sdk::Address::generate(&env);
    StellarAssetClient::new(&env, &usdt.address()).mint(&pool_id, &1_000);

    let mut pool = MockPhoenixPool::new();
    pool.initialize(addr(&usdc.address()), addr(&usdt.address()), 30);

    swap(&env, &pool, &pool_id, &trader, &usdc.address(), 1_000, Some(998), None);
}

#[test]
fn quote_takes_fee_in_basis_points() {
    assert_eq!(MockPhoenixPool::quote(1_000, 30), 997);
    assert_eq!(MockPhoenixPool::quote(2_000, 30), 1_994);
    assert_eq!(MockPhoenixPool::quote(0, 30), 0);
    assert_eq!(MockPhoenixPool::quote(9_999, 0), 9_999);
    assert_eq!(MockPhoenixPool::quote(1_000, 10_000), 0);
    // a negative product rounds toward zero
    assert_eq!(MockPhoenixPool::quote(-1_001, 30), -997);
    // the product saturates at the bound of i128
    assert_eq!(MockPhoenixPool::quote(i128::MAX, 30), i128::MAX / 10_000);
}

#[test]
fn swap_checks_in_order() {
    let a = Address::new(b"usdc".to_vec());
    let b = Address::new(b"usdt".to_vec());
    let other = Address::new(b"eurc".to_vec());
    let pool_addr = Address::new(b"pool".to_vec());
    let trader = Address::new(b"trader".to_vec());
    let mut pool = MockPhoenixPool::new();
    assert_eq!(
        pool.swap(&pool_addr, &trader, &a, 100, None, None).err(),
        Some(PhoenixPoolError::NotInitialized)
    );
    assert_eq!(pool.simulate_swap(100).err(), Some(PhoenixPoolError::NotInitialized));
    pool.initialize(a.clone(), b.clone(), 30);
    assert_eq!(
        pool.swap(&pool_addr, &trader, &a, 0, None, None).err(),
        Some(PhoenixPoolError::OfferAmountNotPositive)
    );
    assert_eq!(
        pool.swap(&pool_addr, &trader, &other, 100, None, None).err(),
        Some(PhoenixPoolError::UnknownOfferAsset)
    );
    // 10_000 * 0.997 = 9_970; a spread of 30 bps
    assert_eq!(
        pool.swap(&pool_addr, &trader, &b, 10_000, Some(9_971), Some(30)).err(),
        Some(PhoenixPoolError::SlippageExceeded)
    );
    assert_eq!(
        pool.swap(&pool_addr, &trader, &b, 10_000, Some(9_970), Some(29)).err(),
        Some(PhoenixPoolError::SpreadExceedsMax)
    );
    let payout = pool.swap(&pool_addr, &trader, &b, 10_000, Some(9_970), Some(30)).unwrap();
    assert_eq!(payout.ask_amount, 9_970);
    assert_eq!(payout.ask_asset.to_bytes(), b"usdc".to_vec());
    assert_eq!(payout.offer_transfer.token.to_bytes(), b"usdt".to_vec());
    assert_eq!(payout.offer_transfer.from.to_bytes(), b"trader".to_vec());
    assert_eq!(payout.offer_transfer.to.to_bytes(), b"pool".to_vec());
    assert_eq!(payout.offer_transfer.amount, 10_000);
    assert_eq!(payout.ask_transfer.token.to_bytes(), b"usdc".to_vec());
    assert_eq!(payout.ask_transfer.from.to_bytes(), b"pool".to_vec());
    assert_eq!(payout.ask_transfer.to.to_bytes(), b"trader".to_vec());
    assert_eq!(payout.ask_transfer.amount, 9_970);
    assert_eq!(
        pool.simulate_swap(10_000).unwrap(),
        SimulateSwapResponse { ask_amount: 9_970, spread_amount: 30 }
    );
    assert_eq!(PhoenixPoolError::SpreadExceedsMax.message(), "spread exceeds max");
}
