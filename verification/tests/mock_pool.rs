use polaris::address::Address;
use polaris::mock_pool::{MockPool, MockPoolError};
use soroban_sdk::testutils::Address as _;
use soroban_sdk::token::{StellarAssetClient, TokenClient};
use soroban_sdk::testutils::EnvTestConfig;
use soroban_sdk::Env;

/// A test ledger that writes no snapshot files.
fn quiet_env() -> Env {
    Env::new_with_config(EnvTestConfig { capture_snapshot_at_drop: false })
}

/// The library's address for a ledger address: the bytes of its strkey.
fn addr(a: &soroban_sdk::Address) -> Address {
    let s = a.to_string();
    let mut buf = vec![0u8; s.len() as usize];
    s.copy_into_slice(&mut buf);
    Address::new(buf)
}

#[test]
fn withdraw_returns_liquidity_to_recipient() {
    let env = quiet_env();
    env.mock_all_auths();

    let admin = soroban_sdk::Address::generate(&env);
    let recipient = soroban_sdk::Address::generate(&env);

    let sac = env.register_stellar_asset_contract_v2(admin.clone());
    let token_admin = StellarAssetClient::new(&env, &sac.address());
    token_admin.mint(&admin, &2_000);

    let pool_id = soroban_sdk::Address::generate(&env);
    let mut pool = MockPool::new();
    pool.initialize(addr(&sac.address())).unwrap();

    let token = TokenClient::new(&env, &sac.address());
    token.transfer(&admin, &pool_id, &1_000);
    pool.deposit(1_000, token.balance(&pool_id)).unwrap();

    let t = pool.withdraw(&addr(&pool_id), &addr(&recipient), 400).unwrap();
    assert_eq!(t.token.to_bytes(), addr(&sac.address()).to_bytes());
    assert_eq!(t.from.to_bytes(), addr(&pool_id).to_bytes());
    assert_eq!(t.to.to_bytes(), addr(&recipient).to_bytes());
    assert_eq!(t.amount, 400);
    token.transfer(&pool_id, &recipient, &t.amount);

    assert_eq!(pool.total_liquidity(), 600);
    assert_eq!(token.balance(&recipient), 400);
    assert_eq!(token.balance(&pool_id), 600);
}

#[test]
fn deposit_requires_tokens_to_have_arrived() {
    let mut pool = MockPool::new();
    assert_eq!(pool.deposit(10, 10), Err(MockPoolError::NotInitialized));
    pool.initialize(Address::new(b"usdc".to_vec())).unwrap();
    assert_eq!(
        pool.initialize(Address::new(b"usdt".to_vec())),
        Err(MockPoolError::AlreadyInitialized)
    );
    assert_eq!(pool.token().unwrap().to_bytes(), b"usdc".to_vec());
    assert_eq!(pool.deposit(0, 10), Err(MockPoolError::AmountNotPositive));
    assert_eq!(pool.deposit(100, 99), Err(MockPoolError::InsufficientTokensReceived));
    assert_eq!(pool.total_liquidity(), 0);
    pool.deposit(100, 100).unwrap();
    assert_eq!(pool.deposit(50, 120), Err(MockPoolError::InsufficientTokensReceived));
    pool.deposit(50, 150).unwrap();
    assert_eq!(pool.total_liquidity(), 150);
    assert_eq!(
        pool.deposit(i128::MAX, i128::MAX),
        Err(MockPoolError::TotalLiquidityOverflow)
    );
}

#[test]
fn withdraw_is_bounded_by_recorded_liquidity() {
    let me = Address::new(b"pool".to_vec());
    let to = Address::new(b"to".to_vec());
    let mut pool = MockPool::new();
    assert_eq!(pool.withdraw(&me, &to, 1).err(), Some(MockPoolError::NotInitialized));
    pool.initialize(Address::new(b"usdc".to_vec())).unwrap();
    pool.deposit(300, 300).unwrap();
    assert_eq!(pool.withdraw(&me, &to, -5).err(), Some(MockPoolError::AmountNotPositive));
    assert_eq!(pool.withdraw(&me, &to, 301).err(), Some(MockPoolError::InsufficientPoolLiquidity));
    assert_eq!(
        MockPoolError::InsufficientPoolLiquidity.message(),
        "insufficient pool liquidity"
    );
    // a deposit followed by a withdrawal of the same amount restores the total
    pool.deposit(70, 370).unwrap();
    pool.withdraw(&me, &to, 70).unwrap();
    assert_eq!(pool.total_liquidity(), 300);
    pool.withdraw(&me, &to, 300).unwrap();
    assert_eq!(pool.total_liquidity(), 0);
}
