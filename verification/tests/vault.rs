use polaris::address::{Address, Transfer};
use polaris::auth::Auth;
use polaris::mock_pool::MockPool;
use polaris::vault::{Vault, VaultCall, VaultError};
use soroban_sdk::testutils::Address as _;
use soroban_sdk::token::{StellarAssetClient, TokenClient};
use soroban_sdk::testutils::EnvTestConfig;
use soroban_sdk::Env;

/// A test ledger that writes no snapshot files.
fn quiet_env() -> Env {
    Env::new_with_config(EnvTestConfig { capture_snapshot_at_drop: false })
}

/// The library's address for a ledger address: the bytes of its strkey.
fn addr(a: &soroban_sdk::Address) -> Address {
    let s = a.to_string();
    let mut buf = vec![0u8; s.len() as usize];
    s.copy_into_slice(&mut buf);
    Address::new(buf)
}

/// The ledger address for a library address.
fn ledger_addr(env: &Env, a: &Address) -> soroban_sdk::Address {
    soroban_sdk::Address::from_string_bytes(&soroban_sdk::Bytes::from_slice(env, &a.to_bytes()))
}

/// The vault, its registry and two pools, with a real token on the ledger;
/// each operation is carried out as the contracts carry it out.
struct TestContext {
    env: Env,
    admin: soroban_sdk::Address,
    user: soroban_sdk::Address,
    vault_id: soroban_sdk::Address,
    pool_a: soroban_sdk::Address,
    pool_b: soroban_sdk::Address,
    token: soroban_sdk::Address,
    vault: Vault,
    auth: Auth,
    pools: Vec<(soroban_sdk::Address, MockPool)>,
}

impl TestContext {
    fn setup() -> Self {
        let env = quiet_env();
        env.mock_all_auths();

        let admin = soroban_sdk::Address::generate(&env);
        let agent = soroban_sdk::Address::generate(&env);
        let user = soroban_sdk::Address::generate(&env);

        let sac = env.register_stellar_asset_contract_v2(admin.clone());
        StellarAssetClient::new(&env, &sac.address()).mint(&user, &10_000);

        let auth_id = soroban_sdk::Address::generate(&env);
        let mut auth = Auth::new();
        auth.initialize(addr(&admin), addr(&agent)).unwrap();

        let pool_a = soroban_sdk::Address::generate(&env);
        let mut pool_a_state = MockPool::new();
        pool_a_state.initialize(addr(&sac.address())).unwrap();
        auth.add_protocol(&addr(&admin), &addr(&pool_a)).unwrap();

        let pool_b = soroban_sdk::Address::generate(&env);
        let mut pool_b_state = MockPool::new();
        pool_b_state.initialize(addr(&sac.address())).unwrap();
        auth.add_protocol(&addr(&admin), &addr(&pool_b)).unwrap();

        let vault_id = soroban_sdk::Address::generate(&env);
        let mut vault = Vault::new();
        vault.initialize(addr(&auth_id), &addr(&pool_a)).unwrap();

        TestContext {
            env,
            admin,
            user,
            vault_id,
            pool_a: pool_a.clone(),
            pool_b: pool_b.clone(),
            token: sac.address(),
            vault,
            auth,
            pools: vec![(pool_a, pool_a_state), (pool_b, pool_b_state)],
        }
    }

    fn token_client(&self) -> TokenClient<'_> {
        TokenClient::new(&self.env, &self.token)
    }

    fn pool_index(&self, pool: &soroban_sdk::Address) -> Option<usize> {
        self.pools.iter().position(|(id, _)| id == pool)
    }

    /// Carry out a transfer the library asked for.
    fn transfer(&self, t: &Transfer) {
        TokenClient::new(&self.env, &ledger_addr(&self.env, &t.token)).transfer(
            &ledger_addr(&self.env, &t.from),
            &ledger_addr(&self.env, &t.to),
            &t.amount,
        );
    }

    /// Carry out the calls the vault asked for, in order, each pool deciding
    /// its own part.
    fn execute(&mut self, calls: &[VaultCall]) {
        for call in calls {
            match call {
                VaultCall::Transfer(t) => self.transfer(t),
                VaultCall::PoolDeposit { pool, amount } => {
                    let pool = ledger_addr(&self.env, pool);
                    let balance = self.token_client().balance(&pool);
                    let i = self.pool_index(&pool).unwrap();
                    self.pools[i].1.deposit(*amount, balance).unwrap();
                }
                VaultCall::PoolWithdraw { pool, to, amount } => {
                    let i = self.pool_index(&ledger_addr(&self.env, pool)).unwrap();
                    let t = self.pools[i].1.withdraw(pool, to, *amount).unwrap();
                    self.transfer(&t);
                }
                _ => panic!("no adapter in this context"),
            }
        }
    }

    fn deposit(&mut self, amount: i128) {
        let (user, token) = (self.user.clone(), self.token.clone());
        match self.vault.deposit(&addr(&self.vault_id), &addr(&user), &addr(&token), amount) {
            Ok(t) => self.transfer(&t),
            Err(e) => panic!("{}", e.message()),
        }
    }

    fn withdraw(&mut self, amount: i128) {
        let (user, token) = (self.user.clone(), self.token.clone());
        let liquidity = self.token_client().balance(&self.vault_id);
        match self.vault.withdraw(&addr(&self.vault_id), &addr(&user), &addr(&token), amount, liquidity) {
            Ok(t) => self.transfer(&t),
            Err(e) => panic!("{}", e.message()),
        }
    }

    fn check_agent(&self) {
        let agent = self.auth.agent().unwrap();
        self.auth.assert_is_agent(&agent).unwrap();
    }

    fn agent_deposit_to_pool(&mut self, pool: &soroban_sdk::Address, amount: i128) {
        let whitelisted = self.auth.is_protocol_whitelisted(&addr(pool));
        let liquidity = self.token_client().balance(&self.vault_id);
        self.check_agent();
        let token = match self.pool_index(pool) {
            Some(i) => self.pools[i].1.token().unwrap(),
            None => addr(&self.token),
        };
        match self.vault.agent_deposit_to_pool(
            &addr(&self.vault_id),
            &addr(pool),
            &token,
            amount,
            whitelisted,
            liquidity,
        ) {
            Ok(calls) => self.execute(&calls),
            Err(e) => panic!("{}", e.message()),
        }
    }

    fn rebalance(&mut self, from: &soroban_sdk::Address, to: &soroban_sdk::Address, amount: i128) {
        let from_whitelisted = self.auth.is_protocol_whitelisted(&addr(from));
        let to_whitelisted = self.auth.is_protocol_whitelisted(&addr(to));
        let (fi, ti) = (self.pool_index(from).unwrap(), self.pool_index(to).unwrap());
        let token = self.pools[fi].1.token().unwrap();
        let same_token = token.same(&self.pools[ti].1.token().unwrap());
        self.check_agent();
        match self.vault.rebalance(
            &addr(&self.vault_id),
            &addr(from),
            &addr(to),
            &token,
            amount,
            from_whitelisted,
            to_whitelisted,
            same_token,
        ) {
            Ok(calls) => self.execute(&calls),
            Err(e) => panic!("{}", e.message()),
        }
    }
}

#[test]
fn user_revokes_agent_delegation_in_single_transaction() {
    let mut ctx = TestContext::setup();

    ctx.auth.authorize(&addr(&ctx.user));
    assert!(ctx.auth.is_authorized(&addr(&ctx.user)));

    ctx.auth.revoke(&addr(&ctx.user));
    assert!(!ctx.auth.is_authorized(&addr(&ctx.user)));
}

#[test]
fn deposit_updates_persistent_balance() {
    let mut ctx = TestContext::setup();

    ctx.deposit(1_000);

    assert_eq!(ctx.vault.balance(&addr(&ctx.user), &addr(&ctx.token)), 1_000);
    assert_eq!(ctx.token_client().balance(&ctx.vault_id), 1_000);
    assert_eq!(ctx.token_client().balance(&ctx.user), 9_000);
}

#[test]
fn withdraw_updates_persistent_balance() {
    let mut ctx = TestContext::setup();

    ctx.deposit(1_000);
    ctx.withdraw(400);

    assert_eq!(ctx.vault.balance(&addr(&ctx.user), &addr(&ctx.token)), 600);
    assert_eq!(ctx.token_client().balance(&ctx.vault_id), 600);
    assert_eq!(ctx.token_client().balance(&ctx.user), 9_400);
}

#[test]
#[should_panic(expected = "insufficient balance")]
fn withdraw_rejects_overdraft() {
    let mut ctx = TestContext::setup();

    ctx.deposit(500);
    ctx.withdraw(501);
}

#[test]
fn agent_deposits_vault_liquidity_into_whitelisted_pool() {
    let mut ctx = TestContext::setup();

    ctx.deposit(2_000);
    let pool_a = ctx.pool_a.clone();
    ctx.agent_deposit_to_pool(&pool_a, 1_500);

    assert_eq!(ctx.vault.pool_deposited(&addr(&ctx.pool_a)), 1_500);
    assert_eq!(ctx.pools[0].1.total_liquidity(), 1_500);
    assert_eq!(ctx.token_client().balance(&ctx.vault_id), 500);
    assert_eq!(ctx.token_client().balance(&ctx.pool_a), 1_500);
    assert_eq!(ctx.vault.balance(&addr(&ctx.user), &addr(&ctx.token)), 2_000);
}

#[test]
fn agent_rebalances_between_whitelisted_pools_without_user() {
    let mut ctx = TestContext::setup();

    ctx.deposit(3_000);
    let (pool_a, pool_b) = (ctx.pool_a.clone(), ctx.pool_b.clone());
    ctx.agent_deposit_to_pool(&pool_a, 2_000);
    ctx.rebalance(&pool_a, &pool_b, 800);

    assert_eq!(ctx.vault.pool_deposited(&addr(&ctx.pool_a)), 1_200);
    assert_eq!(ctx.vault.pool_deposited(&addr(&ctx.pool_b)), 800);
    assert_eq!(ctx.pools[0].1.total_liquidity(), 1_200);
    assert_eq!(ctx.pools[1].1.total_liquidity(), 800);
    assert_eq!(ctx.token_client().balance(&ctx.vault_id), 1_000);
}

#[test]
#[should_panic(expected = "protocol not whitelisted")]
fn agent_cannot_deposit_to_unlisted_pool() {
    let mut ctx = TestContext::setup();
    let rogue_pool = soroban_sdk::Address::generate(&ctx.env);

    ctx.deposit(1_000);
    ctx.agent_deposit_to_pool(&rogue_pool, 100);
}

#[test]
#[should_panic(expected = "insufficient vault liquidity")]
fn withdraw_fails_when_liquidity_is_in_pool() {
    let mut ctx = TestContext::setup();

    ctx.deposit(1_000);
    let pool_a = ctx.pool_a.clone();
    ctx.agent_deposit_to_pool(&pool_a, 1_000);
    ctx.withdraw(1);
}

#[test]
fn vault_refusals_leave_state_unchanged() {
    let mut vault = Vault::new();
    let v = Address::new(b"vault".to_vec());
    let user = Address::new(b"user".to_vec());
    let usdc = Address::new(b"usdc".to_vec());
    let pool = Address::new(b"pool".to_vec());
    let other = Address::new(b"other".to_vec());
    assert_eq!(vault.auth().err(), Some(VaultError::NotInitialized));
    assert_eq!(vault.agent_deposit_to_pool(&v, &pool, &usdc, 10, true, 10).err(), Some(VaultError::NotInitialized));
    vault.initialize(Address::new(b"auth".to_vec()), &pool).unwrap();
    assert_eq!(
        vault.initialize(Address::new(b"auth2".to_vec()), &other),
        Err(VaultError::AlreadyInitialized)
    );
    assert_eq!(vault.auth().unwrap().to_bytes(), b"auth".to_vec());
    assert_eq!(vault.deposit(&v, &user, &usdc, 0).err(), Some(VaultError::AmountNotPositive));
    vault.deposit(&v, &user, &usdc, 100).unwrap();
    assert_eq!(vault.deposit(&v, &user, &usdc, i128::MAX).err(), Some(VaultError::BalanceOverflow));
    assert_eq!(vault.balance(&user, &usdc), 100);
    assert_eq!(vault.withdraw(&v, &user, &usdc, 50, 49).err(), Some(VaultError::InsufficientVaultLiquidity));
    assert_eq!(vault.balance(&user, &usdc), 100);
    assert_eq!(vault.agent_deposit_to_pool(&v, &pool, &usdc, 10, true, 9).err(), Some(VaultError::InsufficientVaultLiquidity));
    vault.agent_deposit_to_pool(&v, &pool, &usdc, 60, true, 100).unwrap();
    assert_eq!(vault.rebalance(&v, &pool, &pool, &usdc, 10, true, true, true).err(), Some(VaultError::PoolsMustDiffer));
    assert_eq!(vault.rebalance(&v, &pool, &other, &usdc, 10, true, false, true).err(), Some(VaultError::ProtocolNotWhitelisted));
    assert_eq!(vault.rebalance(&v, &pool, &other, &usdc, 10, true, true, false).err(), Some(VaultError::PoolTokenMismatch));
    assert_eq!(vault.rebalance(&v, &pool, &other, &usdc, 61, true, true, true).err(), Some(VaultError::InsufficientTrackedPoolDeposits));
    assert_eq!(vault.pool_deposited(&pool), 60);
    vault.rebalance(&v, &pool, &other, &usdc, 60, true, true, true).unwrap();
    assert_eq!(vault.pool_deposited(&pool), 0);
    assert_eq!(vault.pool_deposited(&other), 60);
    // the agent's moves never touch the user's recorded balance
    assert_eq!(vault.balance(&user, &usdc), 100);
    assert_eq!(VaultError::PoolsMustDiffer.message(), "pools must differ");
}

#[test]
fn withdraw_after_deposit_restores_balances() {
    let mut vault = Vault::new();
    let v = Address::new(b"vault".to_vec());
    vault.initialize(Address::new(b"auth".to_vec()), &Address::new(b"pool".to_vec())).unwrap();
    let alice = Address::new(b"alice".to_vec());
    let bob = Address::new(b"bob".to_vec());
    let usdc = Address::new(b"usdc".to_vec());
    let xlm = Address::new(b"xlm".to_vec());
    vault.deposit(&v, &alice, &usdc, 40).unwrap();
    vault.deposit(&v, &bob, &usdc, 7).unwrap();
    vault.deposit(&v, &alice, &xlm, 250).unwrap();
    vault.withdraw(&v, &alice, &xlm, 250, 1_000).unwrap();
    assert_eq!(vault.balance(&alice, &usdc), 40);
    assert_eq!(vault.balance(&bob, &usdc), 7);
    assert_eq!(vault.balance(&alice, &xlm), 0);
    assert_eq!(vault.balance(&bob, &xlm), 0);
}

#[test]
fn vault_steps_return_their_calls_in_order() {
    let mut vault = Vault::new();
    let v = Address::new(b"vault".to_vec());
    let user = Address::new(b"user".to_vec());
    let usdc = Address::new(b"usdc".to_vec());
    let pool = Address::new(b"pool".to_vec());
    let other = Address::new(b"other".to_vec());
    vault.initialize(Address::new(b"auth".to_vec()), &pool).unwrap();
    let t = vault.deposit(&v, &user, &usdc, 100).unwrap();
    assert_eq!((t.from.to_bytes(), t.to.to_bytes(), t.amount), (b"user".to_vec(), b"vault".to_vec(), 100));
    let t = vault.withdraw(&v, &user, &usdc, 30, 100).unwrap();
    assert_eq!((t.from.to_bytes(), t.to.to_bytes(), t.amount), (b"vault".to_vec(), b"user".to_vec(), 30));
    assert_eq!(t.token.to_bytes(), b"usdc".to_vec());
    let calls = vault.agent_deposit_to_pool(&v, &pool, &usdc, 50, true, 70).unwrap();
    assert_eq!(calls.len(), 2);
    match &calls[0] {
        VaultCall::Transfer(t) => {
            assert_eq!((t.from.to_bytes(), t.to.to_bytes(), t.amount), (b"vault".to_vec(), b"pool".to_vec(), 50))
        }
        _ => panic!("the tokens move first"),
    }
    match &calls[1] {
        VaultCall::PoolDeposit { pool, amount } => assert_eq!((pool.to_bytes(), *amount), (b"pool".to_vec(), 50)),
        _ => panic!("then the pool records them"),
    }
    let calls = vault.rebalance(&v, &pool, &other, &usdc, 20, true, true, true).unwrap();
    assert_eq!(calls.len(), 3);
    match &calls[0] {
        VaultCall::PoolWithdraw { pool, to, amount } => {
            assert_eq!((pool.to_bytes(), to.to_bytes(), *amount), (b"pool".to_vec(), b"vault".to_vec(), 20))
        }
        _ => panic!("the source pool pays first"),
    }
    match &calls[1] {
        VaultCall::Transfer(t) => {
            assert_eq!((t.from.to_bytes(), t.to.to_bytes(), t.amount), (b"vault".to_vec(), b"other".to_vec(), 20))
        }
        _ => panic!("then the tokens move"),
    }
    match &calls[2] {
        VaultCall::PoolDeposit { pool, amount } => assert_eq!((pool.to_bytes(), *amount), (b"other".to_vec(), 20)),
        _ => panic!("then the target pool records them"),
    }
}
