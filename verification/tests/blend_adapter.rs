use polaris::address::{Address, Transfer};
use polaris::blend_adapter::{BlendAdapter, BlendAdapterError, Submission};
use polaris::mock_blend_pool::{MockBlendPool, REQUEST_SUPPLY, REQUEST_WITHDRAW};
use soroban_sdk::testutils::{Address as _, Ledger};
use soroban_sdk::token::{StellarAssetClient, TokenClient};
use soroban_sdk::testutils::EnvTestConfig;
use soroban_sdk::Env;

/// A test ledger that writes no snapshot files.
fn quiet_env() -> Env {
    Env::new_with_config(EnvTestConfig { capture_snapshot_at_drop: false })
}

/// The library's address for a ledger address: the bytes of its strkey.
fn addr(a: &soroban_sdk::Address) -> Address {
    let s = a.to_string();
    let mut buf = vec![0u8; s.len() as usize];
    s.copy_into_slice(&mut buf);
    Address::new(buf)
}

/// The ledger address for a library address.
fn ledger_addr(env: &Env, a: &Address) -> soroban_sdk::Address {
    soroban_sdk::Address::from_string_bytes(&soroban_sdk::Bytes::from_slice(env, &a.to_bytes()))
}

struct Setup {
    env: Env,
    vault: soroban_sdk::Address,
    pool_id: soroban_sdk::Address,
    adapter_id: soroban_sdk::Address,
    pool: MockBlendPool,
    adapter: BlendAdapter,
}

impl Setup {
    fn new() -> Self {
        let env = quiet_env();
        env.mock_all_auths_allowing_non_root_auth();
        let vault = soroban_sdk::Address::generate(&env);
        let pool_id = soroban_sdk::Address::generate(&env);
        let adapter_id = soroban_sdk::Address::generate(&env);
        let mut adapter = BlendAdapter::new();
        adapter.initialize(addr(&vault), addr(&pool_id)).unwrap();
        Setup { env, vault, pool_id, adapter_id, pool: MockBlendPool::new(), adapter }
    }

    /// Carry out a transfer the library asked for.
    fn transfer(&self, t: &Transfer) {
        TokenClient::new(&self.env, &ledger_addr(&self.env, &t.token)).transfer(
            &ledger_addr(&self.env, &t.from),
            &ledger_addr(&self.env, &t.to),
            &t.amount,
        );
    }

    /// The pool's side of a submission: it decides, then each request's
    /// tokens move.
    fn submit(&mut self, call: &Submission) {
        assert_eq!(call.pool.to_bytes(), addr(&self.pool_id).to_bytes());
        let sequence = self.env.ledger().sequence();
        match self.pool.submit(&call.pool, &call.from, &call.spender, &call.to, &call.requests, sequence) {
            Ok((_, transfers)) => {
                for t in &transfers {
                    self.transfer(t);
                }
            }
            Err(e) => panic!("{}", e.message()),
        }
    }

    fn supply(&mut self, asset: &soroban_sdk::Address, amount: i128) {
        let balance = TokenClient::new(&self.env, asset).balance(&self.adapter_id);
        match self.adapter.supply(&addr(&self.adapter_id), &addr(asset), amount, balance) {
            Ok(call) => self.submit(&call),
            Err(e) => panic!("{}", e.message()),
        }
    }

    fn withdraw(&mut self, asset: &soroban_sdk::Address, amount: i128) {
        match self.adapter.withdraw(&addr(&self.adapter_id), &addr(asset), amount) {
            Ok((call, payout)) => {
                self.submit(&call);
                self.transfer(&payout);
            }
            Err(e) => panic!("{}", e.message()),
        }
    }

    fn blend_supply_balance(&self, asset: &soroban_sdk::Address) -> i128 {
        let vault = self.adapter.vault().unwrap();
        self.pool.supply_balance(&vault, &addr(asset), self.env.ledger().sequence())
    }
}

#[test]
fn vault_supplies_usdc_to_blend_via_adapter() {
    let mut s = Setup::new();
    let issuer = soroban_sdk::Address::generate(&s.env);
    let sac = s.env.register_stellar_asset_contract_v2(issuer.clone());
    StellarAssetClient::new(&s.env, &sac.address()).mint(&s.vault, &10_000);

    let token = TokenClient::new(&s.env, &sac.address());
    token.transfer(&s.vault, &s.adapter_id, &4_000);
    s.supply(&sac.address(), 4_000);

    assert_eq!(s.adapter.supplied(&addr(&sac.address())), 4_000);
    assert_eq!(s.blend_supply_balance(&sac.address()), 4_000);
    assert_eq!(token.balance(&s.pool_id), 4_000);
}

#[test]
fn vault_withdraws_blend_supply() {
    let mut s = Setup::new();
    let issuer = soroban_sdk::Address::generate(&s.env);
    let sac = s.env.register_stellar_asset_contract_v2(issuer.clone());
    StellarAssetClient::new(&s.env, &sac.address()).mint(&s.vault, &10_000);

    let token = TokenClient::new(&s.env, &sac.address());
    token.transfer(&s.vault, &s.adapter_id, &3_000);
    s.supply(&sac.address(), 3_000);
    s.withdraw(&sac.address(), 1_000);

    assert_eq!(s.adapter.supplied(&addr(&sac.address())), 2_000);
    assert!(token.balance(&s.vault) >= 1_000);
}

#[test]
fn adapter_refusals() {
    let usdc = Address::new(b"usdc".to_vec());
    let me = Address::new(b"adapter".to_vec());
    let mut adapter = BlendAdapter::new();
    assert_eq!(adapter.supply(&me, &usdc, 10, 10).err(), Some(BlendAdapterError::NotInitialized));
    assert_eq!(adapter.vault().err(), Some(BlendAdapterError::NotInitialized));
    adapter
        .initialize(Address::new(b"vault".to_vec()), Address::new(b"pool".to_vec()))
        .unwrap();
    assert_eq!(
        adapter.initialize(Address::new(b"x".to_vec()), Address::new(b"y".to_vec())),
        Err(BlendAdapterError::AlreadyInitialized)
    );
    assert_eq!(adapter.pool().unwrap().to_bytes(), b"pool".to_vec());
    assert_eq!(adapter.supply(&me, &usdc, 0, 10).err(), Some(BlendAdapterError::AmountNotPositive));
    assert_eq!(
        adapter.supply(&me, &usdc, 11, 10).err(),
        Some(BlendAdapterError::InsufficientAdapterBalance)
    );
    let call = adapter.supply(&me, &usdc, 10, 10).unwrap();
    assert_eq!(call.pool.to_bytes(), b"pool".to_vec());
    assert_eq!(call.from.to_bytes(), b"vault".to_vec());
    assert_eq!(call.spender.to_bytes(), b"adapter".to_vec());
    assert_eq!(call.to.to_bytes(), b"vault".to_vec());
    assert_eq!(call.requests.len(), 1);
    assert_eq!(call.requests[0].request_type, REQUEST_SUPPLY);
    assert_eq!(call.requests[0].amount, 10);
    assert_eq!(adapter.withdraw(&me, &usdc, 0).err(), Some(BlendAdapterError::AmountNotPositive));
    let (call, payout) = adapter.withdraw(&me, &usdc, 4).unwrap();
    assert_eq!(call.from.to_bytes(), b"vault".to_vec());
    assert_eq!(call.spender.to_bytes(), b"vault".to_vec());
    assert_eq!(call.to.to_bytes(), b"adapter".to_vec());
    assert_eq!(call.requests[0].request_type, REQUEST_WITHDRAW);
    assert_eq!(call.requests[0].amount, 4);
    assert_eq!(payout.token.to_bytes(), b"usdc".to_vec());
    assert_eq!(payout.from.to_bytes(), b"adapter".to_vec());
    assert_eq!(payout.to.to_bytes(), b"vault".to_vec());
    assert_eq!(payout.amount, 4);
    assert_eq!(adapter.supplied(&usdc), 6);
    // Accrued interest can be withdrawn too: the record stops at zero.
    adapter.withdraw(&me, &usdc, 11).unwrap();
    assert_eq!(adapter.supplied(&usdc), 0);
}

#[test]
fn withdraw_includes_accrued_interest() {
    let mut s = Setup::new();
    let issuer = soroban_sdk::Address::generate(&s.env);
    let sac = s.env.register_stellar_asset_contract_v2(issuer.clone());
    let asset = StellarAssetClient::new(&s.env, &sac.address());
    asset.mint(&s.vault, &5_000);
    // The pool holds other suppliers' funds that pay the interest.
    asset.mint(&s.pool_id, &1_000);

    let token = TokenClient::new(&s.env, &sac.address());
    token.transfer(&s.vault, &s.adapter_id, &5_000);
    s.supply(&sac.address(), 5_000);
    s.env.ledger().with_mut(|l| l.sequence_number += 200);
    assert_eq!(s.blend_supply_balance(&sac.address()), 5_010);

    s.withdraw(&sac.address(), 5_010);
    assert_eq!(s.adapter.supplied(&addr(&sac.address())), 0);
    assert_eq!(s.blend_supply_balance(&sac.address()), 0);
    assert_eq!(token.balance(&s.vault), 5_010);
}
