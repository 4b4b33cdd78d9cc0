use forge_vesting::account::Account;
use forge_vesting::contract::{ForgeVesting, Outcome, VestingError, VestingEvent};

fn account(tag: &str) -> Account {
    let mut s = String::from(tag);
    while s.len() < 56 {
        s.push('A');
    }
    Account::from_strkey(s.into_bytes())
}

/// Ledger time, token balances and the contract, in an environment that
/// authorizes every call.
struct World {
    now: u64,
    contract: ForgeVesting,
    contract_address: Account,
    balances: Vec<(Account, i128)>,
}

impl World {
    fn balance(&self, who: &Account) -> i128 {
        for (a, b) in &self.balances {
            if a == who {
                return *b;
            }
        }
        0
    }

    fn credit(&mut self, who: &Account, amount: i128) {
        for (a, b) in self.balances.iter_mut() {
            if a == who {
                *b += amount;
                return;
            }
        }
        self.balances.push((who.clone(), amount));
    }

    fn apply<T>(&mut self, out: Outcome<T>) -> Result<T, VestingError> {
        if out.result.is_ok() {
            if let Some(t) = &out.transfer {
                let from = self.contract_address.clone();
                assert!(self.balance(&from) >= t.amount);
                self.credit(&from, -t.amount);
                self.credit(&t.to, t.amount);
            }
        }
        out.result
    }

    fn try_initialize(
        &mut self,
        token: &Account,
        beneficiary: &Account,
        admin: &Account,
        total: i128,
        cliff: u64,
        duration: u64,
    ) -> Result<(), VestingError> {
        let now = self.now;
        let out = self.contract.initialize(
            now,
            token.clone(),
            beneficiary.clone(),
            admin.clone(),
            total,
            cliff,
            duration,
        );
        self.apply(out)
    }

    fn try_claim(&mut self) -> Result<i128, VestingError> {
        let now = self.now;
        let out = self.contract.claim(now);
        self.apply(out)
    }

    fn try_cancel(&mut self) -> Result<(), VestingError> {
        let now = self.now;
        let out = self.contract.cancel(now);
        self.apply(out)
    }

    fn try_transfer_admin(&mut self, new_admin: &Account) -> Result<(), VestingError> {
        let out = self.contract.transfer_admin(new_admin.clone());
        self.apply(out)
    }
}

fn setup() -> (World, Account, Account, Account) {
    let world = World {
        now: 0,
        contract: ForgeVesting::new(),
        contract_address: account("CCONTRACT"),
        balances: Vec::new(),
    };
    (world, account("CTOKEN"), account("GBENEFICIARY"), account("GADMIN"))
}

fn setup_with_token() -> (World, Account, Account, Account) {
    let (mut world, token, beneficiary, admin) = setup();
    let c = world.contract_address.clone();
    world.credit(&c, 1_000_000);
    (world, token, beneficiary, admin)
}

#[test]
fn test_initialize_success() {
    let (mut w, token, beneficiary, admin) = setup();
    let result = w.try_initialize(&token, &beneficiary, &admin, 1_000_000, 100, 1000);
    assert!(result.is_ok());
}

#[test]
fn test_double_initialize_fails() {
    let (mut w, token, beneficiary, admin) = setup();
    w.try_initialize(&token, &beneficiary, &admin, 1_000_000, 100, 1000).unwrap();
    let result = w.try_initialize(&token, &beneficiary, &admin, 1_000_000, 100, 1000);
    assert_eq!(result, Err(VestingError::AlreadyInitialized));
}

#[test]
fn test_claim_before_cliff_fails() {
    let (mut w, token, beneficiary, admin) = setup();
    w.try_initialize(&token, &beneficiary, &admin, 1_000_000, 500, 1000).unwrap();
    w.now += 100;
    let result = w.try_claim();
    assert_eq!(result, Err(VestingError::CliffNotReached));
}

#[test]
fn test_get_status_before_cliff() {
    let (mut w, token, beneficiary, admin) = setup();
    w.try_initialize(&token, &beneficiary, &admin, 1_000_000, 500, 1000).unwrap();
    let status = w.contract.get_status(w.now).unwrap();
    assert!(!status.cliff_reached);
    assert_eq!(status.claimable, 0);
    assert_eq!(status.claimed, 0);
}

#[test]
fn test_invalid_config_rejected() {
    let (mut w, token, beneficiary, admin) = setup();
    let result = w.try_initialize(&token, &beneficiary, &admin, 1_000_000, 2000, 1000);
    assert_eq!(result, Err(VestingError::InvalidConfig));
}

#[test]
fn test_cancel_by_admin() {
    let (mut w, token, beneficiary, admin) = setup_with_token();
    w.try_initialize(&token, &beneficiary, &admin, 1_000_000, 100, 1000).unwrap();
    let result = w.try_cancel();
    assert!(result.is_ok());
}

#[test]
fn test_double_cancel_fails() {
    let (mut w, token, beneficiary, admin) = setup_with_token();
    w.try_initialize(&token, &beneficiary, &admin, 1_000_000, 100, 1000).unwrap();
    w.try_cancel().unwrap();
    let result = w.try_cancel();
    assert_eq!(result, Err(VestingError::Cancelled));
}

#[test]
fn test_claim_after_cancel_fails() {
    let (mut w, token, beneficiary, admin) = setup_with_token();
    w.try_initialize(&token, &beneficiary, &admin, 1_000_000, 100, 1000).unwrap();
    w.try_cancel().unwrap();
    w.now += 200;
    let result = w.try_claim();
    assert_eq!(result, Err(VestingError::Cancelled));
}

#[test]
fn test_fully_vested_after_duration() {
    let (mut w, token, beneficiary, admin) = setup();
    w.try_initialize(&token, &beneficiary, &admin, 1_000_000, 100, 1000).unwrap();
    w.now += 2000;
    let status = w.contract.get_status(w.now).unwrap();
    assert!(status.fully_vested);
    assert_eq!(status.vested, 1_000_000);
}

#[test]
fn test_cancel_before_cliff_beneficiary_gets_zero_admin_gets_all() {
    let (mut w, token, beneficiary, admin) = setup_with_token();
    w.try_initialize(&token, &beneficiary, &admin, 1_000_000, 500, 1000).unwrap();
    w.now += 100;
    w.try_cancel().unwrap();
    assert_eq!(w.balance(&beneficiary), 0);
    assert_eq!(w.balance(&admin), 1_000_000);
}

#[test]
fn test_cancel_after_cliff_splits_tokens_correctly() {
    let (mut w, token, beneficiary, admin) = setup_with_token();
    w.try_initialize(&token, &beneficiary, &admin, 1_000_000, 100, 1000).unwrap();
    w.now += 400;
    w.try_claim().unwrap();
    w.try_cancel().unwrap();
    assert_eq!(w.balance(&beneficiary), 400_000);
    assert_eq!(w.balance(&admin), 600_000);
}

#[test]
fn test_transfer_admin_success() {
    let (mut w, token, beneficiary, admin) = setup();
    w.try_initialize(&token, &beneficiary, &admin, 1_000_000, 100, 1000).unwrap();
    let new_admin = account("GNEWADMIN");
    let result = w.try_transfer_admin(&new_admin);
    assert!(result.is_ok());
    let config = w.contract.get_config().unwrap();
    assert_eq!(config.admin, new_admin);
}

#[test]
fn test_transfer_admin_same_admin_fails() {
    let (mut w, token, beneficiary, admin) = setup();
    w.try_initialize(&token, &beneficiary, &admin, 1_000_000, 100, 1000).unwrap();
    let result = w.try_transfer_admin(&admin);
    assert_eq!(result, Err(VestingError::SameAdmin));
}

#[test]
fn test_zero_cliff_initialize_succeeds() {
    let (mut w, token, beneficiary, admin) = setup();
    let result = w.try_initialize(&token, &beneficiary, &admin, 1_000_000, 0, 1000);
    assert!(result.is_ok());
}

#[test]
fn test_zero_cliff_claim_succeeds_immediately() {
    let (mut w, token, beneficiary, admin) = setup_with_token();
    w.try_initialize(&token, &beneficiary, &admin, 1_000_000, 0, 1000).unwrap();
    w.now += 100;
    let result = w.try_claim();
    assert!(result.is_ok());
}

#[test]
fn test_zero_cliff_correct_vested_amount_at_halfway() {
    let (mut w, token, beneficiary, admin) = setup_with_token();
    w.try_initialize(&token, &beneficiary, &admin, 1_000_000, 0, 1000).unwrap();
    w.now += 500;
    let status = w.contract.get_status(w.now).unwrap();
    assert!(status.cliff_reached);
    assert_eq!(status.vested, 500_000);
    assert_eq!(status.claimable, 500_000);
}

#[test]
fn test_zero_cliff_fully_vested_after_duration() {
    let (mut w, token, beneficiary, admin) = setup_with_token();
    w.try_initialize(&token, &beneficiary, &admin, 1_000_000, 0, 1000).unwrap();
    w.now += 2000;
    let status = w.contract.get_status(w.now).unwrap();
    assert!(status.fully_vested);
    assert_eq!(status.vested, 1_000_000);
}

#[test]
fn test_zero_cliff_claim_immediately_after_initialize() {
    let (mut w, token, beneficiary, admin) = setup_with_token();
    w.try_initialize(&token, &beneficiary, &admin, 1_000_000, 0, 1000).unwrap();
    let result = w.try_claim();
    assert_eq!(result, Err(VestingError::NothingToClaim));
}

#[test]
fn test_zero_cliff_vesting_starts_immediately() {
    let (mut w, token, beneficiary, admin) = setup_with_token();
    w.try_initialize(&token, &beneficiary, &admin, 1_000_000, 0, 1000).unwrap();
    w.now += 1;
    let status = w.contract.get_status(w.now).unwrap();
    assert!(status.cliff_reached);
    assert_eq!(status.vested, 1_000);
    assert_eq!(status.claimable, 1_000);
}


#[test]
fn linear_vesting_rounds_down() {
    let (mut w, token, beneficiary, admin) = setup();
    w.try_initialize(&token, &beneficiary, &admin, 1_000, 0, 3).unwrap();
    w.now = 1;
    assert_eq!(w.contract.get_status(w.now).unwrap().vested, 333);
    w.now = 2;
    assert_eq!(w.contract.get_status(w.now).unwrap().vested, 666);
    w.now = 3;
    assert_eq!(w.contract.get_status(w.now).unwrap().vested, 1_000);
}

#[test]
fn vesting_counts_from_the_initialization_time() {
    let (mut w, token, beneficiary, admin) = setup();
    w.now = 10_000;
    w.try_initialize(&token, &beneficiary, &admin, 1_000_000, 100, 1000).unwrap();
    assert_eq!(w.contract.get_config().unwrap().start_time, 10_000);
    let before_start = w.contract.get_status(5_000).unwrap();
    assert_eq!(before_start.vested, 0);
    assert!(!before_start.cliff_reached);
    let at_cliff = w.contract.get_status(10_100).unwrap();
    assert!(at_cliff.cliff_reached);
    assert_eq!(at_cliff.vested, 100_000);
}

#[test]
fn initialize_rejects_each_invalid_schedule() {
    let (mut w, token, beneficiary, admin) = setup();
    assert_eq!(w.try_initialize(&token, &beneficiary, &admin, 0, 0, 1000), Err(VestingError::InvalidConfig));
    assert_eq!(w.try_initialize(&token, &beneficiary, &admin, -5, 0, 1000), Err(VestingError::InvalidConfig));
    assert_eq!(w.try_initialize(&token, &beneficiary, &admin, 100, 0, 0), Err(VestingError::InvalidConfig));
    assert_eq!(w.try_initialize(&token, &beneficiary, &admin, 100, 11, 10), Err(VestingError::InvalidConfig));
    assert!(!w.contract.has(forge_vesting::contract::DataKey::Config));
    assert_eq!(w.try_initialize(&token, &beneficiary, &admin, 100, 10, 10), Ok(()));
    assert!(w.contract.has(forge_vesting::contract::DataKey::Claimed));
}

#[test]
fn uninitialized_contract_answers_not_initialized() {
    let (mut w, _token, _beneficiary, admin) = setup();
    assert_eq!(w.try_claim(), Err(VestingError::NotInitialized));
    assert_eq!(w.try_cancel(), Err(VestingError::NotInitialized));
    assert_eq!(w.try_transfer_admin(&admin), Err(VestingError::NotInitialized));
    assert_eq!(w.contract.get_status(0), Err(VestingError::NotInitialized));
    assert!(matches!(w.contract.get_config(), Err(VestingError::NotInitialized)));
}

#[test]
fn initialize_asks_admin_and_announces_the_schedule() {
    let (w0, token, beneficiary, admin) = setup();
    let mut c = w0.contract;
    let out = c.initialize(7, token.clone(), beneficiary.clone(), admin.clone(), 500, 10, 20);
    assert_eq!(out.result, Ok(()));
    assert_eq!(out.auth, Some(admin.clone()));
    assert!(out.transfer.is_none());
    assert!(matches!(
        out.event,
        Some(VestingEvent::Initialized { total_amount: 500, cliff_seconds: 10, duration_seconds: 20 })
    ));
    let config = c.get_config().unwrap();
    assert_eq!(config.token, token);
    assert_eq!(config.beneficiary, beneficiary);
    assert!(!config.cancelled);
    assert_eq!(c.claimed(), 0);
}

#[test]
fn claim_pays_beneficiary_and_announces_it() {
    let (mut w, token, beneficiary, admin) = setup_with_token();
    w.try_initialize(&token, &beneficiary, &admin, 1_000_000, 100, 1000).unwrap();
    let out = w.contract.claim(250);
    assert_eq!(out.result, Ok(250_000));
    assert_eq!(out.auth, Some(beneficiary.clone()));
    let t = out.transfer.as_ref().unwrap();
    assert_eq!(t.to, beneficiary);
    assert_eq!(t.token, token);
    assert_eq!(t.amount, 250_000);
    match &out.event {
        Some(VestingEvent::Claimed { beneficiary: b, amount }) => {
            assert_eq!(b, &beneficiary);
            assert_eq!(*amount, 250_000);
        }
        _ => panic!("expected a claimed event"),
    }
    assert_eq!(w.contract.claimed(), 250_000);
}

#[test]
fn claim_again_at_the_same_time_finds_nothing() {
    let (mut w, token, beneficiary, admin) = setup_with_token();
    w.try_initialize(&token, &beneficiary, &admin, 1_000_000, 100, 1000).unwrap();
    w.now = 300;
    assert_eq!(w.try_claim(), Ok(300_000));
    assert_eq!(w.try_claim(), Err(VestingError::NothingToClaim));
    w.now = 301;
    assert_eq!(w.try_claim(), Ok(1_000));
    assert_eq!(w.balance(&beneficiary), 301_000);
}

#[test]
fn claims_add_up_to_the_total() {
    let (mut w, token, beneficiary, admin) = setup_with_token();
    w.try_initialize(&token, &beneficiary, &admin, 1_000_000, 0, 1000).unwrap();
    for t in [1u64, 2, 50, 333, 999, 1000, 5000] {
        w.now = t;
        let _ = w.try_claim();
        let status = w.contract.get_status(t).unwrap();
        assert_eq!(status.claimed, status.vested);
        assert_eq!(status.claimable, 0);
    }
    assert_eq!(w.balance(&beneficiary), 1_000_000);
    assert_eq!(w.try_claim(), Err(VestingError::NothingToClaim));
}

#[test]
fn status_claimable_matches_claim() {
    let (mut w, token, beneficiary, admin) = setup_with_token();
    w.try_initialize(&token, &beneficiary, &admin, 1_000_000, 100, 1000).unwrap();
    w.now = 700;
    let claimable = w.contract.get_status(700).unwrap().claimable;
    assert_eq!(w.try_claim(), Ok(claimable));
}

#[test]
fn cancel_after_partial_claim_leaves_unclaimed_vested_tokens() {
    let (mut w, token, beneficiary, admin) = setup_with_token();
    w.try_initialize(&token, &beneficiary, &admin, 1_000_000, 100, 1000).unwrap();
    w.now = 200;
    w.try_claim().unwrap();
    w.now = 600;
    let out = w.contract.cancel(600);
    assert_eq!(out.auth, Some(admin.clone()));
    match &out.event {
        Some(VestingEvent::Cancelled { admin: a, amount }) => {
            assert_eq!(a, &admin);
            assert_eq!(*amount, 400_000);
        }
        _ => panic!("expected a cancelled event"),
    }
    w.apply(out).unwrap();
    assert_eq!(w.balance(&admin), 400_000);
    assert_eq!(w.balance(&beneficiary), 200_000);
    let c = w.contract_address.clone();
    assert_eq!(w.balance(&c), 400_000);
    let status = w.contract.get_status(900).unwrap();
    assert_eq!(status.vested, 0);
    assert_eq!(status.claimable, 0);
    assert!(!status.fully_vested);
    assert_eq!(status.claimed, 200_000);
}

#[test]
fn cancel_after_full_vesting_returns_nothing_but_still_announces() {
    let (mut w, token, beneficiary, admin) = setup_with_token();
    w.try_initialize(&token, &beneficiary, &admin, 1_000_000, 100, 1000).unwrap();
    let out = w.contract.cancel(1_000);
    assert_eq!(out.result, Ok(()));
    assert!(out.transfer.is_none());
    assert!(matches!(out.event, Some(VestingEvent::Cancelled { amount: 0, .. })));
    assert!(w.contract.get_config().unwrap().cancelled);
}

#[test]
fn cancelled_double_cancel_still_asks_admin() {
    let (mut w, token, beneficiary, admin) = setup_with_token();
    w.try_initialize(&token, &beneficiary, &admin, 1_000_000, 100, 1000).unwrap();
    w.try_cancel().unwrap();
    let out = w.contract.cancel(5);
    assert_eq!(out.result, Err(VestingError::Cancelled));
    assert_eq!(out.auth, Some(admin));
    let out = w.contract.claim(5);
    assert_eq!(out.result, Err(VestingError::Cancelled));
    assert!(out.auth.is_none());
}

#[test]
fn transfer_admin_keeps_everything_else_and_hands_over_cancel() {
    let (mut w, token, beneficiary, admin) = setup_with_token();
    w.try_initialize(&token, &beneficiary, &admin, 1_000_000, 100, 1000).unwrap();
    let new_admin = account("GNEWADMIN");
    let out = w.contract.transfer_admin(new_admin.clone());
    assert_eq!(out.auth, Some(admin.clone()));
    match &out.event {
        Some(VestingEvent::AdminTransferred { old_admin, new_admin: n }) => {
            assert_eq!(old_admin, &admin);
            assert_eq!(n, &new_admin);
        }
        _ => panic!("expected an admin_transferred event"),
    }
    let config = w.contract.get_config().unwrap();
    assert_eq!(config.beneficiary, beneficiary);
    assert_eq!(config.total_amount, 1_000_000);
    assert_eq!(config.duration_seconds, 1000);
    let out = w.contract.cancel(0);
    assert_eq!(out.auth, Some(new_admin.clone()));
    w.apply(out).unwrap();
    assert_eq!(w.balance(&new_admin), 1_000_000);
    assert_eq!(w.balance(&admin), 0);
}

#[test]
fn overflowing_schedules_are_detected() {
    let (mut w, token, beneficiary, admin) = setup();
    w.try_initialize(&token, &beneficiary, &admin, i128::MAX / 2, 0, 1000).unwrap();
    assert!(w.contract.product_fits(0));
    assert!(w.contract.product_fits(1));
    assert!(w.contract.product_fits(2));
    assert!(!w.contract.product_fits(3));
    assert!(w.contract.product_fits(1000));
    assert_eq!(w.contract.get_status(1000).unwrap().vested, i128::MAX / 2);
}

#[test]
fn restore_accepts_only_reachable_states() {
    let (mut w, token, beneficiary, admin) = setup();
    assert!(ForgeVesting::restore(None, 0).is_some());
    assert!(ForgeVesting::restore(None, 5).is_none());
    w.try_initialize(&token, &beneficiary, &admin, 1_000, 10, 100).unwrap();
    let config = w.contract.get_config().unwrap();
    assert!(ForgeVesting::restore(Some(config.clone()), 1_000).is_some());
    assert!(ForgeVesting::restore(Some(config.clone()), 1_001).is_none());
    assert!(ForgeVesting::restore(Some(config.clone()), -1).is_none());
    let restored = ForgeVesting::restore(Some(config), 400).unwrap();
    assert_eq!(restored.claimed(), 400);
    assert_eq!(restored.get_status(40).unwrap().claimable, 0);
    assert_eq!(restored.get_status(60).unwrap().claimable, 200);
}

#[test]
fn accounts_compare_by_strkey() {
    let a = account("GALPHA");
    let b = account("GALPHA");
    let c = account("GBETA");
    assert!(a.same_as(&b));
    assert!(!a.same_as(&c));
    assert!(!a.same_as(&Account::from_strkey(b"GALPHA".to_vec())));
    assert_eq!(a.strkey().len(), 56);
}
