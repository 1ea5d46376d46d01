use mint_gateway::AccountId;
use mint_gateway::Contract;
use mint_gateway::ContractError;
use mint_gateway::MintInstruction;
use mint_gateway::StorageKey;
use mint_gateway::UserDailyMint;
use mint_gateway::UserMintMap;
use mint_gateway::DAY_MS;
use mint_gateway::MIN_MINT_GAS;

fn cheddar() -> AccountId {
    AccountId { id: 1 }
}
fn admin() -> AccountId {
    AccountId { id: 2 }
}
fn minter() -> AccountId {
    AccountId { id: 3 }
}
fn alice() -> AccountId {
    AccountId { id: 4 }
}
fn bob() -> AccountId {
    AccountId { id: 5 }
}
fn charlie() -> AccountId {
    AccountId { id: 6 }
}

fn setup() -> Contract {
    Contract::new(cheddar(), admin(), minter(), 22, 10)
}

#[test]
fn toggle_active() {
    let mut ctr = setup();

    assert_eq!(ctr.active, true, "must be active by default");
    ctr.admin_toggle_active(admin()).unwrap();
    assert_eq!(ctr.active, false);
    ctr.admin_toggle_active(admin()).unwrap();
    assert_eq!(ctr.active, true);
}

#[test]
fn toggle_active_not_admin() {
    let mut ctr = setup();
    let r = ctr.admin_toggle_active(minter());
    assert_eq!(r, Err(ContractError::Unauthorized));
    assert_eq!(ctr.active, true);
}

#[test]
fn mint_not_minter() {
    let mut ctr = setup();
    let r = ctr.mint(admin(), MIN_MINT_GAS, DAY_MS, alice(), 1, None);
    assert_eq!(r.unwrap_err(), ContractError::Unauthorized);
}

#[test]
fn mint() {
    let mut ctr = setup();
    let mut ts: u64 = DAY_MS;
    ctr.mint(minter(), MIN_MINT_GAS, ts, alice(), 1, None).unwrap();
    ctr.mint(minter(), MIN_MINT_GAS, ts, alice(), 9, None).unwrap();
    assert_eq!(
        ctr.user_mints.get(&alice()).unwrap(),
        UserDailyMint { minted: 10, day: 1 }
    );
    assert_eq!(ctr.daily_mints, 10);
    assert_eq!(ctr.last_mint_day, 1);

    ctr.mint(minter(), MIN_MINT_GAS, ts, bob(), 4, None).unwrap();
    // recheck alice
    assert_eq!(
        ctr.user_mints.get(&alice()).unwrap(),
        UserDailyMint { minted: 10, day: 1 }
    );
    assert_eq!(
        ctr.user_mints.get(&bob()).unwrap(),
        UserDailyMint { minted: 4, day: 1 }
    );

    ctr.mint(minter(), MIN_MINT_GAS, ts, charlie(), 8, None).unwrap();
    assert_eq!(ctr.last_mint_day, 1);
    assert_eq!(ctr.daily_mints, 22);

    ts += DAY_MS;
    ctr.mint(minter(), MIN_MINT_GAS, ts, alice(), 7, None).unwrap();
    assert_eq!(ctr.daily_mints, 7);
    assert_eq!(ctr.last_mint_day, 2);

    // same day but a bit later
    ts += DAY_MS / 2;
    ctr.mint(minter(), MIN_MINT_GAS, ts, alice(), 2, None).unwrap();
    assert_eq!(ctr.daily_mints, 9);
    assert_eq!(ctr.last_mint_day, 2);
    assert_eq!(
        ctr.user_mints.get(&alice()).unwrap(),
        UserDailyMint { minted: 9, day: 2 }
    );

    // few days later
    ts += 3 * DAY_MS;
    ctr.mint(minter(), MIN_MINT_GAS, ts, alice(), 2, None).unwrap();
    assert_eq!(ctr.daily_mints, 2);
    assert_eq!(ctr.last_mint_day, 5);
    assert_eq!(
        ctr.user_mints.get(&alice()).unwrap(),
        UserDailyMint { minted: 2, day: 5 }
    );

    assert_eq!(
        ctr.user_mints.get(&bob()).unwrap(),
        UserDailyMint { minted: 4, day: 1 },
        "bob should be still in the old day"
    );
    ctr.mint(minter(), MIN_MINT_GAS, ts, bob(), 1, None).unwrap();
    assert_eq!(
        ctr.user_mints.get(&bob()).unwrap(),
        UserDailyMint { minted: 1, day: 5 },
    );
    assert_eq!(ctr.daily_mints, 3);
    assert_eq!(ctr.last_mint_day, 5);
}

#[test]
fn mint_exceed_user_quota() {
    let mut ctr = setup();
    ctr.mint(minter(), MIN_MINT_GAS, DAY_MS, alice(), 5, None).unwrap();
    let receipt = ctr.mint(minter(), MIN_MINT_GAS, DAY_MS, alice(), 6, None).unwrap();
    assert_eq!(receipt.user_minted, 5);
    assert_eq!(receipt.referral_minted, 0);
}

#[test]
fn mint_exceed_total_quota() {
    let mut ctr = setup();
    ctr.mint(minter(), MIN_MINT_GAS, DAY_MS, alice(), 8, None).unwrap();
    ctr.mint(minter(), MIN_MINT_GAS, DAY_MS, bob(), 8, None).unwrap();
    let r = ctr.mint(minter(), MIN_MINT_GAS, DAY_MS, charlie(), 8, None);
    assert_eq!(r.unwrap_err(), ContractError::GlobalQuotaExceeded(24));
    // the rejected request left the day window untouched
    assert_eq!(ctr.daily_mints, 16);
    assert_eq!(ctr.user_mints.get(&charlie()), None);
}

#[test]
fn mint_with_referral() {
    let mut ctr = setup();
    let receipt = ctr
        .mint(minter(), MIN_MINT_GAS, DAY_MS, alice(), 20, Some(bob()))
        .unwrap();
    assert_eq!(receipt.referral_minted, 1);
    assert_eq!(ctr.user_mints.get(&alice()).unwrap().minted, 10);
    assert_eq!(ctr.user_mints.get(&bob()).is_none(), true);
    // the user portion requested was 19, clamped to alice's quota of 10
    assert_eq!(receipt.user_minted, 10);
    assert_eq!(
        receipt.ledger_calls,
        vec![
            MintInstruction { receiver: alice(), amount: 10 },
            MintInstruction { receiver: bob(), amount: 1 },
        ]
    );
}

#[test]
fn mint_without_referral_pays_no_share() {
    let mut ctr = setup();
    let receipt = ctr.mint(minter(), MIN_MINT_GAS, DAY_MS, alice(), 9, None).unwrap();
    assert_eq!(receipt.referral_minted, 0);
    assert_eq!(receipt.user_minted, 9);
    assert_eq!(
        receipt.ledger_calls,
        vec![MintInstruction { receiver: alice(), amount: 9 }]
    );
}

#[test]
fn mint_with_referral_small_amount_has_zero_share() {
    let mut ctr = setup();
    // 19 / 20 truncates to 0, so no instruction is issued for bob
    let receipt = ctr
        .mint(minter(), MIN_MINT_GAS, DAY_MS, alice(), 19, Some(bob()))
        .unwrap();
    assert_eq!(receipt.referral_minted, 0);
    assert_eq!(receipt.user_minted, 10);
    assert_eq!(
        receipt.ledger_calls,
        vec![MintInstruction { receiver: alice(), amount: 10 }]
    );
}

#[test]
fn mint_inactive() {
    let mut ctr = setup();
    ctr.admin_toggle_active(admin()).unwrap();
    let r = ctr.mint(minter(), MIN_MINT_GAS, DAY_MS, alice(), 1, None);
    assert_eq!(r.unwrap_err(), ContractError::Inactive);
}

#[test]
fn mint_insufficient_budget() {
    let mut ctr = setup();
    let r = ctr.mint(minter(), MIN_MINT_GAS - 1, DAY_MS, alice(), 1, None);
    assert_eq!(r.unwrap_err(), ContractError::InsufficientBudget);
    assert_eq!(ctr.daily_mints, 0);
}

#[test]
fn mint_at_user_cap_returns_zero_without_abort() {
    let mut ctr = setup();
    ctr.mint(minter(), MIN_MINT_GAS, DAY_MS, alice(), 10, None).unwrap();
    let receipt = ctr.mint(minter(), MIN_MINT_GAS, DAY_MS, alice(), 1, None).unwrap();
    assert_eq!(receipt.user_minted, 0);
    assert_eq!(receipt.referral_minted, 0);
    assert_eq!(receipt.ledger_calls, vec![]);
    // the zero grant left alice's record as it was
    assert_eq!(
        ctr.user_mints.get(&alice()).unwrap(),
        UserDailyMint { minted: 10, day: 1 }
    );
    // the request still consumed global quota: the hard cap gates requests
    assert_eq!(ctr.daily_mints, 11);
}

#[test]
fn global_cap_scenario() {
    let mut ctr = setup();
    let receipt = ctr.mint(minter(), MIN_MINT_GAS, DAY_MS, alice(), 1, None).unwrap();
    assert_eq!((receipt.user_minted, receipt.referral_minted), (1, 0));
    let receipt = ctr.mint(minter(), MIN_MINT_GAS, DAY_MS, alice(), 9, None).unwrap();
    assert_eq!((receipt.user_minted, receipt.referral_minted), (9, 0));
    assert_eq!(ctr.user_mints.get(&alice()).unwrap().minted, 10);
    let receipt = ctr.mint(minter(), MIN_MINT_GAS, DAY_MS, bob(), 4, None).unwrap();
    assert_eq!((receipt.user_minted, receipt.referral_minted), (4, 0));
    let receipt = ctr.mint(minter(), MIN_MINT_GAS, DAY_MS, charlie(), 8, None).unwrap();
    assert_eq!((receipt.user_minted, receipt.referral_minted), (8, 0));
    assert_eq!(ctr.daily_mints, 22);
    // any further positive same-day amount aborts with the attempted total
    let r = ctr.mint(minter(), MIN_MINT_GAS, DAY_MS, charlie(), 3, None);
    assert_eq!(r.unwrap_err(), ContractError::GlobalQuotaExceeded(25));
    assert_eq!(ctr.daily_mints, 22);
}

#[test]
fn day_rollover_resets_totals() {
    let mut ctr = setup();
    ctr.mint(minter(), MIN_MINT_GAS, DAY_MS, alice(), 10, None).unwrap();
    assert_eq!(ctr.daily_mints, 10);
    // a new day: the window resets to the new request's amount and the
    // stale record counts as zero, so alice is granted in full again
    let receipt = ctr
        .mint(minter(), MIN_MINT_GAS, 2 * DAY_MS, alice(), 6, None)
        .unwrap();
    assert_eq!(receipt.user_minted, 6);
    assert_eq!(ctr.daily_mints, 6);
    assert_eq!(ctr.last_mint_day, 2);
    assert_eq!(
        ctr.user_mints.get(&alice()).unwrap(),
        UserDailyMint { minted: 6, day: 2 }
    );
}

#[test]
fn global_cap_error_saturates_at_largest_total() {
    let mut ctr = Contract::new(cheddar(), admin(), minter(), u128::MAX, u128::MAX);
    let receipt = ctr
        .mint(minter(), MIN_MINT_GAS, DAY_MS, alice(), u128::MAX, None)
        .unwrap();
    assert_eq!(receipt.user_minted, u128::MAX);
    assert_eq!(ctr.daily_mints, u128::MAX);
    // the attempted total no longer fits in 128 bits; the reported total
    // clamps there, and the rejection leaves the window untouched
    let r = ctr.mint(minter(), MIN_MINT_GAS, DAY_MS, bob(), 1, None);
    assert_eq!(r.unwrap_err(), ContractError::GlobalQuotaExceeded(u128::MAX));
    assert_eq!(ctr.daily_mints, u128::MAX);
}

#[test]
fn admin_change_minter() {
    let mut ctr = setup();
    let r = ctr.admin_change_minter(minter(), alice());
    assert_eq!(r, Err(ContractError::Unauthorized));
    ctr.admin_change_minter(admin(), alice()).unwrap();
    let r = ctr.mint(minter(), MIN_MINT_GAS, DAY_MS, bob(), 1, None);
    assert_eq!(r.unwrap_err(), ContractError::Unauthorized);
    let receipt = ctr.mint(alice(), MIN_MINT_GAS, DAY_MS, bob(), 1, None).unwrap();
    assert_eq!(receipt.user_minted, 1);
}

#[test]
fn assert_minter_checks_identity_then_active() {
    let mut ctr = setup();
    assert_eq!(ctr.assert_minter(minter()), Ok(()));
    assert_eq!(ctr.assert_minter(admin()), Err(ContractError::Unauthorized));
    ctr.admin_toggle_active(admin()).unwrap();
    // identity is checked first, the active flag second
    assert_eq!(ctr.assert_minter(admin()), Err(ContractError::Unauthorized));
    assert_eq!(ctr.assert_minter(minter()), Err(ContractError::Inactive));
}

#[test]
fn assert_admin_checks_identity() {
    let ctr = setup();
    assert_eq!(ctr.assert_admin(admin()), Ok(()));
    assert_eq!(ctr.assert_admin(minter()), Err(ContractError::Unauthorized));
}

#[test]
fn config_reports_state() {
    let mut ctr = setup();
    let c = ctr.config();
    assert_eq!(c.minter, minter());
    assert_eq!(c.active, true);
    assert_eq!(c.daily_quota, 22);
    assert_eq!(c.user_quota, 10);
    assert_eq!(c.daily_use, 0);
    ctr.mint(minter(), MIN_MINT_GAS, DAY_MS, alice(), 7, None).unwrap();
    assert_eq!(ctr.config().daily_use, 7);
}

#[test]
fn store_get_insert() {
    let mut map = UserMintMap::new(StorageKey::UserMints);
    assert_eq!(map.get(&alice()), None);
    map.insert(alice(), UserDailyMint { day: 1, minted: 3 });
    map.insert(bob(), UserDailyMint { day: 1, minted: 4 });
    assert_eq!(map.get(&alice()), Some(UserDailyMint { day: 1, minted: 3 }));
    assert_eq!(map.get(&bob()), Some(UserDailyMint { day: 1, minted: 4 }));
    map.insert(alice(), UserDailyMint { day: 2, minted: 9 });
    assert_eq!(map.get(&alice()), Some(UserDailyMint { day: 2, minted: 9 }));
    assert_eq!(map.get(&bob()), Some(UserDailyMint { day: 1, minted: 4 }));
    assert_eq!(map.get(&charlie()), None);
}

#[test]
fn store_entries_round_trip() {
    let mut map = UserMintMap::new(StorageKey::UserMints);
    map.insert(alice(), UserDailyMint { day: 1, minted: 3 });
    map.insert(bob(), UserDailyMint { day: 2, minted: 4 });
    let rebuilt = UserMintMap::from_entries(map.entries().clone());
    assert_eq!(rebuilt.get(&alice()), Some(UserDailyMint { day: 1, minted: 3 }));
    assert_eq!(rebuilt.get(&bob()), Some(UserDailyMint { day: 2, minted: 4 }));
    assert_eq!(rebuilt.get(&charlie()), None);
}

#[test]
fn from_entries_first_occurrence_wins() {
    let entries = vec![
        (alice(), UserDailyMint { day: 1, minted: 3 }),
        (alice(), UserDailyMint { day: 2, minted: 8 }),
    ];
    let map = UserMintMap::from_entries(entries);
    assert_eq!(map.get(&alice()), Some(UserDailyMint { day: 1, minted: 3 }));
}

#[test]
fn check_wf_accepts_reachable_state_and_rejects_corrupt_state() {
    let mut ctr = setup();
    ctr.mint(minter(), MIN_MINT_GAS, DAY_MS, alice(), 8, None).unwrap();
    assert!(ctr.check_wf());
    ctr.daily_mints = 23;
    assert!(!ctr.check_wf());
    let mut ctr = setup();
    ctr.user_mints.insert(alice(), UserDailyMint { day: 1, minted: 11 });
    assert!(!ctr.check_wf());
}
