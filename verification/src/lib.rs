//! A rate-limited token mint gateway.
//!
//! The gateway lets a single configured minter request token issuance for
//! recipients, subject to two independent daily caps: a hard global cap
//! (exceeding it rejects the whole request) and a soft per-account cap
//! (exceeding it truncates the granted amount, possibly to zero). A request
//! may name a referrer, who is paid a fixed one-twentieth share of the
//! requested amount, free of any per-account cap. The actual token transfers
//! are delegated to an external ledger through fire-and-forget instructions
//! that the gateway returns as data; the host boundary dispatches them.

use vstd::prelude::*;

pub mod storage;
pub mod laws;

pub use storage::AccountId;
pub use storage::Config;
pub use storage::StorageKey;
pub use storage::UserDailyMint;
pub use storage::UserMintMap;

verus! {

/// Length of one day window in milliseconds.
pub const DAY_MS: u64 = 24 * 3600 * 1000;

/// The day index a timestamp (in milliseconds) falls in.
pub open spec fn day_of_ms(now_ms: u64) -> u64 {
    now_ms / DAY_MS
}

/// The least execution budget a caller must attach to a mint request.
pub const MIN_MINT_GAS: u64 = 30_000_000_000_000;

/// The share of a requested amount paid to a referrer: one twentieth,
/// truncated; zero when no referrer is named.
pub open spec fn referral_share(amount: u128, has_referral: bool) -> u128 {
    if has_referral {
        amount / 20
    } else {
        0
    }
}

/// What an account's stored record contributes on `day`: its total when the
/// record is from `day` itself, zero otherwise (a stale record is ignored,
/// not rewritten).
pub open spec fn live_minted(rec: Option<UserDailyMint>, day: u64) -> u128 {
    match rec {
        Some(r) => if r.day == day {
            r.minted
        } else {
            0
        },
        None => 0,
    }
}

/// How much of `requested` an account that was already granted `prior`
/// today receives under the per-account soft cap: the request is truncated
/// at the cap, possibly to zero, never rejected.
pub open spec fn grant_amount(prior: u128, requested: u128, quota: u128) -> u128 {
    if prior >= quota {
        0
    } else {
        let room = (quota - prior) as u128;
        if requested <= room {
            requested
        } else {
            room
        }
    }
}

/// The committed global total carried into a request arriving on `day`:
/// the stored total within the same day window, zero after a rollover.
pub open spec fn rolled_mints(last_day: u64, daily: u128, day: u64) -> u128 {
    if day == last_day {
        daily
    } else {
        0
    }
}

/// The hard global cap: the new committed total, or nothing when the
/// request would push it past the quota.
pub open spec fn commit_global(daily: u128, amount: u128, quota: u128) -> Option<u128> {
    if daily + amount <= quota {
        Some((daily + amount) as u128)
    } else {
        None
    }
}

/// The sum `a + b`, clamped to the largest 128-bit value.
pub open spec fn sat_add_u128(a: u128, b: u128) -> u128 {
    if a + b <= u128::MAX {
        (a + b) as u128
    } else {
        u128::MAX
    }
}

/// Why a request was rejected. Any rejection leaves the state unchanged.
#[derive(Clone, Copy, PartialEq, Eq, Structural, Debug)]
pub enum ContractError {
    /// The caller is not the principal the operation requires.
    Unauthorized,
    /// A mint was requested while the gateway is switched off.
    Inactive,
    /// The caller attached less execution budget than a mint requires.
    InsufficientBudget,
    /// Granting the request would push the day's committed global total
    /// past the global quota; the payload is the total that was attempted.
    GlobalQuotaExceeded(u128),
}

/// One fire-and-forget instruction to the external token ledger.
#[derive(Clone, Copy, PartialEq, Eq, Structural, Debug)]
pub struct MintInstruction {
    pub receiver: AccountId,
    pub amount: u128,
}

/// The outcome of a granted mint request: the amounts credited and the
/// ledger instructions the host must dispatch.
#[derive(PartialEq, Eq, Debug)]
pub struct MintReceipt {
    pub user_minted: u128,
    pub referral_minted: u128,
    pub ledger_calls: Vec<MintInstruction>,
}

/// The error a mint request is rejected with, if any: the minter check
/// first, then the active flag, then the execution-budget floor, then the
/// hard global cap. The cap's payload is the attempted running total,
/// clamped to the largest 128-bit value.
pub open spec fn mint_error(
    c: Contract,
    caller: AccountId,
    prepaid_gas: u64,
    now_ms: u64,
    amount: u128,
) -> Option<ContractError> {
    if caller != c.minter {
        Some(ContractError::Unauthorized)
    } else if !c.active {
        Some(ContractError::Inactive)
    } else if prepaid_gas < MIN_MINT_GAS {
        Some(ContractError::InsufficientBudget)
    } else {
        let rolled = rolled_mints(c.last_mint_day, c.daily_mints, day_of_ms(now_ms));
        if commit_global(rolled, amount, c.daily_quota) is None {
            Some(ContractError::GlobalQuotaExceeded(sat_add_u128(rolled, amount)))
        } else {
            None
        }
    }
}

/// The ledger instructions a granted request dispatches: the recipient's
/// grant when positive, then the referrer's share when a referrer is named
/// and the share is positive.
pub open spec fn mint_calls(
    recipient: AccountId,
    user_minted: u128,
    referral: Option<AccountId>,
    share: u128,
) -> Seq<MintInstruction> {
    let user_part = if user_minted > 0 {
        seq![MintInstruction { receiver: recipient, amount: user_minted }]
    } else {
        Seq::empty()
    };
    let referral_part = match referral {
        Some(rid) => if share > 0 {
            seq![MintInstruction { receiver: rid, amount: share }]
        } else {
            Seq::empty()
        },
        None => Seq::empty(),
    };
    user_part + referral_part
}

/// The gateway's state: configuration, the global day window, and the
/// per-account mint records.
pub struct Contract {
    pub cheddar: AccountId,
    pub admin: AccountId,
    pub minter: AccountId,
    pub active: bool,
    pub daily_quota: u128,
    pub user_quota: u128,
    pub user_mints: UserMintMap,
    pub daily_mints: u128,
    pub last_mint_day: u64,
}

impl Contract {
    /// Internal consistency: the committed global total never exceeds the
    /// global quota, and no live per-account record exceeds the user quota.
    pub open spec fn wf(self) -> bool {
        &&& self.daily_mints <= self.daily_quota
        &&& forall|k: AccountId|
            #[trigger] self.user_mints.spec_get(k) matches Some(r) ==> r.minted <= self.user_quota
    }

    pub fn new(
        cheddar: AccountId,
        admin: AccountId,
        minter: AccountId,
        total_limit: u128,
        user_limit: u128,
    ) -> (r: Self)
        ensures
            r.cheddar == cheddar,
            r.admin == admin,
            r.minter == minter,
            r.active,
            r.daily_quota == total_limit,
            r.user_quota == user_limit,
            forall|k: AccountId| r.user_mints.spec_get(k) is None,
            r.daily_mints == 0,
            r.last_mint_day == 0,
            r.wf(),
    {
        Contract {
            cheddar,
            admin,
            minter,
            active: true,
            daily_quota: total_limit,
            user_quota: user_limit,
            user_mints: UserMintMap::new(StorageKey::UserMints),
            daily_mints: 0,
            last_mint_day: 0,
        }
    }

    /// The configuration snapshot, including the current day window's
    /// committed total.
    pub fn config(&self) -> (c: Config)
        ensures
            c.minter == self.minter,
            c.active == self.active,
            c.daily_quota == self.daily_quota,
            c.user_quota == self.user_quota,
            c.daily_use == self.daily_mints,
    {
        Config {
            minter: self.minter,
            active: self.active,
            daily_quota: self.daily_quota,
            user_quota: self.user_quota,
            daily_use: self.daily_mints,
        }
    }

    /// Whether the state is internally consistent. A `true` answer
    /// establishes `wf`, so state rebuilt at the persistence boundary can
    /// be checked before the gateway works on it.
    pub fn check_wf(&self) -> (r: bool)
        ensures
            r ==> self.wf(),
    {
        self.daily_mints <= self.daily_quota && self.user_mints.all_minted_le(self.user_quota)
    }

    /// Only the configured minter may mint, and only while the gateway is
    /// active; the identity check comes first.
    pub fn assert_minter(&self, caller: AccountId) -> (r: Result<(), ContractError>)
        ensures
            r is Ok <==> caller == self.minter && self.active,
            r == Err::<(), ContractError>(ContractError::Unauthorized) <==> caller != self.minter,
            r == Err::<(), ContractError>(ContractError::Inactive) <==> caller == self.minter
                && !self.active,
    {
        if caller != self.minter {
            return Err(ContractError::Unauthorized);
        }
        if !self.active {
            return Err(ContractError::Inactive);
        }
        Ok(())
    }

    /// Only the configured admin may touch the configuration.
    pub fn assert_admin(&self, caller: AccountId) -> (r: Result<(), ContractError>)
        ensures
            r is Ok <==> caller == self.admin,
            r is Err ==> r == Err::<(), ContractError>(ContractError::Unauthorized),
    {
        if caller != self.admin {
            return Err(ContractError::Unauthorized);
        }
        Ok(())
    }

    /// Flips the active flag. Admin only; a rejected call changes nothing.
    pub fn admin_toggle_active(&mut self, caller: AccountId) -> (r: Result<(), ContractError>)
        ensures
            r is Ok <==> caller == old(self).admin,
            r is Err ==> r == Err::<(), ContractError>(ContractError::Unauthorized) && *final(self)
                == *old(self),
            r is Ok ==> *final(self) == (Contract { active: !old(self).active, ..*old(self) }),
    {
        match self.assert_admin(caller) {
            Err(e) => Err(e),
            Ok(()) => {
                self.active = !self.active;
                Ok(())
            },
        }
    }

    /// Replaces the minter identity. Admin only; a rejected call changes
    /// nothing.
    pub fn admin_change_minter(&mut self, caller: AccountId, minter: AccountId) -> (r: Result<
        (),
        ContractError,
    >)
        ensures
            r is Ok <==> caller == old(self).admin,
            r is Err ==> r == Err::<(), ContractError>(ContractError::Unauthorized) && *final(self)
                == *old(self),
            r is Ok ==> *final(self) == (Contract { minter, ..*old(self) }),
    {
        match self.assert_admin(caller) {
            Err(e) => Err(e),
            Ok(()) => {
                self.minter = minter;
                Ok(())
            },
        }
    }

    /// Grants up to `amount` to `user` under the per-account soft cap for
    /// the current day window and records the new running total; a stale
    /// record counts as zero. Returns the granted amount: a request past
    /// the cap is truncated, possibly to zero, never rejected.
    pub fn mint_to_user(&mut self, user: AccountId, amount: u128) -> (granted: u128)
        requires
            old(self).wf(),
        ensures
            final(self).wf(),
            granted == grant_amount(
                live_minted(old(self).user_mints.spec_get(user), old(self).last_mint_day),
                amount,
                old(self).user_quota,
            ),
            ({
                let prior = live_minted(
                    old(self).user_mints.spec_get(user),
                    old(self).last_mint_day,
                );
                if prior >= old(self).user_quota {
                    *final(self) == *old(self)
                } else {
                    &&& final(self).user_mints.spec_get(user) == Some(
                        UserDailyMint {
                            day: old(self).last_mint_day,
                            minted: (prior + granted) as u128,
                        },
                    )
                    &&& forall|k: AccountId|
                        k != user ==> final(self).user_mints.spec_get(k) == old(
                            self,
                        ).user_mints.spec_get(k)
                    &&& *final(self) == (Contract {
                        user_mints: final(self).user_mints,
                        ..*old(self)
                    })
                }
            }),
    {
        let mut user_minted: u128 = 0;
        match self.user_mints.get(&user) {
            None => (),
            Some(x) => {
                if x.day == self.last_mint_day {
                    user_minted = x.minted;
                }
            },
        }
        if user_minted >= self.user_quota {
            return 0;
        }
        let room = self.user_quota - user_minted;
        let amount_to_mint = if amount < room {
            amount
        } else {
            room
        };
        user_minted = user_minted + amount_to_mint;
        self.user_mints.insert(
            user,
            UserDailyMint { day: self.last_mint_day, minted: user_minted },
        );
        amount_to_mint
    }

    /// Handles one issuance request: authorization, the execution-budget
    /// floor, day rollover, the hard global cap, the referral split, the
    /// per-account grant. A rejected request changes nothing; a granted one
    /// commits the day window and the recipient's record and returns the
    /// amounts credited together with the ledger instructions to dispatch.
    /// The referrer's share bypasses the per-account cap and leaves the
    /// referrer's own record untouched.
    pub fn mint(
        &mut self,
        caller: AccountId,
        prepaid_gas: u64,
        now_ms: u64,
        recipient: AccountId,
        amount: u128,
        referral: Option<AccountId>,
    ) -> (r: Result<MintReceipt, ContractError>)
        requires
            old(self).wf(),
        ensures
            final(self).wf(),
            r is Err <==> mint_error(*old(self), caller, prepaid_gas, now_ms, amount) is Some,
            r is Err ==> r->Err_0 == mint_error(
                *old(self),
                caller,
                prepaid_gas,
                now_ms,
                amount,
            )->Some_0 && *final(self) == *old(self),
            r matches Ok(receipt) ==> ({
                let day = day_of_ms(now_ms);
                let share = referral_share(amount, referral is Some);
                let prior = live_minted(old(self).user_mints.spec_get(recipient), day);
                &&& receipt.referral_minted == share
                &&& receipt.user_minted == grant_amount(
                    prior,
                    (amount - share) as u128,
                    old(self).user_quota,
                )
                &&& final(self).last_mint_day == day
                &&& final(self).daily_mints == (rolled_mints(
                    old(self).last_mint_day,
                    old(self).daily_mints,
                    day,
                ) + amount) as u128
                &&& (prior >= old(self).user_quota ==> final(self).user_mints.spec_get(recipient)
                    == old(self).user_mints.spec_get(recipient))
                &&& (prior < old(self).user_quota ==> final(self).user_mints.spec_get(recipient)
                    == Some(UserDailyMint { day, minted: (prior + receipt.user_minted) as u128 }))
                &&& forall|k: AccountId|
                    k != recipient ==> final(self).user_mints.spec_get(k) == old(
                        self,
                    ).user_mints.spec_get(k)
                &&& final(self).cheddar == old(self).cheddar
                &&& final(self).admin == old(self).admin
                &&& final(self).minter == old(self).minter
                &&& final(self).active == old(self).active
                &&& final(self).daily_quota == old(self).daily_quota
                &&& final(self).user_quota == old(self).user_quota
                &&& receipt.ledger_calls@ == mint_calls(
                    recipient,
                    receipt.user_minted,
                    referral,
                    share,
                )
            }),
    {
        match self.assert_minter(caller) {
            Err(e) => {
                return Err(e);
            },
            Ok(()) => (),
        }
        if prepaid_gas < MIN_MINT_GAS {
            return Err(ContractError::InsufficientBudget);
        }
        let day = now_ms / DAY_MS;
        let rolled: u128 = if day == self.last_mint_day {
            self.daily_mints
        } else {
            0
        };
        match rolled.checked_add(amount) {
            None => {
                // past the largest representable total, so past the quota too
                return Err(ContractError::GlobalQuotaExceeded(u128::MAX));
            },
            Some(total) => {
                if total > self.daily_quota {
                    return Err(ContractError::GlobalQuotaExceeded(total));
                }
                self.last_mint_day = day;
                self.daily_mints = total;
            },
        }
        let share: u128 = match referral {
            Some(_) => amount / 20,
            None => 0,
        };
        assert(share <= amount);
        let user_amount = amount - share;
        let user_minted = self.mint_to_user(recipient, user_amount);
        let mut calls: Vec<MintInstruction> = Vec::new();
        if user_minted > 0 {
            calls.push(MintInstruction { receiver: recipient, amount: user_minted });
        }
        match referral {
            Some(rid) => {
                if share > 0 {
                    calls.push(MintInstruction { receiver: rid, amount: share });
                }
            },
            None => (),
        }
        proof {
            assert(calls@ =~= mint_calls(recipient, user_minted, referral, share));
        }
        Ok(MintReceipt { user_minted, referral_minted: share, ledger_calls: calls })
    }
}

} // verus!
