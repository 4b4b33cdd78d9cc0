use vstd::prelude::*;

use crate::account::Account;
use crate::schedule::{compute_vested, product_fits, ConfigView, VestingConfig};

verus! {

/// The keys under which the contract keeps its state.
#[derive(Clone, Copy, Debug, PartialEq, Eq, Structural)]
pub enum DataKey {
    Config,
    Claimed,
}

/// What `get_status` reports of the schedule at a given time.
#[derive(Clone, Copy, Debug, PartialEq, Eq, Structural)]
pub struct VestingStatus {
    pub total_amount: i128,
    pub claimed: i128,
    pub vested: i128,
    pub claimable: i128,
    pub cliff_reached: bool,
    pub fully_vested: bool,
}

/// The errors the contract answers with.
#[derive(Clone, Copy, Debug, PartialEq, Eq, Structural)]
pub enum VestingError {
    AlreadyInitialized,
    NotInitialized,
    Unauthorized,
    CliffNotReached,
    NothingToClaim,
    Cancelled,
    InvalidConfig,
    SameAdmin,
}

/// A token transfer out of the contract's own balance.
pub struct Transfer {
    pub token: Account,
    pub to: Account,
    pub amount: i128,
}

#[verifier::ext_equal]
pub struct TransferView {
    pub token: Seq<u8>,
    pub to: Seq<u8>,
    pub amount: i128,
}

impl View for Transfer {
    type V = TransferView;

    open spec fn view(&self) -> TransferView {
        TransferView { token: self.token@, to: self.to@, amount: self.amount }
    }
}

/// An event the contract publishes.
pub enum VestingEvent {
    /// `vesting_initialized`: total amount, cliff and duration.
    Initialized { total_amount: i128, cliff_seconds: u64, duration_seconds: u64 },
    /// `claimed`: the beneficiary and the amount paid out.
    Claimed { beneficiary: Account, amount: i128 },
    /// `vesting_cancelled`: the admin and the amount returned to it.
    Cancelled { admin: Account, amount: i128 },
    /// `admin_transferred`: the previous and the new admin.
    AdminTransferred { old_admin: Account, new_admin: Account },
}

#[verifier::ext_equal]
pub enum EventView {
    Initialized { total_amount: i128, cliff_seconds: u64, duration_seconds: u64 },
    Claimed { beneficiary: Seq<u8>, amount: i128 },
    Cancelled { admin: Seq<u8>, amount: i128 },
    AdminTransferred { old_admin: Seq<u8>, new_admin: Seq<u8> },
}

impl View for VestingEvent {
    type V = EventView;

    open spec fn view(&self) -> EventView {
        match self {
            VestingEvent::Initialized { total_amount, cliff_seconds, duration_seconds } =>
                EventView::Initialized {
                    total_amount: *total_amount,
                    cliff_seconds: *cliff_seconds,
                    duration_seconds: *duration_seconds,
                },
            VestingEvent::Claimed { beneficiary, amount } =>
                EventView::Claimed { beneficiary: beneficiary@, amount: *amount },
            VestingEvent::Cancelled { admin, amount } =>
                EventView::Cancelled { admin: admin@, amount: *amount },
            VestingEvent::AdminTransferred { old_admin, new_admin } =>
                EventView::AdminTransferred { old_admin: old_admin@, new_admin: new_admin@ },
        }
    }
}

/// The view of an optional value.
pub open spec fn view_opt<A: View>(o: Option<A>) -> Option<A::V> {
    match o {
        Some(a) => Some(a@),
        None => None,
    }
}

/// What an entry point decides: its answer, the address whose
/// authorization it needs before the answer stands, the transfer out of
/// the contract to make and the event to publish.
pub struct Outcome<T> {
    pub result: Result<T, VestingError>,
    pub auth: Option<Account>,
    pub transfer: Option<Transfer>,
    pub event: Option<VestingEvent>,
}

#[verifier::ext_equal]
pub struct OutcomeView<T> {
    pub result: Result<T, VestingError>,
    pub auth: Option<Seq<u8>>,
    pub transfer: Option<TransferView>,
    pub event: Option<EventView>,
}

impl<T> View for Outcome<T> {
    type V = OutcomeView<T>;

    open spec fn view(&self) -> OutcomeView<T> {
        OutcomeView {
            result: self.result,
            auth: view_opt(self.auth),
            transfer: view_opt(self.transfer),
            event: view_opt(self.event),
        }
    }
}

impl<T> Outcome<T> {
    /// An answer that moves no tokens and publishes nothing.
    fn quiet(result: Result<T, VestingError>, auth: Option<Account>) -> (o: Self)
        ensures
            o@ == (OutcomeView::<T> { result, auth: view_opt(auth), transfer: None, event: None }),
    {
        Outcome { result, auth, transfer: None, event: None }
    }
}

/// The contract's stored state: the schedule, once there is one, and the
/// amount the beneficiary has claimed so far.
#[verifier::ext_equal]
pub struct VestingState {
    pub config: Option<ConfigView>,
    pub claimed: i128,
}

/// A state together with an entry point's decision on it.
#[verifier::ext_equal]
pub struct Step<T> {
    pub state: VestingState,
    pub out: OutcomeView<T>,
}

impl VestingState {
    /// The states the contract can be in: empty with nothing claimed, or a
    /// valid schedule with a claimed amount between nothing and the total.
    pub open spec fn wf(self) -> bool {
        match self.config {
            None => self.claimed == 0,
            Some(c) => c.valid() && 0 <= self.claimed <= c.total_amount,
        }
    }

    /// Whether the entry points that compute the vested amount at `now`
    /// can do so within `i128`.
    pub open spec fn product_fits(self, now: u64) -> bool {
        self.config matches Some(c) ==> c.product_fits(now)
    }

    /// The step that leaves the state as it is and only answers.
    pub open spec fn quiet<T>(self, result: Result<T, VestingError>, auth: Option<Seq<u8>>) -> Step<T> {
        Step { state: self, out: OutcomeView { result, auth, transfer: None, event: None } }
    }

    /// `initialize` at ledger time `now`.
    pub open spec fn initialize_step(
        self,
        now: u64,
        token: Seq<u8>,
        beneficiary: Seq<u8>,
        admin: Seq<u8>,
        total_amount: i128,
        cliff_seconds: u64,
        duration_seconds: u64,
    ) -> Step<()> {
        if self.config is Some {
            self.quiet(Err(VestingError::AlreadyInitialized), None)
        } else if total_amount <= 0 || duration_seconds == 0 || cliff_seconds > duration_seconds {
            self.quiet(Err(VestingError::InvalidConfig), None)
        } else {
            Step {
                state: VestingState {
                    config: Some(
                        ConfigView {
                            token,
                            beneficiary,
                            admin,
                            total_amount,
                            start_time: now,
                            cliff_seconds,
                            duration_seconds,
                            cancelled: false,
                        },
                    ),
                    claimed: 0,
                },
                out: OutcomeView {
                    result: Ok(()),
                    auth: Some(admin),
                    transfer: None,
                    event: Some(EventView::Initialized { total_amount, cliff_seconds, duration_seconds }),
                },
            }
        }
    }

    /// `claim` at ledger time `now`: everything vested and not yet claimed
    /// goes to the beneficiary.
    pub open spec fn claim_step(self, now: u64) -> Step<i128> {
        match self.config {
            None => self.quiet(Err(VestingError::NotInitialized), None),
            Some(c) => if c.cancelled {
                self.quiet(Err(VestingError::Cancelled), None)
            } else if !c.cliff_reached(now) {
                self.quiet(Err(VestingError::CliffNotReached), Some(c.beneficiary))
            } else if c.vested(now) - self.claimed <= 0 {
                self.quiet(Err(VestingError::NothingToClaim), Some(c.beneficiary))
            } else {
                let amount = (c.vested(now) - self.claimed) as i128;
                Step {
                    state: VestingState { config: self.config, claimed: c.vested(now) as i128 },
                    out: OutcomeView {
                        result: Ok(amount),
                        auth: Some(c.beneficiary),
                        transfer: Some(TransferView { token: c.token, to: c.beneficiary, amount }),
                        event: Some(EventView::Claimed { beneficiary: c.beneficiary, amount }),
                    },
                }
            },
        }
    }

    /// What `cancel` at `now` hands back to the admin: the total less the
    /// larger of what has vested and what has been claimed.
    pub open spec fn returnable(self, now: u64) -> int {
        match self.config {
            None => 0,
            Some(c) => {
                let vested = c.vested(now);
                c.total_amount - (if vested >= self.claimed { vested } else { self.claimed as int })
            },
        }
    }

    /// `cancel` at ledger time `now`.
    pub open spec fn cancel_step(self, now: u64) -> Step<()> {
        match self.config {
            None => self.quiet(Err(VestingError::NotInitialized), None),
            Some(c) => if c.cancelled {
                self.quiet(Err(VestingError::Cancelled), Some(c.admin))
            } else {
                let returnable = self.returnable(now) as i128;
                Step {
                    state: VestingState {
                        config: Some(ConfigView { cancelled: true, ..c }),
                        claimed: self.claimed,
                    },
                    out: OutcomeView {
                        result: Ok(()),
                        auth: Some(c.admin),
                        transfer: if returnable > 0 {
                            Some(TransferView { token: c.token, to: c.admin, amount: returnable })
                        } else {
                            None
                        },
                        event: Some(EventView::Cancelled { admin: c.admin, amount: returnable }),
                    },
                }
            },
        }
    }

    /// `transfer_admin` to `new_admin`.
    pub open spec fn transfer_admin_step(self, new_admin: Seq<u8>) -> Step<()> {
        match self.config {
            None => self.quiet(Err(VestingError::NotInitialized), None),
            Some(c) => if c.admin == new_admin {
                self.quiet(Err(VestingError::SameAdmin), Some(c.admin))
            } else {
                Step {
                    state: VestingState {
                        config: Some(ConfigView { admin: new_admin, ..c }),
                        claimed: self.claimed,
                    },
                    out: OutcomeView {
                        result: Ok(()),
                        auth: Some(c.admin),
                        transfer: None,
                        event: Some(EventView::AdminTransferred { old_admin: c.admin, new_admin }),
                    },
                }
            },
        }
    }

    /// What `get_status` reports at `now`.
    pub open spec fn status(self, now: u64) -> Result<VestingStatus, VestingError> {
        match self.config {
            None => Err(VestingError::NotInitialized),
            Some(c) => {
                let vested = c.vested(now);
                Ok(
                    VestingStatus {
                        total_amount: c.total_amount,
                        claimed: self.claimed,
                        vested: vested as i128,
                        claimable: (if vested - self.claimed >= 0 { vested - self.claimed } else { 0 }) as i128,
                        cliff_reached: c.cliff_reached(now),
                        fully_vested: vested >= c.total_amount,
                    },
                )
            },
        }
    }
}

/// The stored state of one vesting contract, and its entry points.
pub struct ForgeVesting {
    config: Option<VestingConfig>,
    claimed: i128,
}

impl View for ForgeVesting {
    type V = VestingState;

    closed spec fn view(&self) -> VestingState {
        VestingState { config: view_opt(self.config), claimed: self.claimed }
    }
}

impl ForgeVesting {
    #[verifier::type_invariant]
    closed spec fn inv(self) -> bool {
        self@.wf()
    }

    /// A contract with nothing stored.
    pub fn new() -> (v: ForgeVesting)
        ensures
            v@ == (VestingState { config: None, claimed: 0 }),
    {
        ForgeVesting { config: None, claimed: 0 }
    }

    /// The contract whose storage holds `config` and `claimed`, if the two
    /// form a state the contract can be in.
    pub fn restore(config: Option<VestingConfig>, claimed: i128) -> (v: Option<ForgeVesting>)
        ensures
            v is Some <==> (VestingState { config: view_opt(config), claimed }).wf(),
            v matches Some(v) ==> v@ == (VestingState { config: view_opt(config), claimed }),
    {
        let ok = match &config {
            None => claimed == 0,
            Some(c) => c.total_amount > 0 && c.duration_seconds > 0
                && c.cliff_seconds <= c.duration_seconds && 0 <= claimed && claimed <= c.total_amount,
        };
        if ok {
            Some(ForgeVesting { config, claimed })
        } else {
            None
        }
    }

    /// The amount claimed so far, as stored under [`DataKey::Claimed`].
    pub fn claimed(&self) -> (r: i128)
        ensures
            r == self@.claimed,
    {
        self.claimed
    }

    /// Whether the storage holds a value under `key`.
    pub fn has(&self, key: DataKey) -> (r: bool)
        ensures
            r == (self@.config is Some),
    {
        match key {
            DataKey::Config => self.config.is_some(),
            DataKey::Claimed => self.config.is_some(),
        }
    }

    /// Whether the vested amount at `now` can be computed within `i128`;
    /// `claim`, `cancel` and `get_status` at `now` need it.
    pub fn product_fits(&self, now: u64) -> (r: bool)
        ensures
            r == self@.product_fits(now),
    {
        proof {
            use_type_invariant(self);
        }
        match &self.config {
            None => true,
            Some(c) => product_fits(c, now),
        }
    }
}


impl ForgeVesting {
    /// Sets up the schedule: `total_amount` tokens for `beneficiary`,
    /// vesting linearly over `duration_seconds` from `now`, nothing before
    /// `cliff_seconds`; `admin` may cancel it. Refused once set up, and for
    /// a non-positive amount, a zero duration or a cliff past the duration.
    pub fn initialize(
        &mut self,
        now: u64,
        token: Account,
        beneficiary: Account,
        admin: Account,
        total_amount: i128,
        cliff_seconds: u64,
        duration_seconds: u64,
    ) -> (out: Outcome<()>)
        ensures
            (Step { state: final(self)@, out: out@ }) == old(self)@.initialize_step(
                now,
                token@,
                beneficiary@,
                admin@,
                total_amount,
                cliff_seconds,
                duration_seconds,
            ),
    {
        proof {
            use_type_invariant(&*self);
        }
        if self.has(DataKey::Config) {
            return Outcome::quiet(Err(VestingError::AlreadyInitialized), None);
        }
        if total_amount <= 0 || duration_seconds == 0 || cliff_seconds > duration_seconds {
            return Outcome::quiet(Err(VestingError::InvalidConfig), None);
        }
        let auth = admin.clone();
        let config = VestingConfig {
            token,
            beneficiary,
            admin,
            total_amount,
            start_time: now,
            cliff_seconds,
            duration_seconds,
            cancelled: false,
        };
        self.config = Some(config);
        self.claimed = 0;
        Outcome {
            result: Ok(()),
            auth: Some(auth),
            transfer: None,
            event: Some(VestingEvent::Initialized { total_amount, cliff_seconds, duration_seconds }),
        }
    }

    /// Pays the beneficiary everything that has vested at `now` and is not
    /// yet claimed, and answers with that amount.
    pub fn claim(&mut self, now: u64) -> (out: Outcome<i128>)
        requires
            old(self)@.product_fits(now),
        ensures
            (Step { state: final(self)@, out: out@ }) == old(self)@.claim_step(now),
    {
        proof {
            use_type_invariant(&*self);
        }
        let (token, beneficiary, vested) = match &self.config {
            None => {
                return Outcome::quiet(Err(VestingError::NotInitialized), None);
            },
            Some(config) => {
                if config.cancelled {
                    return Outcome::quiet(Err(VestingError::Cancelled), None);
                }
                let elapsed = now.saturating_sub(config.start_time);
                if elapsed < config.cliff_seconds {
                    return Outcome::quiet(
                        Err(VestingError::CliffNotReached),
                        Some(config.beneficiary.clone()),
                    );
                }
                let vested = compute_vested(config, now);
                (config.token.clone(), config.beneficiary.clone(), vested)
            },
        };
        let claimed = self.claimed;
        let claimable = vested - claimed;
        if claimable <= 0 {
            return Outcome::quiet(Err(VestingError::NothingToClaim), Some(beneficiary));
        }
        self.claimed = claimed + claimable;
        Outcome {
            result: Ok(claimable),
            auth: Some(beneficiary.clone()),
            transfer: Some(Transfer { token, to: beneficiary.clone(), amount: claimable }),
            event: Some(VestingEvent::Claimed { beneficiary, amount: claimable }),
        }
    }
}


impl ForgeVesting {
    /// Ends the schedule at `now`: what has not vested, nor been claimed,
    /// goes back to the admin, and nothing more can be claimed.
    pub fn cancel(&mut self, now: u64) -> (out: Outcome<()>)
        requires
            old(self)@.product_fits(now),
        ensures
            (Step { state: final(self)@, out: out@ }) == old(self)@.cancel_step(now),
    {
        proof {
            use_type_invariant(&*self);
        }
        let claimed = self.claimed;
        let (next, returnable) = match &self.config {
            None => {
                return Outcome::quiet(Err(VestingError::NotInitialized), None);
            },
            Some(config) => {
                if config.cancelled {
                    return Outcome::quiet(Err(VestingError::Cancelled), Some(config.admin.clone()));
                }
                let vested = compute_vested(config, now);
                let kept = if vested >= claimed {
                    vested
                } else {
                    claimed
                };
                let returnable = config.total_amount - kept;
                let next = VestingConfig {
                    token: config.token.clone(),
                    beneficiary: config.beneficiary.clone(),
                    admin: config.admin.clone(),
                    total_amount: config.total_amount,
                    start_time: config.start_time,
                    cliff_seconds: config.cliff_seconds,
                    duration_seconds: config.duration_seconds,
                    cancelled: true,
                };
                (next, returnable)
            },
        };
        let admin = next.admin.clone();
        let transfer = if returnable > 0 {
            Some(Transfer { token: next.token.clone(), to: next.admin.clone(), amount: returnable })
        } else {
            None
        };
        self.config = Some(next);
        Outcome {
            result: Ok(()),
            auth: Some(admin.clone()),
            transfer,
            event: Some(VestingEvent::Cancelled { admin, amount: returnable }),
        }
    }

    /// Hands the admin role to `new_admin`; refused when it already holds it.
    pub fn transfer_admin(&mut self, new_admin: Account) -> (out: Outcome<()>)
        ensures
            (Step { state: final(self)@, out: out@ }) == old(self)@.transfer_admin_step(new_admin@),
    {
        proof {
            use_type_invariant(&*self);
        }
        let (next, old_admin) = match &self.config {
            None => {
                return Outcome::quiet(Err(VestingError::NotInitialized), None);
            },
            Some(config) => {
                if config.admin.same_as(&new_admin) {
                    return Outcome::quiet(Err(VestingError::SameAdmin), Some(config.admin.clone()));
                }
                let next = VestingConfig {
                    token: config.token.clone(),
                    beneficiary: config.beneficiary.clone(),
                    admin: new_admin.clone(),
                    total_amount: config.total_amount,
                    start_time: config.start_time,
                    cliff_seconds: config.cliff_seconds,
                    duration_seconds: config.duration_seconds,
                    cancelled: config.cancelled,
                };
                (next, config.admin.clone())
            },
        };
        self.config = Some(next);
        Outcome {
            result: Ok(()),
            auth: Some(old_admin.clone()),
            transfer: None,
            event: Some(VestingEvent::AdminTransferred { old_admin, new_admin }),
        }
    }

    /// The schedule's totals at `now`.
    pub fn get_status(&self, now: u64) -> (r: Result<VestingStatus, VestingError>)
        requires
            self@.product_fits(now),
        ensures
            r == self@.status(now),
    {
        proof {
            use_type_invariant(self);
        }
        match &self.config {
            None => Err(VestingError::NotInitialized),
            Some(config) => {
                let elapsed = now.saturating_sub(config.start_time);
                let cliff_reached = elapsed >= config.cliff_seconds;
                let vested = compute_vested(config, now);
                let claimed = self.claimed;
                let owed = vested - claimed;
                let claimable = if owed >= 0 {
                    owed
                } else {
                    0
                };
                let fully_vested = vested >= config.total_amount;
                Ok(
                    VestingStatus {
                        total_amount: config.total_amount,
                        claimed,
                        vested,
                        claimable,
                        cliff_reached,
                        fully_vested,
                    },
                )
            },
        }
    }

    /// The stored schedule.
    pub fn get_config(&self) -> (r: Result<VestingConfig, VestingError>)
        ensures
            match r {
                Ok(c) => self@.config == Some(c@),
                Err(e) => self@.config is None && e == VestingError::NotInitialized,
            },
    {
        match &self.config {
            None => Err(VestingError::NotInitialized),
            Some(config) => Ok(config.clone()),
        }
    }
}

} // verus!
