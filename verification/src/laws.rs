//! What holds of the contract across its entry points and over time.
use vstd::prelude::*;

use crate::contract::{EventView, TransferView, VestingError, VestingState};
use crate::schedule::{
    lemma_vested_is_floor_share, lemma_vested_monotonic, lemma_vested_within_total, ConfigView,
};

verus! {

/// Every entry point keeps the contract in a state it can be in.
pub proof fn lemma_steps_keep_state_wf(
    s: VestingState,
    now: u64,
    token: Seq<u8>,
    beneficiary: Seq<u8>,
    admin: Seq<u8>,
    total_amount: i128,
    cliff_seconds: u64,
    duration_seconds: u64,
    new_admin: Seq<u8>,
)
    requires
        s.wf(),
    ensures
        s.initialize_step(now, token, beneficiary, admin, total_amount, cliff_seconds, duration_seconds).state.wf(),
        s.product_fits(now) ==> s.claim_step(now).state.wf(),
        s.product_fits(now) ==> s.cancel_step(now).state.wf(),
        s.transfer_admin_step(new_admin).state.wf(),
{
    if let Some(c) = s.config {
        lemma_vested_within_total(c, now);
    }
}

/// A refused request changes nothing: the state stays, no tokens move and
/// no event is published.
pub proof fn lemma_refusal_changes_nothing(
    s: VestingState,
    now: u64,
    token: Seq<u8>,
    beneficiary: Seq<u8>,
    admin: Seq<u8>,
    total_amount: i128,
    cliff_seconds: u64,
    duration_seconds: u64,
    new_admin: Seq<u8>,
)
    requires
        s.wf(),
    ensures
        ({
            let st = s.initialize_step(now, token, beneficiary, admin, total_amount, cliff_seconds, duration_seconds);
            st.out.result is Err ==> st.state == s && st.out.transfer is None && st.out.event is None
        }),
        ({
            let st = s.claim_step(now);
            st.out.result is Err ==> st.state == s && st.out.transfer is None && st.out.event is None
        }),
        ({
            let st = s.cancel_step(now);
            st.out.result is Err ==> st.state == s && st.out.transfer is None && st.out.event is None
        }),
        ({
            let st = s.transfer_admin_step(new_admin);
            st.out.result is Err ==> st.state == s && st.out.transfer is None && st.out.event is None
        }),
{
}

/// A schedule is set up once: once there is one, `initialize` is refused
/// with `AlreadyInitialized`, whatever it is asked.
pub proof fn lemma_initialize_only_once(
    s: VestingState,
    now: u64,
    token: Seq<u8>,
    beneficiary: Seq<u8>,
    admin: Seq<u8>,
    total_amount: i128,
    cliff_seconds: u64,
    duration_seconds: u64,
)
    requires
        s.config is Some,
    ensures
        ({
            let st = s.initialize_step(now, token, beneficiary, admin, total_amount, cliff_seconds, duration_seconds);
            &&& st.out.result == Err::<(), VestingError>(VestingError::AlreadyInitialized)
            &&& st.state == s
            &&& st.out.auth is None
            &&& st.out.transfer is None
            &&& st.out.event is None
        }),
{
}

/// A successful claim pays the beneficiary exactly what has vested and was
/// not yet claimed, from the schedule's token, and afterwards the claimed
/// amount is what has vested; the amount is the one `get_status` reports
/// as claimable.
pub proof fn lemma_claim_pays_what_vested(s: VestingState, now: u64)
    requires
        s.wf(),
        s.product_fits(now),
        s.claim_step(now).out.result is Ok,
    ensures
        ({
            let c = s.config.unwrap();
            let st = s.claim_step(now);
            let a = st.out.result.unwrap();
            &&& a > 0
            &&& a == c.vested(now) - s.claimed
            &&& st.state.claimed == c.vested(now)
            &&& st.state.claimed == s.claimed + a
            &&& st.state.config == s.config
            &&& st.out.transfer == Some(TransferView { token: c.token, to: c.beneficiary, amount: a })
            &&& st.out.auth == Some(c.beneficiary)
            &&& s.status(now) matches Ok(status) && status.claimable == a
        }),
{
    lemma_vested_within_total(s.config.unwrap(), now);
}

/// Claiming again at the same moment finds nothing to claim.
pub proof fn lemma_claim_again_finds_nothing(s: VestingState, now: u64)
    requires
        s.wf(),
        s.product_fits(now),
        s.claim_step(now).out.result is Ok,
    ensures
        s.claim_step(now).state.claim_step(now).out.result == Err::<i128, VestingError>(
            VestingError::NothingToClaim,
        ),
{
    lemma_vested_within_total(s.config.unwrap(), now);
}

/// After the cliff, on a live schedule, `claim` succeeds exactly when
/// `get_status` reports something claimable, and otherwise finds nothing
/// to claim.
pub proof fn lemma_status_agrees_with_claim(s: VestingState, now: u64)
    requires
        s.wf(),
        s.product_fits(now),
        s.config matches Some(c) && !c.cancelled && c.cliff_reached(now),
    ensures
        s.status(now) matches Ok(status) && {
            &&& status.claimable > 0 ==> s.claim_step(now).out.result == Ok::<i128, VestingError>(
                status.claimable,
            )
            &&& status.claimable == 0 ==> s.claim_step(now).out.result == Err::<i128, VestingError>(
                VestingError::NothingToClaim,
            )
        },
{
    lemma_vested_within_total(s.config.unwrap(), now);
}

/// Before the cliff nothing is vested or claimable and `claim` is refused
/// with `CliffNotReached`; once the duration has passed on a live schedule,
/// all of it is vested.
pub proof fn lemma_cliff_and_end(s: VestingState, now: u64)
    requires
        s.wf(),
        s.product_fits(now),
        s.config matches Some(c) && !c.cancelled,
    ensures
        ({
            let c = s.config.unwrap();
            &&& !c.cliff_reached(now) ==> (s.status(now) matches Ok(status) && status.vested == 0
                && status.claimable == 0 && !status.cliff_reached)
            &&& !c.cliff_reached(now) ==> s.claim_step(now).out.result == Err::<i128, VestingError>(
                VestingError::CliffNotReached,
            )
            &&& c.elapsed(now) >= c.duration_seconds ==> (s.status(now) matches Ok(status)
                && status.vested == c.total_amount && status.fully_vested && status.cliff_reached)
        }),
{
    lemma_vested_within_total(s.config.unwrap(), now);
}

/// A cancellation is final: afterwards, at any time, `claim` and `cancel`
/// are refused with `Cancelled`, nothing is vested or claimable, and the
/// claimed amount stays what it was.
pub proof fn lemma_cancel_is_final(s: VestingState, now: u64, later: u64)
    requires
        s.wf(),
        s.product_fits(now),
        s.cancel_step(now).out.result is Ok,
    ensures
        ({
            let t = s.cancel_step(now).state;
            &&& t.claimed == s.claimed
            &&& t.claim_step(later).out.result == Err::<i128, VestingError>(VestingError::Cancelled)
            &&& t.cancel_step(later).out.result == Err::<(), VestingError>(VestingError::Cancelled)
            &&& t.status(later) matches Ok(status) && status.vested == 0 && status.claimable == 0
                && !status.fully_vested
        }),
{
}

/// Cancelling never hands out more than is left: what the beneficiary has
/// claimed and what the admin gets back add up to at most the total, and to
/// exactly the total when nothing vested is left unclaimed.
pub proof fn lemma_cancel_within_total(s: VestingState, now: u64)
    requires
        s.wf(),
        s.product_fits(now),
        s.cancel_step(now).out.result is Ok,
    ensures
        ({
            let c = s.config.unwrap();
            let returned = s.returnable(now);
            &&& 0 <= returned <= c.total_amount
            &&& s.claimed + returned <= c.total_amount
            &&& (c.vested(now) <= s.claimed ==> s.claimed + returned == c.total_amount)
            &&& s.cancel_step(now).out.event == Some(EventView::Cancelled { admin: c.admin, amount: returned as i128 })
            &&& (returned > 0 ==> s.cancel_step(now).out.transfer == Some(
                TransferView { token: c.token, to: c.admin, amount: returned as i128 },
            ))
            &&& (returned == 0 ==> s.cancel_step(now).out.transfer is None)
        }),
{
    lemma_vested_within_total(s.config.unwrap(), now);
}

/// A claim followed by a cancellation at the same moment splits the total
/// exactly: the beneficiary's claims and the admin's refund add up to it.
pub proof fn lemma_claim_then_cancel_splits_total(s: VestingState, now: u64)
    requires
        s.wf(),
        s.product_fits(now),
        s.claim_step(now).out.result is Ok,
    ensures
        ({
            let t = s.claim_step(now).state;
            &&& t.cancel_step(now).out.result is Ok
            &&& t.claimed + t.returnable(now) == s.config.unwrap().total_amount
        }),
{
    lemma_vested_within_total(s.config.unwrap(), now);
}

/// Handing over the admin role touches nothing but the admin.
pub proof fn lemma_transfer_admin_only_changes_admin(s: VestingState, new_admin: Seq<u8>)
    requires
        s.wf(),
        s.transfer_admin_step(new_admin).out.result is Ok,
    ensures
        ({
            let c = s.config.unwrap();
            let t = s.transfer_admin_step(new_admin).state;
            &&& c.admin != new_admin
            &&& t.claimed == s.claimed
            &&& t.config matches Some(d) && d.admin == new_admin && d.token == c.token
                && d.beneficiary == c.beneficiary && d.total_amount == c.total_amount
                && d.start_time == c.start_time && d.cliff_seconds == c.cliff_seconds
                && d.duration_seconds == c.duration_seconds && d.cancelled == c.cancelled
        }),
{
}

/// What `get_status` reports as vested never decreases as time goes on,
/// and the claimable amount at a later time is at least the one at an
/// earlier time, as long as nothing is claimed in between.
pub proof fn lemma_status_grows_over_time(s: VestingState, t1: u64, t2: u64)
    requires
        s.wf(),
        s.product_fits(t1),
        s.product_fits(t2),
        s.config is Some,
        t1 <= t2,
    ensures
        s.status(t1) matches Ok(a) && s.status(t2) matches Ok(b) && a.vested <= b.vested
            && a.claimable <= b.claimable,
{
    let c = s.config.unwrap();
    lemma_vested_within_total(c, t1);
    lemma_vested_within_total(c, t2);
    lemma_vested_monotonic(c, t1, t2);
}

/// The beneficiary is never paid ahead of the schedule: after a claim at
/// `t1`, at any later time the claimed amount is at most what has vested,
/// and what is claimable then is exactly what vested in between.
pub proof fn lemma_claims_follow_schedule(s: VestingState, t1: u64, t2: u64)
    requires
        s.wf(),
        s.product_fits(t1),
        s.product_fits(t2),
        s.claim_step(t1).out.result is Ok,
        t1 <= t2,
    ensures
        ({
            let c = s.config.unwrap();
            let t = s.claim_step(t1).state;
            &&& t.claimed <= c.vested(t2)
            &&& t.status(t2) matches Ok(status) && status.claimable == c.vested(t2) - c.vested(t1)
        }),
{
    let c = s.config.unwrap();
    lemma_vested_within_total(c, t1);
    lemma_vested_within_total(c, t2);
    lemma_vested_monotonic(c, t1, t2);
}

/// `initialize` on a contract without a schedule succeeds exactly for a
/// positive amount, a positive duration and a cliff within it: it stores
/// that schedule, starting now and not cancelled, with nothing claimed,
/// asks the admin's authorization and announces amount, cliff and duration.
/// Otherwise it is refused with `InvalidConfig`.
pub proof fn lemma_initialize_accepts_every_valid_schedule(
    s: VestingState,
    now: u64,
    token: Seq<u8>,
    beneficiary: Seq<u8>,
    admin: Seq<u8>,
    total_amount: i128,
    cliff_seconds: u64,
    duration_seconds: u64,
)
    requires
        s.config is None,
    ensures
        ({
            let st = s.initialize_step(now, token, beneficiary, admin, total_amount, cliff_seconds, duration_seconds);
            &&& (total_amount > 0 && duration_seconds > 0 && cliff_seconds <= duration_seconds) ==> {
                &&& st.out.result == Ok::<(), VestingError>(())
                &&& st.state.claimed == 0
                &&& st.state.config matches Some(c) && c.token == token && c.beneficiary == beneficiary
                    && c.admin == admin && c.total_amount == total_amount && c.start_time == now
                    && c.cliff_seconds == cliff_seconds && c.duration_seconds == duration_seconds
                    && !c.cancelled
                &&& st.out.auth == Some(admin)
                &&& st.out.transfer is None
                &&& st.out.event == Some(EventView::Initialized { total_amount, cliff_seconds, duration_seconds })
            }
            &&& !(total_amount > 0 && duration_seconds > 0 && cliff_seconds <= duration_seconds) ==> {
                &&& st.out.result == Err::<(), VestingError>(VestingError::InvalidConfig)
                &&& st.state == s
            }
        }),
{
}

/// On a live schedule after the cliff, `claim` succeeds exactly when more
/// has vested than was claimed; it then returns that difference, pays it to
/// the beneficiary in the schedule's token and publishes a `Claimed` event
/// for the beneficiary with that same amount.
pub proof fn lemma_claim_announces_what_it_pays(s: VestingState, now: u64)
    requires
        s.wf(),
        s.product_fits(now),
        s.config matches Some(c) && !c.cancelled && c.elapsed(now) >= c.cliff_seconds,
    ensures
        ({
            let c = s.config.unwrap();
            let st = s.claim_step(now);
            let owed = c.vested(now) - s.claimed;
            &&& owed > 0 ==> {
                &&& st.out.result == Ok::<i128, VestingError>(owed as i128)
                &&& st.out.transfer == Some(TransferView { token: c.token, to: c.beneficiary, amount: owed as i128 })
                &&& st.out.event == Some(EventView::Claimed { beneficiary: c.beneficiary, amount: owed as i128 })
                &&& st.state.claimed == s.claimed + owed
            }
            &&& owed <= 0 ==> st.out.result == Err::<i128, VestingError>(VestingError::NothingToClaim)
            &&& st.out.result matches Ok(a) ==> st.out.event == Some(
                EventView::Claimed { beneficiary: c.beneficiary, amount: a },
            )
        }),
{
    lemma_vested_within_total(s.config.unwrap(), now);
}

/// On a live schedule `cancel` always succeeds and hands the admin exactly
/// the total less the larger of what has vested and what has been claimed:
/// when nothing is claimed beyond what vested, the refund and the vested
/// amount add up to the total. The refund is announced, and transferred to
/// the admin in the schedule's token when it is positive.
pub proof fn lemma_cancel_returns_only_unvested(s: VestingState, now: u64)
    requires
        s.wf(),
        s.product_fits(now),
        s.config matches Some(c) && !c.cancelled,
    ensures
        ({
            let c = s.config.unwrap();
            let st = s.cancel_step(now);
            let kept = if c.vested(now) >= s.claimed { c.vested(now) } else { s.claimed as int };
            let refund = c.total_amount - kept;
            &&& st.out.result == Ok::<(), VestingError>(())
            &&& st.out.auth == Some(c.admin)
            &&& 0 <= refund <= c.total_amount
            &&& c.vested(now) >= s.claimed ==> refund + c.vested(now) == c.total_amount
            &&& c.vested(now) < s.claimed ==> refund + s.claimed == c.total_amount
            &&& st.out.event == Some(EventView::Cancelled { admin: c.admin, amount: refund as i128 })
            &&& refund > 0 ==> st.out.transfer == Some(
                TransferView { token: c.token, to: c.admin, amount: refund as i128 },
            )
            &&& refund == 0 ==> st.out.transfer is None
            &&& st.state.claimed == s.claimed
            &&& st.state.config == Some(ConfigView { cancelled: true, ..c })
        }),
{
    lemma_vested_within_total(s.config.unwrap(), now);
}

/// `get_status` reports the schedule's total, the claimed amount, the
/// vested amount at `now`, what of it is unclaimed (never negative), whether
/// the cliff has passed, and `fully_vested` exactly when the vested amount
/// has reached the total; on a live schedule that is before the end of the
/// duration never the case.
pub proof fn lemma_status_reports_schedule(s: VestingState, now: u64)
    requires
        s.wf(),
        s.product_fits(now),
        s.config is Some,
    ensures
        ({
            let c = s.config.unwrap();
            s.status(now) matches Ok(st) && {
                &&& st.total_amount == c.total_amount
                &&& st.claimed == s.claimed
                &&& st.vested == c.vested(now)
                &&& st.claimable == (if c.vested(now) >= s.claimed { c.vested(now) - s.claimed } else { 0 })
                &&& st.claimable >= 0
                &&& st.cliff_reached == (c.elapsed(now) >= c.cliff_seconds)
                &&& st.fully_vested == (st.vested >= st.total_amount)
                &&& (!c.cancelled && c.elapsed(now) < c.duration_seconds) ==> !st.fully_vested
                &&& (!c.cancelled && c.elapsed(now) >= c.duration_seconds) ==> st.fully_vested
            }
        }),
{
    let c = s.config.unwrap();
    lemma_vested_within_total(c, now);
    lemma_vested_is_floor_share(c, now);
}

/// On a schedule, `transfer_admin` is refused with `SameAdmin` exactly when
/// the new admin is the current one; to anyone else it succeeds, stores the
/// new admin, asks the current admin's authorization and announces both.
pub proof fn lemma_transfer_admin_accepts_any_other(s: VestingState, new_admin: Seq<u8>)
    requires
        s.wf(),
        s.config is Some,
    ensures
        ({
            let c = s.config.unwrap();
            let st = s.transfer_admin_step(new_admin);
            &&& new_admin != c.admin ==> {
                &&& st.out.result == Ok::<(), VestingError>(())
                &&& st.state.config == Some(ConfigView { admin: new_admin, ..c })
                &&& st.state.claimed == s.claimed
                &&& st.out.auth == Some(c.admin)
                &&& st.out.event == Some(EventView::AdminTransferred { old_admin: c.admin, new_admin })
            }
            &&& new_admin == c.admin ==> st.out.result == Err::<(), VestingError>(VestingError::SameAdmin)
        }),
{
}

/// Before a schedule exists, every entry point but `initialize` answers
/// `NotInitialized` without asking anyone's authorization. On a schedule,
/// `claim` asks the beneficiary's authorization unless the schedule is
/// cancelled, in which case it answers `Cancelled` asking nobody; `cancel`
/// and `transfer_admin` always ask the current admin's.
pub proof fn lemma_who_must_authorize(s: VestingState, now: u64, new_admin: Seq<u8>)
    requires
        s.wf(),
    ensures
        s.config is None ==> {
            &&& s.claim_step(now).out.result == Err::<i128, VestingError>(VestingError::NotInitialized)
            &&& s.claim_step(now).out.auth is None
            &&& s.cancel_step(now).out.result == Err::<(), VestingError>(VestingError::NotInitialized)
            &&& s.cancel_step(now).out.auth is None
            &&& s.transfer_admin_step(new_admin).out.result == Err::<(), VestingError>(VestingError::NotInitialized)
            &&& s.transfer_admin_step(new_admin).out.auth is None
            &&& s.status(now) == Err::<crate::contract::VestingStatus, VestingError>(VestingError::NotInitialized)
        },
        s.config matches Some(c) ==> {
            &&& c.cancelled ==> s.claim_step(now).out.result == Err::<i128, VestingError>(VestingError::Cancelled)
            &&& c.cancelled ==> s.claim_step(now).out.auth is None
            &&& !c.cancelled ==> s.claim_step(now).out.auth == Some(c.beneficiary)
            &&& c.cancelled ==> s.cancel_step(now).out.result == Err::<(), VestingError>(VestingError::Cancelled)
            &&& s.cancel_step(now).out.auth == Some(c.admin)
            &&& s.transfer_admin_step(new_admin).out.auth == Some(c.admin)
        },
{
}

} // verus!
