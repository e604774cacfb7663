use vstd::prelude::*;

use crate::errors::AuthError;
use crate::exchange::refresh_params_spec;
use crate::exchange::refresh_request;
use crate::redirect::pair_views;
use crate::session::Session;

verus! {

/// A stored session is fresh while its expiry lies more than this many
/// seconds in the future.
pub const FRESHNESS_WINDOW_SECS: i64 = 60;

/// True when a session expiring at `expires_at` still has more than the
/// freshness window left at time `now`; a session with no recorded expiry
/// is never treated as stale.
pub open spec fn is_fresh(expires_at: Option<i64>, now: i64) -> bool {
    match expires_at {
        None => true,
        Some(e) => e - now > FRESHNESS_WINDOW_SECS,
    }
}

/// Decides whether the stored expiry still leaves more than the freshness
/// window at time `now`.
pub fn check_fresh(expires_at: &Option<i64>, now: i64) -> (r: bool)
    ensures
        r == is_fresh(*expires_at, now),
{
    match expires_at {
        Option::None => true,
        Option::Some(e) => (*e as i128) - (now as i128) > FRESHNESS_WINDOW_SECS as i128,
    }
}

/// One planned refresh: the session to refresh and the grant's form body.
pub struct RefreshPlan {
    pub session: Session,
    pub params: Vec<(String, String)>,
}

/// What `ensure_fresh_session` must do with what the store held.
pub enum FreshnessDecision {
    /// Nothing is stored: the caller must run the interactive sign-in.
    NoSession,
    /// The stored session is still fresh and is handed back unchanged,
    /// with no refresh planned.
    Fresh(Session),
    /// The session is stale and refreshable: exactly one refresh grant is
    /// owed, with these parameters.
    Refresh(RefreshPlan),
    /// The session is stale but lacks a refresh token or client id, so
    /// only a new sign-in can help.
    Expired,
}

/// The decision owed for `stored` at time `now`: nothing for no session; a
/// fresh session is returned unchanged; a stale one gets exactly one
/// planned refresh when it can be refreshed, and is reported expired when
/// it cannot.
pub open spec fn decision_matches(stored: Option<Session>, now: i64, d: FreshnessDecision) -> bool {
    match stored {
        None => d is NoSession,
        Some(s) => if is_fresh(s.expires_at, now) {
            d == FreshnessDecision::Fresh(s)
        } else {
            match (s.refresh_token, s.client_id) {
                (Some(rt), Some(cid)) => d matches FreshnessDecision::Refresh(plan)
                    && plan.session == s && pair_views(plan.params@) == refresh_params_spec(
                    cid@,
                    rt@,
                    s.client_secret,
                ),
                _ => d is Expired,
            }
        },
    }
}

/// Takes the freshness decision for what the store held at time `now`.
pub fn ensure_fresh_step(stored: Option<Session>, now: i64) -> (d: FreshnessDecision)
    ensures
        decision_matches(stored, now, d),
{
    let s = match stored {
        Option::None => {
            return FreshnessDecision::NoSession;
        },
        Option::Some(s) => s,
    };
    if check_fresh(&s.expires_at, now) {
        return FreshnessDecision::Fresh(s);
    }
    match refresh_request(&s) {
        Ok(params) => FreshnessDecision::Refresh(RefreshPlan { session: s, params }),
        Err(_) => FreshnessDecision::Expired,
    }
}

/// Relies on chrono's `Utc::now().timestamp()`: the wall clock, in seconds
/// since the epoch; nothing can be promised of its value.
#[verifier::external_body]
fn current_timestamp() -> i64 {
    chrono::Utc::now().timestamp()
}

/// Takes the freshness decision for what the store held, against the wall
/// clock: whatever time the clock reports, the decision is the one owed at
/// that time.
pub fn evaluate_stored_session(stored: Option<Session>) -> (d: FreshnessDecision)
    ensures
        exists|now: i64| decision_matches(stored, now, d),
{
    let now = current_timestamp();
    let d = ensure_fresh_step(stored, now);
    proof {
        assert(decision_matches(stored, now, d));
    }
    d
}

/// A session whose expiry is more than the freshness window away — or that
/// records no expiry at all — is always handed back unchanged, with no
/// refresh planned for it.
pub proof fn lemma_fresh_session_unchanged(s: Session, now: i64, d: FreshnessDecision)
    requires
        decision_matches(Some(s), now, d),
        is_fresh(s.expires_at, now),
    ensures
        d == FreshnessDecision::Fresh(s),
{
}

/// A stale but refreshable session always yields exactly one planned
/// refresh, for that very session.
pub proof fn lemma_stale_session_refreshed(s: Session, now: i64, d: FreshnessDecision)
    requires
        decision_matches(Some(s), now, d),
        s.expires_at matches Some(e) && e - now <= FRESHNESS_WINDOW_SECS,
        s.refresh_token is Some,
        s.client_id is Some,
    ensures
        d matches FreshnessDecision::Refresh(plan) && plan.session == s,
{
}

/// A stale session without a refresh token is always reported expired,
/// never refreshed and never handed back as fresh.
pub proof fn lemma_stale_without_refresh_token_expires(s: Session, now: i64, d: FreshnessDecision)
    requires
        decision_matches(Some(s), now, d),
        s.expires_at matches Some(e) && e - now <= FRESHNESS_WINDOW_SECS,
        s.refresh_token is None,
    ensures
        d is Expired,
{
}

} // verus!
