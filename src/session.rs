//! The session token's life: reading it from the issuing call, checking a
//! renewal, and the timer that says when to renew.

use vstd::prelude::*;
use crate::json::{Json, get_str, json_of_text, str_member};
use crate::models::{ExchangeInfo, decode_exchange_info, decodes_exchange_info};
use crate::rest::{CustomError, handle_response, response_outcome};

verus! {

/// What a call that reads a `T` from its 200 body owes: that value when the
/// body reads as one by `reads`, `Decode` when it does not, and otherwise
/// the error that the status calls for.
pub open spec fn call_outcome<T>(
    status: u16,
    body: Option<Json>,
    r: Result<T, CustomError>,
    reads: spec_fn(Json, T) -> bool,
) -> bool {
    if status == 200 {
        match body {
            Some(j) => match r {
                Ok(t) => reads(j, t),
                Err(e) => e == CustomError::Decode && forall|t: T| !#[trigger] reads(j, t),
            },
            None => r == Err::<T, CustomError>(CustomError::Decode),
        }
    } else {
        match r {
            Ok(_) => false,
            Err(e) => response_outcome(status, body, Err(e)),
        }
    }
}

pub open spec fn reads_listen_key(j: Json, key: String) -> bool {
    str_member(j, "listenKey"@) == Some(key@)
}

pub open spec fn reads_renewal(j: Json, u: ()) -> bool {
    str_member(j, "listenKey"@) is Some
}

/// The token that the issuing call returned.
pub fn listen_key_from_response(status: u16, body: &str) -> (r: Result<String, CustomError>)
    ensures
        call_outcome(status, json_of_text(body@), r, |j: Json, k: String| reads_listen_key(j, k)),
{
    match handle_response(status, body) {
        Ok(j) => match get_str(&j, "listenKey") {
            Some(k) => Ok(k),
            None => Err(CustomError::Decode),
        },
        Err(e) => Err(e),
    }
}

/// Whether the renewal call succeeded.
pub fn renewal_from_response(status: u16, body: &str) -> (r: Result<(), CustomError>)
    ensures
        call_outcome(status, json_of_text(body@), r, |j: Json, u: ()| reads_renewal(j, u)),
{
    match handle_response(status, body) {
        Ok(j) => match get_str(&j, "listenKey") {
            Some(_) => Ok(()),
            None => Err(CustomError::Decode),
        },
        Err(e) => Err(e),
    }
}

/// The exchange metadata that the call returned.
pub fn exchange_info_from_response(status: u16, body: &str) -> (r: Result<ExchangeInfo, CustomError>)
    ensures
        call_outcome(status, json_of_text(body@), r, |j: Json, e: ExchangeInfo| decodes_exchange_info(j, e)),
{
    match handle_response(status, body) {
        Ok(j) => match decode_exchange_info(&j) {
            Some(e) => Ok(e),
            None => Err(CustomError::Decode),
        },
        Err(e) => Err(e),
    }
}

/// An issued session: its token and when it was issued (seconds).
#[derive(Debug, Clone, PartialEq, Eq)]
pub struct Session {
    pub token: String,
    pub issued_at: u64,
}

impl Session {
    /// The session that the issuing call's response grants at time `now`,
    /// or why there is none; startup cannot go on without it.
    pub fn issue(status: u16, body: &str, now: u64) -> (r: Result<Session, CustomError>)
        ensures
            r is Ok ==> r->Ok_0.issued_at == now,
            call_outcome(
                status,
                json_of_text(body@),
                match r {
                    Ok(s) => Ok::<String, CustomError>(s.token),
                    Err(e) => Err::<String, CustomError>(e),
                },
                |j: Json, k: String| reads_listen_key(j, k),
            ),
    {
        match listen_key_from_response(status, body) {
            Ok(token) => Ok(Session { token, issued_at: now }),
            Err(e) => Err(e),
        }
    }
}

pub open spec fn saturating_sum(a: u64, b: u64) -> u64 {
    if a + b <= u64::MAX { (a + b) as u64 } else { u64::MAX }
}

/// When the session is next due for renewal, and at what interval.
#[derive(Debug, Clone, Copy, PartialEq, Eq)]
pub struct RenewalTimer {
    pub interval: u64,
    pub next_due: u64,
}

/// A timer started at `now`: the first renewal is one interval later.
pub open spec fn timer_at(interval: u64, now: u64) -> RenewalTimer {
    RenewalTimer { interval, next_due: saturating_sum(now, interval) }
}

/// Polling at `now`: a renewal is due once the clock reaches `next_due`, and
/// the next one is an interval after `now`.
pub open spec fn poll_of(t: RenewalTimer, now: u64) -> (RenewalTimer, bool) {
    if now >= t.next_due {
        (timer_at(t.interval, now), true)
    } else {
        (t, false)
    }
}

/// The timer after polling at each of `times` in turn, and how many of
/// those polls asked for a renewal.
pub open spec fn run_polls(t: RenewalTimer, times: Seq<u64>) -> (RenewalTimer, nat)
    decreases times.len(),
{
    if times.len() == 0 {
        (t, 0)
    } else {
        let first = poll_of(t, times[0]);
        let rest = run_polls(first.0, times.drop_first());
        (rest.0, if first.1 { rest.1 + 1 } else { rest.1 })
    }
}

impl RenewalTimer {
    pub fn new(interval: u64, now: u64) -> (t: Self)
        ensures
            t == timer_at(interval, now),
    {
        let next_due = if now > u64::MAX - interval { u64::MAX } else { now + interval };
        RenewalTimer { interval, next_due }
    }

    /// Is a renewal due at `now`? If so the timer moves on one interval.
    pub fn poll(&mut self, now: u64) -> (renew: bool)
        ensures
            (*final(self), renew) == poll_of(*old(self), now),
    {
        if now >= self.next_due {
            *self = RenewalTimer::new(self.interval, now);
            true
        } else {
            false
        }
    }
}

proof fn lemma_quiet(t: RenewalTimer, times: Seq<u64>)
    requires
        forall|i: int| 0 <= i < times.len() ==> #[trigger] times[i] < t.next_due,
    ensures
        run_polls(t, times) == (t, 0nat),
    decreases times.len(),
{
    if times.len() > 0 {
        let rest = times.drop_first();
        assert forall|i: int| 0 <= i < rest.len() implies #[trigger] rest[i] < t.next_due by {
            assert(rest[i] == times[i + 1]);
        }
        lemma_quiet(t, rest);
    }
}

proof fn lemma_polls_up_to_due(t: RenewalTimer, times: Seq<u64>)
    requires
        t.interval >= 1,
        t.next_due < u64::MAX,
        forall|i: int, j: int| 0 <= i <= j < times.len() ==> #[trigger] times[i] <= #[trigger] times[j],
        forall|i: int| 0 <= i < times.len() ==> #[trigger] times[i] <= t.next_due,
    ensures
        run_polls(t, times).1 == if times.len() > 0 && times.last() == t.next_due { 1nat } else { 0nat },
    decreases times.len(),
{
    if times.len() > 0 {
        let rest = times.drop_first();
        if times[0] < t.next_due {
            assert forall|i: int, j: int| 0 <= i <= j < rest.len() implies #[trigger] rest[i] <= #[trigger] rest[j] by {
                assert(rest[i] == times[i + 1] && rest[j] == times[j + 1]);
            }
            assert forall|i: int| 0 <= i < rest.len() implies #[trigger] rest[i] <= t.next_due by {
                assert(rest[i] == times[i + 1]);
            }
            lemma_polls_up_to_due(t, rest);
            if rest.len() > 0 {
                assert(rest.last() == times.last());
            }
        } else {
            let t1 = poll_of(t, times[0]).0;
            assert(t1.next_due > t.next_due);
            assert forall|i: int| 0 <= i < rest.len() implies #[trigger] rest[i] < t1.next_due by {
                assert(rest[i] == times[i + 1]);
            }
            lemma_quiet(t1, rest);
            assert(times[0] <= times[times.len() - 1]);
        }
    }
}

/// Renewal cadence: on a timer started at `start`, polls at any
/// non-decreasing times that stay within one interval of `start` ask for
/// exactly one renewal if the last of them reaches `start + interval`, and
/// for none otherwise.
pub proof fn lemma_renewal_cadence(interval: u64, start: u64, times: Seq<u64>)
    requires
        interval >= 1,
        start + interval < u64::MAX,
        forall|i: int, j: int| 0 <= i <= j < times.len() ==> #[trigger] times[i] <= #[trigger] times[j],
        forall|i: int| 0 <= i < times.len() ==> start <= #[trigger] times[i] <= start + interval,
    ensures
        run_polls(timer_at(interval, start), times).1 == if times.len() > 0 && times.last() == start + interval {
            1nat
        } else {
            0nat
        },
{
    lemma_polls_up_to_due(timer_at(interval, start), times);
}

} // verus!
