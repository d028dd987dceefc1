//! Decisions of the long-poll `getUpdates` loop: error handling, backoff,
//! session expiry and the sync buffer.
//!
//! The caller runs the loop: before each poll it asks [`paused_sleep`], sends
//! [`MonitorState::poll_request`] with [`MonitorState::timeout_ms`], and reports
//! the outcome to [`MonitorState::on_poll_failure`] or [`MonitorState::on_response`],
//! then sleeps or delivers the messages as told.
use vstd::prelude::*;
use crate::api::session_guard::{pause_deadline, paused_at, remaining_at, SessionGuard};
use crate::types::{
    build_base_info, is_current_base_info, GetUpdatesRequest, GetUpdatesResponse,
    BACKOFF_DELAY_MS, MAX_CONSECUTIVE_FAILURES, RETRY_DELAY_MS, SESSION_EXPIRED_ERRCODE,
};
use crate::util::text::opt_view;

verus! {

/// What to do after a `getUpdates` response.
pub enum ResponseAction {
    /// The session expired and was paused: sleep this long, then poll again.
    PauseSession { sleep_ms: u64 },
    /// The server reported an error: sleep this long, then poll again.
    Retry { sleep_ms: u64 },
    /// Success: hand the messages to the handler; `new_sync_buf` is the new
    /// sync buffer to report, when it changed.
    Deliver { new_sync_buf: Option<String> },
}

/// State carried from one poll to the next.
pub struct MonitorState {
    get_updates_buf: String,
    next_timeout_ms: u64,
    consecutive_failures: u32,
    initial_buf: Ghost<Seq<char>>,
    initial_timeout_ms: Ghost<u64>,
    outcomes: Ghost<Seq<Option<GetUpdatesResponse>>>,
}

/// The sleep after a failure that leaves `failures` consecutive failures counted
/// before it: the long backoff on every `MAX_CONSECUTIVE_FAILURES`-th, else the short retry.
pub open spec fn failure_sleep(failures_before: u32) -> u64 {
    if failures_before + 1 >= MAX_CONSECUTIVE_FAILURES {
        BACKOFF_DELAY_MS
    } else {
        RETRY_DELAY_MS
    }
}

/// The failure count after one more failure (reset when the backoff is taken).
pub open spec fn failures_after(failures_before: u32) -> u32 {
    if failures_before + 1 >= MAX_CONSECUTIVE_FAILURES {
        0
    } else {
        (failures_before + 1) as u32
    }
}

/// Whether a response reports an error (`ret` or `errcode` present and non-zero).
pub open spec fn is_error_response(r: GetUpdatesResponse) -> bool {
    (r.ret matches Some(v) && v != 0) || (r.errcode matches Some(v) && v != 0)
}

/// The error code of a response: `errcode`, else `ret`, else 0.
pub open spec fn effective_errcode(r: GetUpdatesResponse) -> i32 {
    match r.errcode {
        Some(e) => e,
        None => match r.ret {
            Some(t) => t,
            None => 0,
        },
    }
}

/// The new sync buffer a successful response carries: `get_updates_buf` when
/// present (the legacy `sync_buf` otherwise), and only when non-empty.
pub open spec fn new_buf_of(r: GetUpdatesResponse) -> Option<Seq<char>> {
    let b = match r.get_updates_buf {
        Some(b) => Some(b@),
        None => opt_view(r.sync_buf),
    };
    match b {
        Some(s) => if s.len() > 0 {
            Some(s)
        } else {
            None
        },
        None => None,
    }
}

/// The next poll timeout: the server's suggestion when positive, else unchanged.
pub open spec fn timeout_after(r: GetUpdatesResponse, current: u64) -> u64 {
    match r.longpolling_timeout_ms {
        Some(t) => if t > 0 {
            t
        } else {
            current
        },
        None => current,
    }
}

/// How long to sleep before polling while the session is paused at `now`.
pub fn paused_sleep(guard: &SessionGuard, now: u64) -> (r: Option<u64>)
    ensures
        paused_at(guard.deadline(), now) ==> r == Some(remaining_at(guard.deadline(), now)),
        !paused_at(guard.deadline(), now) ==> r is None,
{
    if guard.is_paused_at(now) {
        Some(guard.remaining_ms_at(now))
    } else {
        None
    }
}

/// The sync buffer after the poll outcomes `outcomes` (`None`: the poll itself
/// failed): the new buffer of the latest successful reply that carried a
/// non-empty one, else `initial`.
pub open spec fn buf_after(initial: Seq<char>, outcomes: Seq<Option<GetUpdatesResponse>>) -> Seq<char>
    decreases outcomes.len(),
{
    if outcomes.len() == 0 {
        initial
    } else {
        match outcomes.last() {
            Some(r) => if !is_error_response(r) && new_buf_of(r) is Some {
                new_buf_of(r)->0
            } else {
                buf_after(initial, outcomes.drop_last())
            },
            None => buf_after(initial, outcomes.drop_last()),
        }
    }
}

/// The poll timeout after the poll outcomes `outcomes`: the latest positive
/// timeout suggested by any reply (failed replies included), else `initial`.
pub open spec fn timeout_after_outcomes(initial: u64, outcomes: Seq<Option<GetUpdatesResponse>>) -> u64
    decreases outcomes.len(),
{
    if outcomes.len() == 0 {
        initial
    } else {
        match outcomes.last() {
            Some(r) => timeout_after(r, timeout_after_outcomes(initial, outcomes.drop_last())),
            None => timeout_after_outcomes(initial, outcomes.drop_last()),
        }
    }
}

impl MonitorState {
    /// The sync buffer sent with the next poll.
    pub closed spec fn buf(&self) -> Seq<char> {
        self.get_updates_buf@
    }

    /// The timeout of the next poll (ms).
    pub closed spec fn timeout(&self) -> u64 {
        self.next_timeout_ms
    }

    /// Consecutive failures counted so far.
    pub closed spec fn failures(&self) -> u32 {
        self.consecutive_failures
    }

    /// The sync buffer the loop started from.
    pub closed spec fn initial_buf(&self) -> Seq<char> {
        self.initial_buf@
    }

    /// The timeout the loop started with.
    pub closed spec fn initial_timeout(&self) -> u64 {
        self.initial_timeout_ms@
    }

    /// Every poll outcome so far, oldest first: the reply, or `None` when the
    /// poll failed.
    pub closed spec fn outcomes(&self) -> Seq<Option<GetUpdatesResponse>> {
        self.outcomes@
    }

    /// The failure count stays below the backoff threshold.
    pub open spec fn wf(&self) -> bool {
        self.failures() < MAX_CONSECUTIVE_FAILURES
    }

    /// The buffer and timeout of the next poll are those the outcomes so far give.
    pub open spec fn follows_outcomes(&self) -> bool {
        &&& self.buf() == buf_after(self.initial_buf(), self.outcomes())
        &&& self.timeout() == timeout_after_outcomes(self.initial_timeout(), self.outcomes())
    }

    /// Every state keeps its failure count below the backoff threshold, and its
    /// buffer and timeout follow from the outcomes seen.
    #[verifier::type_invariant]
    spec fn state_inv(self) -> bool {
        &&& self.consecutive_failures < MAX_CONSECUTIVE_FAILURES
        &&& self.get_updates_buf@ == buf_after(self.initial_buf@, self.outcomes@)
        &&& self.next_timeout_ms == timeout_after_outcomes(self.initial_timeout_ms@, self.outcomes@)
    }

    /// Start state: the saved sync buffer (empty when none) and the initial timeout.
    pub fn new(initial_sync_buf: Option<String>, initial_timeout_ms: u64) -> (s: Self)
        ensures
            s.wf(),
            s.follows_outcomes(),
            s.buf() == match opt_view(initial_sync_buf) {
                Some(b) => b,
                None => Seq::<char>::empty(),
            },
            s.initial_buf() == s.buf(),
            s.timeout() == initial_timeout_ms,
            s.initial_timeout() == initial_timeout_ms,
            s.outcomes() == Seq::<Option<GetUpdatesResponse>>::empty(),
            s.failures() == 0,
    {
        let buf = match initial_sync_buf {
            Some(b) => b,
            None => String::new(),
        };
        let ghost b = buf@;
        MonitorState {
            get_updates_buf: buf,
            next_timeout_ms: initial_timeout_ms,
            consecutive_failures: 0,
            initial_buf: Ghost(b),
            initial_timeout_ms: Ghost(initial_timeout_ms),
            outcomes: Ghost(Seq::empty()),
        }
    }

    /// The timeout for the next poll (ms): the latest positive timeout a reply
    /// suggested, else the initial one.
    pub fn timeout_ms(&self) -> (t: u64)
        ensures
            t == self.timeout(),
            t == timeout_after_outcomes(self.initial_timeout(), self.outcomes()),
    {
        proof {
            use_type_invariant(self);
        }
        self.next_timeout_ms
    }

    /// The request of the next poll: the buffer of the latest successful reply
    /// that carried a non-empty one, else the initial buffer.
    pub fn poll_request(&self) -> (req: GetUpdatesRequest)
        ensures
            req.get_updates_buf@ == self.buf(),
            req.get_updates_buf@ == buf_after(self.initial_buf(), self.outcomes()),
            is_current_base_info(req.base_info),
    {
        proof {
            use_type_invariant(self);
        }
        GetUpdatesRequest { get_updates_buf: self.get_updates_buf.clone(), base_info: build_base_info() }
    }

    /// The poll failed (transport error): count it and return how long to sleep.
    pub fn on_poll_failure(&mut self) -> (sleep_ms: u64)
        ensures
            final(self).wf(),
            final(self).follows_outcomes(),
            sleep_ms == failure_sleep(old(self).failures()),
            final(self).failures() == failures_after(old(self).failures()),
            final(self).buf() == old(self).buf(),
            final(self).timeout() == old(self).timeout(),
            final(self).outcomes() == old(self).outcomes().push(None),
            final(self).initial_buf() == old(self).initial_buf(),
            final(self).initial_timeout() == old(self).initial_timeout(),
    {
        proof {
            use_type_invariant(&*self);
        }
        let ghost outcomes = self.outcomes@.push(None);
        let n: u32 = self.consecutive_failures + 1;
        let (failures, sleep_ms) = if n >= MAX_CONSECUTIVE_FAILURES {
            (0u32, BACKOFF_DELAY_MS)
        } else {
            (n, RETRY_DELAY_MS)
        };
        proof {
            assert(outcomes.drop_last() =~= self.outcomes@);
        }
        let buf = self.get_updates_buf.clone();
        *self = MonitorState {
            get_updates_buf: buf,
            next_timeout_ms: self.next_timeout_ms,
            consecutive_failures: failures,
            initial_buf: Ghost(self.initial_buf@),
            initial_timeout_ms: Ghost(self.initial_timeout_ms@),
            outcomes: Ghost(outcomes),
        };
        sleep_ms
    }

    /// A response arrived at `now`: adopt a positive suggested timeout, then
    /// pause the session on the session-expired code, count other errors, or
    /// accept a success (resetting the failure count and taking a new non-empty
    /// sync buffer).
    pub fn on_response(&mut self, resp: &GetUpdatesResponse, guard: &mut SessionGuard, now: u64) -> (action: ResponseAction)
        ensures
            final(self).wf(),
            final(self).follows_outcomes(),
            final(self).outcomes() == old(self).outcomes().push(Some(*resp)),
            final(self).initial_buf() == old(self).initial_buf(),
            final(self).initial_timeout() == old(self).initial_timeout(),
            final(self).timeout() == timeout_after(*resp, old(self).timeout()),
            is_error_response(*resp) && effective_errcode(*resp) == SESSION_EXPIRED_ERRCODE ==> {
                &&& final(guard).deadline() == pause_deadline(now)
                &&& final(self).failures() == 0
                &&& final(self).buf() == old(self).buf()
                &&& action matches ResponseAction::PauseSession { sleep_ms }
                &&& sleep_ms == remaining_at(pause_deadline(now), now)
            },
            is_error_response(*resp) && effective_errcode(*resp) != SESSION_EXPIRED_ERRCODE ==> {
                &&& final(guard).deadline() == old(guard).deadline()
                &&& final(self).failures() == failures_after(old(self).failures())
                &&& final(self).buf() == old(self).buf()
                &&& action matches ResponseAction::Retry { sleep_ms }
                &&& sleep_ms == failure_sleep(old(self).failures())
            },
            !is_error_response(*resp) ==> {
                &&& final(guard).deadline() == old(guard).deadline()
                &&& final(self).failures() == 0
                &&& final(self).buf() == match new_buf_of(*resp) {
                    Some(b) => b,
                    None => old(self).buf(),
                }
                &&& action matches ResponseAction::Deliver { new_sync_buf }
                &&& opt_view(new_sync_buf) == new_buf_of(*resp)
            },
    {
        proof {
            use_type_invariant(&*self);
        }
        let ghost outcomes = self.outcomes@.push(Some(*resp));
        proof {
            assert(outcomes.drop_last() =~= self.outcomes@);
        }
        let mut timeout = self.next_timeout_ms;
        if let Some(t) = resp.longpolling_timeout_ms {
            if t > 0 {
                timeout = t;
            }
        }
        let ret_err = match resp.ret {
            Some(v) => v != 0,
            None => false,
        };
        let code_err = match resp.errcode {
            Some(v) => v != 0,
            None => false,
        };
        let mut failures: u32 = 0;
        let mut buf = self.get_updates_buf.clone();
        let action;
        if ret_err || code_err {
            let errcode = match resp.errcode {
                Some(e) => e,
                None => match resp.ret {
                    Some(t) => t,
                    None => 0,
                },
            };
            if errcode == SESSION_EXPIRED_ERRCODE {
                guard.pause_at(now);
                let remaining = guard.remaining_ms_at(now);
                action = ResponseAction::PauseSession { sleep_ms: remaining };
            } else {
                let n: u32 = self.consecutive_failures + 1;
                let sleep_ms = if n >= MAX_CONSECUTIVE_FAILURES {
                    BACKOFF_DELAY_MS
                } else {
                    failures = n;
                    RETRY_DELAY_MS
                };
                action = ResponseAction::Retry { sleep_ms };
            }
        } else {
            let candidate = match &resp.get_updates_buf {
                Some(b) => Some(b),
                None => match &resp.sync_buf {
                    Some(b) => Some(b),
                    None => None,
                },
            };
            let new_buf = match candidate {
                Some(b) => if b.as_str().is_empty() {
                    None
                } else {
                    Some(b.clone())
                },
                None => None,
            };
            if let Some(b) = &new_buf {
                buf = b.clone();
            }
            action = ResponseAction::Deliver { new_sync_buf: new_buf };
        }
        *self = MonitorState {
            get_updates_buf: buf,
            next_timeout_ms: timeout,
            consecutive_failures: failures,
            initial_buf: Ghost(self.initial_buf@),
            initial_timeout_ms: Ghost(self.initial_timeout_ms@),
            outcomes: Ghost(outcomes),
        };
        action
    }
}

/// The failure count never reaches the backoff threshold, and every
/// `MAX_CONSECUTIVE_FAILURES`-th consecutive failure takes the long backoff and
/// starts counting afresh; the others take the short retry.
pub proof fn law_failure_backoff(failures_before: u32)
    requires
        failures_before < MAX_CONSECUTIVE_FAILURES,
    ensures
        failures_after(failures_before) < MAX_CONSECUTIVE_FAILURES,
        failures_before + 1 == MAX_CONSECUTIVE_FAILURES ==> failure_sleep(failures_before)
            == BACKOFF_DELAY_MS && failures_after(failures_before) == 0,
        failures_before + 1 < MAX_CONSECUTIVE_FAILURES ==> failure_sleep(failures_before)
            == RETRY_DELAY_MS && failures_after(failures_before) == failures_before + 1,
{
}

/// The sync buffer is replaced only by a non-empty buffer, so once non-empty it stays non-empty.
pub proof fn law_buf_never_emptied(r: GetUpdatesResponse, old_buf: Seq<char>)
    ensures
        new_buf_of(r) matches Some(b) ==> b.len() > 0,
        old_buf.len() > 0 ==> (match new_buf_of(r) {
            Some(b) => b,
            None => old_buf,
        }).len() > 0,
{
}

/// The poll timeout only ever changes to a positive value suggested by the server.
pub proof fn law_timeout_positive(r: GetUpdatesResponse, current: u64)
    ensures
        current > 0 ==> timeout_after(r, current) > 0,
        timeout_after(r, current) != current ==> r.longpolling_timeout_ms == Some(timeout_after(r, current)),
{
}

/// A positive timeout suggested by a reply becomes the next poll's timeout,
/// whatever the current one (shorter or longer); a reply that suggests none or
/// zero leaves it as it was, and so does a failed poll.
pub proof fn law_suggested_timeout_adopted(
    r: GetUpdatesResponse,
    current: u64,
    initial: u64,
    outcomes: Seq<Option<GetUpdatesResponse>>,
)
    ensures
        r.longpolling_timeout_ms matches Some(t) ==> (t > 0 ==> timeout_after(r, current) == t),
        r.longpolling_timeout_ms matches Some(t) ==> (t > 0 ==> timeout_after_outcomes(
            initial,
            outcomes.push(Some(r)),
        ) == t),
        (r.longpolling_timeout_ms is None || r.longpolling_timeout_ms == Some(0u64))
            ==> timeout_after(r, current) == current,
        timeout_after_outcomes(initial, outcomes.push(None)) == timeout_after_outcomes(
            initial,
            outcomes,
        ),
{
    assert(outcomes.push(Some(r)).drop_last() =~= outcomes);
    assert(outcomes.push(None).drop_last() =~= outcomes);
}

} // verus!
