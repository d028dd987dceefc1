//! Typing-ticket cache decisions: refresh times and exponential-backoff retry.
//!
//! The cache holds one [`CacheEntry`] per user. Before each use the caller asks
//! [`should_fetch`]; after a `getConfig` attempt it stores [`entry_after_fetch`].
use vstd::prelude::*;
use vstd::string::StringExecFns;
use crate::types::{GetConfigResponse, CONFIG_CACHE_TTL_MS};
use crate::util::text::opt_view;

verus! {

/// Retry delay after the first failure.
pub const INITIAL_RETRY_MS: u64 = 2_000;
/// Largest retry delay.
pub const MAX_RETRY_MS: u64 = 3_600_000;

/// Cached ticket of one user.
#[derive(Debug)]
pub struct CacheEntry {
    /// The last ticket obtained (empty before any success).
    pub typing_ticket: String,
    /// Time (ms) from which the ticket is fetched again.
    pub next_fetch_at: u64,
    /// Delay (ms) that the next failure doubles.
    pub retry_delay_ms: u64,
}

/// The retry delay stays between the initial and the largest delay.
pub open spec fn delay_in_bounds(d: u64) -> bool {
    INITIAL_RETRY_MS <= d <= MAX_RETRY_MS
}

/// Whether a fetch is due at `now`: no entry yet, or its refresh time has come.
pub open spec fn spec_should_fetch(entry: Option<&CacheEntry>, now: u64) -> bool {
    match entry {
        None => true,
        Some(e) => now >= e.next_fetch_at,
    }
}

/// Whether a fetch is due at `now`.
pub fn should_fetch(entry: Option<&CacheEntry>, now: u64) -> (r: bool)
    ensures
        r == spec_should_fetch(entry, now),
{
    match entry {
        None => true,
        Some(e) => now >= e.next_fetch_at,
    }
}

/// A `getConfig` attempt counts as a success when the call returned and `ret` is 0.
pub open spec fn fetch_succeeded(outcome: Option<&GetConfigResponse>) -> bool {
    outcome matches Some(resp) && resp.ret == Some(0i32)
}

/// A retry delay doubled, capped at the largest delay.
pub open spec fn next_delay(d: u64) -> u64 {
    if 2 * d <= MAX_RETRY_MS {
        (2 * d) as u64
    } else {
        MAX_RETRY_MS
    }
}

/// The delay that a failure sets: the previous delay doubled (the initial delay
/// when there is no entry), capped at the largest delay.
pub open spec fn delay_after_failure(prev: Option<&CacheEntry>) -> u64 {
    next_delay(
        match prev {
            Some(e) => e.retry_delay_ms,
            None => INITIAL_RETRY_MS,
        },
    )
}

/// The delay after `k` consecutive failures that follow a success (or the first
/// fetch of a user): each failure applies [`next_delay`].
pub open spec fn delay_after_failures(k: nat) -> u64
    decreases k,
{
    if k == 0 {
        INITIAL_RETRY_MS
    } else {
        next_delay(delay_after_failures((k - 1) as nat))
    }
}

/// `2^k`.
pub open spec fn two_to(k: nat) -> nat
    decreases k,
{
    if k == 0 {
        1
    } else {
        2 * two_to((k - 1) as nat)
    }
}

/// What the caller may pass: delays that double without overflow, times that do
/// not overflow when the next refresh time is computed, and, after a success, a
/// jitter below the cache TTL.
pub open spec fn fetch_inputs_ok(
    prev: Option<&CacheEntry>,
    now: u64,
    outcome: Option<&GetConfigResponse>,
    jitter: u64,
) -> bool {
    if fetch_succeeded(outcome) {
        &&& jitter < CONFIG_CACHE_TTL_MS
        &&& now + jitter <= u64::MAX
    } else {
        &&& prev matches Some(e) ==> 2 * e.retry_delay_ms <= u64::MAX
        &&& now + delay_after_failure(prev) <= u64::MAX
    }
}

/// The entry to store after a `getConfig` attempt at `now`.
///
/// `outcome` is the response (`None` when the call failed); `jitter` (a random
/// share of the cache TTL) staggers the next refresh after a success.
pub fn entry_after_fetch(
    prev: Option<&CacheEntry>,
    now: u64,
    outcome: Option<&GetConfigResponse>,
    jitter: u64,
) -> (e: CacheEntry)
    requires
        fetch_inputs_ok(prev, now, outcome, jitter),
    ensures
        fetch_succeeded(outcome) ==> {
            &&& e.typing_ticket@ == match outcome->0.typing_ticket {
                Some(t) => t@,
                None => Seq::<char>::empty(),
            }
            &&& e.next_fetch_at == now + jitter
            &&& now <= e.next_fetch_at < now + CONFIG_CACHE_TTL_MS
            &&& e.retry_delay_ms == INITIAL_RETRY_MS
        },
        !fetch_succeeded(outcome) ==> {
            &&& e.typing_ticket@ == match prev {
                Some(p) => p.typing_ticket@,
                None => Seq::<char>::empty(),
            }
            &&& e.retry_delay_ms == delay_after_failure(prev)
            &&& e.next_fetch_at == now + delay_after_failure(prev)
        },
{
    let ok = match outcome {
        Some(resp) => match resp.ret {
            Some(r) => r == 0,
            None => false,
        },
        None => false,
    };
    if ok {
        let resp = outcome.unwrap();
        let ticket = match &resp.typing_ticket {
            Some(t) => t.clone(),
            None => String::new(),
        };
        return CacheEntry {
            typing_ticket: ticket,
            next_fetch_at: now + jitter,
            retry_delay_ms: INITIAL_RETRY_MS,
        };
    }
    let (ticket, delay) = match prev {
        Some(p) => (p.typing_ticket.clone(), p.retry_delay_ms),
        None => (String::new(), INITIAL_RETRY_MS),
    };
    let doubled = delay * 2;
    let next_delay = if doubled <= MAX_RETRY_MS {
        doubled
    } else {
        MAX_RETRY_MS
    };
    CacheEntry { typing_ticket: ticket, next_fetch_at: now + next_delay, retry_delay_ms: next_delay }
}

/// The ticket the cache answers with: the stored one, if any.
pub fn cached_ticket(entry: Option<&CacheEntry>) -> (r: Option<String>)
    ensures
        opt_view(r) == match entry {
            Some(e) => Some(e.typing_ticket@),
            None => None,
        },
{
    match entry {
        Some(e) => Some(e.typing_ticket.clone()),
        None => None,
    }
}

/// The retry delay of every stored entry stays within bounds: a success resets it
/// to the initial delay, and a failure from an in-bounds (or absent) entry keeps it
/// in bounds, never shorter than before.
pub proof fn law_retry_delay_bounded(prev: Option<&CacheEntry>)
    requires
        prev matches Some(e) ==> delay_in_bounds(e.retry_delay_ms),
    ensures
        delay_in_bounds(INITIAL_RETRY_MS),
        delay_in_bounds(delay_after_failure(prev)),
        prev matches Some(e) ==> e.retry_delay_ms <= delay_after_failure(prev),
{
}

/// Each failure doubles the delay until it reaches the cap, where it stays.
pub proof fn law_backoff_doubles(e: &CacheEntry)
    requires
        delay_in_bounds(e.retry_delay_ms),
    ensures
        2 * e.retry_delay_ms <= MAX_RETRY_MS ==> delay_after_failure(Some(e)) == 2
            * e.retry_delay_ms,
        e.retry_delay_ms == MAX_RETRY_MS ==> delay_after_failure(Some(e)) == MAX_RETRY_MS,
{
}

/// An entry is not fetched again before its refresh time, and is fetched from then on.
pub proof fn law_no_fetch_before_due(e: &CacheEntry, now: u64)
    ensures
        now < e.next_fetch_at ==> !spec_should_fetch(Some(e), now),
        now >= e.next_fetch_at ==> spec_should_fetch(Some(e), now),
{
}

/// The `k`-th consecutive failure waits `min(2_000 * 2^k, 3_600_000)` ms before
/// the next fetch.
pub proof fn law_consecutive_failures(k: nat)
    ensures
        delay_after_failures(k) == if INITIAL_RETRY_MS * two_to(k) <= MAX_RETRY_MS {
            INITIAL_RETRY_MS * two_to(k)
        } else {
            MAX_RETRY_MS as int
        },
    decreases k,
{
    if k > 0 {
        law_consecutive_failures((k - 1) as nat);
        assert(two_to(k) == 2 * two_to((k - 1) as nat));
        assert(two_to((k - 1) as nat) >= 1) by {
            lemma_two_to_positive((k - 1) as nat);
        }
    }
}

proof fn lemma_two_to_positive(k: nat)
    ensures
        two_to(k) >= 1,
    decreases k,
{
    if k > 0 {
        lemma_two_to_positive((k - 1) as nat);
    }
}

} // verus!
