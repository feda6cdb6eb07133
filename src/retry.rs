//! Throttle-aware retrying of one request, and the page-level retry of
//! undecodable bodies, as state machines: the caller performs each attempt
//! and hands its outcome to `step`, which says what to do next.

use vstd::prelude::*;
use crate::error::Error;

verus! {

/// Attempts allowed for one logical request (and for one page fetch).
pub const MAX_ATTEMPTS: u8 = 5;

/// The "too many requests" status.
pub const TOO_MANY_REQUESTS: u16 = 429;

/// A client (4xx) or server (5xx) error status.
pub open spec fn is_failure_status(status: u16) -> bool {
    400 <= status < 600
}

/// An ASCII decimal digit.
pub open spec fn is_digit(b: u8) -> bool {
    48 <= b <= 57
}

/// Every byte is an ASCII decimal digit.
pub open spec fn all_digits(s: Seq<u8>) -> bool {
    forall|i: int| 0 <= i < s.len() ==> is_digit(#[trigger] s[i])
}

/// The number that a string of decimal digits denotes.
pub open spec fn digits_value(s: Seq<u8>) -> nat
    decreases s.len(),
{
    if s.len() == 0 {
        0
    } else {
        digits_value(s.drop_last()) * 10 + (s.last() - 48) as nat
    }
}

/// The digits of a hint: the bytes after an optional leading `+`.
pub open spec fn hint_digits(s: Seq<u8>) -> Seq<u8> {
    if s.len() > 0 && s[0] == 43 {
        s.drop_first()
    } else {
        s
    }
}

/// The wait, in whole seconds, that a `Retry-After` header value asks for:
/// the value read as text and parsed as an unsigned 64-bit integer (an
/// optional `+`, then one or more decimal digits, in range). `None` when
/// it is not such a number.
pub open spec fn retry_hint(s: Seq<u8>) -> Option<u64> {
    let d = hint_digits(s);
    if d.len() > 0 && all_digits(d) && digits_value(d) <= u64::MAX {
        Some(digits_value(d) as u64)
    } else {
        None
    }
}

proof fn lemma_prefix_value_le(s: Seq<u8>, i: int)
    requires
        all_digits(s),
        0 <= i <= s.len(),
    ensures
        digits_value(s.take(i)) <= digits_value(s),
    decreases s.len(),
{
    if i < s.len() {
        assert(all_digits(s.drop_last()));
        lemma_prefix_value_le(s.drop_last(), i);
        assert(s.drop_last().take(i) =~= s.take(i));
    } else {
        assert(s.take(i) =~= s);
    }
}

/// Reads a `Retry-After` header value as a whole number of seconds.
pub fn parse_retry_after(value: &[u8]) -> (r: Option<u64>)
    ensures
        r == retry_hint(value@),
{
    let ghost d = hint_digits(value@);
    let start: usize = if value.len() > 0 && value[0] == 43 { 1 } else { 0 };
    if start >= value.len() {
        return None;
    }
    let mut total: u64 = 0;
    let mut i: usize = start;
    while i < value.len()
        invariant
            start <= i <= value@.len(),
            d == hint_digits(value@),
            d =~= value@.subrange(start as int, value@.len() as int),
            all_digits(d.take(i - start)),
            total as nat == digits_value(d.take(i - start)),
        decreases value@.len() - i,
    {
        let b = value[i];
        assert(d[i - start] == b);
        if b < 48 || b > 57 {
            assert(!is_digit(d[i - start]));
            assert(!all_digits(d));
            return None;
        }
        let digit: u64 = (b - 48) as u64;
        let ghost next = d.take(i - start + 1);
        assert(next.drop_last() =~= d.take(i - start));
        assert(next.last() == b);
        assert(digits_value(next) == digits_value(d.take(i - start)) * 10 + (b - 48) as nat);
        if total > (u64::MAX - digit) / 10 {
            proof {
                assert(digits_value(next) > u64::MAX) by (nonlinear_arith)
                    requires
                        digits_value(next) == total * 10 + digit,
                        total > (u64::MAX - digit) / 10,
                        digit <= 9,
                ;
                if all_digits(d) {
                    lemma_prefix_value_le(d, i - start + 1);
                    assert(digits_value(d) > u64::MAX);
                }
                assert(retry_hint(value@) is None);
            }
            return None;
        }
        assert(total * 10 + digit <= u64::MAX) by (nonlinear_arith)
            requires
                total <= (u64::MAX - digit) / 10,
                digit <= 9,
        ;
        total = total * 10 + digit;
        i = i + 1;
    }
    assert(d.take(i - start) =~= d);
    Some(total)
}

/// What one attempt of a request came back with.
pub enum Reply<R> {
    /// The request could not be carried out; the transport's message.
    Unreachable(String),
    /// The server answered.
    Received { status: u16, retry_after: Option<Vec<u8>>, response: R },
}

/// What to do after an attempt.
#[derive(Debug, PartialEq)]
pub enum RetryAction<R> {
    /// Success: hand the response to the caller.
    Deliver(R),
    /// Throttled: wait this many seconds, then make the next attempt.
    WaitThenRetry(u64),
    /// Throttled without a usable hint: make the next attempt at once.
    RetryNow,
    /// Give up with this error.
    Fail(Error),
}

/// The wait hint of an optional header value.
pub open spec fn header_hint(h: Option<Vec<u8>>) -> Option<u64> {
    match h {
        Some(v) => retry_hint(v@),
        None => None,
    }
}

/// What to do after the attempt numbered `attempt` (from 0) came back with
/// `reply`.
pub open spec fn next_action<R>(attempt: nat, reply: Reply<R>) -> RetryAction<R> {
    if attempt >= MAX_ATTEMPTS {
        RetryAction::Fail(Error::RetryBudgetExhausted)
    } else {
        match reply {
            Reply::Unreachable(msg) => RetryAction::Fail(Error::TransportFailure(msg)),
            Reply::Received { status, retry_after, response } => {
                if !is_failure_status(status) {
                    RetryAction::Deliver(response)
                } else if status == TOO_MANY_REQUESTS {
                    let last = attempt + 1 >= MAX_ATTEMPTS;
                    match header_hint(retry_after) {
                        Some(n) => if last {
                            RetryAction::Fail(Error::RetryBudgetExhausted)
                        } else {
                            RetryAction::WaitThenRetry(n)
                        },
                        None => if last {
                            RetryAction::Fail(Error::MissingRetryHint)
                        } else {
                            RetryAction::RetryNow
                        },
                    }
                } else {
                    RetryAction::Fail(Error::NonRetryableStatus(status))
                }
            },
        }
    }
}

/// The action leads to another attempt.
pub open spec fn continues<R>(a: RetryAction<R>) -> bool {
    a is WaitThenRetry || a is RetryNow
}

/// How many attempts a request makes, from attempt number `attempt` on,
/// when its attempts come back with `replies` in turn (counting only those
/// it gets to).
pub open spec fn attempts_made<R>(attempt: nat, replies: Seq<Reply<R>>) -> nat
    decreases replies.len(),
{
    if replies.len() == 0 {
        0
    } else if continues(next_action(attempt, replies[0])) {
        1 + attempts_made(attempt + 1, replies.drop_first())
    } else {
        1
    }
}

/// The retry state of one logical request.
pub struct RequestRetry {
    attempts: u8,
}

impl RequestRetry {
    /// Attempts made so far.
    pub closed spec fn attempts(&self) -> nat {
        self.attempts as nat
    }

    /// No attempt made yet.
    pub fn new() -> (r: Self)
        ensures
            r.attempts() == 0,
    {
        RequestRetry { attempts: 0 }
    }

    /// Attempts made so far.
    pub fn attempts_made(&self) -> (r: u8)
        ensures
            r as nat == self.attempts(),
    {
        self.attempts
    }

    /// Takes in what the latest attempt came back with and says what to do
    /// next.
    pub fn step<R>(&mut self, reply: Reply<R>) -> (r: RetryAction<R>)
        ensures
            r == next_action(old(self).attempts(), reply),
            final(self).attempts() == if old(self).attempts() < MAX_ATTEMPTS {
                old(self).attempts() + 1
            } else {
                old(self).attempts()
            },
    {
        if self.attempts >= MAX_ATTEMPTS {
            return RetryAction::Fail(Error::RetryBudgetExhausted);
        }
        let last = self.attempts + 1 >= MAX_ATTEMPTS;
        self.attempts = self.attempts + 1;
        match reply {
            Reply::Unreachable(msg) => RetryAction::Fail(Error::TransportFailure(msg)),
            Reply::Received { status, retry_after, response } => {
                if !(400 <= status && status < 600) {
                    RetryAction::Deliver(response)
                } else if status == TOO_MANY_REQUESTS {
                    let hint = match &retry_after {
                        Some(v) => parse_retry_after(v.as_slice()),
                        None => None,
                    };
                    match hint {
                        Some(n) => if last {
                            RetryAction::Fail(Error::RetryBudgetExhausted)
                        } else {
                            RetryAction::WaitThenRetry(n)
                        },
                        None => if last {
                            RetryAction::Fail(Error::MissingRetryHint)
                        } else {
                            RetryAction::RetryNow
                        },
                    }
                } else {
                    RetryAction::Fail(Error::NonRetryableStatus(status))
                }
            },
        }
    }
}

/// From attempt number `attempt` on (below the budget), a request makes at
/// most the remaining number of attempts.
proof fn lemma_attempts_from<R>(attempt: nat, replies: Seq<Reply<R>>)
    requires
        attempt < MAX_ATTEMPTS,
    ensures
        attempts_made(attempt, replies) <= MAX_ATTEMPTS - attempt,
    decreases replies.len(),
{
    if replies.len() > 0 && continues(next_action(attempt, replies[0])) {
        lemma_attempts_from(attempt + 1, replies.drop_first());
    }
}

/// Whatever its attempts come back with, a request makes at most
/// `MAX_ATTEMPTS` attempts.
pub proof fn lemma_attempts_bounded<R>(replies: Seq<Reply<R>>)
    ensures
        attempts_made(0, replies) <= MAX_ATTEMPTS,
{
    lemma_attempts_from(0, replies);
}

/// A throttled reply with a usable hint of `n` seconds makes the request
/// wait exactly `n` seconds before its next attempt, when one is left;
/// after the last allowed attempt the request fails with
/// `RetryBudgetExhausted`.
pub proof fn lemma_throttle_waits_for_hint<R>(
    attempt: nat,
    retry_after: Vec<u8>,
    response: R,
    n: u64,
)
    requires
        attempt < MAX_ATTEMPTS,
        retry_hint(retry_after@) == Some(n),
    ensures
        next_action(
            attempt,
            Reply::Received { status: TOO_MANY_REQUESTS, retry_after: Some(retry_after), response },
        ) == if attempt + 1 < MAX_ATTEMPTS {
            RetryAction::<R>::WaitThenRetry(n)
        } else {
            RetryAction::<R>::Fail(Error::RetryBudgetExhausted)
        },
{
}

/// A failure status other than "too many requests" ends the request at
/// once with `NonRetryableStatus`: exactly one attempt, no wait, whatever
/// would have come after.
pub proof fn lemma_failure_status_is_final<R>(
    attempt: nat,
    status: u16,
    retry_after: Option<Vec<u8>>,
    response: R,
    later: Seq<Reply<R>>,
)
    requires
        attempt < MAX_ATTEMPTS,
        is_failure_status(status),
        status != TOO_MANY_REQUESTS,
    ensures
        next_action(attempt, Reply::Received { status, retry_after, response })
            == RetryAction::<R>::Fail(Error::NonRetryableStatus(status)),
        attempts_made(attempt, seq![Reply::Received { status, retry_after, response }] + later)
            == 1,
{
    let replies = seq![Reply::Received { status, retry_after, response }] + later;
    assert(replies[0] == Reply::Received { status, retry_after, response });
}

/// What to do after a page's body was decoded, or failed to decode.
#[derive(Debug, PartialEq)]
pub enum PageAction<T> {
    /// The page decoded: hand it to the caller.
    Accept(T),
    /// Fetch the page again, request included.
    Retry,
    /// Give up with this error.
    Fail(Error),
}

/// What to do after page attempt number `attempt` (from 0) decoded to
/// `decoded`.
pub open spec fn next_page_action<T>(attempt: nat, decoded: Result<T, String>) -> PageAction<T> {
    if attempt >= MAX_ATTEMPTS {
        PageAction::Fail(Error::RetryBudgetExhausted)
    } else {
        match decoded {
            Ok(page) => PageAction::Accept(page),
            Err(msg) => if attempt + 1 < MAX_ATTEMPTS {
                PageAction::Retry
            } else {
                PageAction::Fail(Error::DecodeFailure(msg))
            },
        }
    }
}

/// The retry state of one page fetch, over bodies that fail to decode.
pub struct PageRetry {
    attempts: u8,
}

impl PageRetry {
    /// Page attempts made so far.
    pub closed spec fn attempts(&self) -> nat {
        self.attempts as nat
    }

    /// No page attempt made yet.
    pub fn new() -> (r: Self)
        ensures
            r.attempts() == 0,
    {
        PageRetry { attempts: 0 }
    }

    /// Takes in the outcome of decoding the latest page attempt's body (the
    /// page, or the decoder's message) and says what to do next.
    pub fn after_decode<T>(&mut self, decoded: Result<T, String>) -> (r: PageAction<T>)
        ensures
            r == next_page_action(old(self).attempts(), decoded),
            final(self).attempts() == if old(self).attempts() < MAX_ATTEMPTS {
                old(self).attempts() + 1
            } else {
                old(self).attempts()
            },
    {
        if self.attempts >= MAX_ATTEMPTS {
            return PageAction::Fail(Error::RetryBudgetExhausted);
        }
        let last = self.attempts + 1 >= MAX_ATTEMPTS;
        self.attempts = self.attempts + 1;
        match decoded {
            Ok(page) => PageAction::Accept(page),
            Err(msg) => if last {
                PageAction::Fail(Error::DecodeFailure(msg))
            } else {
                PageAction::Retry
            },
        }
    }
}

} // verus!
