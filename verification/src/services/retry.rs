//! Retry policy of the transfer: which failures are transient, and how long
//! to wait before the next attempt.
use vstd::prelude::*;

use rand::Rng;

use crate::domain::errors::{AppError, IoErrorKind, RequestFailure};
use crate::text::{
    chars_of, contains, contains_exec, copy_range, is_whitespace, is_ws, parse_unsigned,
    parse_unsigned_exec, to_lowercase, unicode_lowercase,
};

verus! {

/// Number of leading characters of `s` that are not whitespace.
pub open spec fn word_len(s: Seq<char>) -> nat
    decreases s.len(),
{
    if s.len() == 0 || is_ws(s[0]) {
        0
    } else {
        1 + word_len(s.drop_first())
    }
}

/// The length of the first word is at most the length of the text.
pub proof fn lemma_word_len_bounds(s: Seq<char>)
    ensures
        word_len(s) <= s.len(),
    decreases s.len(),
{
    if s.len() > 0 && !is_ws(s[0]) {
        lemma_word_len_bounds(s.drop_first());
    }
}

/// The first whitespace-separated word of `s` that reads as a `u16`
/// (`split_whitespace` followed by `find_map(parse::<u16>)`).
pub open spec fn first_code(s: Seq<char>) -> Option<u16>
    decreases s.len(),
{
    if s.len() == 0 {
        None
    } else if is_ws(s[0]) {
        first_code(s.drop_first())
    } else {
        let n = word_len(s);
        proof {
            lemma_word_len_bounds(s);
        }
        match parse_unsigned(s.take(n as int), 65535) {
            Some(v) => Some(v as u16),
            None => first_code(s.skip(n as int)),
        }
    }
}

/// HTTP statuses worth retrying: request timeout, too many requests, server errors.
pub open spec fn status_retryable(code: u16) -> bool {
    code == 408 || code == 429 || code >= 500
}

/// A network error message describes a transient failure.
pub open spec fn network_message_retryable(message: Seq<char>) -> bool {
    let msg = unicode_lowercase(message);
    ||| contains(msg, "timeout"@)
    ||| contains(msg, "temporarily"@)
    ||| contains(msg, "connection"@)
    ||| contains(msg, "reset"@)
    ||| (first_code(msg) matches Some(c) && status_retryable(c))
}

/// Whether a failed upload attempt may be retried.
pub open spec fn retryable(e: AppError) -> bool {
    match e {
        AppError::Network(m) => network_message_retryable(m@),
        AppError::Reqwest(f) => f.is_timeout || f.is_connect || (f.status matches Some(s)
            && status_retryable(s)),
        AppError::Io(kind, _) => match kind {
            IoErrorKind::TimedOut => true,
            IoErrorKind::ConnectionReset => true,
            IoErrorKind::ConnectionAborted => true,
            IoErrorKind::WouldBlock => true,
            IoErrorKind::Interrupted => true,
            _ => false,
        },
        _ => false,
    }
}

fn status_retryable_exec(code: u16) -> (r: bool)
    ensures
        r == status_retryable(code),
{
    code == 408 || code == 429 || code >= 500
}

/// Whether a failed upload attempt may be retried.
pub fn is_retryable(err: &AppError) -> (r: bool)
    ensures
        r == retryable(*err),
{
    match err {
        AppError::Network(message) => {
            let lowered = to_lowercase(message.as_str());
            let msg = chars_of(lowered.as_str());
            if contains_exec(&msg, &chars_of("timeout")) || contains_exec(
                &msg,
                &chars_of("temporarily"),
            ) || contains_exec(&msg, &chars_of("connection")) || contains_exec(
                &msg,
                &chars_of("reset"),
            ) {
                return true;
            }
            match extract_http_code(lowered.as_str()) {
                Some(code) => status_retryable_exec(code),
                None => false,
            }
        },
        AppError::Reqwest(f) => {
            if f.is_timeout || f.is_connect {
                return true;
            }
            match f.status {
                Some(status) => status_retryable_exec(status),
                None => false,
            }
        },
        AppError::Io(kind, _) => match kind {
            IoErrorKind::TimedOut => true,
            IoErrorKind::ConnectionReset => true,
            IoErrorKind::ConnectionAborted => true,
            IoErrorKind::WouldBlock => true,
            IoErrorKind::Interrupted => true,
            _ => false,
        },
        _ => false,
    }
}

proof fn lemma_word_len_at(s: Seq<char>, i: int, end: int)
    requires
        0 <= i <= end <= s.len(),
        forall|k: int| i <= k < end ==> !is_ws(#[trigger] s[k]),
        end == s.len() || is_ws(s[end]),
    ensures
        word_len(s.skip(i)) == end - i,
    decreases end - i,
{
    let t = s.skip(i);
    if i == end {
        if end < s.len() {
            assert(t[0] == s[end]);
        }
    } else {
        assert(t[0] == s[i]);
        lemma_word_len_at(s, i + 1, end);
        assert(t.drop_first() =~= s.skip(i + 1));
    }
}

/// A failed request that carries an HTTP status, and neither timed out nor
/// failed to connect, is retried exactly when the status is 408 (request
/// timeout), 429 (too many requests) or any status from 500 upward.
pub proof fn law_request_status_decides_retry(f: RequestFailure, code: u16)
    requires
        !f.is_timeout,
        !f.is_connect,
        f.status == Some(code),
    ensures
        retryable(AppError::Reqwest(f)) <==> (code == 408 || code == 429 || 500 <= code),
{
}

/// A network error message whose first status-like word is 408, 429 or any
/// status from 500 upward is retried, whatever else it says; one whose first
/// such word is another status, and that names no timeout, temporary failure,
/// connection or reset, is not.
pub proof fn law_network_message_status_decides_retry(m: String, code: u16)
    requires
        first_code(unicode_lowercase(m@)) == Some(code),
    ensures
        (code == 408 || code == 429 || 500 <= code) ==> retryable(AppError::Network(m)),
        !(code == 408 || code == 429 || 500 <= code) && !contains(unicode_lowercase(m@), "timeout"@)
            && !contains(unicode_lowercase(m@), "temporarily"@) && !contains(
            unicode_lowercase(m@),
            "connection"@,
        ) && !contains(unicode_lowercase(m@), "reset"@) ==> !retryable(AppError::Network(m)),
{
}

/// A network error message that names a timeout, a temporary failure, a
/// connection or a reset (in any letter case) is retried, whatever status it
/// carries.
pub proof fn law_transient_words_are_retried(m: String)
    requires
        contains(unicode_lowercase(m@), "timeout"@) || contains(unicode_lowercase(m@), "temporarily"@)
            || contains(unicode_lowercase(m@), "connection"@) || contains(
            unicode_lowercase(m@),
            "reset"@,
        ),
    ensures
        retryable(AppError::Network(m)),
{
}

/// An I/O failure is retried exactly when it is a time-out, a reset or
/// aborted connection, an operation that would block, or an interruption.
pub proof fn law_io_retry_kinds(kind: IoErrorKind, text: String)
    ensures
        retryable(AppError::Io(kind, text)) <==> (kind == IoErrorKind::TimedOut || kind
            == IoErrorKind::ConnectionReset || kind == IoErrorKind::ConnectionAborted || kind
            == IoErrorKind::WouldBlock || kind == IoErrorKind::Interrupted),
{
}

/// A failed request that timed out or could not connect is retried,
/// whatever its status.
pub proof fn law_timeouts_and_connect_failures_are_retried(f: RequestFailure)
    requires
        f.is_timeout || f.is_connect,
    ensures
        retryable(AppError::Reqwest(f)),
{
}

/// The first whitespace-separated word of `msg` that reads as an HTTP status
/// code (`u16`).
pub fn extract_http_code(msg: &str) -> (r: Option<u16>)
    ensures
        r == first_code(msg@),
{
    let s = chars_of(msg);
    assert(s@.skip(0) =~= s@);
    let mut i: usize = 0;
    while i < s.len()
        invariant
            i <= s.len(),
            s@ == msg@,
            first_code(s@) == first_code(s@.skip(i as int)),
        decreases s.len() - i,
    {
        if is_whitespace(s[i]) {
            assert(s@.skip(i as int).drop_first() =~= s@.skip(i + 1));
            assert(s@.skip(i as int)[0] == s@[i as int]);
            i = i + 1;
        } else {
            let mut end = i;
            while end < s.len() && !is_whitespace(s[end])
                invariant
                    i <= end <= s.len(),
                    forall|k: int| i <= k < end ==> !is_ws(#[trigger] s@[k]),
                decreases s.len() - end,
            {
                end = end + 1;
            }
            proof {
                lemma_word_len_at(s@, i as int, end as int);
                assert(s@.skip(i as int)[0] == s@[i as int]);
                assert(s@.skip(i as int).take(end - i) =~= s@.subrange(i as int, end as int));
                assert(s@.skip(i as int).skip(end - i) =~= s@.skip(end as int));
            }
            let word = copy_range(&s, i, end);
            match parse_unsigned_exec(&word, 65535) {
                Some(v) => {
                    return Some(v as u16);
                },
                None => {
                    i = end;
                },
            }
        }
    }
    None
}

/// Base wait before retry `attempt`, in milliseconds: 500 ms doubled per
/// attempt, the exponent capped at 6.
pub open spec fn backoff_base_millis(attempt: u32) -> nat {
    500 * two_pow(if attempt < 6 {
        attempt as nat
    } else {
        6
    })
}

/// Two to the power `n`.
pub open spec fn two_pow(n: nat) -> nat
    decreases n,
{
    if n == 0 {
        1
    } else {
        2 * two_pow((n - 1) as nat)
    }
}

/// Largest random delay added to the base wait, in milliseconds.
pub const MAX_JITTER_MILLIS: u64 = 300;

/// A random delay in `0..=MAX_JITTER_MILLIS` milliseconds, drawn from the
/// thread-local generator (`rand::thread_rng().gen_range`).
///
/// Claims only the range of the result.
#[verifier::external_body]
fn random_jitter_millis() -> (r: u64)
    ensures
        r <= MAX_JITTER_MILLIS,
{
    rand::thread_rng().gen_range(0..=MAX_JITTER_MILLIS)
}

/// Wait before retry `attempt` with the given random delay, in milliseconds.
pub fn backoff_millis(attempt: u32, jitter_millis: u64) -> (r: u64)
    requires
        jitter_millis <= MAX_JITTER_MILLIS,
    ensures
        r == backoff_base_millis(attempt) + jitter_millis,
{
    let capped: u32 = if attempt < 6 {
        attempt
    } else {
        6
    };
    let mut pow: u64 = 1;
    let mut k: u32 = 0;
    while k < capped
        invariant
            capped <= 6,
            k <= capped,
            pow == two_pow(k as nat),
            pow <= 64,
        decreases capped - k,
    {
        pow = pow * 2;
        k = k + 1;
        proof {
            lemma_two_pow_bound(k as nat);
        }
    }
    500 * pow + jitter_millis
}

proof fn lemma_two_pow_bound(n: nat)
    requires
        n <= 6,
    ensures
        1 <= two_pow(n) <= 64,
{
    reveal_with_fuel(two_pow, 7);
}

/// Wait before retry `attempt`, in milliseconds: the base wait plus a random
/// delay of at most `MAX_JITTER_MILLIS`.
pub fn next_backoff(attempt: u32) -> (r: u64)
    ensures
        backoff_base_millis(attempt) <= r <= backoff_base_millis(attempt) + MAX_JITTER_MILLIS,
{
    let jitter = random_jitter_millis();
    backoff_millis(attempt, jitter)
}

proof fn lemma_two_pow_doubles(a: nat, b: nat)
    requires
        a < b,
    ensures
        two_pow(b) >= 2 * two_pow(a),
    decreases b,
{
    if b > a + 1 {
        lemma_two_pow_doubles(a, (b - 1) as nat);
    }
    lemma_two_pow_positive(a);
}

proof fn lemma_two_pow_positive(a: nat)
    ensures
        two_pow(a) >= 1,
    decreases a,
{
    if a > 0 {
        lemma_two_pow_positive((a - 1) as nat);
    }
}

/// Later attempts wait strictly longer, whatever the random delays, until the
/// exponent cap is reached.
pub proof fn law_backoff_increases(a: u32, b: u32, jitter_a: u64, jitter_b: u64)
    requires
        a < b,
        a < 6,
        jitter_a <= MAX_JITTER_MILLIS,
        jitter_b <= MAX_JITTER_MILLIS,
    ensures
        backoff_base_millis(a) + jitter_a < backoff_base_millis(b) + jitter_b,
{
    let cb: nat = if b < 6 {
        b as nat
    } else {
        6
    };
    lemma_two_pow_doubles(a as nat, cb);
    lemma_two_pow_positive(a as nat);
}

/// No wait is longer than 500 ms times 64 plus the random delay.
pub proof fn law_backoff_bounded(attempt: u32, jitter: u64)
    requires
        jitter <= MAX_JITTER_MILLIS,
    ensures
        backoff_base_millis(attempt) + jitter <= 32_000 + MAX_JITTER_MILLIS,
{
    lemma_two_pow_bound(if attempt < 6 {
        attempt as nat
    } else {
        6
    });
}

} // verus!
