use vstd::prelude::*;

verus! {

/// How many times one call is sent again after a rate-limited answer.
pub const RETRY_BUDGET: u32 = 5;

/// The wait, in milliseconds, when the server gives no usable `Retry-After`.
pub const DEFAULT_WAIT_MS: u64 = 500;

/// A `Retry-After` of this many seconds or more is not honoured.
pub const MAX_RETRY_AFTER_SECS: u64 = 120;

/// HTTP status "Too Many Requests".
pub const TOO_MANY_REQUESTS: u16 = 429;

pub open spec fn is_ascii_digit(b: u8) -> bool {
    48 <= b && b <= 57
}

/// The number that a string of decimal digits writes.
pub open spec fn digits_value(s: Seq<u8>) -> nat
    decreases s.len(),
{
    if s.len() == 0 {
        0
    } else {
        digits_value(s.drop_last()) * 10 + (s.last() - 48) as nat
    }
}

pub open spec fn all_digits(d: Seq<u8>) -> bool {
    forall|i: int| 0 <= i < d.len() ==> is_ascii_digit(#[trigger] d[i])
}

/// The digits of an unsigned decimal number, as an unsigned integer parser
/// reads it: one or more digits, after an optional `+`.
pub open spec fn number_digits(s: Seq<u8>) -> Option<Seq<u8>> {
    let d = if s.len() > 0 && s[0] == 43 { s.drop_first() } else { s };
    if d.len() > 0 && all_digits(d) {
        Some(d)
    } else {
        None
    }
}

/// How long to sleep before sending again, given the `Retry-After` header
/// of a rate-limited answer: its seconds when they are a number below the
/// limit, else the default wait.
pub open spec fn retry_wait_spec(header: Option<Seq<u8>>) -> nat {
    match header {
        Some(h) => match number_digits(h) {
            Some(d) => if digits_value(d) < MAX_RETRY_AFTER_SECS {
                digits_value(d) * 1000
            } else {
                DEFAULT_WAIT_MS as nat
            },
            None => DEFAULT_WAIT_MS as nat,
        },
        None => DEFAULT_WAIT_MS as nat,
    }
}

proof fn lemma_digits_prefix(s: Seq<u8>, i: int)
    requires
        0 <= i < s.len(),
    ensures
        digits_value(s.take(i + 1)) == digits_value(s.take(i)) * 10 + (s[i] - 48) as nat,
{
    assert(s.take(i + 1).drop_last() =~= s.take(i));
}

/// The wait in milliseconds that a `Retry-After` header asks for.
pub fn retry_wait_ms(header: Option<&[u8]>) -> (r: u64)
    ensures
        r == retry_wait_spec(match header { Some(h) => Some(h@), None => None }),
{
    match header {
        None => DEFAULT_WAIT_MS,
        Some(h) => {
            let start: usize = if h.len() > 0 && h[0] == 43 { 1 } else { 0 };
            let ghost d = if h@.len() > 0 && h@[0] == 43 { h@.drop_first() } else { h@ };
            assert(d =~= h@.subrange(start as int, h@.len() as int));
            if start >= h.len() {
                return DEFAULT_WAIT_MS;
            }
            // the value read so far, held at the limit once it reaches it
            let mut acc: u64 = 0;
            let mut i: usize = start;
            while i < h.len()
                invariant
                    start <= i <= h.len(),
                    d =~= h@.subrange(start as int, h@.len() as int),
                    d.len() > 0,
                    header == Some(h),
                    number_digits(h@) == (if all_digits(d) { Some(d) } else { None::<Seq<u8>> }),
                    forall|k: int| 0 <= k < i - start ==> is_ascii_digit(#[trigger] d[k]),
                    acc <= MAX_RETRY_AFTER_SECS,
                    acc < MAX_RETRY_AFTER_SECS ==> acc == digits_value(d.take(i - start)),
                    acc == MAX_RETRY_AFTER_SECS ==> digits_value(d.take(i - start)) >= MAX_RETRY_AFTER_SECS,
                decreases h.len() - i,
            {
                let b = h[i];
                if b < 48 || b > 57 {
                    assert(!is_ascii_digit(d[i - start]));
                    assert(!all_digits(d));
                    assert(number_digits(h@).is_none());
                    return DEFAULT_WAIT_MS;
                }
                proof {
                    lemma_digits_prefix(d, i - start);
                }
                if acc < MAX_RETRY_AFTER_SECS {
                    let next = acc * 10 + (b - 48) as u64;
                    acc = if next < MAX_RETRY_AFTER_SECS { next } else { MAX_RETRY_AFTER_SECS };
                }
                i = i + 1;
            }
            assert(d.take(d.len() as int) =~= d);
            if acc < MAX_RETRY_AFTER_SECS {
                acc * 1000
            } else {
                DEFAULT_WAIT_MS
            }
        },
    }
}

/// What the transport does with one HTTP answer.
#[derive(Clone, Copy, Debug, PartialEq, Eq, Structural)]
pub enum RetryStep {
    /// A success status: read the body.
    Accept,
    /// Rate-limited with budget left: sleep, then send the same request again.
    Sleep { wait_ms: u64 },
    /// Any other status, or rate-limited with no budget left: fail with it.
    Fail { status: u16 },
}

pub open spec fn is_success(status: u16) -> bool {
    200 <= status && status <= 299
}

/// The step for an answer with `status` and `Retry-After` header `header`,
/// with `left` retries still allowed.
pub open spec fn step_spec(left: u32, status: u16, header: Option<Seq<u8>>) -> RetryStep {
    if is_success(status) {
        RetryStep::Accept
    } else if status == TOO_MANY_REQUESTS && left > 0 {
        RetryStep::Sleep { wait_ms: retry_wait_spec(header) as u64 }
    } else {
        RetryStep::Fail { status }
    }
}

/// The waits slept and the final step when the answers to one call come in
/// the order given, starting with `left` retries allowed; no final step if
/// the answers run out first.
pub open spec fn run_spec(left: u32, answers: Seq<(u16, Option<Seq<u8>>)>) -> (Seq<nat>, Option<RetryStep>)
    decreases answers.len(),
{
    if answers.len() == 0 {
        (Seq::empty(), None)
    } else {
        match step_spec(left, answers[0].0, answers[0].1) {
            RetryStep::Sleep { wait_ms } => {
                let rest = run_spec((left - 1) as u32, answers.drop_first());
                (seq![wait_ms as nat].add(rest.0), rest.1)
            },
            other => (Seq::empty(), Some(other)),
        }
    }
}

/// The retry budget of one call.
#[derive(Clone, Copy, Debug, PartialEq, Eq, Structural)]
pub struct RetryState {
    pub retries_left: u32,
}

impl RetryState {
    pub fn new() -> (r: RetryState)
        ensures
            r.retries_left == RETRY_BUDGET,
    {
        RetryState { retries_left: RETRY_BUDGET }
    }

    /// Decides what to do with an answer; a sleep uses up one retry.
    pub fn on_status(&mut self, status: u16, retry_after: Option<&[u8]>) -> (r: RetryStep)
        ensures
            r == step_spec(
                old(self).retries_left,
                status,
                match retry_after { Some(h) => Some(h@), None => None },
            ),
            final(self).retries_left == (if r is Sleep {
                old(self).retries_left - 1
            } else {
                old(self).retries_left as int
            }),
    {
        if 200 <= status && status <= 299 {
            RetryStep::Accept
        } else if status == TOO_MANY_REQUESTS && self.retries_left > 0 {
            let wait_ms = retry_wait_ms(retry_after);
            self.retries_left = self.retries_left - 1;
            RetryStep::Sleep { wait_ms }
        } else {
            RetryStep::Fail { status }
        }
    }
}

/// Four rate-limited answers and then a success: the call sleeps four times,
/// each time as long as that answer's `Retry-After` asks, and then succeeds.
pub proof fn lemma_success_after_four_retries(answers: Seq<(u16, Option<Seq<u8>>)>)
    requires
        answers.len() == 5,
        forall|i: int| 0 <= i < 4 ==> (#[trigger] answers[i]).0 == TOO_MANY_REQUESTS,
        is_success(answers[4].0),
    ensures
        run_spec(RETRY_BUDGET, answers) == (
            seq![
                retry_wait_spec(answers[0].1),
                retry_wait_spec(answers[1].1),
                retry_wait_spec(answers[2].1),
                retry_wait_spec(answers[3].1),
            ],
            Some(RetryStep::Accept),
        ),
{
    lemma_wait_bounded(answers[0].1);
    lemma_wait_bounded(answers[1].1);
    lemma_wait_bounded(answers[2].1);
    lemma_wait_bounded(answers[3].1);
    let a1 = answers.drop_first();
    let a2 = a1.drop_first();
    let a3 = a2.drop_first();
    let a4 = a3.drop_first();
    assert(a4.drop_first().len() == 0);
    assert(run_spec(1, a4) == (Seq::<nat>::empty(), Some(RetryStep::Accept)));
    assert(run_spec(2, a3).0 =~= seq![retry_wait_spec(answers[3].1)]);
    assert(run_spec(3, a2).0 =~= seq![retry_wait_spec(answers[2].1), retry_wait_spec(answers[3].1)]);
    assert(run_spec(4, a1).0 =~= seq![
        retry_wait_spec(answers[1].1),
        retry_wait_spec(answers[2].1),
        retry_wait_spec(answers[3].1),
    ]);
    assert(run_spec(RETRY_BUDGET, answers).0 =~= seq![
        retry_wait_spec(answers[0].1),
        retry_wait_spec(answers[1].1),
        retry_wait_spec(answers[2].1),
        retry_wait_spec(answers[3].1),
    ]);
}

/// Rate-limited again after the whole budget went on retries: the call
/// fails with the rate-limit status after five sleeps instead of retrying on.
pub proof fn lemma_budget_exhausted(answers: Seq<(u16, Option<Seq<u8>>)>)
    requires
        answers.len() == 6,
        forall|i: int| 0 <= i < 6 ==> (#[trigger] answers[i]).0 == TOO_MANY_REQUESTS,
    ensures
        run_spec(RETRY_BUDGET, answers).0.len() == RETRY_BUDGET,
        run_spec(RETRY_BUDGET, answers).1 == Some(RetryStep::Fail { status: TOO_MANY_REQUESTS }),
{
    let a1 = answers.drop_first();
    let a2 = a1.drop_first();
    let a3 = a2.drop_first();
    let a4 = a3.drop_first();
    let a5 = a4.drop_first();
    assert(a5[0].0 == TOO_MANY_REQUESTS);
    assert(run_spec(0, a5) == (Seq::<nat>::empty(), Some(RetryStep::Fail { status: TOO_MANY_REQUESTS })));
    assert(a4[0].0 == TOO_MANY_REQUESTS);
    assert(run_spec(1, a4).0.len() == 1);
    assert(a3[0].0 == TOO_MANY_REQUESTS);
    assert(run_spec(2, a3).0.len() == 2);
    assert(a2[0].0 == TOO_MANY_REQUESTS);
    assert(run_spec(3, a2).0.len() == 3);
    assert(a1[0].0 == TOO_MANY_REQUESTS);
    assert(run_spec(4, a1).0.len() == 4);
    assert(answers[0].0 == TOO_MANY_REQUESTS);
}

proof fn lemma_wait_bounded(header: Option<Seq<u8>>)
    ensures
        retry_wait_spec(header) < 120000,
{
    match header {
        Some(h) => match number_digits(h) {
            Some(d) => if digits_value(d) < MAX_RETRY_AFTER_SECS {
                assert(digits_value(d) * 1000 < 120000) by (nonlinear_arith)
                    requires digits_value(d) < 120;
            },
            None => {},
        },
        None => {},
    }
}

} // verus!
