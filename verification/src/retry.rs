//! The retry policy: which failures allow another attempt, how many attempts
//! there are, and how long to wait between them.
//!
//! The policy performs nothing. After each attempt the caller reports what
//! the transport said and is told what to do next. Delays are milliseconds.

use vstd::prelude::*;

verus! {

/// The delay from which the waits grow, unless the caller sets another.
pub const DEFAULT_BASE_DELAY: u64 = 200;

/// The longest wait, unless the caller sets another.
pub const DEFAULT_MAX_DELAY: u64 = 10_000;

/// What the transport reports of one attempt.
#[derive(Debug, Clone, PartialEq, Eq)]
pub enum Reply {
    /// The service answered.
    Answer { status: u16, body: String },
    /// The exchange did not take place; the text says why.
    Failure(String),
    /// The caller gave the operation up while the attempt was under way.
    Cancelled,
}

pub enum ReplyView {
    Answer { status: u16, body: Seq<char> },
    Failure(Seq<char>),
    Cancelled,
}

impl View for Reply {
    type V = ReplyView;

    open spec fn view(&self) -> ReplyView {
        match self {
            Reply::Answer { status, body } => ReplyView::Answer { status: *status, body: body@ },
            Reply::Failure(reason) => ReplyView::Failure(reason@),
            Reply::Cancelled => ReplyView::Cancelled,
        }
    }
}

/// How the policy treats a reply.
#[derive(Debug, Clone, Copy, PartialEq, Eq, Structural)]
pub enum ReplyClass {
    /// An answer that is handed on: success, or a refusal that no repetition
    /// would change.
    Final,
    /// The answer 401: the token was not accepted.
    Unauthorized,
    /// A server error or a failed exchange: another attempt may succeed.
    Transient,
    /// The caller gave up.
    Cancelled,
}

/// What to do after an attempt.
#[derive(Debug, Clone, Copy, PartialEq, Eq, Structural)]
pub enum Verdict {
    /// Hand the answer on; no further attempt is made.
    Deliver,
    /// Acquire a new token, then repeat the request.
    Reauthenticate,
    /// Wait for the delay, then repeat the request.
    Retry { delay: u64 },
    /// No attempt is left; the last failure is reported.
    Exhausted,
    /// Stop; the operation was given up.
    Cancelled,
}

/// The progress of one operation through its attempts.
#[derive(Debug, Clone, Copy, PartialEq, Eq, Structural)]
pub struct Attempts {
    /// The attempts made that count against the limit.
    pub made: usize,
    /// Whether the one repetition after a 401 has been used.
    pub reauthenticated: bool,
}

/// The limits of retrying.
#[derive(Debug, Clone, Copy, PartialEq, Eq, Structural)]
pub struct RetryPolicy {
    /// The most attempts that one operation makes; at least one is always made.
    pub max_attempts: usize,
    /// The wait after the first failure, before jitter.
    pub base_delay: u64,
    /// The longest wait.
    pub max_delay: u64,
}

/// The class of a reply: answers with a status from 500 up to 599 and failed
/// exchanges are transient, 401 asks for a new token, every other answer is
/// final.
pub open spec fn class_of(reply: ReplyView) -> ReplyClass {
    match reply {
        ReplyView::Answer { status, .. } => if status == 401 {
            ReplyClass::Unauthorized
        } else if 500 <= status < 600 {
            ReplyClass::Transient
        } else {
            ReplyClass::Final
        },
        ReplyView::Failure(_) => ReplyClass::Transient,
        ReplyView::Cancelled => ReplyClass::Cancelled,
    }
}

pub fn classify(reply: &Reply) -> (r: ReplyClass)
    ensures
        r == class_of(reply@),
{
    match reply {
        Reply::Answer { status, .. } => if *status == 401 {
            ReplyClass::Unauthorized
        } else if 500 <= *status && *status < 600 {
            ReplyClass::Transient
        } else {
            ReplyClass::Final
        },
        Reply::Failure(_) => ReplyClass::Transient,
        Reply::Cancelled => ReplyClass::Cancelled,
    }
}

impl Attempts {
    /// The state before the first attempt.
    pub open spec fn fresh() -> Attempts {
        Attempts { made: 0, reauthenticated: false }
    }

    pub fn new() -> (r: Attempts)
        ensures
            r == Attempts::fresh(),
    {
        Attempts { made: 0, reauthenticated: false }
    }
}

impl RetryPolicy {
    /// The wait after the `failures`-th failure in a row, before jitter: the
    /// base delay, doubled with each further failure, and never more than
    /// the longest wait.
    pub open spec fn ceiling(self, failures: nat) -> int
        decreases failures,
    {
        if failures <= 1 {
            if self.base_delay <= self.max_delay {
                self.base_delay as int
            } else {
                self.max_delay as int
            }
        } else {
            let before = self.ceiling((failures - 1) as nat);
            if 2 * before <= self.max_delay {
                2 * before
            } else {
                self.max_delay as int
            }
        }
    }

    /// The wait after the `failures`-th failure in a row: the upper half of
    /// the range up to the ceiling, the place in it chosen by `jitter`.
    pub open spec fn delay(self, failures: nat, jitter: u64) -> int {
        let top = self.ceiling(failures);
        let low = top / 2;
        low + jitter as int % (top - low + 1)
    }

    /// The attempts that count once the reply to one more is known: a 401
    /// that leads to a new token is not counted, and the count never passes
    /// the limit.
    pub open spec fn counted(self, attempts: Attempts, reply: ReplyView) -> Attempts {
        match class_of(reply) {
            ReplyClass::Cancelled => attempts,
            ReplyClass::Unauthorized if !attempts.reauthenticated => Attempts {
                reauthenticated: true,
                ..attempts
            },
            _ => if attempts.made < self.max_attempts {
                Attempts { made: (attempts.made + 1) as usize, ..attempts }
            } else {
                attempts
            },
        }
    }

    /// What to do after an attempt that had this reply.
    pub open spec fn verdict(self, attempts: Attempts, reply: ReplyView, jitter: u64) -> Verdict {
        match class_of(reply) {
            ReplyClass::Cancelled => Verdict::Cancelled,
            ReplyClass::Final => Verdict::Deliver,
            ReplyClass::Unauthorized => if attempts.reauthenticated {
                Verdict::Deliver
            } else {
                Verdict::Reauthenticate
            },
            ReplyClass::Transient => {
                let made = self.counted(attempts, reply).made;
                if made < self.max_attempts {
                    Verdict::Retry { delay: self.delay(made as nat, jitter) as u64 }
                } else {
                    Verdict::Exhausted
                }
            },
        }
    }

    /// The policy with the given limit of attempts and the default delays.
    pub fn new(max_attempts: usize) -> (r: RetryPolicy)
        ensures
            r == (RetryPolicy {
                max_attempts,
                base_delay: DEFAULT_BASE_DELAY,
                max_delay: DEFAULT_MAX_DELAY,
            }),
    {
        RetryPolicy { max_attempts, base_delay: DEFAULT_BASE_DELAY, max_delay: DEFAULT_MAX_DELAY }
    }

    /// The ceiling never passes the longest wait nor falls below zero.
    pub proof fn ceiling_is_capped(self, failures: nat)
        ensures
            0 <= self.ceiling(failures) <= self.max_delay,
        decreases failures,
    {
        if failures > 1 {
            self.ceiling_is_capped((failures - 1) as nat);
        }
    }

    /// The ceiling is exponential: the base delay times two to the number of
    /// failures before the last, wherever that does not pass the longest
    /// wait, and the longest wait from there on.
    pub proof fn ceiling_is_exponential(self, failures: nat)
        requires
            failures >= 1,
        ensures
            self.ceiling(failures) == if self.base_delay * vstd::arithmetic::power2::pow2(
                (failures - 1) as nat,
            ) <= self.max_delay {
                self.base_delay * vstd::arithmetic::power2::pow2((failures - 1) as nat)
            } else {
                self.max_delay as int
            },
        decreases failures,
    {
        let base = self.base_delay as int;
        if failures == 1 {
            vstd::arithmetic::power2::lemma2_to64();
            assert(base * 1 == base);
        } else {
            let before = vstd::arithmetic::power2::pow2((failures - 2) as nat) as int;
            let here = vstd::arithmetic::power2::pow2((failures - 1) as nat) as int;
            self.ceiling_is_exponential((failures - 1) as nat);
            vstd::arithmetic::power2::lemma_pow2_unfold((failures - 1) as nat);
            vstd::arithmetic::power2::lemma_pow2_pos((failures - 2) as nat);
            assert(here == 2 * before);
            assert(base * here == 2 * (base * before)) by (nonlinear_arith)
                requires
                    here == 2 * before,
            ;
            assert(base * before >= 0) by (nonlinear_arith)
                requires
                    base >= 0,
                    before > 0,
            ;
        }
    }

    /// The ceiling never shrinks as failures go on.
    pub proof fn ceiling_grows(self, earlier: nat, later: nat)
        requires
            earlier <= later,
        ensures
            self.ceiling(earlier) <= self.ceiling(later),
        decreases later,
    {
        if later > 1 && earlier < later {
            self.ceiling_grows(earlier, (later - 1) as nat);
            self.ceiling_is_capped((later - 1) as nat);
        }
    }

    /// Every wait lies in the upper half of the range up to its ceiling, and
    /// so never passes the longest wait.
    pub proof fn delay_is_bounded(self, failures: nat, jitter: u64)
        ensures
            self.ceiling(failures) / 2 <= self.delay(failures, jitter) <= self.ceiling(failures),
            self.delay(failures, jitter) <= self.max_delay,
    {
        self.ceiling_is_capped(failures);
        let top = self.ceiling(failures);
        let low = top / 2;
        assert(0 <= jitter as int % (top - low + 1) < top - low + 1) by (nonlinear_arith)
            requires
                top - low + 1 > 0,
                jitter >= 0,
        ;
    }

    /// Computes the ceiling after a number of failures in a row.
    pub fn backoff_ceiling(&self, failures: usize) -> (r: u64)
        ensures
            r == self.ceiling(failures as nat),
    {
        let mut top: u64 = if self.base_delay <= self.max_delay {
            self.base_delay
        } else {
            self.max_delay
        };
        if top == 0 {
            proof {
                self.ceiling_of_nothing(failures as nat);
            }
            return 0;
        }
        let mut k: usize = 1;
        while k < failures && top < self.max_delay
            invariant
                1 <= k,
                k <= failures || k == 1,
                top == self.ceiling(k as nat),
                0 < top <= self.max_delay,
            decreases self.max_delay - top,
        {
            if top <= self.max_delay / 2 {
                top = top * 2;
            } else {
                top = self.max_delay;
            }
            k += 1;
        }
        proof {
            if k < failures {
                self.ceiling_stays_at_cap(k as nat, failures as nat);
            } else if failures == 0 {
                assert(self.ceiling(0) == self.ceiling(1));
            }
        }
        top
    }

    /// Computes the wait after a number of failures in a row.
    pub fn backoff(&self, failures: usize, jitter: u64) -> (r: u64)
        ensures
            r == self.delay(failures as nat, jitter),
            r <= self.max_delay,
    {
        let top = self.backoff_ceiling(failures);
        let low = top / 2;
        proof {
            self.delay_is_bounded(failures as nat, jitter);
        }
        low + jitter % (top - low + 1)
    }

    /// Counts an attempt and says what to do after it.
    pub fn judge(&self, attempts: &mut Attempts, reply: &Reply, jitter: u64) -> (r: Verdict)
        ensures
            r == self.verdict(*old(attempts), reply@, jitter),
            *final(attempts) == self.counted(*old(attempts), reply@),
    {
        match classify(reply) {
            ReplyClass::Cancelled => Verdict::Cancelled,
            ReplyClass::Unauthorized => {
                if attempts.reauthenticated {
                    self.count(attempts);
                    Verdict::Deliver
                } else {
                    attempts.reauthenticated = true;
                    Verdict::Reauthenticate
                }
            },
            ReplyClass::Final => {
                self.count(attempts);
                Verdict::Deliver
            },
            ReplyClass::Transient => {
                self.count(attempts);
                if attempts.made < self.max_attempts {
                    Verdict::Retry { delay: self.backoff(attempts.made, jitter) }
                } else {
                    Verdict::Exhausted
                }
            },
        }
    }

    fn count(&self, attempts: &mut Attempts)
        ensures
            *final(attempts) == if old(attempts).made < self.max_attempts {
                Attempts { made: (old(attempts).made + 1) as usize, ..*old(attempts) }
            } else {
                *old(attempts)
            },
    {
        if attempts.made < self.max_attempts {
            attempts.made = attempts.made + 1;
        }
    }

    proof fn ceiling_of_nothing(self, failures: nat)
        requires
            self.base_delay == 0 || self.max_delay == 0,
        ensures
            self.ceiling(failures) == 0,
        decreases failures,
    {
        if failures > 1 {
            self.ceiling_of_nothing((failures - 1) as nat);
        }
    }

    proof fn ceiling_stays_at_cap(self, reached: nat, later: nat)
        requires
            1 <= reached <= later,
            self.ceiling(reached) == self.max_delay,
        ensures
            self.ceiling(later) == self.max_delay,
    {
        self.ceiling_grows(reached, later);
        self.ceiling_is_capped(later);
    }
}

} // verus!
