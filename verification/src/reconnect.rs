//! What to do when a connection ends: whether the session can be resumed, and
//! how long to wait before connecting again.

use vstd::arithmetic::power2::{lemma2_to64, lemma_pow2_pos, lemma_pow2_unfold, pow2};
use vstd::prelude::*;

verus! {

/// The close frame that ended a connection.
#[derive(Debug)]
pub struct CloseFrame {
    /// The close code.
    pub code: u16,
    /// The reason given with it.
    pub reason: String,
}

/// The mathematical form of a [`CloseFrame`].
pub struct CloseNotice {
    pub code: u16,
    pub reason: Seq<char>,
}

impl View for CloseFrame {
    type V = CloseNotice;

    open spec fn view(&self) -> CloseNotice {
        CloseNotice { code: self.code, reason: self.reason@ }
    }
}

/// The mathematical form of a close frame that may be missing.
pub open spec fn notice_of(frame: Option<CloseFrame>) -> Option<CloseNotice> {
    match frame {
        Some(frame) => Some(frame@),
        None => None,
    }
}

/// The close codes after which the server will not take the session back:
/// authentication failed (4004), invalid sequence (4007), session timed out
/// (4009), invalid shard (4010), sharding required (4011), invalid protocol
/// version (4012), invalid intents (4013), disallowed intents (4014).
pub open spec fn forbids_resume(code: u16) -> bool {
    code == 4004 || code == 4007 || (4009 <= code && code <= 4014)
}

/// Whether a session can be resumed after its connection ended this way. A
/// connection that ended without a close frame can; one that ended with a
/// frame can unless the code forbids it.
pub open spec fn resumable_after(notice: Option<CloseNotice>) -> bool {
    match notice {
        Some(notice) => !forbids_resume(notice.code),
        None => true,
    }
}

impl CloseFrame {
    /// Whether the code of this frame forbids resuming the session.
    pub fn forbids_resume(&self) -> (forbidden: bool)
        ensures
            forbidden == forbids_resume(self@.code),
    {
        self.code == 4004 || self.code == 4007 || (4009 <= self.code && self.code <= 4014)
    }
}

/// Decides whether a session can be resumed after its connection ended with
/// `frame`, or without one.
pub fn can_resume_after(frame: &Option<CloseFrame>) -> (resumable: bool)
    ensures
        resumable == resumable_after(notice_of(*frame)),
{
    match frame {
        Some(frame) => !frame.forbids_resume(),
        None => true,
    }
}

/// The waiting time between attempts to connect: it doubles with every
/// failed attempt up to a cap, and a share of it is left to chance so that
/// clients do not return in step.
#[derive(Debug)]
pub struct Backoff {
    base: u64,
    cap: u64,
    max_attempts: u32,
    attempts: u32,
    ceiling: u64,
}

/// The mathematical form of a [`Backoff`].
pub struct BackoffModel {
    /// The longest wait before the first retry, in milliseconds.
    pub base: u64,
    /// The longest wait before any retry.
    pub cap: u64,
    /// How many retries are allowed in a row.
    pub max_attempts: u32,
    /// How many retries were made since the last success.
    pub attempts: u32,
}

impl BackoffModel {
    /// The policy is usable: waits are positive and the cap is no shorter
    /// than the first wait.
    pub open spec fn valid(self) -> bool {
        0 < self.base <= self.cap && self.attempts <= self.max_attempts
    }

    /// The longest wait before the next retry: the base doubled once for each
    /// retry made, but no more than the cap.
    pub open spec fn ceiling(self) -> int {
        if self.base * pow2(self.attempts as nat) <= self.cap {
            self.base * pow2(self.attempts as nat)
        } else {
            self.cap as int
        }
    }

    /// No retry is left.
    pub open spec fn exhausted(self) -> bool {
        self.attempts >= self.max_attempts
    }

    /// The wait before the next retry: the ceiling less a share of at most
    /// half of it, picked by `entropy`.
    pub open spec fn delay(self, entropy: u64) -> int {
        self.ceiling() - (entropy as int) % (self.ceiling() / 2 + 1)
    }

    /// The policy after one more retry.
    pub open spec fn advanced(self) -> BackoffModel {
        BackoffModel { attempts: (self.attempts + 1) as u32, ..self }
    }

    /// The policy after a success.
    pub open spec fn rewound(self) -> BackoffModel {
        BackoffModel { attempts: 0, ..self }
    }
}

impl View for Backoff {
    type V = BackoffModel;

    closed spec fn view(&self) -> BackoffModel {
        BackoffModel {
            base: self.base,
            cap: self.cap,
            max_attempts: self.max_attempts,
            attempts: self.attempts,
        }
    }
}

impl Backoff {
    #[verifier::type_invariant]
    spec fn inv(self) -> bool {
        self@.valid() && self.ceiling == self@.ceiling()
    }

    /// A policy that waits at most `base` milliseconds before the first retry
    /// and at most `cap` before any, and allows `max_attempts` retries in a
    /// row. `None` unless `0 < base <= cap`.
    pub fn new(base: u64, cap: u64, max_attempts: u32) -> (backoff: Option<Backoff>)
        ensures
            backoff is Some <==> 0 < base <= cap,
            backoff matches Some(b) ==> b@.base == base && b@.cap == cap && b@.max_attempts
                == max_attempts && b@.attempts == 0,
    {
        if base == 0 || base > cap {
            return None;
        }
        proof {
            lemma2_to64();
        }
        Some(Backoff { base, cap, max_attempts, attempts: 0, ceiling: base })
    }

    /// How many retries were made since the last success: never more than
    /// are allowed, under a policy that is valid.
    pub fn attempts(&self) -> (attempts: u32)
        ensures
            attempts == self@.attempts,
            self@.valid(),
    {
        proof {
            use_type_invariant(self);
        }
        self.attempts
    }

    /// Whether no retry is left.
    pub fn is_exhausted(&self) -> (exhausted: bool)
        ensures
            exhausted == self@.exhausted(),
    {
        self.attempts >= self.max_attempts
    }

    /// Takes the next retry: returns how long to wait before it, or `None`
    /// when no retry is left. `entropy` is any number drawn at random; it
    /// picks the wait between half the ceiling and the ceiling.
    pub fn next_delay(&mut self, entropy: u64) -> (delay: Option<u64>)
        ensures
            old(self)@.exhausted() ==> delay is None && final(self)@ == old(self)@,
            !old(self)@.exhausted() ==> delay == Some(old(self)@.delay(entropy) as u64)
                && final(self)@ == old(self)@.advanced(),
            delay matches Some(wait) ==> 0 < wait <= old(self)@.cap && old(self)@.ceiling() <= 2
                * wait && wait <= old(self)@.ceiling(),
    {
        proof {
            use_type_invariant(&*self);
        }
        if self.attempts >= self.max_attempts {
            return None;
        }
        let ceiling = self.ceiling;
        let wait = ceiling - entropy % (ceiling / 2 + 1);
        let doubled = if ceiling >= self.cap - ceiling {
            self.cap
        } else {
            ceiling + ceiling
        };
        proof {
            let before = self@;
            let p = pow2(before.attempts as nat);
            lemma_pow2_pos(before.attempts as nat);
            lemma_pow2_unfold((before.attempts + 1) as nat);
            assert(before.base * (2 * p) == 2 * (before.base * p)) by (nonlinear_arith);
            assert(before.base * p >= before.base) by (nonlinear_arith)
                requires
                    p >= 1,
                    before.base >= 0,
            ;
            assert(doubled == before.advanced().ceiling());
        }
        *self = Backoff {
            base: self.base,
            cap: self.cap,
            max_attempts: self.max_attempts,
            attempts: self.attempts + 1,
            ceiling: doubled,
        };
        Some(wait)
    }

    /// Records a success: the next retry waits as the first one did.
    pub fn reset(&mut self)
        ensures
            final(self)@ == old(self)@.rewound(),
    {
        proof {
            use_type_invariant(&*self);
            lemma2_to64();
        }
        *self = Backoff {
            base: self.base,
            cap: self.cap,
            max_attempts: self.max_attempts,
            attempts: 0,
            ceiling: self.base,
        };
    }
}

/// Every wait is positive and within the cap, however the chance falls, and
/// the ceiling never shrinks from one retry to the next.
pub proof fn lemma_backoff_never_hot_loops(model: BackoffModel, entropy: u64)
    requires
        model.valid(),
        model.attempts < u32::MAX,
    ensures
        0 < model.delay(entropy) <= model.ceiling() <= model.cap,
        model.base <= model.ceiling(),
        model.ceiling() <= model.advanced().ceiling(),
{
    let p = pow2(model.attempts as nat);
    lemma_pow2_pos(model.attempts as nat);
    lemma_pow2_unfold((model.attempts + 1) as nat);
    assert(model.base * (2 * p) == 2 * (model.base * p)) by (nonlinear_arith);
    assert(model.base * p >= model.base) by (nonlinear_arith)
        requires
            p >= 1,
            model.base >= 0,
    ;
}

} // verus!
