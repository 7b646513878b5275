//! Adaptive waiting between two uploads.

use vstd::prelude::*;

verus! {

/// Nanoseconds in one second.
pub const NANOS_PER_SEC: u32 = 1_000_000_000;

/// The longest span an [`Interval`] can hold, in nanoseconds.
pub open spec fn max_interval_nanos() -> nat {
    (u64::MAX as nat) * (NANOS_PER_SEC as nat) + (NANOS_PER_SEC as nat - 1) as nat
}

/// A span of time with nanosecond resolution: whole seconds plus a fraction of a second.
#[derive(Clone, Copy, Debug, PartialEq, Eq, Structural)]
pub struct Interval {
    secs: u64,
    nanos: u32,
}

impl View for Interval {
    type V = nat;

    /// The span in nanoseconds.
    closed spec fn view(&self) -> nat {
        (self.secs as nat) * (NANOS_PER_SEC as nat) + (self.nanos as nat)
    }
}

impl Interval {
    #[verifier::type_invariant]
    spec fn fraction_below_one_second(self) -> bool {
        self.nanos < NANOS_PER_SEC
    }

    /// A span of `secs` seconds and `nanos` nanoseconds.
    pub fn new(secs: u64, nanos: u32) -> (span: Interval)
        requires
            nanos < NANOS_PER_SEC,
        ensures
            span@ == secs * NANOS_PER_SEC + nanos,
    {
        Interval { secs, nanos }
    }

    /// The span of `secs` whole seconds.
    pub closed spec fn seconds(secs: u64) -> Interval {
        Interval { secs, nanos: 0 }
    }

    /// A span of `secs` whole seconds.
    #[verifier::when_used_as_spec(seconds)]
    pub fn from_secs(secs: u64) -> (span: Interval)
        ensures
            span == Interval::seconds(secs),
            span@ == secs * NANOS_PER_SEC,
    {
        Interval { secs, nanos: 0 }
    }

    /// The whole seconds of the span.
    pub fn as_secs(&self) -> (secs: u64)
        ensures
            secs == self@ / (NANOS_PER_SEC as nat),
    {
        proof {
            use_type_invariant(self);
            lemma_split(self.secs as nat, self.nanos as nat);
        }
        self.secs
    }

    /// What the span holds beyond its whole seconds, in nanoseconds.
    pub fn subsec_nanos(&self) -> (nanos: u32)
        ensures
            nanos == self@ % (NANOS_PER_SEC as nat),
    {
        proof {
            use_type_invariant(self);
            lemma_split(self.secs as nat, self.nanos as nat);
        }
        self.nanos
    }

    /// The span taken `factor` times, or `None` where that is longer than an interval can
    /// hold.
    pub fn checked_mul(&self, factor: u32) -> (product: Option<Interval>)
        ensures
            self@ * factor <= max_interval_nanos() ==> product is Some && product->Some_0@
                == self@ * factor,
            self@ * factor > max_interval_nanos() ==> product is None,
    {
        proof {
            use_type_invariant(self);
        }
        let per_sec: u128 = 1_000_000_000;
        let secs: u128 = self.secs as u128;
        let nanos: u128 = self.nanos as u128;
        let factor_wide: u128 = factor as u128;
        assert(secs * per_sec <= 0xffff_ffff_ffff_ffff * 1_000_000_000) by (nonlinear_arith)
            requires
                secs <= 0xffff_ffff_ffff_ffff,
                per_sec == 1_000_000_000,
        ;
        let total: u128 = secs * per_sec + nanos;
        assert(total * factor_wide <= 18_446_744_073_709_551_616_000_000_000 * 0xffff_ffff)
            by (nonlinear_arith)
            requires
                total <= 18_446_744_073_709_551_616_000_000_000,
                factor_wide <= 0xffff_ffff,
        ;
        let scaled: u128 = total * factor_wide;
        let whole: u128 = scaled / per_sec;
        let rest: u128 = scaled % per_sec;
        if whole > 0xffff_ffff_ffff_ffff {
            None
        } else {
            proof {
                lemma_split(whole as nat, rest as nat);
            }
            Some(Interval { secs: whole as u64, nanos: rest as u32 })
        }
    }
}

/// Why the waiter refuses to wait any longer.
#[derive(Clone, Copy, Debug, PartialEq, Eq, Structural)]
pub enum WaitingGaveUp {
    /// Too many errors in a row; holds their number.
    Errors(u32),
}

/// The events that a waiter is told of: how the last upload went.
#[derive(Clone, Copy, Debug, PartialEq, Eq, Structural)]
pub enum Notice {
    /// A change was pushed.
    Success,
    /// There was nothing to change.
    Skipped,
    /// The server's rate limit was hit.
    LimitReached,
    /// The upload failed in a way that may pass.
    Error,
}

/// What a waiter answers, with the time to wait in nanoseconds and, for the giving up,
/// the number of errors.
pub open spec fn answer_model(answer: Result<Interval, WaitingGaveUp>) -> Result<nat, nat> {
    match answer {
        Ok(wait) => Ok(wait@),
        Err(WaitingGaveUp::Errors(count)) => Err(count as nat),
    }
}

/// A way to wait between two uploads. After each upload the waiter is told how it went
/// and says how long to wait before the next one; told of an error it may give up
/// instead. How long the waits are and what the waiter keeps count of is its own matter,
/// which it states in [`IntelligentWait::answers`].
pub trait IntelligentWait: Sized {
    /// Whether the waiter, as it is, can be told of the event.
    spec fn accepts(&self, notice: Notice) -> bool;

    /// What being told of the event does: `after` is the waiter afterwards, `answer` the
    /// time to wait or the giving up.
    spec fn answers(
        &self,
        notice: Notice,
        after: &Self,
        answer: Result<Interval, WaitingGaveUp>,
    ) -> bool;

    /// Whether the waiter can be told of the event.
    fn can_take(&self, notice: Notice) -> (fits: bool)
        ensures
            fits == self.accepts(notice),
    ;

    /// The last upload has pushed a change: says how long to wait.
    fn success(&mut self) -> (wait: Interval)
        requires
            old(self).accepts(Notice::Success),
        ensures
            old(self).answers(Notice::Success, final(self), Ok(wait)),
    ;

    /// The last upload found nothing to change: says how long to wait.
    fn skipped(&mut self) -> (wait: Interval)
        requires
            old(self).accepts(Notice::Skipped),
        ensures
            old(self).answers(Notice::Skipped, final(self), Ok(wait)),
    ;

    /// The last upload has hit the rate limit: says how long to wait.
    fn limit_reached(&mut self) -> (wait: Interval)
        requires
            old(self).accepts(Notice::LimitReached),
        ensures
            old(self).answers(Notice::LimitReached, final(self), Ok(wait)),
    ;

    /// The last upload has failed: says how long to wait, or gives up.
    fn error(&mut self) -> (outcome: Result<Interval, WaitingGaveUp>)
        requires
            old(self).accepts(Notice::Error),
        ensures
            old(self).answers(Notice::Error, final(self), outcome),
    ;
}

/// What a [`DefaultWaiter`] stands for: its three intervals in nanoseconds, the errors and
/// the rate limits it has seen in a row, and the number of errors in a row it puts up with.
pub struct WaiterModel {
    pub after_success: nat,
    pub after_error: nat,
    pub after_skipped: nat,
    pub consecutive_errors: nat,
    pub consecutive_limits: nat,
    pub max_error_retry: nat,
}

impl WaiterModel {
    /// A waiter as it is made: the given settings and nothing counted.
    pub open spec fn made(
        after_success: nat,
        after_error: nat,
        after_skipped: nat,
        max_error_retry: nat,
    ) -> WaiterModel {
        WaiterModel {
            after_success,
            after_error,
            after_skipped,
            consecutive_errors: 0,
            consecutive_limits: 0,
            max_error_retry,
        }
    }

    /// The same settings with nothing counted.
    pub open spec fn fresh(self) -> WaiterModel {
        WaiterModel { consecutive_errors: 0, consecutive_limits: 0, ..self }
    }

    /// The waiter after one more rate limit.
    pub open spec fn limited(self) -> WaiterModel {
        WaiterModel { consecutive_limits: self.consecutive_limits + 1, ..self }
    }

    /// The waiter after one more error.
    pub open spec fn erred(self) -> WaiterModel {
        WaiterModel { consecutive_errors: self.consecutive_errors + 1, ..self }
    }

    /// The waiter after `n` more errors.
    pub open spec fn erred_times(self, n: nat) -> WaiterModel
        decreases n,
    {
        if n == 0 {
            self
        } else {
            self.erred_times((n - 1) as nat).erred()
        }
    }

    /// The wait that one more rate limit calls for: the success interval once for the
    /// limit itself and once more for each limit counted, this one included.
    pub open spec fn limit_wait(self) -> nat {
        self.after_success * (self.consecutive_limits + 2)
    }

    /// What one more error calls for: giving up with the new count where that exceeds the
    /// maximum, else a wait of the error interval once for the error itself and once more
    /// for each error counted, this one included.
    pub open spec fn error_outcome(self) -> Result<nat, nat> {
        if self.consecutive_errors + 1 > self.max_error_retry {
            Err(self.consecutive_errors + 1)
        } else {
            Ok(self.after_error * (self.consecutive_errors + 2))
        }
    }

    /// The waiter after it is told of the event: a success and a skipped upload make it
    /// forget what it has counted, a rate limit and an error are counted.
    pub open spec fn told(self, notice: Notice) -> WaiterModel {
        match notice {
            Notice::Success => self.fresh(),
            Notice::Skipped => self.fresh(),
            Notice::LimitReached => self.limited(),
            Notice::Error => self.erred(),
        }
    }

    /// What the waiter answers when it is told of the event: the time to wait in
    /// nanoseconds, or the giving up with the number of errors in a row.
    pub open spec fn answer_to(self, notice: Notice) -> Result<nat, nat> {
        match notice {
            Notice::Success => Ok(self.after_success),
            Notice::Skipped => Ok(self.after_skipped),
            Notice::LimitReached => Ok(self.limit_wait()),
            Notice::Error => self.error_outcome(),
        }
    }

    /// Whether the waiter can be told of the event: whether the count and the wait that
    /// the event makes for have room in the machine's numbers.
    pub open spec fn takes(self, notice: Notice) -> bool {
        match notice {
            Notice::Success => true,
            Notice::Skipped => true,
            Notice::LimitReached => self.limit_fits(),
            Notice::Error => self.error_fits(),
        }
    }

    /// Whether one more rate limit can be counted and its wait held in an [`Interval`].
    pub open spec fn limit_fits(self) -> bool {
        &&& self.consecutive_limits + 2 <= u32::MAX
        &&& self.limit_wait() <= max_interval_nanos()
    }

    /// Whether one more error can be counted and, unless it makes the waiter give up, its
    /// wait held in an [`Interval`].
    pub open spec fn error_fits(self) -> bool {
        &&& self.consecutive_errors + 1 <= u32::MAX
        &&& match self.error_outcome() {
            Ok(wait) => self.consecutive_errors + 2 <= u32::MAX && wait <= max_interval_nanos(),
            Err(_) => true,
        }
    }
}

/// Waits a fixed time after a success or a skipped run, and longer with each rate limit or
/// error in a row, until the errors exceed a maximum.
pub struct DefaultWaiter {
    after_success: Interval,
    after_error: Interval,
    after_skipped: Interval,
    consecutive_errors: u32,
    consecutive_limits: u32,
    max_error_retry: u32,
}

impl View for DefaultWaiter {
    type V = WaiterModel;

    closed spec fn view(&self) -> WaiterModel {
        WaiterModel {
            after_success: self.after_success@,
            after_error: self.after_error@,
            after_skipped: self.after_skipped@,
            consecutive_errors: self.consecutive_errors as nat,
            consecutive_limits: self.consecutive_limits as nat,
            max_error_retry: self.max_error_retry as nat,
        }
    }
}

impl DefaultWaiter {
    /// A waiter with the given intervals and maximum that has counted nothing yet.
    pub fn new(
        after_success: Interval,
        after_error: Interval,
        after_skipped: Interval,
        max_error_retry: u32,
    ) -> (waiter: DefaultWaiter)
        ensures
            waiter@ == WaiterModel::made(
                after_success@,
                after_error@,
                after_skipped@,
                max_error_retry as nat,
            ),
    {
        DefaultWaiter {
            after_success,
            after_error,
            after_skipped,
            max_error_retry,
            consecutive_errors: 0,
            consecutive_limits: 0,
        }
    }
}

impl IntelligentWait for DefaultWaiter {
    open spec fn accepts(&self, notice: Notice) -> bool {
        self@.takes(notice)
    }

    open spec fn answers(
        &self,
        notice: Notice,
        after: &Self,
        answer: Result<Interval, WaitingGaveUp>,
    ) -> bool {
        after@ == self@.told(notice) && answer_model(answer) == self@.answer_to(notice)
    }

    /// Whether the count and the wait that the event makes for have room.
    fn can_take(&self, notice: Notice) -> (fits: bool) {
        match notice {
            Notice::Success => true,
            Notice::Skipped => true,
            Notice::LimitReached => {
                if self.consecutive_limits >= u32::MAX - 1 {
                    return false;
                }
                self.after_success.checked_mul(self.consecutive_limits + 2).is_some()
            },
            Notice::Error => {
                if self.consecutive_errors == u32::MAX {
                    return false;
                }
                if self.consecutive_errors + 1 > self.max_error_retry {
                    return true;
                }
                if self.consecutive_errors + 1 == u32::MAX {
                    return false;
                }
                self.after_error.checked_mul(self.consecutive_errors + 2).is_some()
            },
        }
    }

    /// Takes note of a successful run: forgets the errors and rate limits counted and
    /// hands back the success interval as the time to wait.
    fn success(&mut self) -> (wait: Interval)
        ensures
            final(self)@ == old(self)@.fresh(),
            wait@ == old(self)@.after_success,
    {
        self.consecutive_errors = 0;
        self.consecutive_limits = 0;
        self.after_success
    }

    /// Takes note of a skipped run: forgets the errors and rate limits counted and hands
    /// back the skipped interval as the time to wait.
    fn skipped(&mut self) -> (wait: Interval)
        ensures
            final(self)@ == old(self)@.fresh(),
            wait@ == old(self)@.after_skipped,
    {
        self.consecutive_errors = 0;
        self.consecutive_limits = 0;
        self.after_skipped
    }

    /// Takes note of a rate limit: counts it and hands back the time to wait, which grows
    /// by one success interval with each rate limit in a row and has no ceiling.
    fn limit_reached(&mut self) -> (wait: Interval)
        ensures
            final(self)@ == old(self)@.limited(),
            wait@ == old(self)@.limit_wait(),
    {
        self.consecutive_limits = self.consecutive_limits + 1;
        self.after_success.checked_mul(self.consecutive_limits + 1).unwrap()
    }

    /// Takes note of an error: counts it and either gives up, where more errors in a row
    /// are counted than the maximum allows, or hands back the time to wait, which grows by
    /// one error interval with each error in a row.
    fn error(&mut self) -> (outcome: Result<Interval, WaitingGaveUp>)
        ensures
            final(self)@ == old(self)@.erred(),
            answer_model(outcome) == old(self)@.error_outcome(),
    {
        self.consecutive_errors = self.consecutive_errors + 1;
        if self.consecutive_errors > self.max_error_retry {
            return Err(WaitingGaveUp::Errors(self.consecutive_errors));
        }
        Ok(self.after_error.checked_mul(self.consecutive_errors + 1).unwrap())
    }
}

/// Tells the waiter of the event and hands back what it answers: the time to wait, or
/// its giving up. Only an error can make a waiter give up.
pub fn notify<W: IntelligentWait>(wait_after: &mut W, notice: Notice) -> (answer: Result<
    Interval,
    WaitingGaveUp,
>)
    requires
        old(wait_after).accepts(notice),
    ensures
        old(wait_after).answers(notice, final(wait_after), answer),
        notice != Notice::Error ==> answer is Ok,
{
    match notice {
        Notice::Success => Ok(wait_after.success()),
        Notice::Skipped => Ok(wait_after.skipped()),
        Notice::LimitReached => Ok(wait_after.limit_reached()),
        Notice::Error => wait_after.error(),
    }
}

/// Counting from a waiter that has no error on record, the `n`-th error in a row makes it
/// give up, reporting `n`, exactly when `n` exceeds the maximum; up to the maximum it is
/// answered with a wait of `n + 1` error intervals.
pub proof fn lemma_gives_up_beyond_maximum(waiter: WaiterModel, n: nat)
    requires
        waiter.consecutive_errors == 0,
        n >= 1,
    ensures
        n > waiter.max_error_retry ==> waiter.erred_times((n - 1) as nat).error_outcome() == Err::<
            nat,
            nat,
        >(n),
        n <= waiter.max_error_retry ==> waiter.erred_times((n - 1) as nat).error_outcome()
            == Ok::<nat, nat>(waiter.after_error * (n + 1)),
{
    lemma_erred_times(waiter, (n - 1) as nat);
}

/// With an error interval above zero, the waits that answer the errors in a row grow
/// strictly from one error to the next as long as the waiter does not give up.
pub proof fn lemma_error_waits_grow(waiter: WaiterModel, earlier: nat, later: nat)
    requires
        waiter.consecutive_errors == 0,
        waiter.after_error > 0,
        1 <= earlier < later <= waiter.max_error_retry,
    ensures
        waiter.erred_times((earlier - 1) as nat).error_outcome() is Ok,
        waiter.erred_times((later - 1) as nat).error_outcome() is Ok,
        waiter.erred_times((earlier - 1) as nat).error_outcome()->Ok_0 < waiter.erred_times(
            (later - 1) as nat,
        ).error_outcome()->Ok_0,
{
    lemma_gives_up_beyond_maximum(waiter, earlier);
    lemma_gives_up_beyond_maximum(waiter, later);
    assert(waiter.after_error * (earlier + 1) < waiter.after_error * (later + 1))
        by (nonlinear_arith)
        requires
            waiter.after_error > 0,
            earlier < later,
    ;
}

/// A success or a skipped run leaves the waiter as it was made, whatever it had counted:
/// the next rate limit and the next error are answered as the first ones were.
pub proof fn lemma_reset_restores_first_wait(waiter: WaiterModel)
    ensures
        waiter.fresh() == WaiterModel::made(
            waiter.after_success,
            waiter.after_error,
            waiter.after_skipped,
            waiter.max_error_retry,
        ),
        waiter.fresh().limit_wait() == waiter.after_success * 2,
        waiter.fresh().error_outcome() == if waiter.max_error_retry == 0 {
            Err::<nat, nat>(1)
        } else {
            Ok::<nat, nat>(waiter.after_error * 2)
        },
{
}

/// Errors in a row add up in the count and change nothing else.
proof fn lemma_erred_times(waiter: WaiterModel, n: nat)
    ensures
        waiter.erred_times(n) == (WaiterModel {
            consecutive_errors: waiter.consecutive_errors + n,
            ..waiter
        }),
    decreases n,
{
    if n > 0 {
        lemma_erred_times(waiter, (n - 1) as nat);
    }
}

/// A span of whole seconds holds a thousand million nanoseconds for each of them.
pub proof fn lemma_seconds_in_nanos(secs: u64)
    ensures
        Interval::seconds(secs)@ == secs * NANOS_PER_SEC,
{
}

/// A number of whole seconds and a fraction below one second are the quotient and the
/// remainder of their total by the length of a second.
proof fn lemma_split(secs: nat, nanos: nat)
    requires
        nanos < NANOS_PER_SEC,
    ensures
        (secs * (NANOS_PER_SEC as nat) + nanos) / (NANOS_PER_SEC as nat) == secs,
        (secs * (NANOS_PER_SEC as nat) + nanos) % (NANOS_PER_SEC as nat) == nanos,
{
    let per_sec = NANOS_PER_SEC as int;
    vstd::arithmetic::div_mod::lemma_fundamental_div_mod_converse(
        secs * per_sec + nanos,
        per_sec,
        secs as int,
        nanos as int,
    );
}

} // verus!
