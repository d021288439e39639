//! The echo/inject control loop.
//!
//! The loop itself performs no device I/O: each iteration the surrounding
//! application reads the wall clock and the cancellation flag, asks
//! [`begin_iteration`] what to do (stop, inject a burst, or proceed), performs
//! the returned action on the serial device, then attempts a short read and
//! echoes any received byte back with [`echo_response`].
//!
//! [`run_session`] runs the same per-iteration algorithm over a scripted
//! sequence of observations (flag value, clock reading, read outcome) and
//! returns the full log of what the loop would write: it is the verified
//! model of a whole run on a simulated clock and device.

use crate::INJECT_INTERVAL_MS;
use crate::burst::is_burst;
use crate::burst::random_burst;
use crate::timer::InjectTimer;
use vstd::prelude::*;

verus! {

/// What one attempted read of the serial device produced: one byte, or
/// nothing (a timeout or transient read failure, the loop's polling
/// heartbeat — never an error).
#[derive(Clone, Copy, PartialEq, Eq, Structural, Debug)]
pub enum ReadOutcome {
    Byte(u8),
    NoData,
}

/// What the environment presented to one loop iteration: the cancellation
/// flag, the wall clock in milliseconds, and the outcome of the iteration's
/// read attempt.
#[derive(Clone, Copy, PartialEq, Eq, Structural, Debug)]
pub struct IterInput {
    pub cancel: bool,
    pub now_ms: u64,
    pub read: ReadOutcome,
}

/// The decision taken at the top of a loop iteration.
#[derive(Clone, Copy, PartialEq, Eq, Structural, Debug)]
pub enum IterPlan {
    /// The cancellation flag is set: leave the loop at once, skipping any
    /// pending injection or read this iteration.
    Stop,
    /// The injection interval has elapsed: write one randomized burst, then
    /// go on to the read.
    Inject,
    /// Nothing to inject: go straight to the read.
    Proceed,
}

/// Decides one iteration's plan from the cancellation flag and the clock.
/// A set flag wins over everything and leaves the timer untouched; otherwise
/// the injection timer decides, resetting itself when it fires.
pub fn begin_iteration(timer: &mut InjectTimer, cancel: bool, now_ms: u64) -> (plan: IterPlan)
    requires
        now_ms >= old(timer).last_ms,
    ensures
        cancel ==> plan == IterPlan::Stop && *final(timer) == *old(timer),
        !cancel ==> plan == (if old(timer).fires(now_ms) {
            IterPlan::Inject
        } else {
            IterPlan::Proceed
        }),
        !cancel && old(timer).fires(now_ms) ==> final(timer).last_ms == now_ms,
        !cancel && !old(timer).fires(now_ms) ==> *final(timer) == *old(timer),
{
    if cancel {
        IterPlan::Stop
    } else if timer.check(now_ms) {
        IterPlan::Inject
    } else {
        IterPlan::Proceed
    }
}

/// The bytes written back for one received byte: exactly that byte,
/// unchanged.
pub fn echo_response(b: u8) -> (r: Vec<u8>)
    ensures
        r@ =~= seq![b],
{
    let mut r: Vec<u8> = Vec::new();
    r.push(b);
    r
}

/// The bytes a run echoes for a sequence of processed iterations: each
/// received byte, unchanged and in order of arrival.
pub open spec fn echoes_of(inputs: Seq<IterInput>) -> Seq<u8>
    decreases inputs.len(),
{
    if inputs.len() == 0 {
        Seq::empty()
    } else {
        match inputs.last().read {
            ReadOutcome::Byte(b) => echoes_of(inputs.drop_last()).push(b),
            ReadOutcome::NoData => echoes_of(inputs.drop_last()),
        }
    }
}

/// The injection timer's timestamp after a sequence of processed iterations
/// that started with the timer at `start_ms`.
pub open spec fn last_fire(inputs: Seq<IterInput>, start_ms: u64) -> u64
    decreases inputs.len(),
{
    if inputs.len() == 0 {
        start_ms
    } else {
        let before = last_fire(inputs.drop_last(), start_ms);
        if inputs.last().now_ms - before > INJECT_INTERVAL_MS {
            inputs.last().now_ms
        } else {
            before
        }
    }
}

/// The clock readings at which injections fire over a sequence of processed
/// iterations: an iteration fires exactly when its clock reading is more than
/// the interval past the previous firing (or past `start_ms` before the first
/// firing).
pub open spec fn fire_times(inputs: Seq<IterInput>, start_ms: u64) -> Seq<u64>
    decreases inputs.len(),
{
    if inputs.len() == 0 {
        Seq::empty()
    } else {
        let before = last_fire(inputs.drop_last(), start_ms);
        if inputs.last().now_ms - before > INJECT_INTERVAL_MS {
            fire_times(inputs.drop_last(), start_ms).push(inputs.last().now_ms)
        } else {
            fire_times(inputs.drop_last(), start_ms)
        }
    }
}

/// Everything a run wrote, and how it ended.
pub struct SessionLog {
    /// Every byte echoed back, in order of arrival.
    pub echoed: Vec<u8>,
    /// The clock reading at which each injection burst fired, in order.
    pub inject_times: Vec<u64>,
    /// The bytes of each injected burst, in firing order.
    pub inject_bursts: Vec<Vec<u8>>,
    /// How many iterations ran to completion before the loop left.
    pub processed: usize,
    /// Whether the loop left because the cancellation flag was seen (rather
    /// than by running out of scripted iterations).
    pub cancelled: bool,
}

/// Runs the echo/inject loop over a scripted sequence of observations, on a
/// simulated clock, and returns the complete log.
///
/// The contract pins the whole behavior down: the loop stops at the first
/// iteration whose flag is set, processing nothing of it or anything after
/// it; every received byte is echoed unchanged and in order; injections fire
/// exactly at the clock readings `fire_times` gives; every burst has the
/// documented shape; successive bursts are always more than the interval
/// apart, and the first comes more than the interval after `start_ms`; and if
/// no burst fired, no processed iteration's clock was more than the interval
/// past `start_ms`.
pub fn run_session(start_ms: u64, inputs: &Vec<IterInput>) -> (log: SessionLog)
    requires
        forall|i: int, j: int|
            0 <= i <= j < inputs@.len() ==> #[trigger] inputs@[i].now_ms <= #[trigger] inputs@[j].now_ms,
        forall|k: int| 0 <= k < inputs@.len() ==> #[trigger] inputs@[k].now_ms >= start_ms,
    ensures
        log.processed <= inputs@.len(),
        forall|k: int| 0 <= k < log.processed ==> !(#[trigger] inputs@[k]).cancel,
        log.cancelled == (log.processed < inputs@.len()),
        log.cancelled ==> inputs@[log.processed as int].cancel,
        log.echoed@ =~= echoes_of(inputs@.take(log.processed as int)),
        log.inject_times@ =~= fire_times(inputs@.take(log.processed as int), start_ms),
        log.inject_bursts@.len() == log.inject_times@.len(),
        forall|j: int| 0 <= j < log.inject_bursts@.len() ==> is_burst(#[trigger] log.inject_bursts@[j]@),
        log.inject_times@.len() > 0 ==> log.inject_times@[0] > start_ms + INJECT_INTERVAL_MS,
        forall|i: int, j: int|
            0 <= i && j == i + 1 && j < log.inject_times@.len() ==> #[trigger] log.inject_times@[j]
                - #[trigger] log.inject_times@[i] > INJECT_INTERVAL_MS,
        log.inject_times@.len() == 0 ==> forall|k: int|
            0 <= k < log.processed ==> #[trigger] inputs@[k].now_ms <= start_ms
                + INJECT_INTERVAL_MS,
{
    let mut timer = InjectTimer::new(start_ms);
    let mut echoed: Vec<u8> = Vec::new();
    let mut inject_times: Vec<u64> = Vec::new();
    let mut inject_bursts: Vec<Vec<u8>> = Vec::new();
    let mut i: usize = 0;
    while i < inputs.len() && !inputs[i].cancel
        invariant
            i <= inputs@.len(),
            forall|p: int, q: int|
                0 <= p <= q < inputs@.len() ==> #[trigger] inputs@[p].now_ms
                    <= #[trigger] inputs@[q].now_ms,
            forall|k: int| 0 <= k < inputs@.len() ==> #[trigger] inputs@[k].now_ms >= start_ms,
            forall|k: int| 0 <= k < i ==> !(#[trigger] inputs@[k]).cancel,
            echoed@ =~= echoes_of(inputs@.take(i as int)),
            inject_times@ =~= fire_times(inputs@.take(i as int), start_ms),
            timer.last_ms == last_fire(inputs@.take(i as int), start_ms),
            timer.last_ms == start_ms || (i > 0 && timer.last_ms <= inputs@[i - 1].now_ms),
            inject_bursts@.len() == inject_times@.len(),
            forall|j: int| 0 <= j < inject_bursts@.len() ==> is_burst(#[trigger] inject_bursts@[j]@),
            if inject_times@.len() == 0 {
                timer.last_ms == start_ms
            } else {
                timer.last_ms == inject_times@.last()
            },
            inject_times@.len() > 0 ==> inject_times@[0] > start_ms + INJECT_INTERVAL_MS,
            forall|p: int, q: int|
                0 <= p && q == p + 1 && q < inject_times@.len() ==> #[trigger] inject_times@[q]
                    - #[trigger] inject_times@[p] > INJECT_INTERVAL_MS,
            inject_times@.len() == 0 ==> forall|k: int|
                0 <= k < i ==> #[trigger] inputs@[k].now_ms <= start_ms + INJECT_INTERVAL_MS,
        decreases inputs@.len() - i,
    {
        let inp = inputs[i];
        let ghost pre = inputs@.take(i as int);
        let ghost post = inputs@.take(i as int + 1);
        proof {
            assert(post.drop_last() =~= pre);
            assert(post.last() == inputs@[i as int]);
        }
        let ghost times_before = inject_times@;
        let fired = timer.check(inp.now_ms);
        if fired {
            let b = random_burst();
            inject_times.push(inp.now_ms);
            inject_bursts.push(b);
            proof {
                assert(inject_times@ =~= times_before.push(inp.now_ms));
            }
        }
        match inp.read {
            ReadOutcome::Byte(x) => {
                echoed.push(x);
            },
            ReadOutcome::NoData => {},
        }
        proof {
            assert(echoed@ =~= echoes_of(post));
            assert(inject_times@ =~= fire_times(post, start_ms));
            assert(timer.last_ms == last_fire(post, start_ms));
        }
        i += 1;
    }
    let cancelled = i < inputs.len();
    SessionLog { echoed, inject_times, inject_bursts, processed: i, cancelled }
}

} // verus!
