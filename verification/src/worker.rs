//! The worker-side decision logic: the spin/backoff discipline of the STEAL
//! phase, the handling of control messages, and the per-worker lifecycle.
//!
//! A worker thread alternates outside work (popping and stealing from deques,
//! sleeping, polling its control channel) with decisions. The decisions are
//! gathered here as pure step functions so that every transition of the
//! protocol is stated and checked; a threaded driver performs the outside
//! work and feeds the observations back in.

use vstd::prelude::*;

verus! {

/// After this many consecutive failed steal attempts the worker polls its
/// control channel.
pub const SPIN_COUNT: u32 = 128;

/// After this many consecutive failed steal attempts the worker starts
/// sleeping between attempts.
pub const SPINS_UNTIL_BACKOFF: u32 = 100;

/// Each sleep grows the backoff interval by this many microseconds.
pub const BACKOFF_INCREMENT_IN_US: u32 = 5;

/// The backoff interval never grows past this bound. The backoff would
/// otherwise grow without limit during the idle window between the last
/// completion and the supervisor's stop message; one millisecond keeps the
/// worker responsive while still yielding the processor.
pub const BACKOFF_CAP_IN_US: u32 = 1000;

/// A message from the supervisor to a worker.
#[derive(Clone, Copy, PartialEq, Eq, Debug)]
pub enum WorkerMsg {
    /// Begin a run: take a deque and start executing and stealing.
    Start,
    /// The run is over: hand the deque back and go idle.
    Stop,
    /// Terminate the worker thread.
    Exit,
}

/// The progress of the spin/backoff discipline inside one STEAL phase.
#[derive(Clone, Copy, PartialEq, Eq, Debug)]
pub struct StealState {
    /// Failed attempts since the last control poll.
    pub spins: u32,
    /// How long to sleep once past the backoff threshold, in microseconds.
    pub back_off_us: u32,
}

/// What a worker does after one failed steal attempt, besides trying again.
#[derive(Clone, Copy, PartialEq, Eq, Debug)]
pub struct StealMiss {
    /// Sleep for this long, in microseconds, before the next attempt.
    pub sleep_us: Option<u32>,
    /// Poll the control channel for a stop or exit message.
    pub poll: bool,
}

/// What a worker does with a control message received while stealing.
#[derive(Clone, Copy, PartialEq, Eq, Debug)]
pub enum PollDecision {
    /// No message, or nothing to act on: keep stealing.
    KeepStealing,
    /// The run is over: leave the STEAL phase and the work loop, and return
    /// the deque to the supervisor.
    StopRun,
    /// Terminate the thread at once, without returning the deque.
    ExitThread,
    /// A message that must not arrive mid-steal; the driver treats it as a
    /// fatal protocol violation.
    ProtocolViolation,
}

/// What a worker does with a control message received while idle.
#[derive(Clone, Copy, PartialEq, Eq, Debug)]
pub enum IdleDecision {
    /// Take the offered deque and enter the work loop.
    BeginRun,
    /// Terminate the thread cleanly.
    ExitThread,
    /// A stop with no run in progress; the driver treats it as a fatal
    /// protocol violation.
    ProtocolViolation,
}

/// A worker's position in its lifecycle, as the supervisor observes it.
#[derive(Clone, Copy, PartialEq, Eq, Debug)]
pub enum Lifecycle {
    /// Parked on the control channel, its deque held by the supervisor.
    Idle,
    /// Executing and stealing work units.
    Running,
    /// The last work unit finished; spinning until the stop message arrives.
    Draining,
    /// The thread has terminated.
    Exited,
}

impl StealState {
    /// The state at the start of a STEAL phase keeps the backoff accumulated
    /// so far; only the spin count restarts.
    pub open spec fn wf(self) -> bool {
        self.spins <= SPIN_COUNT && self.back_off_us <= BACKOFF_CAP_IN_US
    }

    /// A fresh state for a worker entering its work loop.
    pub fn begin() -> (s: Self)
        ensures
            s.wf(),
            s.spins == 0,
            s.back_off_us == 0,
    {
        StealState { spins: 0, back_off_us: 0 }
    }
}

/// How many further failed steal attempts a worker makes before its next
/// control poll: a poll fires when the spin counter reaches `SPIN_COUNT`,
/// and every miss advances the counter by one.
pub open spec fn misses_until_poll(s: StealState) -> int {
    SPIN_COUNT - s.spins
}

/// One turn of the spin/backoff discipline after a steal attempt found
/// nothing: sleep only past the backoff threshold, growing the interval
/// linearly up to its cap, and poll the control channel every
/// `SPIN_COUNT` attempts. The distance to the next poll starts at most
/// `SPIN_COUNT` and falls by one per miss until the poll fires, so a stop
/// or exit request is seen within a bounded number of attempts.
pub fn steal_miss_step(s: StealState) -> (r: (StealState, StealMiss))
    requires
        s.wf(),
    ensures
        r.0.wf(),
        r.1.poll == (misses_until_poll(s) == 0),
        !r.1.poll ==> misses_until_poll(r.0) == misses_until_poll(s) - 1,
        r.1.poll ==> misses_until_poll(r.0) == SPIN_COUNT,
        r.1.sleep_us == (if s.spins > SPINS_UNTIL_BACKOFF {
            Some(s.back_off_us)
        } else {
            None::<u32>
        }),
        r.0.back_off_us == (if s.spins > SPINS_UNTIL_BACKOFF {
            if s.back_off_us + BACKOFF_INCREMENT_IN_US <= BACKOFF_CAP_IN_US {
                s.back_off_us + BACKOFF_INCREMENT_IN_US
            } else {
                BACKOFF_CAP_IN_US as int
            }
        } else {
            s.back_off_us as int
        }),
        r.1.poll == (s.spins == SPIN_COUNT),
        r.0.spins == (if s.spins == SPIN_COUNT { 0int } else { s.spins + 1 }),
{
    let mut next = s;
    let mut miss = StealMiss { sleep_us: None, poll: false };
    if s.spins > SPINS_UNTIL_BACKOFF {
        miss.sleep_us = Some(s.back_off_us);
        if s.back_off_us + BACKOFF_INCREMENT_IN_US <= BACKOFF_CAP_IN_US {
            next.back_off_us = s.back_off_us + BACKOFF_INCREMENT_IN_US;
        } else {
            next.back_off_us = BACKOFF_CAP_IN_US;
        }
    }
    if s.spins == SPIN_COUNT {
        miss.poll = true;
        next.spins = 0;
    } else {
        next.spins = s.spins + 1;
    }
    (next, miss)
}

/// A successful steal resets the backoff: work arrived, so more is likely
/// close behind.
pub fn steal_hit_step(s: StealState) -> (r: StealState)
    ensures
        r.spins == s.spins,
        r.back_off_us == 0,
        s.wf() ==> r.wf(),
{
    StealState { back_off_us: 0, ..s }
}

/// What to do with the outcome of a mid-steal control poll: only stop and
/// exit are legal; a start must never arrive while a run is in progress.
pub fn poll_decision(msg: Option<WorkerMsg>) -> (r: PollDecision)
    ensures
        r is KeepStealing <==> msg is None,
        r is StopRun <==> msg == Some(WorkerMsg::Stop),
        r is ExitThread <==> msg == Some(WorkerMsg::Exit),
        r is ProtocolViolation <==> msg == Some(WorkerMsg::Start),
{
    match msg {
        None => PollDecision::KeepStealing,
        Some(WorkerMsg::Stop) => PollDecision::StopRun,
        Some(WorkerMsg::Exit) => PollDecision::ExitThread,
        Some(WorkerMsg::Start) => PollDecision::ProtocolViolation,
    }
}

/// What to do with a control message received while idle: a start opens a
/// run, an exit terminates the thread, and a stop with no run in progress is
/// a protocol violation.
pub fn idle_decision(msg: WorkerMsg) -> (r: IdleDecision)
    ensures
        r is BeginRun <==> msg is Start,
        r is ExitThread <==> msg is Exit,
        r is ProtocolViolation <==> msg is Stop,
{
    match msg {
        WorkerMsg::Start => IdleDecision::BeginRun,
        WorkerMsg::Exit => IdleDecision::ExitThread,
        WorkerMsg::Stop => IdleDecision::ProtocolViolation,
    }
}

/// Whether a control message is legal in a given lifecycle state, and where
/// it leads. An exit always reaches `Exited` in a single transition, so a
/// worker terminates within one control poll of the message being sent.
pub fn lifecycle_step(state: Lifecycle, msg: WorkerMsg) -> (r: Option<Lifecycle>)
    ensures
        state is Idle && msg is Start ==> r == Some(Lifecycle::Running),
        state is Draining && msg is Stop ==> r == Some(Lifecycle::Idle),
        !(state is Exited) && msg is Exit ==> r == Some(Lifecycle::Exited),
        state is Idle && msg is Stop ==> r is None,
        state is Running && !(msg is Exit) ==> r is None,
        state is Draining && msg is Start ==> r is None,
        state is Exited ==> r is None,
{
    match (state, msg) {
        (Lifecycle::Idle, WorkerMsg::Start) => Some(Lifecycle::Running),
        (Lifecycle::Draining, WorkerMsg::Stop) => Some(Lifecycle::Idle),
        (Lifecycle::Idle, WorkerMsg::Exit) => Some(Lifecycle::Exited),
        (Lifecycle::Running, WorkerMsg::Exit) => Some(Lifecycle::Exited),
        (Lifecycle::Draining, WorkerMsg::Exit) => Some(Lifecycle::Exited),
        _ => None,
    }
}

/// Relies on `rand::random`: a fresh sample from the thread-local generator.
/// Nothing can be promised of the value; every caller must cope with any
/// outcome.
#[verifier::external_body]
fn random_u32() -> u32 {
    rand::random::<u32>()
}

/// Maps a random draw onto the set of possible victims: the draw is reduced
/// modulo the number of other workers' deques.
pub fn choose_victim(draw: u32, n_victims: usize) -> (v: usize)
    requires
        n_victims > 0,
    ensures
        v < n_victims,
        v == (draw as int) % (n_victims as int),
{
    (draw as usize) % n_victims
}

/// Picks a steal victim uniformly at random among `n_victims` other workers.
/// The draw comes from the thread-local generator, so two calls on equal
/// arguments may differ; only the bound is promised.
pub fn pick_victim(n_victims: usize) -> (v: usize)
    requires
        n_victims > 0,
    ensures
        v < n_victims,
{
    let draw = random_u32();
    choose_victim(draw, n_victims)
}

} // verus!
