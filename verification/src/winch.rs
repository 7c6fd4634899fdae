//! Winch controller: a preemptible queue of motion commands consumed by one
//! dedicated worker.
//!
//! The public side only ever enqueues ([`Winch`]); the worker owns the
//! stepper and solenoid outputs exclusively. The worker's decisions — which
//! coil pattern to write, how long to sleep between micro-steps, and how a
//! burst of queued commands coalesces — are the functions of this module;
//! the thread, the channel and the pin writes belong to the binary that owns
//! the hardware, which feeds each drained burst back in and performs the
//! returned actions.
//!
//! Coalescing is last-write-wins: of a burst that piled up while a step was
//! in flight, only the most recent non-release command is dispatched, but
//! every queued `Release` still fires exactly one solenoid pulse.

use vstd::prelude::*;
use crate::easing::VALUE_SCALE;
use crate::error::WinchError;

verus! {

/// Fastest inter-step delay in microseconds, taken at full speed. Lowering
/// it further runs into the mechanical limit of the motor.
pub const MIN_STEP_SLEEP_US: u64 = 800;

/// Slowest inter-step delay in microseconds, approached as speed nears zero.
pub const MAX_STEP_SLEEP_US: u64 = 5000;

/// Milliseconds the release solenoid is de-energized per pulse.
pub const RELEASE_PULSE_MS: u64 = 200;

/// Coil patterns in one full micro-step cycle.
pub const STEP_SEQUENCE_LEN: usize = 8;

/// One element of the winch command queue. Arrival order matters; the queue
/// is consumed by exactly one worker.
#[derive(Clone, Copy, Debug, PartialEq, Eq, Structural)]
pub enum WinchCommand {
    Wind { speed: i64 },
    Stop,
    Release,
    Quit,
}

impl WinchCommand {
    /// Any speed a queued command carries stays within full scale.
    pub open spec fn wf(self) -> bool {
        match self {
            WinchCommand::Wind { speed } => -VALUE_SCALE <= speed <= VALUE_SCALE,
            _ => true,
        }
    }
}

/// What the worker is doing between queue checks.
#[derive(Clone, Copy, Debug, PartialEq, Eq, Structural)]
pub enum WorkerState {
    /// Blocked on the queue, coils de-energized.
    Idle,
    /// In the stepping loop at the given signed speed.
    Winding { speed: i64 },
    /// The worker has been told to quit.
    Terminated,
}

/// One hardware action the worker performs.
#[derive(Clone, Copy, Debug, PartialEq, Eq, Structural)]
pub enum WorkerAction {
    /// Run one micro-step cycle toward winding in, sleeping the given delay
    /// between coil patterns.
    StepForward { delay_us: u64 },
    /// One micro-step cycle toward paying out.
    StepBackward { delay_us: u64 },
    /// De-energize the stepper coils.
    MotorOff,
    /// De-energize the release solenoid for one pulse, then re-engage it.
    ReleasePulse,
}

/// The command that `wind(speed)` enqueues: zero speed asks for a stop,
/// anything else for winding at that speed.
pub open spec fn wind_encoding(speed: i64) -> WinchCommand {
    if speed == 0 {
        WinchCommand::Stop
    } else {
        WinchCommand::Wind { speed }
    }
}

/// How many `Release` commands a burst holds; each of them fires exactly one
/// solenoid pulse, coalescing notwithstanding.
pub open spec fn release_count(burst: Seq<WinchCommand>) -> nat
    decreases burst.len(),
{
    if burst.len() == 0 {
        0
    } else {
        release_count(burst.drop_last()) + if burst.last() is Release {
            1nat
        } else {
            0nat
        }
    }
}

/// The most recently enqueued command of a burst that is not a `Release`:
/// the one that last-write-wins coalescing dispatches.
pub open spec fn last_non_release(burst: Seq<WinchCommand>) -> Option<WinchCommand>
    decreases burst.len(),
{
    if burst.len() == 0 {
        None
    } else if !(burst.last() is Release) {
        Some(burst.last())
    } else {
        last_non_release(burst.drop_last())
    }
}

/// The state and immediate action the worker takes up on dispatching one
/// command.
pub open spec fn dispatch_outcome(command: WinchCommand) -> (WorkerState, Option<WorkerAction>) {
    match command {
        WinchCommand::Wind { speed } => (WorkerState::Winding { speed }, None),
        WinchCommand::Stop => (WorkerState::Idle, Some(WorkerAction::MotorOff)),
        WinchCommand::Release => (WorkerState::Idle, Some(WorkerAction::ReleasePulse)),
        WinchCommand::Quit => (WorkerState::Terminated, Some(WorkerAction::MotorOff)),
    }
}

/// Inter-step delay for a speed: linear between the fastest delay at full
/// speed and the slowest as speed nears zero.
pub open spec fn spec_step_delay_us(speed: int) -> int {
    let magnitude = if speed >= 0 { speed } else { -speed };
    let clamped = if magnitude > 1000 { 1000 } else { magnitude };
    MIN_STEP_SLEEP_US + ((MAX_STEP_SLEEP_US - MIN_STEP_SLEEP_US) * (1000 - clamped)) / 1000
}

/// Inter-step delay for a signed speed, microseconds. Full speed steps at
/// the fastest permitted rate; the delay grows linearly as speed shrinks.
pub fn map_speed_to_delay(speed: i64) -> (r: u64)
    ensures
        r as int == spec_step_delay_us(speed as int),
        MIN_STEP_SLEEP_US <= r <= MAX_STEP_SLEEP_US,
{
    let magnitude: i64 = if speed >= 0 {
        speed
    } else if speed == i64::MIN {
        1000
    } else {
        -speed
    };
    let clamped: u64 = if magnitude > 1000 {
        1000
    } else {
        magnitude as u64
    };
    let spread: u64 = MAX_STEP_SLEEP_US - MIN_STEP_SLEEP_US;
    proof {
        vstd::arithmetic::div_mod::lemma_div_is_ordered(0, spread * (1000 - clamped), 1000);
        vstd::arithmetic::mul::lemma_mul_left_inequality(spread as int, 1000 - clamped, 1000);
        vstd::arithmetic::div_mod::lemma_div_is_ordered(spread * (1000 - clamped), spread * 1000, 1000);
        vstd::arithmetic::mul::lemma_mul_is_commutative(spread as int, 1000);
        vstd::arithmetic::div_mod::lemma_div_multiples_vanish(spread as int, 1000);
    }
    MIN_STEP_SLEEP_US + spread * (1000 - clamped) / 1000
}

/// The coil pattern written at one position of the micro-step cycle, as the
/// levels of the four stepper inputs.
pub open spec fn spec_step_pattern(index: int) -> (bool, bool, bool, bool) {
    if index == 0 {
        (true, false, false, true)
    } else if index == 1 {
        (true, false, false, false)
    } else if index == 2 {
        (true, true, false, false)
    } else if index == 3 {
        (false, true, false, false)
    } else if index == 4 {
        (false, true, true, false)
    } else if index == 5 {
        (false, false, true, false)
    } else if index == 6 {
        (false, false, true, true)
    } else {
        (false, false, false, true)
    }
}

/// Coil pattern at a position of the micro-step cycle. A forward step walks
/// the positions in order, a backward step in reverse.
pub fn step_pattern(index: usize) -> (r: (bool, bool, bool, bool))
    requires
        index < STEP_SEQUENCE_LEN,
    ensures
        r == spec_step_pattern(index as int),
{
    if index == 0 {
        (true, false, false, true)
    } else if index == 1 {
        (true, false, false, false)
    } else if index == 2 {
        (true, true, false, false)
    } else if index == 3 {
        (false, true, false, false)
    } else if index == 4 {
        (false, true, true, false)
    } else if index == 5 {
        (false, false, true, false)
    } else if index == 6 {
        (false, false, true, true)
    } else {
        (false, false, false, true)
    }
}

/// What one command makes the worker do when it is dispatched — either the
/// command an idle worker just received, or the winner of a coalesced burst.
pub fn worker_dispatch(command: WinchCommand) -> (r: (WorkerState, Option<WorkerAction>))
    ensures
        r == dispatch_outcome(command),
{
    match command {
        WinchCommand::Wind { speed } => (WorkerState::Winding { speed }, None),
        WinchCommand::Stop => (WorkerState::Idle, Some(WorkerAction::MotorOff)),
        WinchCommand::Release => (WorkerState::Idle, Some(WorkerAction::ReleasePulse)),
        WinchCommand::Quit => (WorkerState::Terminated, Some(WorkerAction::MotorOff)),
    }
}

/// The stepping action one iteration of the winding loop performs: a
/// micro-step cycle in the speed's direction at the speed's delay, or
/// nothing at zero speed.
pub fn winding_step_action(speed: i64) -> (r: Option<WorkerAction>)
    ensures
        speed > 0 ==> r == Some(WorkerAction::StepForward {
            delay_us: spec_step_delay_us(speed as int) as u64,
        }),
        speed < 0 ==> r == Some(WorkerAction::StepBackward {
            delay_us: spec_step_delay_us(speed as int) as u64,
        }),
        speed == 0 ==> r is None,
{
    if speed > 0 {
        Some(WorkerAction::StepForward { delay_us: map_speed_to_delay(speed) })
    } else if speed < 0 {
        Some(WorkerAction::StepBackward { delay_us: map_speed_to_delay(speed) })
    } else {
        None
    }
}

/// Result of coalescing one drained burst.
#[derive(Clone, Copy, Debug, PartialEq, Eq, Structural)]
pub struct BurstOutcome {
    /// Solenoid pulses owed: one per queued `Release`, never discarded.
    pub release_pulses: usize,
    /// The command that wins last-write-wins coalescing, if the burst held
    /// any non-release command.
    pub last_command: Option<WinchCommand>,
}

/// Coalesce a burst of commands drained from the queue: every `Release` is
/// counted so it still fires exactly once, and of the rest only the most
/// recently enqueued survives.
pub fn coalesce_burst(burst: &Vec<WinchCommand>) -> (r: BurstOutcome)
    ensures
        r.release_pulses as nat == release_count(burst@),
        r.last_command == last_non_release(burst@),
        r.release_pulses <= burst@.len(),
{
    let mut release_pulses: usize = 0;
    let mut last_command: Option<WinchCommand> = None;
    let mut i: usize = 0;
    while i < burst.len()
        invariant
            i <= burst.len(),
            release_pulses as nat == release_count(burst@.take(i as int)),
            last_command == last_non_release(burst@.take(i as int)),
            release_pulses <= i,
        decreases burst.len() - i,
    {
        proof {
            assert(burst@.take(i + 1).drop_last() =~= burst@.take(i as int));
            assert(burst@.take(i + 1).last() == burst@[i as int]);
        }
        match burst[i] {
            WinchCommand::Release => {
                release_pulses = release_pulses + 1;
            }
            other => {
                last_command = Some(other);
            }
        }
        i = i + 1;
    }
    proof {
        assert(burst@.take(burst@.len() as int) =~= burst@);
    }
    BurstOutcome { release_pulses, last_command }
}

/// One queue check of the winding loop: coalesce the drained burst, owe one
/// pulse per queued `Release`, and either keep winding at the current speed
/// (empty burst, or only releases) or dispatch the burst's winner.
pub fn winding_transition(speed: i64, burst: &Vec<WinchCommand>) -> (r: (BurstOutcome, WorkerState, Option<WorkerAction>))
    ensures
        r.0.release_pulses as nat == release_count(burst@),
        r.0.last_command == last_non_release(burst@),
        last_non_release(burst@) is None
            ==> r.1 == (WorkerState::Winding { speed }) && r.2 is None,
        last_non_release(burst@) matches Some(winner)
            ==> (r.1, r.2) == dispatch_outcome(winner),
{
    let outcome = coalesce_burst(burst);
    match outcome.last_command {
        None => (outcome, WorkerState::Winding { speed }, None),
        Some(winner) => {
            let (state, action) = worker_dispatch(winner);
            (outcome, state, action)
        }
    }
}

/// Public producer side of the winch: enqueues commands for the worker. The
/// `pending` vector models the commands handed over and not yet drained; the
/// binary that owns the channel forwards them in order.
#[derive(Debug)]
pub struct Winch {
    /// Commands enqueued and not yet handed to the worker, oldest first.
    pub pending: Vec<WinchCommand>,
    /// True once the worker's end of the queue is gone: every further
    /// enqueue fails.
    pub closed: bool,
}

impl Winch {
    /// Every pending command is well-formed.
    pub open spec fn wf(self) -> bool {
        forall|i: int| 0 <= i < self.pending@.len() ==> #[trigger] self.pending@[i].wf()
    }

    /// A winch with an empty queue and a live worker.
    pub fn initialize() -> (r: Winch)
        ensures
            r.wf(),
            r.pending@.len() == 0,
            !r.closed,
    {
        Winch { pending: Vec::new(), closed: false }
    }

    /// Enqueue a winding command: zero speed asks for a stop, any other
    /// speed for winding at that speed. Fails only once the queue is closed.
    pub fn wind(&mut self, speed: i64) -> (r: Result<(), WinchError>)
        requires
            old(self).wf(),
            -VALUE_SCALE <= speed <= VALUE_SCALE,
        ensures
            final(self).wf(),
            final(self).closed == old(self).closed,
            old(self).closed ==> r is Err && final(self).pending@ == old(self).pending@,
            !old(self).closed ==> r is Ok
                && final(self).pending@ == old(self).pending@.push(wind_encoding(speed)),
    {
        if speed == 0 {
            self.enqueue(WinchCommand::Stop)
        } else {
            self.enqueue(WinchCommand::Wind { speed })
        }
    }

    /// Enqueue a stop.
    pub fn stop(&mut self) -> (r: Result<(), WinchError>)
        requires
            old(self).wf(),
        ensures
            final(self).wf(),
            final(self).closed == old(self).closed,
            old(self).closed ==> r is Err && final(self).pending@ == old(self).pending@,
            !old(self).closed ==> r is Ok
                && final(self).pending@ == old(self).pending@.push(WinchCommand::Stop),
    {
        self.enqueue(WinchCommand::Stop)
    }

    /// Enqueue a solenoid release pulse.
    pub fn release(&mut self) -> (r: Result<(), WinchError>)
        requires
            old(self).wf(),
        ensures
            final(self).wf(),
            final(self).closed == old(self).closed,
            old(self).closed ==> r is Err && final(self).pending@ == old(self).pending@,
            !old(self).closed ==> r is Ok
                && final(self).pending@ == old(self).pending@.push(WinchCommand::Release),
    {
        self.enqueue(WinchCommand::Release)
    }

    /// Ask the worker to quit. The binary forwards the command and then
    /// joins the worker thread, so the coils are de-energized before exit.
    pub fn join(&mut self) -> (r: Result<(), WinchError>)
        requires
            old(self).wf(),
        ensures
            final(self).wf(),
            final(self).closed == old(self).closed,
            old(self).closed ==> r is Err && final(self).pending@ == old(self).pending@,
            !old(self).closed ==> r is Ok
                && final(self).pending@ == old(self).pending@.push(WinchCommand::Quit),
    {
        self.enqueue(WinchCommand::Quit)
    }

    /// Hand over everything enqueued so far, in order.
    pub fn take_pending(&mut self) -> (r: Vec<WinchCommand>)
        requires
            old(self).wf(),
        ensures
            final(self).wf(),
            final(self).closed == old(self).closed,
            final(self).pending@.len() == 0,
            r@ == old(self).pending@,
    {
        let mut drained: Vec<WinchCommand> = Vec::new();
        core::mem::swap(&mut drained, &mut self.pending);
        drained
    }

    /// Record that the worker's end of the queue is gone.
    pub fn mark_closed(&mut self)
        requires
            old(self).wf(),
        ensures
            final(self).wf(),
            final(self).closed,
            final(self).pending@ == old(self).pending@,
    {
        self.closed = true;
    }

    fn enqueue(&mut self, command: WinchCommand) -> (r: Result<(), WinchError>)
        requires
            old(self).wf(),
            command.wf(),
        ensures
            final(self).wf(),
            final(self).closed == old(self).closed,
            old(self).closed ==> r is Err && final(self).pending@ == old(self).pending@,
            !old(self).closed ==> r is Ok
                && final(self).pending@ == old(self).pending@.push(command),
    {
        if self.closed {
            Err(WinchError::new("winch command queue is closed"))
        } else {
            self.pending.push(command);
            Ok(())
        }
    }
}

/// `release_count` counts exactly the `Release` elements of a burst: every
/// queued release fires once, none twice, none is dropped.
pub proof fn lemma_release_count_is_filter(burst: Seq<WinchCommand>)
    ensures
        release_count(burst) == burst.filter(|c: WinchCommand| c is Release).len(),
    decreases burst.len(),
{
    reveal(Seq::filter);
    if burst.len() > 0 {
        lemma_release_count_is_filter(burst.drop_last());
    }
}

/// Coalescing law: if a burst's most recent non-release command is the wind
/// at index `k` — a burst of winds interleaved with releases, `k` the last
/// wind — then coalescing dispatches exactly that wind, never an earlier
/// one, and still owes one pulse per queued release.
pub proof fn lemma_coalesce_takes_last_wind(burst: Seq<WinchCommand>, k: int)
    requires
        0 <= k < burst.len(),
        !(burst[k] is Release),
        forall|j: int| k < j < burst.len() ==> (#[trigger] burst[j]) is Release,
    ensures
        last_non_release(burst) == Some(burst[k]),
    decreases burst.len(),
{
    if k == burst.len() - 1 {
        assert(burst.last() == burst[k]);
    } else {
        assert(burst.last() is Release);
        lemma_coalesce_takes_last_wind(burst.drop_last(), k);
    }
}

}
