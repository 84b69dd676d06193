//! Frame pacing controller: the real-time synchronization loop's decisions.
//!
//! The controller has two states, running and terminated. While running,
//! every iteration commands exactly one emulation step — never zero, never
//! two — whatever the iteration's measured cost was; timing enters only the
//! sleep budget, never the step count, so the loop self-throttles but never
//! skips or doubles frames. After the step, the measured elapsed time is
//! compared against the configured minimum frame interval: if the iteration
//! came in under the interval the controller asks for a blocking sleep of
//! exactly the remainder, and otherwise for no sleep at all. The close
//! signal, checked once per iteration, moves the controller to the
//! terminated state, from which no step is ever commanded again.
//!
//! The host loop around the controller performs the commanded work — the
//! emulation step, the input sampling, the sleep — and reports the observed
//! close signal and elapsed time back in.

use vstd::prelude::*;

verus! {

/// Nanoseconds in one second.
pub const NANOS_PER_SECOND: u64 = 1_000_000_000;

/// The controller's two states.
#[derive(Clone, Copy, PartialEq, Eq, Structural, Debug)]
pub enum LoopState {
    Running,
    Terminated,
}

/// What the host loop must do in one iteration: run exactly one emulation
/// step, or shut down cleanly and never call back.
#[derive(Clone, Copy, PartialEq, Eq, Structural, Debug)]
pub enum IterationCommand {
    RunStep,
    Shutdown,
}

/// State after an iteration that observed close signal `close`: a close
/// terminates the loop, and the terminated state is absorbing.
pub open spec fn next_state(s: LoopState, close: bool) -> LoopState {
    if s is Running && !close {
        LoopState::Running
    } else {
        LoopState::Terminated
    }
}

/// Command issued by an iteration that observed close signal `close`.
pub open spec fn iteration_command(s: LoopState, close: bool) -> IterationCommand {
    if s is Running && !close {
        IterationCommand::RunStep
    } else {
        IterationCommand::Shutdown
    }
}

/// Emulation steps one command performs.
pub open spec fn steps_of(cmd: IterationCommand) -> nat {
    match cmd {
        IterationCommand::RunStep => 1,
        IterationCommand::Shutdown => 0,
    }
}

/// Total emulation steps over a run that starts in state `s` and observes
/// the close signals `closes`, one per iteration, in order.
pub open spec fn steps_in_run(s: LoopState, closes: Seq<bool>) -> nat
    decreases closes.len(),
{
    if closes.len() == 0 {
        0
    } else {
        steps_of(iteration_command(s, closes[0])) + steps_in_run(next_state(s, closes[0]), closes.skip(1))
    }
}

/// Sleep the controller asks for after an iteration that took
/// `elapsed_ns`: the remainder of the frame interval, or nothing when the
/// iteration already met or exceeded it.
pub open spec fn sleep_budget_model(interval_ns: u64, elapsed_ns: u64) -> u64 {
    if elapsed_ns < interval_ns {
        (interval_ns - elapsed_ns) as u64
    } else {
        0
    }
}

/// The frame pacing controller. It drives the main loop's decisions; the
/// work itself — stepping the core, sampling input, sleeping — happens in
/// the host loop, which feeds the close signal and the measured elapsed
/// time back into these methods.
pub struct PacingController {
    state: LoopState,
    min_frame_interval_ns: u64,
}

impl PacingController {
    /// Current state.
    pub closed spec fn state_spec(&self) -> LoopState {
        self.state
    }

    /// Configured minimum frame interval, in nanoseconds.
    pub closed spec fn interval_ns_spec(&self) -> u64 {
        self.min_frame_interval_ns
    }

    /// A running controller paced at `target_fps` frames per second.
    pub fn new(target_fps: u32) -> (r: Self)
        requires
            target_fps >= 1,
        ensures
            r.state_spec() is Running,
            r.interval_ns_spec() == NANOS_PER_SECOND as int / target_fps as int,
    {
        PacingController {
            state: LoopState::Running,
            min_frame_interval_ns: NANOS_PER_SECOND / (target_fps as u64),
        }
    }

    /// Whether the close signal has already terminated the loop.
    pub fn has_terminated(&self) -> (r: bool)
        ensures
            r == (self.state_spec() is Terminated),
    {
        match self.state {
            LoopState::Terminated => true,
            LoopState::Running => false,
        }
    }

    /// Decide one iteration, given the close signal observed at its top.
    /// A running controller with no close commands exactly one step; a
    /// close, or an already terminated controller, commands shutdown and
    /// leaves the controller terminated for good. The elapsed time of any
    /// previous iteration plays no part in this decision.
    pub fn begin_iteration(&mut self, close_requested: bool) -> (cmd: IterationCommand)
        ensures
            cmd == iteration_command(old(self).state_spec(), close_requested),
            final(self).state_spec() == next_state(old(self).state_spec(), close_requested),
            final(self).interval_ns_spec() == old(self).interval_ns_spec(),
    {
        match self.state {
            LoopState::Running => {
                if close_requested {
                    self.state = LoopState::Terminated;
                    IterationCommand::Shutdown
                } else {
                    IterationCommand::RunStep
                }
            },
            LoopState::Terminated => IterationCommand::Shutdown,
        }
    }

    /// How long to sleep after an iteration that took `elapsed_ns`
    /// nanoseconds: the unspent remainder of the minimum frame interval if
    /// the iteration came in under it, and zero otherwise — a late
    /// iteration is never absorbed by a sleep, and the next one starts
    /// immediately.
    pub fn sleep_budget(&self, elapsed_ns: u64) -> (r: u64)
        ensures
            r == sleep_budget_model(self.interval_ns_spec(), elapsed_ns),
            elapsed_ns >= self.interval_ns_spec() ==> r == 0,
            r <= self.interval_ns_spec(),
            r > 0 ==> elapsed_ns + r == self.interval_ns_spec(),
    {
        if elapsed_ns < self.min_frame_interval_ns {
            self.min_frame_interval_ns - elapsed_ns
        } else {
            0
        }
    }
}

/// One step per iteration: a run that never observes the close signal
/// performs exactly as many emulation steps as it has iterations — no frame
/// is skipped and none is doubled, however long any iteration took, since
/// elapsed time never reaches the step decision at all.
pub proof fn lemma_one_step_per_iteration(closes: Seq<bool>)
    requires
        forall|i: int| 0 <= i < closes.len() ==> !closes[i],
    ensures
        steps_in_run(LoopState::Running, closes) == closes.len(),
    decreases closes.len(),
{
    if closes.len() > 0 {
        assert(forall|i: int| 0 <= i < closes.skip(1).len() ==> closes.skip(1)[i] == closes[i + 1]);
        lemma_one_step_per_iteration(closes.skip(1));
    }
}

/// A terminated controller never commands another step, whatever signals
/// later iterations observe.
pub proof fn lemma_terminated_runs_no_steps(closes: Seq<bool>)
    ensures
        steps_in_run(LoopState::Terminated, closes) == 0,
    decreases closes.len(),
{
    if closes.len() > 0 {
        lemma_terminated_runs_no_steps(closes.skip(1));
    }
}

/// Clean shutdown: once the close signal is first observed, at iteration
/// `i`, no further steps occur — the whole run performs exactly the `i`
/// steps of the iterations that preceded the close.
pub proof fn lemma_no_steps_after_close(closes: Seq<bool>, i: int)
    requires
        0 <= i < closes.len(),
        closes[i],
        forall|j: int| 0 <= j < i ==> !closes[j],
    ensures
        steps_in_run(LoopState::Running, closes) == i,
    decreases i,
{
    if i == 0 {
        lemma_terminated_runs_no_steps(closes.skip(1));
    } else {
        assert(forall|j: int| 0 <= j < closes.skip(1).len() ==> closes.skip(1)[j] == closes[j + 1]);
        lemma_no_steps_after_close(closes.skip(1), i - 1);
    }
}

} // verus!
