//! The control loop's state machine. The calling layer owns the event
//! source, the signal handler and the OS process operations; this type owns
//! every decision: whether an event restarts the server, when the debouncer
//! lets a restart through, which child handle must be terminated before a
//! new one is tracked, and when the loop stops.
//!
//! Protocol: `poll` is called once per loop turn with the run flag, the
//! input the turn produced and the current monotonic time. The returned
//! action tells the caller what to perform: on `Restart` it terminates and
//! reaps the handed-out child (if any), spawns the configured command, and
//! reports the outcome through `record_spawn`; on `Shutdown` it terminates
//! the handed-out child and exits the loop.

use vstd::prelude::*;

use crate::config::Config;
use crate::debounce::{spec_accepts, RestartClock};
use crate::filter::{should_restart_for_event, spec_event_qualifies, FsEvent};
use crate::supervisor::ServerProcess;

verus! {

/// What one loop turn produced: a filesystem event, a poll timeout (used to
/// re-check the run flag), or a non-fatal event-source error.
pub enum LoopInput {
    Event(FsEvent),
    Timeout,
    SourceError,
}

/// What the caller must perform after one `poll`.
pub enum LoopAction {
    /// Nothing to do; keep looping.
    Continue,
    /// Terminate and reap `stop_first` (if any), then spawn the configured
    /// command and report the outcome through `record_spawn`.
    Restart { stop_first: Option<u64> },
    /// Terminate and reap `stop` (if any), then exit the loop.
    Shutdown { stop: Option<u64> },
}

/// The orchestrator's state as the contracts see it.
pub struct OrchModel {
    /// The loop has observed the run flag low and performed its final stop.
    pub stopped: bool,
    /// The debounce clock: timestamp of the last accepted restart.
    pub last: Option<u64>,
    /// The tracked child's handle, if one is live.
    pub child: Option<u64>,
    /// A restart was handed out and its spawn outcome is still owed.
    pub awaiting_spawn: bool,
}

/// The control-loop state machine: configuration, debounce clock, process
/// supervisor and run state.
pub struct Orchestrator {
    config: Config,
    clock: RestartClock,
    server: ServerProcess,
    stopped: bool,
    awaiting_spawn: bool,
}

impl View for Orchestrator {
    type V = OrchModel;

    closed spec fn view(&self) -> OrchModel {
        OrchModel {
            stopped: self.stopped,
            last: self.clock@,
            child: self.server@,
            awaiting_spawn: self.awaiting_spawn,
        }
    }
}

/// The state a fresh orchestrator starts in: running, fresh clock, no child
/// tracked, and the initial spawn owed.
pub open spec fn spec_initial() -> OrchModel {
    OrchModel { stopped: false, last: None, child: None, awaiting_spawn: true }
}

/// Whether the input carries an event that qualifies for a restart under
/// the watch configuration; timeouts and source errors never do.
pub open spec fn spec_input_qualifies(input: LoopInput, config: crate::config::WatchConfig) -> bool {
    match input {
        LoopInput::Event(e) => spec_event_qualifies(e, config),
        LoopInput::Timeout => false,
        LoopInput::SourceError => false,
    }
}

/// One turn of the loop: observing the run flag low stops the machine and
/// hands the tracked child out for its final termination; a qualifying
/// event accepted by the debouncer hands the tracked child out and owes a
/// spawn; everything else leaves the state untouched.
pub open spec fn spec_poll(
    m: OrchModel,
    run_flag: bool,
    qualifies: bool,
    now_ms: u64,
    debounce_ms: u64,
) -> (OrchModel, LoopAction) {
    if m.stopped {
        (m, LoopAction::Continue)
    } else if !run_flag {
        (
            OrchModel { stopped: true, child: None, ..m },
            LoopAction::Shutdown { stop: m.child },
        )
    } else if qualifies && !m.awaiting_spawn && spec_accepts(m.last, now_ms, debounce_ms) {
        (
            OrchModel { last: Some(now_ms), child: None, awaiting_spawn: true, ..m },
            LoopAction::Restart { stop_first: m.child },
        )
    } else {
        (m, LoopAction::Continue)
    }
}

/// Recording a spawn outcome tracks the new child (or none, on a failed
/// spawn) and discharges the owed spawn.
pub open spec fn spec_record_spawn(m: OrchModel, outcome: Option<u64>) -> OrchModel {
    if !m.stopped && m.awaiting_spawn && m.child is None {
        OrchModel { child: outcome, awaiting_spawn: false, ..m }
    } else {
        m
    }
}

impl Orchestrator {
    /// The configuration this orchestrator runs with; it never changes over
    /// the orchestrator's lifetime.
    pub closed spec fn spec_config(&self) -> Config {
        self.config
    }

    /// The configuration this orchestrator runs with.
    pub fn config(&self) -> (r: &Config)
        ensures
            r == self.spec_config(),
    {
        &self.config
    }

    /// A fresh orchestrator for one run. The initial spawn is owed: the
    /// caller spawns the configured command and reports through
    /// `record_spawn` before the first `poll`.
    pub fn new(config: Config) -> (o: Orchestrator)
        ensures
            o@ == spec_initial(),
            o.spec_config() == config,
    {
        Orchestrator {
            config,
            clock: RestartClock::new(),
            server: ServerProcess::new(),
            stopped: false,
            awaiting_spawn: true,
        }
    }

    /// Decide one loop turn. See `spec_poll` for the transition.
    pub fn poll(&mut self, run_flag: bool, input: &LoopInput, now_ms: u64) -> (act: LoopAction)
        requires
            !old(self)@.stopped,
            !old(self)@.awaiting_spawn,
        ensures
            final(self).spec_config() == old(self).spec_config(),
            ({
                let step = spec_poll(
                    old(self)@,
                    run_flag,
                    spec_input_qualifies(*input, old(self).spec_config().watch),
                    now_ms,
                    old(self).spec_config().watch.debounce_ms,
                );
                final(self)@ == step.0 && act == step.1
            }),
    {
        if !run_flag {
            let stop = self.server.stop();
            self.stopped = true;
            return LoopAction::Shutdown { stop };
        }
        match input {
            LoopInput::Event(event) => {
                if should_restart_for_event(event, &self.config.watch) {
                    if self.clock.accept(now_ms, self.config.watch.debounce_ms) {
                        let stop_first = self.server.stop();
                        self.awaiting_spawn = true;
                        return LoopAction::Restart { stop_first };
                    }
                }
                LoopAction::Continue
            },
            LoopInput::Timeout => LoopAction::Continue,
            LoopInput::SourceError => LoopAction::Continue,
        }
    }

    /// Report the outcome of the spawn owed by the last `Restart` action or
    /// by `new`: the new child's handle, or `None` when the spawn failed.
    /// A failed spawn is not fatal: the supervisor simply tracks no child
    /// and the loop goes on.
    pub fn record_spawn(&mut self, outcome: Option<u64>)
        requires
            !old(self)@.stopped,
            old(self)@.awaiting_spawn,
            old(self)@.child is None,
        ensures
            final(self).spec_config() == old(self).spec_config(),
            final(self)@ == spec_record_spawn(old(self)@, outcome),
    {
        self.server.record_spawn(outcome);
        self.awaiting_spawn = false;
    }

    /// Whether the machine has performed its final stop.
    pub fn is_stopped(&self) -> (r: bool)
        ensures
            r == self@.stopped,
    {
        self.stopped
    }

    /// Whether a spawn outcome is owed through `record_spawn`.
    pub fn is_awaiting_spawn(&self) -> (r: bool)
        ensures
            r == self@.awaiting_spawn,
    {
        self.awaiting_spawn
    }

    /// The handle of the tracked child, if one is live.
    pub fn current_child(&self) -> (r: Option<u64>)
        ensures
            r == self@.child,
    {
        self.server.current_child()
    }
}

/// One abstract operation on the orchestrator, for stating laws over whole
/// runs: a loop turn, or the report of a spawn outcome.
pub enum OrchOp {
    Poll { run_flag: bool, qualifies: bool, now_ms: u64 },
    RecordSpawn { outcome: Option<u64> },
}

/// The state after one abstract operation.
pub open spec fn spec_op_state(m: OrchModel, op: OrchOp, debounce_ms: u64) -> OrchModel {
    match op {
        OrchOp::Poll { run_flag, qualifies, now_ms } => spec_poll(
            m,
            run_flag,
            qualifies,
            now_ms,
            debounce_ms,
        ).0,
        OrchOp::RecordSpawn { outcome } => spec_record_spawn(m, outcome),
    }
}

/// The action one abstract operation emits; reporting a spawn emits none.
pub open spec fn spec_op_action(m: OrchModel, op: OrchOp, debounce_ms: u64) -> LoopAction {
    match op {
        OrchOp::Poll { run_flag, qualifies, now_ms } => spec_poll(
            m,
            run_flag,
            qualifies,
            now_ms,
            debounce_ms,
        ).1,
        OrchOp::RecordSpawn { .. } => LoopAction::Continue,
    }
}

/// How many children this operation hands out for termination (0 or 1):
/// the `stop_first` of a `Restart` or the `stop` of a `Shutdown`.
pub open spec fn spec_op_stops(m: OrchModel, op: OrchOp, debounce_ms: u64) -> nat {
    match spec_op_action(m, op, debounce_ms) {
        LoopAction::Continue => 0,
        LoopAction::Restart { stop_first } => if stop_first is Some {
            1
        } else {
            0
        },
        LoopAction::Shutdown { stop } => if stop is Some {
            1
        } else {
            0
        },
    }
}

/// How many live children this operation starts tracking (0 or 1).
pub open spec fn spec_op_spawns(m: OrchModel, op: OrchOp, debounce_ms: u64) -> nat {
    match op {
        OrchOp::Poll { .. } => 0,
        OrchOp::RecordSpawn { outcome } => if !m.stopped && m.awaiting_spawn && m.child is None
            && outcome is Some {
            1
        } else {
            0
        },
    }
}

/// The state after a whole run of abstract operations.
pub open spec fn spec_run(m: OrchModel, ops: Seq<OrchOp>, debounce_ms: u64) -> OrchModel
    decreases ops.len(),
{
    if ops.len() == 0 {
        m
    } else {
        spec_run(spec_op_state(m, ops[0], debounce_ms), ops.drop_first(), debounce_ms)
    }
}

/// How many children a whole run hands out for termination.
pub open spec fn spec_run_stops(m: OrchModel, ops: Seq<OrchOp>, debounce_ms: u64) -> nat
    decreases ops.len(),
{
    if ops.len() == 0 {
        0
    } else {
        spec_op_stops(m, ops[0], debounce_ms) + spec_run_stops(
            spec_op_state(m, ops[0], debounce_ms),
            ops.drop_first(),
            debounce_ms,
        )
    }
}

/// How many live children a whole run starts tracking.
pub open spec fn spec_run_spawns(m: OrchModel, ops: Seq<OrchOp>, debounce_ms: u64) -> nat
    decreases ops.len(),
{
    if ops.len() == 0 {
        0
    } else {
        spec_op_spawns(m, ops[0], debounce_ms) + spec_run_spawns(
            spec_op_state(m, ops[0], debounce_ms),
            ops.drop_first(),
            debounce_ms,
        )
    }
}

/// How many `Shutdown` actions a whole run emits.
pub open spec fn spec_run_shutdowns(m: OrchModel, ops: Seq<OrchOp>, debounce_ms: u64) -> nat
    decreases ops.len(),
{
    if ops.len() == 0 {
        0
    } else {
        (if spec_op_action(m, ops[0], debounce_ms) is Shutdown {
            1nat
        } else {
            0nat
        }) + spec_run_shutdowns(spec_op_state(m, ops[0], debounce_ms), ops.drop_first(), debounce_ms)
    }
}

/// How many `Restart` actions a whole run emits.
pub open spec fn spec_run_restarts(m: OrchModel, ops: Seq<OrchOp>, debounce_ms: u64) -> nat
    decreases ops.len(),
{
    if ops.len() == 0 {
        0
    } else {
        (if spec_op_action(m, ops[0], debounce_ms) is Restart {
            1nat
        } else {
            0nat
        }) + spec_run_restarts(spec_op_state(m, ops[0], debounce_ms), ops.drop_first(), debounce_ms)
    }
}

/// 1 when a child is tracked, else 0.
pub open spec fn spec_live(m: OrchModel) -> nat {
    if m.child is Some {
        1
    } else {
        0
    }
}

/// Orphan-freedom: over any run of loop turns and spawn reports, every
/// child ever tracked is either the (at most one) currently tracked child
/// or was handed out for termination before its replacement was tracked;
/// live children are conserved exactly, and there is never more than one.
pub proof fn lemma_no_orphans(m: OrchModel, ops: Seq<OrchOp>, debounce_ms: u64)
    ensures
        spec_live(spec_run(m, ops, debounce_ms)) + spec_run_stops(m, ops, debounce_ms) == spec_live(
            m,
        ) + spec_run_spawns(m, ops, debounce_ms),
        spec_live(spec_run(m, ops, debounce_ms)) <= 1,
    decreases ops.len(),
{
    if ops.len() > 0 {
        lemma_no_orphans(spec_op_state(m, ops[0], debounce_ms), ops.drop_first(), debounce_ms);
    }
}

/// A stopped orchestrator is terminal: no operation changes its state, no
/// child is handed out or tracked again, and no further `Restart` or
/// `Shutdown` action is emitted.
pub proof fn lemma_stopped_is_terminal(m: OrchModel, ops: Seq<OrchOp>, debounce_ms: u64)
    requires
        m.stopped,
    ensures
        spec_run(m, ops, debounce_ms) == m,
        spec_run_stops(m, ops, debounce_ms) == 0,
        spec_run_spawns(m, ops, debounce_ms) == 0,
        spec_run_restarts(m, ops, debounce_ms) == 0,
        spec_run_shutdowns(m, ops, debounce_ms) == 0,
    decreases ops.len(),
{
    if ops.len() > 0 {
        assert(spec_op_state(m, ops[0], debounce_ms) == m);
        lemma_stopped_is_terminal(m, ops.drop_first(), debounce_ms);
    }
}

/// Once a restart was accepted at `accepted_at`, no loop turn whose time
/// falls before the window `accepted_at + debounce_ms` closes can emit
/// another `Restart`: the debounce clock rejects it and nothing else moves
/// the clock.
proof fn lemma_no_restart_inside_window(
    m: OrchModel,
    ops: Seq<OrchOp>,
    accepted_at: u64,
    debounce_ms: u64,
)
    requires
        m.last == Some(accepted_at),
        forall|i: int|
            0 <= i < ops.len() ==> (#[trigger] ops[i] matches OrchOp::Poll { now_ms, .. }
                ==> now_ms < accepted_at + debounce_ms),
    ensures
        spec_run_restarts(m, ops, debounce_ms) == 0,
    decreases ops.len(),
{
    if ops.len() > 0 {
        let m2 = spec_op_state(m, ops[0], debounce_ms);
        assert(!(spec_op_action(m, ops[0], debounce_ms) is Restart));
        assert(m2.last == Some(accepted_at));
        lemma_no_restart_inside_window(m2, ops.drop_first(), accepted_at, debounce_ms);
    }
}

/// Idempotent debounce, at the level of whole runs: over any run whose loop
/// turns all fall within one window of positive length `debounce_ms`
/// starting at `w`, at most one `Restart` action is emitted, from any
/// starting state.
pub proof fn lemma_at_most_one_restart_per_window(
    m: OrchModel,
    ops: Seq<OrchOp>,
    w: u64,
    debounce_ms: u64,
)
    requires
        debounce_ms >= 1,
        forall|i: int|
            0 <= i < ops.len() ==> (#[trigger] ops[i] matches OrchOp::Poll { now_ms, .. } ==> w
                <= now_ms < w + debounce_ms),
    ensures
        spec_run_restarts(m, ops, debounce_ms) <= 1,
    decreases ops.len(),
{
    if ops.len() > 0 {
        let m2 = spec_op_state(m, ops[0], debounce_ms);
        if spec_op_action(m, ops[0], debounce_ms) is Restart {
            let now0 = ops[0]->Poll_now_ms;
            assert(m2.last == Some(now0));
            assert(w <= now0);
            assert(forall|i: int|
                0 <= i < ops.drop_first().len() ==> (#[trigger] ops.drop_first()[i] matches
                    OrchOp::Poll { now_ms, .. } ==> now_ms < now0 + debounce_ms));
            lemma_no_restart_inside_window(m2, ops.drop_first(), now0, debounce_ms);
        } else {
            lemma_at_most_one_restart_per_window(m2, ops.drop_first(), w, debounce_ms);
        }
    }
}

/// The final stop happens at most once: over any run from any state, at
/// most one `Shutdown` action is emitted, because the first one stops the
/// machine and a stopped machine is terminal.
pub proof fn lemma_shutdown_at_most_once(m: OrchModel, ops: Seq<OrchOp>, debounce_ms: u64)
    ensures
        spec_run_shutdowns(m, ops, debounce_ms) <= 1,
    decreases ops.len(),
{
    if ops.len() > 0 {
        let m2 = spec_op_state(m, ops[0], debounce_ms);
        if spec_op_action(m, ops[0], debounce_ms) is Shutdown {
            assert(m2.stopped);
            lemma_stopped_is_terminal(m2, ops.drop_first(), debounce_ms);
        } else {
            lemma_shutdown_at_most_once(m2, ops.drop_first(), debounce_ms);
        }
    }
}

} // verus!

