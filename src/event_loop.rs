use vstd::prelude::*;

verus! {

/// How long the driver may block between iterations when nothing is
/// pending.  Instants are nanoseconds on the embedder's monotonic clock.
#[derive(Debug, Clone, Copy, PartialEq, Eq, Structural)]
pub enum ControlFlow {
    Poll,
    Wait,
    WaitUntil(u64),
}

/// Why an application iteration runs.
#[derive(Debug, Clone, Copy, PartialEq, Eq, Structural)]
#[allow(inconsistent_fields)]
pub enum StartCause {
    Init,
    Poll,
    WaitCancelled { start: u64, requested_resume: Option<u64> },
    ResumeTimeReached { start: u64, requested_resume: u64 },
}

/// What one pump reports to its caller.
#[derive(Debug, Clone, Copy, PartialEq, Eq, Structural)]
pub enum PumpStatus {
    Continue,
    Exit(i32),
}

/// Which device events the application wants.
#[derive(Debug, Clone, Copy, PartialEq, Eq, Structural)]
pub enum DeviceEvents {
    Always,
    WhenFocused,
    Never,
}

/// A failure of the native platform, with where it was raised.
#[derive(Debug, Clone)]
pub struct OsError {
    pub line: u32,
    pub file: String,
    pub message: String,
}

#[derive(Debug, Clone)]
pub enum EventLoopError {
    Os(OsError),
    RecreationAttempt,
    ExitFailure(i32),
}

/// The timeout that the control flow alone asks for: none for `Poll`, no
/// bound for `Wait`, and the time left until the deadline (never below
/// zero) for `WaitUntil`.
pub open spec fn policy_timeout_of(control_flow: ControlFlow, start: u64) -> Option<u64> {
    match control_flow {
        ControlFlow::Poll => Some(0),
        ControlFlow::Wait => None,
        ControlFlow::WaitUntil(deadline) => Some(
            if deadline > start {
                (deadline - start) as u64
            } else {
                0
            },
        ),
    }
}

/// The minimum of two timeouts, where `None` (no bound) is the identity.
pub open spec fn min_timeout_of(a: Option<u64>, b: Option<u64>) -> Option<u64> {
    match (a, b) {
        (None, x) => x,
        (x, None) => x,
        (Some(l), Some(r)) => Some(if l <= r {
            l
        } else {
            r
        }),
    }
}

/// The timeout of the next native wait: zero when work is pending,
/// otherwise the smaller of the caller's and the control flow's.
pub open spec fn wait_timeout_of(
    caller: Option<u64>,
    pending: bool,
    control_flow: ControlFlow,
    start: u64,
) -> Option<u64> {
    if pending {
        Some(0)
    } else {
        min_timeout_of(caller, policy_timeout_of(control_flow, start))
    }
}

pub open spec fn start_cause_of(control_flow: ControlFlow, start: u64, now: u64) -> StartCause {
    match control_flow {
        ControlFlow::Poll => StartCause::Poll,
        ControlFlow::Wait => StartCause::WaitCancelled { start, requested_resume: None },
        ControlFlow::WaitUntil(deadline) => if now < deadline {
            StartCause::WaitCancelled { start, requested_resume: Some(deadline) }
        } else {
            StartCause::ResumeTimeReached { start, requested_resume: deadline }
        },
    }
}

/// An iteration is skipped only when nothing is pending, no deadline was
/// reached, the policy is not `Poll`, and the wait had no bound.
pub open spec fn wants_iteration_of(pending: bool, cause: StartCause, timeout: Option<u64>) -> bool {
    pending || cause is ResumeTimeReached || cause is Poll || timeout is Some
}

/// The deadline's remaining time, saturating at zero.
pub fn policy_timeout(control_flow: ControlFlow, start: u64) -> (r: Option<u64>)
    ensures
        r == policy_timeout_of(control_flow, start),
{
    match control_flow {
        ControlFlow::Poll => Some(0),
        ControlFlow::Wait => None,
        ControlFlow::WaitUntil(deadline) => Some(
            if deadline > start {
                deadline - start
            } else {
                0
            },
        ),
    }
}

pub fn min_timeout(a: Option<u64>, b: Option<u64>) -> (r: Option<u64>)
    ensures
        r == min_timeout_of(a, b),
{
    match (a, b) {
        (None, x) => x,
        (x, None) => x,
        (Some(l), Some(r)) => Some(if l <= r {
            l
        } else {
            r
        }),
    }
}

/// Computes the timeout of the next native wait.
pub fn wait_timeout(caller: Option<u64>, pending: bool, control_flow: ControlFlow, start: u64) -> (r:
    Option<u64>)
    ensures
        r == wait_timeout_of(caller, pending, control_flow, start),
{
    if pending {
        Some(0)
    } else {
        min_timeout(caller, policy_timeout(control_flow, start))
    }
}

/// Derives why the coming iteration runs from the control flow and the
/// time the wait started and ended.
pub fn start_cause(control_flow: ControlFlow, start: u64, now: u64) -> (r: StartCause)
    ensures
        r == start_cause_of(control_flow, start, now),
{
    match control_flow {
        ControlFlow::Poll => StartCause::Poll,
        ControlFlow::Wait => StartCause::WaitCancelled { start, requested_resume: None },
        ControlFlow::WaitUntil(deadline) => if now < deadline {
            StartCause::WaitCancelled { start, requested_resume: Some(deadline) }
        } else {
            StartCause::ResumeTimeReached { start, requested_resume: deadline }
        },
    }
}

pub fn wants_iteration(pending: bool, cause: StartCause, timeout: Option<u64>) -> (r: bool)
    ensures
        r == wants_iteration_of(pending, cause, timeout),
{
    if !pending && !(matches!(cause, StartCause::ResumeTimeReached { .. }) || matches!(cause, StartCause::Poll))
        && timeout.is_none() {
        false
    } else {
        true
    }
}

/// How to advance the native loop once: optionally block for one event
/// (bounded by `timer` when present), then dispatch every event that is
/// ready without blocking.
#[derive(Debug, Clone, Copy, PartialEq, Eq, Structural)]
pub struct PollPlan {
    pub block: bool,
    pub timer: Option<u64>,
}

pub open spec fn poll_plan_of(timeout: Option<u64>) -> PollPlan {
    match timeout {
        Some(t) => if t == 0 {
            PollPlan { block: false, timer: None }
        } else {
            PollPlan { block: true, timer: Some(t) }
        },
        None => PollPlan { block: true, timer: None },
    }
}

/// A zero timeout only drains; a positive one blocks under a timer; no
/// bound blocks until the next native event.
pub fn poll_plan(timeout: Option<u64>) -> (r: PollPlan)
    ensures
        r == poll_plan_of(timeout),
{
    match timeout {
        Some(t) => if t == 0 {
            PollPlan { block: false, timer: None }
        } else {
            PollPlan { block: true, timer: Some(t) }
        },
        None => PollPlan { block: true, timer: None },
    }
}

/// Options for creating the event loop.
#[derive(Debug, Clone, PartialEq, Eq, Hash)]
pub struct PlatformSpecificEventLoopAttributes {
    pub any_thread: bool,
    pub app_id: Option<String>,
}

impl Default for PlatformSpecificEventLoopAttributes {
    fn default() -> (r: Self)
        ensures
            !r.any_thread,
            r.app_id is None,
    {
        PlatformSpecificEventLoopAttributes { any_thread: false, app_id: None }
    }
}

/// The loop state that the application reads and changes from its
/// callbacks: the control flow, the requested exit code and the device
/// event filter.
#[derive(Debug, Clone, Copy, PartialEq, Eq, Structural)]
pub struct ActiveEventLoop {
    pub control_flow: ControlFlow,
    pub exit_code: Option<i32>,
    pub device_events: DeviceEvents,
}

impl ActiveEventLoop {
    pub fn new() -> (r: Self)
        ensures
            r.control_flow == ControlFlow::Wait,
            r.exit_code is None,
            r.device_events == DeviceEvents::WhenFocused,
    {
        ActiveEventLoop {
            control_flow: ControlFlow::Wait,
            exit_code: None,
            device_events: DeviceEvents::WhenFocused,
        }
    }

    /// Forgets a requested exit, as a new run begins.
    pub fn clear_exit(&mut self)
        ensures
            *final(self) == (ActiveEventLoop { exit_code: None, ..*old(self) }),
    {
        self.exit_code = None;
    }

    pub fn set_control_flow(&mut self, control_flow: ControlFlow)
        ensures
            *final(self) == (ActiveEventLoop { control_flow, ..*old(self) }),
    {
        self.control_flow = control_flow;
    }

    pub fn control_flow(&self) -> (r: ControlFlow)
        ensures
            r == self.control_flow,
    {
        self.control_flow
    }

    /// Requests that the loop exit with status zero.
    pub fn exit(&mut self)
        ensures
            *final(self) == (ActiveEventLoop { exit_code: Some(0), ..*old(self) }),
    {
        self.exit_code = Some(0);
    }

    pub fn exiting(&self) -> (r: bool)
        ensures
            r == self.exit_code is Some,
    {
        self.exit_code.is_some()
    }

    pub fn exit_code(&self) -> (r: Option<i32>)
        ensures
            r == self.exit_code,
    {
        self.exit_code
    }

    pub fn listen_device_events(&mut self, allowed: DeviceEvents)
        ensures
            *final(self) == (ActiveEventLoop { device_events: allowed, ..*old(self) }),
    {
        self.device_events = allowed;
    }
}

/// The process-wide record of whether an event loop was ever created.  It
/// starts unset and, once set, stays set.
#[derive(Debug)]
pub struct CreationGuard {
    created: bool,
}

impl CreationGuard {
    pub closed spec fn created(&self) -> bool {
        self.created
    }

    pub fn new() -> (r: Self)
        ensures
            !r.created(),
    {
        CreationGuard { created: false }
    }

    pub fn is_created(&self) -> (r: bool)
        ensures
            r == self.created(),
    {
        self.created
    }

    /// Marks the guard and reports whether it was marked before.
    pub fn claim(&mut self) -> (was_created: bool)
        ensures
            final(self).created(),
            was_created == old(self).created(),
    {
        let was_created = self.created;
        self.created = true;
        was_created
    }
}

/// What a creation attempt does to the guard: afterwards it is set.
pub open spec fn creation_step(before: CreationGuard, after: CreationGuard) -> bool {
    after.created()
}

/// Whether a creation attempt made with this guard is refused.
pub open spec fn creation_refused(guard: CreationGuard) -> bool {
    guard.created()
}

/// Once an event loop creation has been attempted, every later attempt in
/// the process is refused, whatever became of the first loop.
pub proof fn lemma_second_creation_refused(
    before_first: CreationGuard,
    after_first: CreationGuard,
    after_second: CreationGuard,
)
    requires
        creation_step(before_first, after_first),
        creation_step(after_first, after_second),
    ensures
        creation_refused(after_first),
        creation_refused(after_second),
{
}

/// Where a pump stands between two of its steps.
#[derive(Debug, Clone, Copy, PartialEq, Eq, Structural)]
pub enum PumpStage {
    /// No pump in progress.
    Idle,
    /// The application was activated and runs its `Init` iteration.
    Initializing,
    /// Waiting for the embedder to report whether work is pending.
    Sampling,
    /// The native loop is being advanced.
    Polling,
    /// An application iteration runs.
    Iterating,
}

/// What the embedder reports to the pump.
#[derive(Debug, Clone, Copy, PartialEq, Eq, Structural)]
pub enum PumpEvent {
    /// A pump starts, with the caller's timeout in nanoseconds.
    Begin { timeout: Option<u64> },
    /// The iteration asked for has run.
    IterationDone,
    /// Whether events, redraws, a proxy wake or native events are pending,
    /// and the time.
    Sampled { pending: bool, now: u64 },
    /// The native loop was advanced as asked; what is pending now, and the
    /// time.
    Polled { pending: bool, now: u64 },
}

/// What the pump asks of the embedder next.
#[derive(Debug, Clone, Copy, PartialEq, Eq, Structural)]
pub enum PumpAction {
    /// A new run starts (any earlier exit code is cleared): activate the
    /// application and run an iteration with cause `Init`, during which it
    /// is told that surfaces may now be created.
    Activate,
    /// Report what is pending.
    SamplePending,
    /// Advance the native loop once as the plan says.
    Poll(PollPlan),
    /// Run one application iteration with this cause.
    RunIteration(StartCause),
    /// The pump is over.
    Finish(PumpStatus),
}

/// The whole state of the driver.
#[derive(Debug, Clone, Copy, PartialEq, Eq, Structural)]
pub struct PumpState {
    pub loop_running: bool,
    pub target: ActiveEventLoop,
    pub stage: PumpStage,
    pub caller_timeout: Option<u64>,
    pub start: u64,
    pub timeout: Option<u64>,
    /// Whether the native loop was advanced since the pump began.
    pub native_advanced: bool,
}

/// Holds of every state the driver reaches: once the native loop is being
/// advanced or an iteration runs, the loop was advanced in this pump; and
/// while a pump is in progress the loop is running.
pub open spec fn pump_inv(s: PumpState) -> bool {
    &&& (s.stage == PumpStage::Polling || s.stage == PumpStage::Iterating) ==> s.native_advanced
    &&& s.stage != PumpStage::Idle ==> s.loop_running
}

/// Which events each stage takes.
pub open spec fn accepts(stage: PumpStage, event: PumpEvent) -> bool {
    match stage {
        PumpStage::Idle => event is Begin,
        PumpStage::Initializing => event is IterationDone,
        PumpStage::Sampling => event is Sampled,
        PumpStage::Polling => event is Polled,
        PumpStage::Iterating => event is IterationDone,
    }
}

/// Ends the pump: `Exit` with the requested code (and the loop is no longer
/// running, so a later pump starts afresh), or `Continue`.
pub open spec fn finish_of(s: PumpState) -> (PumpState, PumpAction) {
    match s.target.exit_code {
        Some(code) => (
            PumpState { stage: PumpStage::Idle, loop_running: false, ..s },
            PumpAction::Finish(PumpStatus::Exit(code)),
        ),
        None => (PumpState { stage: PumpStage::Idle, ..s }, PumpAction::Finish(PumpStatus::Continue)),
    }
}

/// After start-up: an exit already requested ends the pump before the
/// native loop is touched; otherwise pending work is sampled.
pub open spec fn after_start_of(s: PumpState) -> (PumpState, PumpAction) {
    if s.target.exit_code is Some {
        finish_of(s)
    } else {
        (PumpState { stage: PumpStage::Sampling, ..s }, PumpAction::SamplePending)
    }
}

/// One step of the pump.
pub open spec fn pump_next(s: PumpState, event: PumpEvent) -> (PumpState, PumpAction) {
    match event {
        PumpEvent::Begin { timeout } => {
            let s1 = PumpState { caller_timeout: timeout, native_advanced: false, ..s };
            if !s.loop_running {
                (
                    PumpState {
                        loop_running: true,
                        stage: PumpStage::Initializing,
                        target: ActiveEventLoop { exit_code: None, ..s.target },
                        ..s1
                    },
                    PumpAction::Activate,
                )
            } else {
                after_start_of(s1)
            }
        },
        PumpEvent::IterationDone => if s.stage == PumpStage::Initializing {
            after_start_of(s)
        } else {
            finish_of(s)
        },
        PumpEvent::Sampled { pending, now } => {
            let t = wait_timeout_of(s.caller_timeout, pending, s.target.control_flow, now);
            (
                PumpState {
                    stage: PumpStage::Polling,
                    start: now,
                    timeout: t,
                    native_advanced: true,
                    ..s
                },
                PumpAction::Poll(poll_plan_of(t)),
            )
        },
        PumpEvent::Polled { pending, now } => {
            let cause = start_cause_of(s.target.control_flow, s.start, now);
            if wants_iteration_of(pending, cause, s.timeout) {
                (PumpState { stage: PumpStage::Iterating, ..s }, PumpAction::RunIteration(cause))
            } else {
                finish_of(s)
            }
        },
    }
}

/// A pump never reports `Continue` without having advanced the native loop:
/// the flag is cleared when a pump begins, is set only together with a
/// `Poll` action (whose plan always ends by draining every ready native
/// event), and is set whenever `Continue` is reported.
pub proof fn lemma_continue_only_after_native_poll(s: PumpState, event: PumpEvent)
    requires
        pump_inv(s),
        accepts(s.stage, event),
    ensures
        pump_inv(pump_next(s, event).0),
        pump_next(s, event).1 == PumpAction::Finish(PumpStatus::Continue) ==> pump_next(
            s,
            event,
        ).0.native_advanced,
        pump_next(s, event).1 == PumpAction::Finish(PumpStatus::Continue) ==> pump_next(
            s,
            event,
        ).0.loop_running,
        event is Begin ==> !pump_next(s, event).0.native_advanced,
        !s.native_advanced && pump_next(s, event).0.native_advanced ==> pump_next(s, event).1 is Poll,
        !(event is Begin) && s.native_advanced ==> pump_next(s, event).0.native_advanced,
{
}

/// A pump driven by a sequence of reports.  Before each report the
/// embedder may have changed the loop state from its callbacks (`exit`,
/// `set_control_flow`); each entry carries the loop state at that moment.
pub open spec fn pump_run(s: PumpState, steps: Seq<(ActiveEventLoop, PumpEvent)>) -> (
    PumpState,
    Seq<PumpAction>,
)
    decreases steps.len(),
{
    if steps.len() == 0 {
        (s, Seq::empty())
    } else {
        let prev = pump_run(s, steps.drop_last());
        let last = steps.last();
        let next = pump_next(PumpState { target: last.0, ..prev.0 }, last.1);
        (next.0, prev.1.push(next.1))
    }
}

/// Each report answers the stage the pump is in when it arrives.
pub open spec fn run_accepted(s: PumpState, steps: Seq<(ActiveEventLoop, PumpEvent)>) -> bool {
    forall|k: int| 0 <= k < steps.len() ==> accepts(#[trigger] pump_run(s, steps.take(k)).0.stage, steps[k].1)
}

proof fn lemma_pump_run_prefix(
    s: PumpState,
    steps: Seq<(ActiveEventLoop, PumpEvent)>,
)
    requires
        pump_inv(s),
        s.stage == PumpStage::Idle,
        steps.len() >= 1,
        steps[0].1 is Begin,
        forall|k: int| 1 <= k < steps.len() ==> !(#[trigger] steps[k].1 is Begin),
        run_accepted(s, steps),
    ensures
        pump_run(s, steps).1.len() == steps.len(),
        pump_inv(pump_run(s, steps).0),
        pump_run(s, steps).0.native_advanced ==> exists|k: int|
            0 <= k < steps.len() && #[trigger] pump_run(s, steps).1[k] is Poll,
        pump_run(s, steps).1.last() == PumpAction::Finish(PumpStatus::Continue) ==> pump_run(
            s,
            steps,
        ).0.native_advanced,
    decreases steps.len(),
{
    let prev_steps = steps.drop_last();
    let prev = pump_run(s, prev_steps);
    let last = steps.last();
    let n = steps.len() - 1;
    assert(steps.take(n) == prev_steps);
    assert(accepts(pump_run(s, steps.take(n)).0.stage, steps[n].1));
    let before = PumpState { target: last.0, ..prev.0 };
    if steps.len() == 1 {
        assert(prev_steps.len() == 0);
        assert(prev == (s, Seq::<PumpAction>::empty()));
        lemma_continue_only_after_native_poll(before, last.1);
    } else {
        assert forall|k: int| 1 <= k < prev_steps.len() implies !(#[trigger] prev_steps[k].1 is Begin) by {
            assert(prev_steps[k] == steps[k]);
        }
        assert forall|k: int| 0 <= k < prev_steps.len() implies accepts(
            #[trigger] pump_run(s, prev_steps.take(k)).0.stage,
            prev_steps[k].1,
        ) by {
            assert(prev_steps.take(k) == steps.take(k));
            assert(prev_steps[k] == steps[k]);
            assert(accepts(pump_run(s, steps.take(k)).0.stage, steps[k].1));
        }
        assert(prev_steps[0] == steps[0]);
        lemma_pump_run_prefix(s, prev_steps);
        assert(!(steps[n].1 is Begin));
        lemma_continue_only_after_native_poll(before, last.1);
        let acts = pump_run(s, steps).1;
        assert(acts == prev.1.push(pump_next(before, last.1).1));
        if prev.0.native_advanced {
            let k = choose|k: int| 0 <= k < prev_steps.len() && #[trigger] prev.1[k] is Poll;
            assert(acts[k] == prev.1[k]);
        }
    }
    let acts = pump_run(s, steps).1;
    if pump_run(s, steps).0.native_advanced && !prev.0.native_advanced {
        assert(acts[n] is Poll);
    }
}

/// Over a whole pump, from its `Begin` to its `Finish`, `Continue` is
/// reported only if a `Poll` action asked the embedder to advance the
/// native loop (a plan that always ends by draining every ready native
/// event) during that pump.
pub proof fn lemma_pump_continues_only_after_poll(
    s: PumpState,
    steps: Seq<(ActiveEventLoop, PumpEvent)>,
)
    requires
        pump_inv(s),
        s.stage == PumpStage::Idle,
        steps.len() >= 1,
        steps[0].1 is Begin,
        forall|k: int| 1 <= k < steps.len() ==> !(#[trigger] steps[k].1 is Begin),
        run_accepted(s, steps),
        pump_run(s, steps).1.last() == PumpAction::Finish(PumpStatus::Continue),
    ensures
        exists|k: int| 0 <= k < steps.len() && #[trigger] pump_run(s, steps).1[k] is Poll,
        pump_run(s, steps).0.loop_running,
{
    lemma_pump_run_prefix(s, steps);
    let prev_steps = steps.drop_last();
    let prev = pump_run(s, prev_steps);
    let last = steps.last();
    let n = steps.len() - 1;
    assert(steps.take(n) == prev_steps);
    if steps.len() > 1 {
        assert forall|k: int| 1 <= k < prev_steps.len() implies !(#[trigger] prev_steps[k].1 is Begin) by {
            assert(prev_steps[k] == steps[k]);
        }
        assert forall|k: int| 0 <= k < prev_steps.len() implies accepts(
            #[trigger] pump_run(s, prev_steps.take(k)).0.stage,
            prev_steps[k].1,
        ) by {
            assert(prev_steps.take(k) == steps.take(k));
            assert(prev_steps[k] == steps[k]);
            assert(accepts(pump_run(s, steps.take(k)).0.stage, steps[k].1));
        }
        assert(prev_steps[0] == steps[0]);
        lemma_pump_run_prefix(s, prev_steps);
    } else {
        assert(prev == (s, Seq::<PumpAction>::empty()));
    }
    assert(accepts(pump_run(s, steps.take(n)).0.stage, steps[n].1));
    lemma_continue_only_after_native_poll(PumpState { target: last.0, ..prev.0 }, last.1);
}

/// An exit requested from a callback ends the pump in progress with
/// `Exit(0)`.  The next pump starts a new run: the exit code is cleared,
/// the application is activated again, and after its `Init` iteration the
/// pump goes on to sample pending work.
pub proof fn lemma_exit_from_callback(s: PumpState, timeout: Option<u64>)
    requires
        s.stage == PumpStage::Iterating || s.stage == PumpStage::Initializing,
        s.target.exit_code == Some(0i32),
    ensures
        ({
            let (s1, a1) = pump_next(s, PumpEvent::IterationDone);
            let (s2, a2) = pump_next(s1, PumpEvent::Begin { timeout });
            let (s3, a3) = pump_next(s2, PumpEvent::IterationDone);
            &&& a1 == PumpAction::Finish(PumpStatus::Exit(0))
            &&& s1.stage == PumpStage::Idle
            &&& a2 == PumpAction::Activate
            &&& s2.target.exit_code is None
            &&& a3 == PumpAction::SamplePending
            &&& !s3.native_advanced
        }),
{
}

/// With nothing pending and a deadline `delta` ahead, the wait is the
/// smaller of the caller's timeout and `delta`; under `Poll` it is always
/// zero.
pub proof fn lemma_wait_timeout_bounds(caller: Option<u64>, pending: bool, now: u64, delta: u64)
    requires
        now + delta <= u64::MAX,
    ensures
        wait_timeout_of(caller, false, ControlFlow::WaitUntil((now + delta) as u64), now) == match caller {
            Some(t) => Some(
                if t <= delta {
                    t
                } else {
                    delta
                },
            ),
            None => Some(delta),
        },
        wait_timeout_of(caller, pending, ControlFlow::Poll, now) == Some(0u64),
{
}

/// What a finished run reports for a pump status: `Ok` for exit code zero,
/// `ExitFailure` for any other code, and nothing while the loop continues.
pub open spec fn run_result_of(status: PumpStatus) -> Option<Result<(), i32>> {
    match status {
        PumpStatus::Continue => None,
        PumpStatus::Exit(code) => if code == 0 {
            Some(Ok(()))
        } else {
            Some(Err(code))
        },
    }
}

/// The driver that turns native loop iterations into application
/// callbacks, one step at a time.
#[derive(Debug)]
pub struct EventLoop {
    state: PumpState,
}

impl EventLoop {
    pub closed spec fn view(&self) -> PumpState {
        self.state
    }

    pub open spec fn wf(&self) -> bool {
        pump_inv(self.view())
    }

    /// Creates the driver.  A second creation in a process fails with
    /// `RecreationAttempt`, whether or not the first loop still exists.
    /// Creation off the main thread is refused by the caller unless
    /// `any_thread` is set.
    pub fn new(
        attributes: &PlatformSpecificEventLoopAttributes,
        guard: &mut CreationGuard,
        on_main_thread: bool,
    ) -> (r: Result<Self, EventLoopError>)
        requires
            !old(guard).created() ==> attributes.any_thread || on_main_thread,
        ensures
            creation_step(*old(guard), *final(guard)),
            creation_refused(*old(guard)) <==> r is Err,
            r matches Err(e) ==> e is RecreationAttempt,
            r matches Ok(l) ==> {
                &&& l.wf()
                &&& !l.view().loop_running
                &&& l.view().stage == PumpStage::Idle
                &&& l.view().target == (ActiveEventLoop {
                    control_flow: ControlFlow::Wait,
                    exit_code: None,
                    device_events: DeviceEvents::WhenFocused,
                })
                &&& !l.view().native_advanced
            },
    {
        if guard.claim() {
            return Err(EventLoopError::RecreationAttempt);
        }
        Ok(EventLoop {
            state: PumpState {
                loop_running: false,
                target: ActiveEventLoop::new(),
                stage: PumpStage::Idle,
                caller_timeout: None,
                start: 0,
                timeout: None,
                native_advanced: false,
            },
        })
    }

    pub fn window_target(&self) -> (r: &ActiveEventLoop)
        ensures
            *r == self.view().target,
    {
        &self.state.target
    }

    /// The loop state, for the application's callbacks to change.
    pub fn window_target_mut(&mut self) -> (r: &mut ActiveEventLoop)
        ensures
            *r == old(self).view().target,
            final(self).view() == (PumpState { target: *final(r), ..old(self).view() }),
    {
        &mut self.state.target
    }

    pub fn stage(&self) -> (r: PumpStage)
        ensures
            r == self.view().stage,
    {
        self.state.stage
    }

    /// Starts a run: a previously requested exit is forgotten.
    pub fn begin_run(&mut self)
        ensures
            final(self).view() == (PumpState {
                target: ActiveEventLoop { exit_code: None, ..old(self).view().target },
                ..old(self).view()
            }),
    {
        self.state.target.clear_exit();
    }

    fn finish(&mut self) -> (action: PumpAction)
        ensures
            (final(self).view(), action) == finish_of(old(self).view()),
    {
        self.state.stage = PumpStage::Idle;
        match self.state.target.exit_code {
            Some(code) => {
                self.state.loop_running = false;
                PumpAction::Finish(PumpStatus::Exit(code))
            },
            None => PumpAction::Finish(PumpStatus::Continue),
        }
    }

    fn after_start(&mut self) -> (action: PumpAction)
        ensures
            (final(self).view(), action) == after_start_of(old(self).view()),
    {
        if self.state.target.exiting() {
            self.finish()
        } else {
            self.state.stage = PumpStage::Sampling;
            PumpAction::SamplePending
        }
    }

    /// Feeds one report to the pump and returns what to do next.
    pub fn pump_step(&mut self, event: PumpEvent) -> (action: PumpAction)
        requires
            old(self).wf(),
            accepts(old(self).view().stage, event),
        ensures
            final(self).wf(),
            (final(self).view(), action) == pump_next(old(self).view(), event),
    {
        match event {
            PumpEvent::Begin { timeout } => {
                self.state.caller_timeout = timeout;
                self.state.native_advanced = false;
                if !self.state.loop_running {
                    self.state.target.clear_exit();
                    self.state.loop_running = true;
                    self.state.stage = PumpStage::Initializing;
                    PumpAction::Activate
                } else {
                    self.after_start()
                }
            },
            PumpEvent::IterationDone => {
                if self.state.stage == PumpStage::Initializing {
                    self.after_start()
                } else {
                    self.finish()
                }
            },
            PumpEvent::Sampled { pending, now } => {
                let t = wait_timeout(
                    self.state.caller_timeout,
                    pending,
                    self.state.target.control_flow,
                    now,
                );
                self.state.stage = PumpStage::Polling;
                self.state.start = now;
                self.state.timeout = t;
                self.state.native_advanced = true;
                PumpAction::Poll(poll_plan(t))
            },
            PumpEvent::Polled { pending, now } => {
                let cause = start_cause(self.state.target.control_flow, self.state.start, now);
                if wants_iteration(pending, cause, self.state.timeout) {
                    self.state.stage = PumpStage::Iterating;
                    PumpAction::RunIteration(cause)
                } else {
                    self.finish()
                }
            },
        }
    }
}

/// Maps the status of a pump to the outcome of a run.
pub fn run_result(status: PumpStatus) -> (r: Option<Result<(), EventLoopError>>)
    ensures
        match run_result_of(status) {
            None => r is None,
            Some(Ok(())) => r matches Some(Ok(())),
            Some(Err(code)) => r matches Some(Err(EventLoopError::ExitFailure(c))) && c == code,
        },
{
    match status {
        PumpStatus::Continue => None,
        PumpStatus::Exit(code) => if code == 0 {
            Some(Ok(()))
        } else {
            Some(Err(EventLoopError::ExitFailure(code)))
        },
    }
}

} // verus!
