use vstd::prelude::*;
use std::sync::Arc;
use crate::errors::FlowError;
use crate::model::Step;
use crate::model::YamlWorkflow;
use crate::state::State;
use crate::textextract::regex_compiles;
use crate::textextract::first_capture;
use crate::textextract::pattern_compiles;
use crate::textextract::capture_one;

verus! {

/// What a finished flow run ended with. A run recovered by the
/// flow-level fallback list counts as completed.
#[derive(Clone, Copy, Debug, PartialEq, Eq, Structural)]
pub enum RunResult {
    Completed,
    Failed(FlowError),
}

/// Why a step list is on the control stack.
#[derive(Clone, Copy, Debug, PartialEq, Eq, Structural)]
pub enum FrameCtx {
    /// The flow's root step list.
    Root,
    /// The flow-level fallback list, run once after an uncaught failure.
    TopFallback,
    /// A CompareVar branch.
    Branch,
    /// A step's failure-fallback list.
    Recovery,
}

/// One entry of the control stack: a step list and the position of the
/// next step to run in it.
pub struct Frame {
    pub steps: Arc<Vec<Step>>,
    pub index: usize,
    pub ctx: FrameCtx,
}

/// The external operation the machine is waiting on.
pub enum OpKind {
    Get { url: String, output_var: Option<String> },
    Post { url: String, headers: Arc<Vec<(String, String)>>, body: String },
    Read { path: String, output_var: Option<String> },
    Append { path: String, text: String },
    Deliver { notifier: String, message: String },
}

/// An in-flight external operation: what was asked, how many retries
/// are left, the pause between attempts, and the step's fallback list.
pub struct PendingOp {
    pub kind: OpKind,
    pub retries_left: u8,
    pub retry_interval: u64,
    pub fallback: Arc<Vec<Step>>,
    /// True while the machine waits out the pause before the next attempt.
    pub sleeping: bool,
}

pub enum Phase {
    Ready,
    Awaiting(PendingOp),
    Finished(RunResult),
}

/// What the machine asks the embedding program to do next. Everything
/// but `Proceed` and `Done` is an external effect; its outcome comes
/// back as an [`Event`].
pub enum Action {
    HttpGet { url: String },
    HttpPost { url: String, headers: Arc<Vec<(String, String)>>, body: String },
    ReadFile { path: String },
    AppendFile { path: String, text: String },
    SleepFor { seconds: u64 },
    Deliver { notifier: String, message: String },
    /// Log the run's state for diagnostics; never fails.
    ShowState,
    /// Nothing external to do; feed `Event::Tick` to continue.
    Proceed,
    Done { result: RunResult },
}

/// The outcome of the last action, reported by the embedding program.
pub enum Event {
    /// The action needed no outcome (Proceed, ShowState, SleepFor).
    Tick,
    /// An HTTP GET or file read succeeded with this text.
    GotText { body: String },
    /// An HTTP POST, file append or delivery succeeded.
    OpOk,
    /// One attempt of the operation failed.
    OpFailed,
}

// The machine's mathematical model: leaf strings as character
// sequences, step lists as the shared immutable values they are.

pub enum OpKindV {
    Get { url: Seq<char>, output_var: Option<Seq<char>> },
    Post { url: Seq<char>, headers: Arc<Vec<(String, String)>>, body: Seq<char> },
    Read { path: Seq<char>, output_var: Option<Seq<char>> },
    Append { path: Seq<char>, text: Seq<char> },
    Deliver { notifier: Seq<char>, message: Seq<char> },
}

#[verifier::ext_equal]
pub struct PendingOpV {
    pub kind: OpKindV,
    pub retries_left: u8,
    pub retry_interval: u64,
    pub fallback: Arc<Vec<Step>>,
    pub sleeping: bool,
}

#[verifier::ext_equal]
pub enum PhaseV {
    Ready,
    Awaiting(PendingOpV),
    Finished(RunResult),
}

#[verifier::ext_equal]
pub enum ActionV {
    HttpGet { url: Seq<char> },
    HttpPost { url: Seq<char>, headers: Arc<Vec<(String, String)>>, body: Seq<char> },
    ReadFile { path: Seq<char> },
    AppendFile { path: Seq<char>, text: Seq<char> },
    SleepFor { seconds: u64 },
    Deliver { notifier: Seq<char>, message: Seq<char> },
    ShowState,
    Proceed,
    Done { result: RunResult },
}

pub enum EventV {
    Tick,
    GotText(Seq<char>),
    OpOk,
    OpFailed,
}

#[verifier::ext_equal]
pub struct MachineV {
    pub vars: Map<Seq<char>, Seq<char>>,
    pub last: Option<Seq<char>>,
    pub frames: Seq<Frame>,
    pub phase: PhaseV,
    pub names: Seq<Seq<char>>,
    pub flow_fallback: Arc<Vec<Step>>,
}

pub open spec fn opt_view(o: Option<String>) -> Option<Seq<char>> {
    match o {
        Some(s) => Some(s@),
        None => None,
    }
}

impl View for OpKind {
    type V = OpKindV;

    open spec fn view(&self) -> OpKindV {
        match self {
            OpKind::Get { url, output_var } => OpKindV::Get {
                url: url@,
                output_var: opt_view(*output_var),
            },
            OpKind::Post { url, headers, body } => OpKindV::Post {
                url: url@,
                headers: *headers,
                body: body@,
            },
            OpKind::Read { path, output_var } => OpKindV::Read {
                path: path@,
                output_var: opt_view(*output_var),
            },
            OpKind::Append { path, text } => OpKindV::Append { path: path@, text: text@ },
            OpKind::Deliver { notifier, message } => OpKindV::Deliver {
                notifier: notifier@,
                message: message@,
            },
        }
    }
}

impl View for PendingOp {
    type V = PendingOpV;

    open spec fn view(&self) -> PendingOpV {
        PendingOpV {
            kind: self.kind@,
            retries_left: self.retries_left,
            retry_interval: self.retry_interval,
            fallback: self.fallback,
            sleeping: self.sleeping,
        }
    }
}

impl View for Phase {
    type V = PhaseV;

    open spec fn view(&self) -> PhaseV {
        match self {
            Phase::Ready => PhaseV::Ready,
            Phase::Awaiting(op) => PhaseV::Awaiting(op@),
            Phase::Finished(r) => PhaseV::Finished(*r),
        }
    }
}

impl View for Action {
    type V = ActionV;

    open spec fn view(&self) -> ActionV {
        match self {
            Action::HttpGet { url } => ActionV::HttpGet { url: url@ },
            Action::HttpPost { url, headers, body } => ActionV::HttpPost {
                url: url@,
                headers: *headers,
                body: body@,
            },
            Action::ReadFile { path } => ActionV::ReadFile { path: path@ },
            Action::AppendFile { path, text } => ActionV::AppendFile { path: path@, text: text@ },
            Action::SleepFor { seconds } => ActionV::SleepFor { seconds: *seconds },
            Action::Deliver { notifier, message } => ActionV::Deliver {
                notifier: notifier@,
                message: message@,
            },
            Action::ShowState => ActionV::ShowState,
            Action::Proceed => ActionV::Proceed,
            Action::Done { result } => ActionV::Done { result: *result },
        }
    }
}

impl View for Event {
    type V = EventV;

    open spec fn view(&self) -> EventV {
        match self {
            Event::Tick => EventV::Tick,
            Event::GotText { body } => EventV::GotText(body@),
            Event::OpOk => EventV::OpOk,
            Event::OpFailed => EventV::OpFailed,
        }
    }
}

impl MachineV {
    /// The control stack is well-formed: one base list (the root list
    /// or the flow-level fallback) with branch and recovery lists above
    /// it, every position within bounds.
    pub open spec fn frames_wf(self) -> bool {
        &&& self.frames.len() >= 1
        &&& (self.frames[0].ctx == FrameCtx::Root || self.frames[0].ctx == FrameCtx::TopFallback)
        &&& (forall|i: int|
            1 <= i < self.frames.len() ==> ((#[trigger] self.frames[i].ctx) == FrameCtx::Branch
                || self.frames[i].ctx == FrameCtx::Recovery))
        &&& (forall|i: int|
            0 <= i < self.frames.len() ==> (#[trigger] self.frames[i].index)
                <= self.frames[i].steps@.len())
    }

    pub open spec fn wf(self) -> bool {
        match self.phase {
            PhaseV::Finished(_) => true,
            _ => self.frames_wf(),
        }
    }

    /// Which events the machine is prepared to take next.
    pub open spec fn accepts(self, ev: EventV) -> bool {
        match self.phase {
            PhaseV::Ready => ev == EventV::Tick,
            PhaseV::Awaiting(op) => if op.sleeping {
                ev == EventV::Tick
            } else {
                match op.kind {
                    OpKindV::Get { .. } => (ev matches EventV::GotText(_)) || ev == EventV::OpFailed,
                    OpKindV::Read { .. } => (ev matches EventV::GotText(_)) || ev
                        == EventV::OpFailed,
                    _ => ev == EventV::OpOk || ev == EventV::OpFailed,
                }
            },
            PhaseV::Finished(_) => false,
        }
    }
}

/// The state after a value was produced: it becomes the last output
/// and, when a name is given, a variable under that name.
pub open spec fn with_output(m: MachineV, val: Seq<char>, ov: Option<Seq<char>>) -> MachineV {
    match ov {
        Some(n) => MachineV { vars: m.vars.insert(n, val), last: Some(val), ..m },
        None => MachineV { last: Some(val), ..m },
    }
}

/// A step's input: the named variable, or the last output when no name
/// is given; `None` when that is absent (a fatal usage error).
pub open spec fn resolve(m: MachineV, iv: Option<Seq<char>>) -> Option<Seq<char>> {
    match iv {
        Some(n) => if m.vars.contains_key(n) {
            Some(m.vars[n])
        } else {
            None
        },
        None => m.last,
    }
}

/// An uncaught failure: every open list is abandoned at once. If the
/// run was still on its root list and the flow declares a fallback
/// list, that list now runs once, against the same state; otherwise
/// the run ends failed.
pub open spec fn spec_fail(m: MachineV, err: FlowError) -> (MachineV, ActionV) {
    if m.frames.len() > 0 && m.frames[0].ctx == FrameCtx::Root && m.flow_fallback@.len() > 0 {
        (
            MachineV {
                frames: seq![
                    (Frame { steps: m.flow_fallback, index: 0, ctx: FrameCtx::TopFallback }),
                ],
                phase: PhaseV::Ready,
                ..m
            },
            ActionV::Proceed,
        )
    } else {
        (
            MachineV { phase: PhaseV::Finished(RunResult::Failed(err)), ..m },
            ActionV::Done { result: RunResult::Failed(err) },
        )
    }
}

/// A recoverable step failure: a non-empty fallback list catches it
/// and runs against the same state; an empty one lets it propagate.
pub open spec fn spec_recover(m: MachineV, err: FlowError, fallback: Arc<Vec<Step>>) -> (
    MachineV,
    ActionV,
) {
    if fallback@.len() > 0 {
        (
            MachineV {
                frames: m.frames.push(
                    Frame { steps: fallback, index: 0, ctx: FrameCtx::Recovery },
                ),
                phase: PhaseV::Ready,
                ..m
            },
            ActionV::Proceed,
        )
    } else {
        spec_fail(m, err)
    }
}

/// The action that performs one attempt of an external operation.
pub open spec fn attempt_action(k: OpKindV) -> ActionV {
    match k {
        OpKindV::Get { url, output_var } => ActionV::HttpGet { url },
        OpKindV::Post { url, headers, body } => ActionV::HttpPost { url, headers, body },
        OpKindV::Read { path, output_var } => ActionV::ReadFile { path },
        OpKindV::Append { path, text } => ActionV::AppendFile { path, text },
        OpKindV::Deliver { notifier, message } => ActionV::Deliver { notifier, message },
    }
}

/// Where a successful text-producing operation stores its result.
pub open spec fn op_output_var(k: OpKindV) -> Option<Seq<char>> {
    match k {
        OpKindV::Get { url, output_var } => output_var,
        OpKindV::Read { path, output_var } => output_var,
        _ => None,
    }
}

/// The machine awaiting an external operation for the step whose
/// failure policy is `fs`.
pub open spec fn spec_await(m: MachineV, kind: OpKindV, fs: crate::model::FailSpec) -> MachineV {
    MachineV {
        phase: PhaseV::Awaiting(
            PendingOpV {
                kind,
                retries_left: fs.spec_budget(),
                retry_interval: fs.spec_pause(),
                fallback: fs.upon_failure,
                sleeping: false,
            },
        ),
        ..m
    }
}

/// One step of the machine while it is ready: run the next step of the
/// top list, or close that list if it is done.
pub open spec fn spec_step(m: MachineV) -> (MachineV, ActionV) {
    let top = m.frames.len() - 1;
    let f = m.frames[top];
    if f.index == f.steps@.len() {
        match f.ctx {
            FrameCtx::Branch => (MachineV { frames: m.frames.drop_last(), ..m }, ActionV::Proceed),
            FrameCtx::Recovery => (
                MachineV { frames: m.frames.drop_last(), ..m },
                ActionV::Proceed,
            ),
            _ => (
                MachineV { phase: PhaseV::Finished(RunResult::Completed), ..m },
                ActionV::Done { result: RunResult::Completed },
            ),
        }
    } else {
        let s = f.steps@[f.index as int];
        let m1 = MachineV {
            frames: m.frames.update(
                top,
                Frame { steps: f.steps, index: (f.index + 1) as usize, ctx: f.ctx },
            ),
            ..m
        };
        match s {
            Step::AbortFlow => spec_fail(m1, FlowError::Aborted),
            Step::DebugState => (m1, ActionV::ShowState),
            Step::Sleep { duration } => (m1, ActionV::SleepFor { seconds: duration }),
            Step::SetVariable { output_var, input } => (
                with_output(m1, input@, opt_view(output_var)),
                ActionV::Proceed,
            ),
            Step::GetUrl { url, output_var, fail_spec } => (
                spec_await(m1, OpKindV::Get { url: url@, output_var: opt_view(output_var) }, fail_spec),
                ActionV::HttpGet { url: url@ },
            ),
            Step::PostUrl { url, body, headers, fail_spec } => (
                spec_await(m1, OpKindV::Post { url: url@, headers, body: body@ }, fail_spec),
                ActionV::HttpPost { url: url@, headers, body: body@ },
            ),
            Step::ReadFromFile { path, output_var, fail_spec } => (
                spec_await(m1, OpKindV::Read { path: path@, output_var: opt_view(output_var) }, fail_spec),
                ActionV::ReadFile { path: path@ },
            ),
            Step::AppendToFile { path, input_var, fail_spec } => {
                match resolve(m1, opt_view(input_var)) {
                    None => spec_fail(m1, FlowError::MissingInput),
                    Some(text) => (
                        spec_await(m1, OpKindV::Append { path: path@, text }, fail_spec),
                        ActionV::AppendFile { path: path@, text },
                    ),
                }
            },
            Step::Notify { notifier, message, fail_spec } => {
                if !m1.names.contains(notifier@) {
                    spec_fail(m1, FlowError::MissingNotifier)
                } else {
                    // Delivery is not retried here: retries, if any, belong
                    // to the notifier transport itself.
                    (
                        MachineV {
                            phase: PhaseV::Awaiting(
                                PendingOpV {
                                    kind: OpKindV::Deliver {
                                        notifier: notifier@,
                                        message: message@,
                                    },
                                    retries_left: 0,
                                    retry_interval: fail_spec.spec_pause(),
                                    fallback: fail_spec.upon_failure,
                                    sleeping: false,
                                },
                            ),
                            ..m1
                        },
                        ActionV::Deliver { notifier: notifier@, message: message@ },
                    )
                }
            },
            Step::TextExtractOneCapture { input_var, output_var, regex, fail_spec } => {
                match resolve(m1, opt_view(input_var)) {
                    None => spec_fail(m1, FlowError::MissingInput),
                    Some(input) => if !regex_compiles(regex@) {
                        spec_fail(m1, FlowError::InvalidPattern)
                    } else {
                        match first_capture(regex@, input) {
                            Some(cap) => (
                                with_output(m1, cap, opt_view(output_var)),
                                ActionV::Proceed,
                            ),
                            None => spec_recover(m1, FlowError::NoCapture, fail_spec.upon_failure),
                        }
                    },
                }
            },
            Step::CompareVar { input_var, compare_with, compare_for, if_true, if_false } => {
                match resolve(m1, opt_view(input_var)) {
                    None => spec_fail(m1, FlowError::MissingInput),
                    Some(val) => if compare_for@ != "equality"@ {
                        spec_fail(m1, FlowError::UnsupportedComparison)
                    } else {
                        if val == compare_with@ && if_true@.len() > 0 {
                            (
                                MachineV {
                                    frames: m1.frames.push(
                                        Frame { steps: if_true, index: 0, ctx: FrameCtx::Branch },
                                    ),
                                    ..m1
                                },
                                ActionV::Proceed,
                            )
                        } else if val != compare_with@ && if_false@.len() > 0 {
                            (
                                MachineV {
                                    frames: m1.frames.push(
                                        Frame { steps: if_false, index: 0, ctx: FrameCtx::Branch },
                                    ),
                                    ..m1
                                },
                                ActionV::Proceed,
                            )
                        } else {
                            (m1, ActionV::Proceed)
                        }
                    },
                }
            },
        }
    }
}

/// The machine's reaction to the outcome of an external operation:
/// success stores the produced text, a failure is retried while the
/// budget lasts (with a pause first), then handed to failure recovery.
pub open spec fn spec_event(m: MachineV, op: PendingOpV, ev: EventV) -> (MachineV, ActionV) {
    if op.sleeping {
        (
            MachineV { phase: PhaseV::Awaiting(PendingOpV { sleeping: false, ..op }), ..m },
            attempt_action(op.kind),
        )
    } else {
        match ev {
            EventV::GotText(body) => (
                with_output(
                    MachineV { phase: PhaseV::Ready, ..m },
                    body,
                    op_output_var(op.kind),
                ),
                ActionV::Proceed,
            ),
            EventV::OpOk => (MachineV { phase: PhaseV::Ready, ..m }, ActionV::Proceed),
            EventV::OpFailed => if op.retries_left > 0 {
                (
                    MachineV {
                        phase: PhaseV::Awaiting(
                            PendingOpV {
                                retries_left: (op.retries_left - 1) as u8,
                                sleeping: true,
                                ..op
                            },
                        ),
                        ..m
                    },
                    ActionV::SleepFor { seconds: op.retry_interval },
                )
            } else {
                spec_recover(
                    MachineV { phase: PhaseV::Ready, ..m },
                    FlowError::OperationFailed,
                    op.fallback,
                )
            },
            EventV::Tick => (m, ActionV::Proceed),
        }
    }
}

/// The machine's full transition relation: what one call of
/// [`Machine::next`] does.
pub open spec fn next_spec(m: MachineV, ev: EventV) -> (MachineV, ActionV) {
    match m.phase {
        PhaseV::Ready => spec_step(m),
        PhaseV::Awaiting(op) => spec_event(m, op, ev),
        PhaseV::Finished(r) => (m, ActionV::Done { result: r }),
    }
}

fn clone_opt(o: &Option<String>) -> (r: Option<String>)
    ensures
        r == *o,
{
    match o {
        Some(s) => Some(s.clone()),
        None => None,
    }
}

fn attempt_of(k: &OpKind) -> (a: Action)
    ensures
        a@ == attempt_action(k@),
{
    match k {
        OpKind::Get { url, .. } => Action::HttpGet { url: url.clone() },
        OpKind::Post { url, headers, body } => Action::HttpPost {
            url: url.clone(),
            headers: headers.clone(),
            body: body.clone(),
        },
        OpKind::Read { path, .. } => Action::ReadFile { path: path.clone() },
        OpKind::Append { path, text } => Action::AppendFile {
            path: path.clone(),
            text: text.clone(),
        },
        OpKind::Deliver { notifier, message } => Action::Deliver {
            notifier: notifier.clone(),
            message: message.clone(),
        },
    }
}

fn clone_kind(k: &OpKind) -> (r: OpKind)
    ensures
        r == *k,
{
    match k {
        OpKind::Get { url, output_var } => OpKind::Get {
            url: url.clone(),
            output_var: clone_opt(output_var),
        },
        OpKind::Post { url, headers, body } => OpKind::Post {
            url: url.clone(),
            headers: headers.clone(),
            body: body.clone(),
        },
        OpKind::Read { path, output_var } => OpKind::Read {
            path: path.clone(),
            output_var: clone_opt(output_var),
        },
        OpKind::Append { path, text } => OpKind::Append {
            path: path.clone(),
            text: text.clone(),
        },
        OpKind::Deliver { notifier, message } => OpKind::Deliver {
            notifier: notifier.clone(),
            message: message.clone(),
        },
    }
}

fn op_output_var_of(k: &OpKind) -> (r: Option<String>)
    ensures
        opt_view(r) == op_output_var(k@),
{
    match k {
        OpKind::Get { output_var, .. } => clone_opt(output_var),
        OpKind::Read { output_var, .. } => clone_opt(output_var),
        _ => None,
    }
}

/// The step machine of one flow run: the run's state, the control
/// stack of open step lists, and what it is waiting on. Every external
/// effect is delegated to the caller through an [`Action`].
pub struct Machine {
    state: State,
    frames: Vec<Frame>,
    phase: Phase,
    notifier_names: Vec<String>,
    flow_fallback: Arc<Vec<Step>>,
}

impl View for Machine {
    type V = MachineV;

    closed spec fn view(&self) -> MachineV {
        MachineV {
            vars: self.state.vars_map(),
            last: self.state.last(),
            frames: self.frames@,
            phase: self.phase@,
            names: self.notifier_names@.map_values(|s: String| s@),
            flow_fallback: self.flow_fallback,
        }
    }
}

impl Machine {
    /// A fresh run of the given flow: empty state, the root list open,
    /// ready for its first `Event::Tick`.
    pub fn new(flow: &YamlWorkflow, notifier_names: Vec<String>) -> (m: Machine)
        ensures
            m@.wf(),
            m@.vars == Map::<Seq<char>, Seq<char>>::empty(),
            m@.last is None,
            m@.frames =~= seq![(Frame { steps: flow.steps, index: 0, ctx: FrameCtx::Root })],
            m@.phase == PhaseV::Ready,
            m@.names =~= notifier_names@.map_values(|s: String| s@),
            m@.flow_fallback == flow.upon_failure,
    {
        let mut frames = Vec::new();
        frames.push(Frame { steps: flow.steps.clone(), index: 0, ctx: FrameCtx::Root });
        Machine {
            state: State::new(),
            frames,
            phase: Phase::Ready,
            notifier_names,
            flow_fallback: flow.upon_failure.clone(),
        }
    }

    /// Whether the run has ended, and with what.
    pub fn result(&self) -> (r: Option<RunResult>)
        ensures
            (match self@.phase {
                PhaseV::Finished(res) => r == Some(res),
                _ => r is None,
            }),
    {
        match &self.phase {
            Phase::Finished(res) => Some(*res),
            _ => None,
        }
    }

    /// The run's variable store, for inspection and diagnostics.
    pub fn run_state(&self) -> (r: &State)
        ensures
            r.vars_map() == self@.vars,
            r.last() == self@.last,
    {
        &self.state
    }

    fn has_notifier(&self, name: &String) -> (r: bool)
        ensures
            r == self@.names.contains(name@),
    {
        let ghost names = self@.names;
        let n = self.notifier_names.len();
        let mut i: usize = 0;
        while i < n
            invariant
                n == self.notifier_names.len(),
                i <= n,
                names =~= self.notifier_names@.map_values(|s: String| s@),
                forall|j: int| 0 <= j < i ==> names[j] != name@,
            decreases n - i,
        {
            if self.notifier_names[i] == *name {
                assert(names[i as int] == name@);
                return true;
            }
            assert(names[i as int] == self.notifier_names@[i as int]@);
            i = i + 1;
        }
        false
    }

    fn fail_run(&mut self, err: FlowError) -> (a: Action)
        ensures
            (final(self)@, a@) == spec_fail(old(self)@, err),
            final(self)@.wf(),
    {
        let enter_fallback = self.frames.len() > 0 && matches!(self.frames[0].ctx, FrameCtx::Root)
            && self.flow_fallback.len() > 0;
        if enter_fallback {
            self.frames.truncate(0);
            self.frames.push(
                Frame { steps: self.flow_fallback.clone(), index: 0, ctx: FrameCtx::TopFallback },
            );
            self.phase = Phase::Ready;
            proof {
                assert(self@.frames =~= spec_fail(old(self)@, err).0.frames);
                assert(self@ =~= spec_fail(old(self)@, err).0);
            }
            Action::Proceed
        } else {
            self.phase = Phase::Finished(RunResult::Failed(err));
            proof {
                assert(self@ =~= spec_fail(old(self)@, err).0);
            }
            Action::Done { result: RunResult::Failed(err) }
        }
    }

    fn recover(&mut self, err: FlowError, fallback: Arc<Vec<Step>>) -> (a: Action)
        requires
            old(self)@.frames_wf(),
        ensures
            (final(self)@, a@) == spec_recover(old(self)@, err, fallback),
            final(self)@.wf(),
    {
        if fallback.len() > 0 {
            self.frames.push(Frame { steps: fallback, index: 0, ctx: FrameCtx::Recovery });
            self.phase = Phase::Ready;
            proof {
                assert(self@ =~= spec_recover(old(self)@, err, fallback).0);
            }
            Action::Proceed
        } else {
            self.fail_run(err)
        }
    }

    fn exec_step(&mut self) -> (a: Action)
        requires
            old(self)@.wf(),
            old(self)@.phase == PhaseV::Ready,
        ensures
            (final(self)@, a@) == spec_step(old(self)@),
            final(self)@.wf(),
    {
        let ghost pre = self@;
        proof {
            assert(pre.frames.len() >= 1);
        }
        let mut f = match self.frames.pop() {
            Some(fr) => fr,
            None => unreached(),
        };
        if f.index == f.steps.len() {
            match f.ctx {
                FrameCtx::Branch => {
                    proof {
                        assert(self@ =~= spec_step(pre).0);
                    }
                    Action::Proceed
                },
                FrameCtx::Recovery => {
                    proof {
                        assert(self@ =~= spec_step(pre).0);
                    }
                    Action::Proceed
                },
                _ => {
                    self.frames.push(f);
                    self.phase = Phase::Finished(RunResult::Completed);
                    proof {
                        assert(self@.frames =~= pre.frames);
                        assert(self@ =~= spec_step(pre).0);
                    }
                    Action::Done { result: RunResult::Completed }
                },
            }
        } else {
            let idx = f.index;
            let steps_arc = f.steps.clone();
            f.index = idx + 1;
            self.frames.push(f);
            let ghost m1 = MachineV {
                frames: pre.frames.update(
                    pre.frames.len() - 1,
                    Frame {
                        steps: pre.frames.last().steps,
                        index: (pre.frames.last().index + 1) as usize,
                        ctx: pre.frames.last().ctx,
                    },
                ),
                ..pre
            };
            proof {
                assert(self@.frames =~= m1.frames);
                assert(self@ =~= m1);
            }
            let step = &steps_arc[idx];
            match step {
                Step::AbortFlow => self.fail_run(FlowError::Aborted),
                Step::DebugState => Action::ShowState,
                Step::Sleep { duration } => Action::SleepFor { seconds: *duration },
                Step::SetVariable { output_var, input } => {
                    self.state.set_output(input.clone(), output_var);
                    proof {
                        assert(self@ =~= spec_step(pre).0);
                    }
                    Action::Proceed
                },
                Step::GetUrl { url, output_var, fail_spec } => {
                    let action = Action::HttpGet { url: url.clone() };
                    self.phase = Phase::Awaiting(
                        PendingOp {
                            kind: OpKind::Get {
                                url: url.clone(),
                                output_var: clone_opt(output_var),
                            },
                            retries_left: fail_spec.budget(),
                            retry_interval: fail_spec.pause(),
                            fallback: fail_spec.upon_failure.clone(),
                            sleeping: false,
                        },
                    );
                    proof {
                        assert(self@ =~= spec_step(pre).0);
                    }
                    action
                },
                Step::PostUrl { url, body, headers, fail_spec } => {
                    let action = Action::HttpPost {
                        url: url.clone(),
                        headers: headers.clone(),
                        body: body.clone(),
                    };
                    self.phase = Phase::Awaiting(
                        PendingOp {
                            kind: OpKind::Post {
                                url: url.clone(),
                                headers: headers.clone(),
                                body: body.clone(),
                            },
                            retries_left: fail_spec.budget(),
                            retry_interval: fail_spec.pause(),
                            fallback: fail_spec.upon_failure.clone(),
                            sleeping: false,
                        },
                    );
                    proof {
                        assert(self@ =~= spec_step(pre).0);
                    }
                    action
                },
                Step::ReadFromFile { path, output_var, fail_spec } => {
                    let action = Action::ReadFile { path: path.clone() };
                    self.phase = Phase::Awaiting(
                        PendingOp {
                            kind: OpKind::Read {
                                path: path.clone(),
                                output_var: clone_opt(output_var),
                            },
                            retries_left: fail_spec.budget(),
                            retry_interval: fail_spec.pause(),
                            fallback: fail_spec.upon_failure.clone(),
                            sleeping: false,
                        },
                    );
                    proof {
                        assert(self@ =~= spec_step(pre).0);
                    }
                    action
                },
                Step::AppendToFile { path, input_var, fail_spec } => {
                    let text = match self.state.get_input(input_var) {
                        Ok(v) => v.clone(),
                        Err(e) => {
                            return self.fail_run(e);
                        },
                    };
                    let action = Action::AppendFile { path: path.clone(), text: text.clone() };
                    self.phase = Phase::Awaiting(
                        PendingOp {
                            kind: OpKind::Append { path: path.clone(), text },
                            retries_left: fail_spec.budget(),
                            retry_interval: fail_spec.pause(),
                            fallback: fail_spec.upon_failure.clone(),
                            sleeping: false,
                        },
                    );
                    proof {
                        assert(self@ =~= spec_step(pre).0);
                    }
                    action
                },
                Step::Notify { notifier, message, fail_spec } => {
                    if !self.has_notifier(notifier) {
                        self.fail_run(FlowError::MissingNotifier)
                    } else {
                        let action = Action::Deliver {
                            notifier: notifier.clone(),
                            message: message.clone(),
                        };
                        self.phase = Phase::Awaiting(
                            PendingOp {
                                kind: OpKind::Deliver {
                                    notifier: notifier.clone(),
                                    message: message.clone(),
                                },
                                retries_left: 0,
                                retry_interval: fail_spec.pause(),
                                fallback: fail_spec.upon_failure.clone(),
                                sleeping: false,
                            },
                        );
                        proof {
                            assert(self@ =~= spec_step(pre).0);
                        }
                        action
                    }
                },
                Step::TextExtractOneCapture { input_var, output_var, regex, fail_spec } => {
                    let input = match self.state.get_input(input_var) {
                        Ok(v) => v.clone(),
                        Err(e) => {
                            return self.fail_run(e);
                        },
                    };
                    if !pattern_compiles(regex.as_str()) {
                        self.fail_run(FlowError::InvalidPattern)
                    } else {
                        match capture_one(regex.as_str(), input.as_str()) {
                            Some(cap) => {
                                self.state.set_output(cap, output_var);
                                proof {
                                    assert(self@ =~= spec_step(pre).0);
                                }
                                Action::Proceed
                            },
                            None => self.recover(
                                FlowError::NoCapture,
                                fail_spec.upon_failure.clone(),
                            ),
                        }
                    }
                },
                Step::CompareVar { input_var, compare_with, compare_for, if_true, if_false } => {
                    let val = match self.state.get_input(input_var) {
                        Ok(v) => v.clone(),
                        Err(e) => {
                            return self.fail_run(e);
                        },
                    };
                    if !(*compare_for == "equality".to_owned()) {
                        self.fail_run(FlowError::UnsupportedComparison)
                    } else {
                        let cond = val == *compare_with;
                        if cond && if_true.len() > 0 {
                            self.frames.push(
                                Frame { steps: if_true.clone(), index: 0, ctx: FrameCtx::Branch },
                            );
                            proof {
                                assert(self@ =~= spec_step(pre).0);
                            }
                            Action::Proceed
                        } else if !cond && if_false.len() > 0 {
                            self.frames.push(
                                Frame { steps: if_false.clone(), index: 0, ctx: FrameCtx::Branch },
                            );
                            proof {
                                assert(self@ =~= spec_step(pre).0);
                            }
                            Action::Proceed
                        } else {
                            proof {
                                assert(self@ =~= spec_step(pre).0);
                            }
                            Action::Proceed
                        }
                    }
                },
            }
        }
    }

    fn on_event(&mut self, ev: Event) -> (a: Action)
        requires
            old(self)@.wf(),
            (old(self)@.phase matches PhaseV::Awaiting(_)),
            old(self)@.accepts(ev@),
        ensures
            (final(self)@, a@) == next_spec(old(self)@, ev@),
            final(self)@.wf(),
    {
        let op = match &self.phase {
            Phase::Awaiting(o) => PendingOp {
                kind: clone_kind(&o.kind),
                retries_left: o.retries_left,
                retry_interval: o.retry_interval,
                fallback: o.fallback.clone(),
                sleeping: o.sleeping,
            },
            _ => unreached(),
        };
        if op.sleeping {
            let a = attempt_of(&op.kind);
            self.phase = Phase::Awaiting(PendingOp { sleeping: false, ..op });
            proof {
                assert(self@ =~= next_spec(old(self)@, ev@).0);
            }
            a
        } else {
            match ev {
                Event::GotText { body } => {
                    let ov = op_output_var_of(&op.kind);
                    self.state.set_output(body, &ov);
                    self.phase = Phase::Ready;
                    proof {
                        assert(self@ =~= next_spec(old(self)@, ev@).0);
                    }
                    Action::Proceed
                },
                Event::OpOk => {
                    self.phase = Phase::Ready;
                    proof {
                        assert(self@ =~= next_spec(old(self)@, ev@).0);
                    }
                    Action::Proceed
                },
                Event::OpFailed => {
                    if op.retries_left > 0 {
                        let seconds = op.retry_interval;
                        self.phase = Phase::Awaiting(
                            PendingOp {
                                retries_left: op.retries_left - 1,
                                sleeping: true,
                                ..op
                            },
                        );
                        proof {
                            assert(self@ =~= next_spec(old(self)@, ev@).0);
                        }
                        Action::SleepFor { seconds }
                    } else {
                        let fb = op.fallback.clone();
                        self.recover(FlowError::OperationFailed, fb)
                    }
                },
                Event::Tick => unreached(),
            }
        }
    }

    /// One transition of the machine: feed the outcome of the previous
    /// action, get the next one. The whole behaviour is pinned down by
    /// [`next_spec`].
    pub fn next(&mut self, ev: Event) -> (a: Action)
        requires
            old(self)@.wf(),
            old(self)@.accepts(ev@),
        ensures
            final(self)@.wf(),
            (final(self)@, a@) == next_spec(old(self)@, ev@),
    {
        let ready = matches!(&self.phase, Phase::Ready);
        if ready {
            self.exec_step()
        } else {
            self.on_event(ev)
        }
    }
}

} // verus!
