use vstd::prelude::*;
use crate::errors::FlowError;
use crate::machine::ActionV;
use crate::machine::EventV;
use crate::machine::Frame;
use crate::machine::FrameCtx;
use crate::machine::MachineV;
use crate::machine::PendingOpV;
use crate::machine::PhaseV;
use crate::machine::RunResult;
use crate::machine::next_spec;
use crate::machine::opt_view;
use crate::machine::resolve;
use crate::machine::spec_fail;
use crate::machine::with_output;
use crate::model::Step;

verus! {

/// The step the machine will execute on its next tick.
pub open spec fn current_step(m: MachineV) -> Step {
    let f = m.frames.last();
    f.steps@[f.index as int]
}

pub open spec fn has_current_step(m: MachineV) -> bool {
    &&& m.frames.len() > 0
    &&& m.frames.last().index < m.frames.last().steps@.len()
}

/// The machine with the top list's position moved past the current
/// step; every transition that executes a step starts this way.
pub open spec fn after_advance(m: MachineV) -> MachineV {
    let top = m.frames.len() - 1;
    let f = m.frames[top];
    MachineV {
        frames: m.frames.update(
            top,
            Frame { steps: f.steps, index: (f.index + 1) as usize, ctx: f.ctx },
        ),
        ..m
    }
}

/// Every transition leaves the machine well-formed: the control stack
/// keeps its shape whatever step runs and whatever event arrives.
pub proof fn lemma_next_preserves_wf(m: MachineV, ev: EventV)
    requires
        m.wf(),
        m.accepts(ev),
    ensures
        next_spec(m, ev).0.wf(),
{
    let m2 = next_spec(m, ev).0;
    match m.phase {
        PhaseV::Finished(_) => {
        },
        PhaseV::Awaiting(op) => {
            if !op.sleeping && ev == EventV::OpFailed && op.retries_left == 0 {
                assert(m2.wf());
            }
        },
        PhaseV::Ready => {
            let top = m.frames.len() - 1;
            let f = m.frames[top];
            if f.index == f.steps@.len() {
                match f.ctx {
                    FrameCtx::Branch => {
                        assert(f == m.frames.last());
                        assert(m.frames.len() >= 2);
                        assert(m2.wf());
                    },
                    FrameCtx::Recovery => {
                        assert(m.frames.len() >= 2);
                        assert(m2.wf());
                    },
                    _ => {
                    },
                }
            } else {
                let m1 = after_advance(m);
                assert(m1.frames_wf());
                assert(m2.wf());
            }
        },
    }
}

/// A ready machine asks for a delivery only to a name the flow
/// declared: together with the notifier set's lookup (see
/// `crate::workflow::lemma_declared_name_found`), a delivery the
/// machine asks for never fails the set's missing-name check.
pub proof fn lemma_deliver_is_declared(m: MachineV)
    requires
        m.wf(),
        m.phase == PhaseV::Ready,
    ensures
        (next_spec(m, EventV::Tick).1 matches ActionV::Deliver { notifier, .. } ==> m.names.contains(
            notifier,
        )),
{
}

/// Running `SetVariable` binds the value under the given name — the
/// variable reads back as the value, and it becomes the last output.
pub proof fn lemma_set_variable(m: MachineV)
    requires
        m.wf(),
        m.phase == PhaseV::Ready,
        has_current_step(m),
        current_step(m) matches Step::SetVariable { .. },
    ensures
        (match current_step(m) {
            Step::SetVariable { output_var: Some(n), input } => {
                &&& next_spec(m, EventV::Tick).0.vars == m.vars.insert(n@, input@)
                &&& next_spec(m, EventV::Tick).0.vars[n@] == input@
                &&& next_spec(m, EventV::Tick).0.last == Some(input@)
            },
            Step::SetVariable { output_var: None, input } => {
                &&& next_spec(m, EventV::Tick).0.vars == m.vars
                &&& next_spec(m, EventV::Tick).0.last == Some(input@)
            },
            _ => true,
        }),
{
}

/// Resolving input without a name always yields exactly the most
/// recently produced output; a value just produced is what both the
/// unnamed input and its own name resolve to.
pub proof fn lemma_output_then_input(m: MachineV, val: Seq<char>, ov: Option<Seq<char>>)
    ensures
        resolve(m, None) == m.last,
        resolve(with_output(m, val, ov), None) == Some(val),
        (ov matches Some(n) ==> resolve(with_output(m, val, ov), Some(n)) == Some(val)),
{
}

/// A step that reads a variable the state never bound fails the run
/// at once with a fatal error — no default value, and no step
/// fallback catches it.
pub proof fn lemma_undeclared_input(m: MachineV)
    requires
        m.wf(),
        m.phase == PhaseV::Ready,
        has_current_step(m),
        (match current_step(m) {
            Step::TextExtractOneCapture { input_var: Some(n), .. } => !m.vars.contains_key(n@),
            Step::CompareVar { input_var: Some(n), .. } => !m.vars.contains_key(n@),
            Step::AppendToFile { input_var: Some(n), .. } => !m.vars.contains_key(n@),
            _ => false,
        }),
    ensures
        next_spec(m, EventV::Tick) == spec_fail(after_advance(m), FlowError::MissingInput),
{
}

/// The event stream of a collaborator that always fails, against a
/// retry budget of `k`: each attempt fails, each pause passes.
pub open spec fn failing_events(k: nat) -> Seq<EventV>
    decreases k,
{
    if k == 0 {
        seq![EventV::OpFailed]
    } else {
        seq![EventV::OpFailed, EventV::Tick] + failing_events((k - 1) as nat)
    }
}

/// The machine after a whole sequence of events.
pub open spec fn run_events(m: MachineV, evs: Seq<EventV>) -> MachineV
    decreases evs.len(),
{
    if evs.len() == 0 {
        m
    } else {
        run_events(next_spec(m, evs[0]).0, evs.skip(1))
    }
}

/// Whether an action performs one attempt of an external operation.
pub open spec fn is_attempt(a: ActionV) -> bool {
    match a {
        ActionV::HttpGet { .. } => true,
        ActionV::HttpPost { .. } => true,
        ActionV::ReadFile { .. } => true,
        ActionV::AppendFile { .. } => true,
        ActionV::Deliver { .. } => true,
        _ => false,
    }
}

/// How many attempts the machine asks for along a sequence of events.
pub open spec fn attempts_emitted(m: MachineV, evs: Seq<EventV>) -> nat
    decreases evs.len(),
{
    if evs.len() == 0 {
        0
    } else {
        (if is_attempt(next_spec(m, evs[0]).1) {
            1nat
        } else {
            0nat
        }) + attempts_emitted(next_spec(m, evs[0]).0, evs.skip(1))
    }
}

/// A step whose operation always fails, with a retry budget of `r`
/// and no fallback, in a flow with no flow-level fallback: the
/// machine asks for exactly `r` further attempts — `r + 1` in all,
/// counting the attempt that opened the operation — and then the run
/// fails, unrecovered.
pub proof fn lemma_retries_exhaust(m: MachineV, op: PendingOpV, r: u8)
    requires
        m.wf(),
        m.phase == PhaseV::Awaiting(op),
        !op.sleeping,
        op.retries_left == r,
        op.fallback@.len() == 0,
        m.flow_fallback@.len() == 0,
    ensures
        run_events(m, failing_events(r as nat)).phase == PhaseV::Finished(
            RunResult::Failed(FlowError::OperationFailed),
        ),
        attempts_emitted(m, failing_events(r as nat)) == r as nat,
    decreases r,
{
    let evs = failing_events(r as nat);
    if r == 0 {
        assert(evs == seq![EventV::OpFailed]);
        assert(evs.skip(1) =~= Seq::<EventV>::empty());
        let step1 = next_spec(m, EventV::OpFailed);
        assert(step1.0.phase == PhaseV::Finished(RunResult::Failed(FlowError::OperationFailed)));
        assert(!is_attempt(step1.1));
        assert(run_events(m, evs) == run_events(step1.0, evs.skip(1)));
        assert(attempts_emitted(step1.0, evs.skip(1)) == 0);
        assert(attempts_emitted(m, evs) == 0);
    } else {
        assert(evs == seq![EventV::OpFailed, EventV::Tick] + failing_events((r - 1) as nat));
        assert(evs[0] == EventV::OpFailed);
        assert(evs.skip(1) =~= seq![EventV::Tick] + failing_events((r - 1) as nat));
        let m2 = next_spec(m, EventV::OpFailed).0;
        assert(!is_attempt(next_spec(m, EventV::OpFailed).1));
        assert(evs.skip(1)[0] == EventV::Tick);
        assert(evs.skip(1).skip(1) =~= failing_events((r - 1) as nat));
        let m3 = next_spec(m2, EventV::Tick).0;
        let op3 = PendingOpV { retries_left: (r - 1) as u8, sleeping: false, ..op };
        assert(m3.phase == PhaseV::Awaiting(op3));
        assert(is_attempt(next_spec(m2, EventV::Tick).1));
        lemma_retries_exhaust(m3, op3, (r - 1) as u8);
        assert(evs.skip(1).skip(1) == failing_events((r - 1) as nat));
        assert(run_events(m, evs) == run_events(m2, evs.skip(1)));
        assert(run_events(m2, evs.skip(1)) == run_events(m3, evs.skip(1).skip(1)));
        assert(attempts_emitted(m, evs) == attempts_emitted(m2, evs.skip(1)));
        assert(attempts_emitted(m2, evs.skip(1)) == 1 + attempts_emitted(m3, evs.skip(1).skip(1)));
    }
}

/// A failing step with a non-empty fallback list: the fallback opens
/// as a recovery list over the same state, with the enclosing list
/// already standing at the next sibling step.
pub proof fn lemma_fallback_entered(m: MachineV, op: PendingOpV)
    requires
        m.wf(),
        m.phase == PhaseV::Awaiting(op),
        !op.sleeping,
        op.retries_left == 0,
        op.fallback@.len() > 0,
    ensures
        next_spec(m, EventV::OpFailed).0 == (MachineV {
            frames: m.frames.push(Frame { steps: op.fallback, index: 0, ctx: FrameCtx::Recovery }),
            phase: PhaseV::Ready,
            ..m
        }),
        next_spec(m, EventV::OpFailed).1 == ActionV::Proceed,
{
}

/// A recovery list that ran to its end: the outer step's failure is
/// handled, the run resumes in the enclosing list at the next sibling
/// step, and everything the fallback wrote to the state stays
/// visible.
pub proof fn lemma_fallback_completed(m: MachineV)
    requires
        m.wf(),
        m.phase == PhaseV::Ready,
        m.frames.len() > 0,
        m.frames.last().ctx == FrameCtx::Recovery,
        m.frames.last().index == m.frames.last().steps@.len(),
    ensures
        next_spec(m, EventV::Tick).0 == (MachineV { frames: m.frames.drop_last(), ..m }),
        next_spec(m, EventV::Tick).1 == ActionV::Proceed,
{
}

/// Equality comparison: the matching branch opens when it is
/// non-empty; an empty chosen branch is a no-op, not an error.
pub proof fn lemma_compare_var(m: MachineV)
    requires
        m.wf(),
        m.phase == PhaseV::Ready,
        has_current_step(m),
        (match current_step(m) {
            Step::CompareVar { input_var, compare_for, .. } => compare_for@ == "equality"@
                && resolve(m, opt_view(input_var)) is Some,
            _ => false,
        }),
    ensures
        (match current_step(m) {
            Step::CompareVar { input_var, compare_with, compare_for, if_true, if_false } => {
                let val = resolve(m, opt_view(input_var)).unwrap();
                let m1 = after_advance(m);
                &&& (val == compare_with@ && if_true@.len() > 0 ==> next_spec(m, EventV::Tick).0
                    == (MachineV {
                    frames: m1.frames.push(
                        Frame { steps: if_true, index: 0, ctx: FrameCtx::Branch },
                    ),
                    ..m1
                }))
                &&& (val != compare_with@ && if_false@.len() > 0 ==> next_spec(m, EventV::Tick).0
                    == (MachineV {
                    frames: m1.frames.push(
                        Frame { steps: if_false, index: 0, ctx: FrameCtx::Branch },
                    ),
                    ..m1
                }))
                &&& (val == compare_with@ && if_true@.len() == 0 ==> next_spec(m, EventV::Tick)
                    == (m1, ActionV::Proceed))
                &&& (val != compare_with@ && if_false@.len() == 0 ==> next_spec(m, EventV::Tick)
                    == (m1, ActionV::Proceed))
            },
            _ => true,
        }),
{
}

/// An AbortFlow step ends the whole run in one transition, however
/// deep the branch or recovery list it stands in — in particular, it
/// passes every CompareVar boundary, and a failure fallback of an
/// enclosing step never catches it. Only the flow-level fallback can
/// (see [`lemma_abort_caught_at_top`]); without one the run fails.
pub proof fn lemma_abort_terminates(m: MachineV)
    requires
        m.wf(),
        m.phase == PhaseV::Ready,
        has_current_step(m),
        current_step(m) matches Step::AbortFlow,
        m.flow_fallback@.len() == 0,
    ensures
        next_spec(m, EventV::Tick).0.phase == PhaseV::Finished(
            RunResult::Failed(FlowError::Aborted),
        ),
        next_spec(m, EventV::Tick).1 == (ActionV::Done {
            result: RunResult::Failed(FlowError::Aborted),
        }),
{
}

/// The one catch for an abort: a flow-level fallback list. While the
/// run is still on its root list (at any nesting), the abort abandons
/// every open list and the flow's own fallback starts, over the same
/// state.
pub proof fn lemma_abort_caught_at_top(m: MachineV)
    requires
        m.wf(),
        m.phase == PhaseV::Ready,
        has_current_step(m),
        current_step(m) matches Step::AbortFlow,
        m.frames[0].ctx == FrameCtx::Root,
        m.flow_fallback@.len() > 0,
    ensures
        next_spec(m, EventV::Tick).0.frames =~= seq![
            (Frame { steps: m.flow_fallback, index: 0, ctx: FrameCtx::TopFallback }),
        ],
        next_spec(m, EventV::Tick).0.phase == PhaseV::Ready,
        next_spec(m, EventV::Tick).0.vars == m.vars,
        next_spec(m, EventV::Tick).0.last == m.last,
{
}

} // verus!
