use std::sync::Arc;
use m7m::errors::FlowError;
use m7m::machine::Action;
use m7m::machine::Event;
use m7m::machine::Machine;
use m7m::machine::RunResult;
use m7m::model::Step;
use m7m::model::YamlWorkflow;
use m7m::schedule::TriggerSpec;
use m7m::schedule::TriggerUnit;

fn always_failing_flow() -> YamlWorkflow {
    YamlWorkflow {
        flow_name: Some("doomed".to_string()),
        trigger: None,
        notifiers: vec![],
        steps: Arc::new(vec![Step::AbortFlow]),
        upon_failure: Arc::new(vec![]),
    }
}

fn run_once(flow: &YamlWorkflow) -> RunResult {
    let mut m = Machine::new(flow, vec![]);
    let mut ev = Event::Tick;
    loop {
        ev = match m.next(ev) {
            Action::Done { result } => return result,
            _ => Event::Tick,
        };
    }
}

#[test]
fn interval_unit_survives_failing_runs() {
    let f = always_failing_flow();
    let mut unit = TriggerUnit::new(TriggerSpec::Interval(1));
    for _ in 0..4 {
        assert!(unit.begin_run());
        let result = run_once(&f);
        assert_eq!(result, RunResult::Failed(FlowError::Aborted));
        unit.on_run_finished(result);
    }
    assert_eq!(unit.runs_started(), 4);
    assert!(unit.alive());
}

#[test]
fn once_unit_ends_after_one_run() {
    let f = always_failing_flow();
    let mut unit = TriggerUnit::new(TriggerSpec::Once);
    assert!(unit.begin_run());
    let result = run_once(&f);
    unit.on_run_finished(result);
    assert!(!unit.alive());
    assert!(!unit.begin_run());
    assert_eq!(unit.runs_started(), 1);
}
