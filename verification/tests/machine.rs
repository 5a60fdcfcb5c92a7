use std::sync::Arc;
use m7m::errors::FlowError;
use m7m::machine::Action;
use m7m::machine::Event;
use m7m::machine::Machine;
use m7m::machine::RunResult;
use m7m::model::FailSpec;
use m7m::model::Step;
use m7m::model::YamlWorkflow;
use m7m::notifiers::MemoryNotifier;
use m7m::notifiers::NotifierKind;
use m7m::workflow::NotifierSet;

fn no_fail() -> FailSpec {
    FailSpec { retries: None, retry_interval: Some(0), upon_failure: Arc::new(vec![]) }
}

fn fail_spec(retries: Option<u8>, fallback: Vec<Step>) -> FailSpec {
    FailSpec { retries, retry_interval: Some(0), upon_failure: Arc::new(fallback) }
}

fn flow(steps: Vec<Step>, upon_failure: Vec<Step>) -> YamlWorkflow {
    YamlWorkflow {
        flow_name: Some("t".to_string()),
        trigger: None,
        notifiers: vec![],
        steps: Arc::new(steps),
        upon_failure: Arc::new(upon_failure),
    }
}

fn set_var(name: &str, value: &str) -> Step {
    Step::SetVariable { output_var: Some(name.to_string()), input: value.to_string() }
}

/// Drives the machine, failing every external operation, and returns
/// the run result together with the number of attempts asked for.
fn run_all_ops_fail(m: &mut Machine) -> (RunResult, usize) {
    let mut attempts = 0;
    let mut ev = Event::Tick;
    loop {
        ev = match m.next(ev) {
            Action::Done { result } => return (result, attempts),
            Action::HttpGet { .. }
            | Action::HttpPost { .. }
            | Action::ReadFile { .. }
            | Action::AppendFile { .. }
            | Action::Deliver { .. } => {
                attempts += 1;
                Event::OpFailed
            }
            _ => Event::Tick,
        };
    }
}

fn var_of(m: &Machine, name: &str) -> Option<String> {
    m.run_state().get_input(&Some(name.to_string())).ok().cloned()
}

#[test]
fn set_variable_binds_name_and_last_output() {
    let f = flow(vec![set_var("n", "v")], vec![]);
    let mut m = Machine::new(&f, vec![]);
    assert_eq!(m.result(), None);
    assert!(matches!(m.next(Event::Tick), Action::Proceed));
    assert_eq!(var_of(&m, "n"), Some("v".to_string()));
    assert_eq!(m.run_state().get_input(&None), Ok(&"v".to_string()));
    assert!(matches!(m.next(Event::Tick), Action::Done { result: RunResult::Completed }));
    assert_eq!(m.result(), Some(RunResult::Completed));
}

#[test]
fn unnamed_input_is_preceding_output() {
    let f = flow(
        vec![
            Step::SetVariable { output_var: None, input: "id:7".to_string() },
            Step::TextExtractOneCapture {
                input_var: None,
                output_var: Some("x".to_string()),
                regex: "id:(\\d+)".to_string(),
                fail_spec: no_fail(),
            },
        ],
        vec![],
    );
    let mut m = Machine::new(&f, vec![]);
    let (result, _) = run_all_ops_fail(&mut m);
    assert_eq!(result, RunResult::Completed);
    assert_eq!(var_of(&m, "x"), Some("7".to_string()));
}

#[test]
fn undeclared_variable_is_fatal() {
    let f = flow(
        vec![Step::CompareVar {
            input_var: Some("missing".to_string()),
            compare_with: "a".to_string(),
            compare_for: "equality".to_string(),
            if_true: Arc::new(vec![]),
            if_false: Arc::new(vec![]),
        }],
        vec![],
    );
    let mut m = Machine::new(&f, vec![]);
    let (result, _) = run_all_ops_fail(&mut m);
    assert_eq!(result, RunResult::Failed(FlowError::MissingInput));
}

#[test]
fn undeclared_variable_skips_step_fallback() {
    let f = flow(
        vec![Step::TextExtractOneCapture {
            input_var: Some("missing".to_string()),
            output_var: None,
            regex: "(a)".to_string(),
            fail_spec: fail_spec(None, vec![set_var("fb", "ran")]),
        }],
        vec![],
    );
    let mut m = Machine::new(&f, vec![]);
    let (result, _) = run_all_ops_fail(&mut m);
    assert_eq!(result, RunResult::Failed(FlowError::MissingInput));
    assert_eq!(var_of(&m, "fb"), None);
}

#[test]
fn failing_operation_attempted_retries_plus_one() {
    let f = flow(
        vec![Step::GetUrl {
            url: "https://e.x/a".to_string(),
            output_var: None,
            fail_spec: fail_spec(Some(2), vec![]),
        }],
        vec![],
    );
    let mut m = Machine::new(&f, vec![]);
    let (result, attempts) = run_all_ops_fail(&mut m);
    assert_eq!(result, RunResult::Failed(FlowError::OperationFailed));
    assert_eq!(attempts, 3);
}

#[test]
fn no_retries_means_single_attempt() {
    let f = flow(
        vec![Step::ReadFromFile {
            path: "/none".to_string(),
            output_var: None,
            fail_spec: fail_spec(None, vec![]),
        }],
        vec![],
    );
    let mut m = Machine::new(&f, vec![]);
    let (result, attempts) = run_all_ops_fail(&mut m);
    assert_eq!(result, RunResult::Failed(FlowError::OperationFailed));
    assert_eq!(attempts, 1);
}

#[test]
fn fallback_success_resumes_at_next_sibling() {
    let f = flow(
        vec![
            Step::ReadFromFile {
                path: "/none".to_string(),
                output_var: Some("r".to_string()),
                fail_spec: fail_spec(None, vec![set_var("fb", "1")]),
            },
            set_var("after", "2"),
        ],
        vec![],
    );
    let mut m = Machine::new(&f, vec![]);
    let (result, attempts) = run_all_ops_fail(&mut m);
    assert_eq!(result, RunResult::Completed);
    assert_eq!(attempts, 1);
    assert_eq!(var_of(&m, "fb"), Some("1".to_string()));
    assert_eq!(var_of(&m, "after"), Some("2".to_string()));
    // the failed step's own output stays unset
    assert_eq!(var_of(&m, "r"), None);
}

fn compare_flow(x: &str, if_true: Vec<Step>, if_false: Vec<Step>) -> YamlWorkflow {
    flow(
        vec![
            set_var("x", x),
            Step::CompareVar {
                input_var: Some("x".to_string()),
                compare_with: "a".to_string(),
                compare_for: "equality".to_string(),
                if_true: Arc::new(if_true),
                if_false: Arc::new(if_false),
            },
        ],
        vec![],
    )
}

#[test]
fn compare_var_equal_runs_if_true() {
    let f = compare_flow("a", vec![set_var("t", "yes")], vec![set_var("e", "no")]);
    let mut m = Machine::new(&f, vec![]);
    let (result, _) = run_all_ops_fail(&mut m);
    assert_eq!(result, RunResult::Completed);
    assert_eq!(var_of(&m, "t"), Some("yes".to_string()));
    assert_eq!(var_of(&m, "e"), None);
}

#[test]
fn compare_var_unequal_runs_if_false() {
    let f = compare_flow("b", vec![set_var("t", "yes")], vec![set_var("e", "no")]);
    let mut m = Machine::new(&f, vec![]);
    let (result, _) = run_all_ops_fail(&mut m);
    assert_eq!(result, RunResult::Completed);
    assert_eq!(var_of(&m, "t"), None);
    assert_eq!(var_of(&m, "e"), Some("no".to_string()));
}

#[test]
fn compare_var_empty_branch_is_noop() {
    let f = compare_flow("a", vec![], vec![set_var("e", "no")]);
    let mut m = Machine::new(&f, vec![]);
    let (result, _) = run_all_ops_fail(&mut m);
    assert_eq!(result, RunResult::Completed);
    assert_eq!(var_of(&m, "e"), None);
}

#[test]
fn compare_var_unknown_kind_is_fatal() {
    let f = flow(
        vec![
            set_var("x", "a"),
            Step::CompareVar {
                input_var: Some("x".to_string()),
                compare_with: "a".to_string(),
                compare_for: "ordering".to_string(),
                if_true: Arc::new(vec![]),
                if_false: Arc::new(vec![]),
            },
        ],
        vec![],
    );
    let mut m = Machine::new(&f, vec![]);
    let (result, _) = run_all_ops_fail(&mut m);
    assert_eq!(result, RunResult::Failed(FlowError::UnsupportedComparison));
}

#[test]
fn abort_in_branch_ends_run() {
    let f = flow(
        vec![
            set_var("x", "a"),
            Step::CompareVar {
                input_var: Some("x".to_string()),
                compare_with: "a".to_string(),
                compare_for: "equality".to_string(),
                if_true: Arc::new(vec![Step::AbortFlow]),
                if_false: Arc::new(vec![]),
            },
            set_var("later", "2"),
        ],
        vec![],
    );
    let mut m = Machine::new(&f, vec![]);
    let (result, _) = run_all_ops_fail(&mut m);
    assert_eq!(result, RunResult::Failed(FlowError::Aborted));
    assert_eq!(var_of(&m, "later"), None);
}

#[test]
fn abort_in_step_fallback_is_not_caught_there() {
    let f = flow(
        vec![
            set_var("x", "a"),
            Step::ReadFromFile {
                path: "/none".to_string(),
                output_var: None,
                fail_spec: fail_spec(
                    None,
                    vec![Step::CompareVar {
                        input_var: Some("x".to_string()),
                        compare_with: "a".to_string(),
                        compare_for: "equality".to_string(),
                        if_true: Arc::new(vec![Step::AbortFlow]),
                        if_false: Arc::new(vec![]),
                    }],
                ),
            },
            set_var("later", "2"),
        ],
        vec![],
    );
    let mut m = Machine::new(&f, vec![]);
    let (result, _) = run_all_ops_fail(&mut m);
    assert_eq!(result, RunResult::Failed(FlowError::Aborted));
    assert_eq!(var_of(&m, "later"), None);
}

#[test]
fn abort_caught_by_flow_fallback() {
    let f = flow(
        vec![
            set_var("x", "a"),
            Step::CompareVar {
                input_var: Some("x".to_string()),
                compare_with: "a".to_string(),
                compare_for: "equality".to_string(),
                if_true: Arc::new(vec![Step::AbortFlow]),
                if_false: Arc::new(vec![]),
            },
        ],
        vec![set_var("rescued", "1")],
    );
    let mut m = Machine::new(&f, vec![]);
    let (result, _) = run_all_ops_fail(&mut m);
    assert_eq!(result, RunResult::Completed);
    assert_eq!(var_of(&m, "rescued"), Some("1".to_string()));
    // the state from before the failure stays visible to the fallback run
    assert_eq!(var_of(&m, "x"), Some("a".to_string()));
}

#[test]
fn get_extract_notify_scenario() {
    let mut set = NotifierSet::new();
    set.add("n1".to_string(), NotifierKind::Memory(MemoryNotifier::new()));
    let f = flow(
        vec![
            Step::GetUrl {
                url: "https://e.x/a".to_string(),
                output_var: Some("r".to_string()),
                fail_spec: fail_spec(Some(2), vec![]),
            },
            Step::TextExtractOneCapture {
                input_var: Some("r".to_string()),
                output_var: Some("id".to_string()),
                regex: "id:(\\d+)".to_string(),
                fail_spec: no_fail(),
            },
            Step::Notify {
                notifier: "n1".to_string(),
                message: "id is {id}".to_string(),
                fail_spec: no_fail(),
            },
        ],
        vec![],
    );
    let mut m = Machine::new(&f, set.names());
    let mut gets = 0;
    let mut ev = Event::Tick;
    loop {
        ev = match m.next(ev) {
            Action::HttpGet { url } => {
                assert_eq!(url, "https://e.x/a");
                gets += 1;
                if gets <= 2 {
                    Event::OpFailed
                } else {
                    Event::GotText { body: "id:42".to_string() }
                }
            }
            Action::Deliver { notifier, message } => match set.send(&notifier, &message) {
                Ok(()) => Event::OpOk,
                Err(_) => Event::OpFailed,
            },
            Action::Done { result } => {
                assert_eq!(result, RunResult::Completed);
                break;
            }
            _ => Event::Tick,
        };
    }
    assert_eq!(gets, 3);
    assert_eq!(var_of(&m, "id"), Some("42".to_string()));
    match set.kind_at(0) {
        NotifierKind::Memory(mm) => {
            assert_eq!(mm.get_saved_messages(), vec!["id is {id}".to_string()])
        }
        _ => panic!("expected the memory notifier"),
    }
}

#[test]
fn invalid_pattern_is_fatal() {
    let f = flow(
        vec![
            Step::SetVariable { output_var: None, input: "text".to_string() },
            Step::TextExtractOneCapture {
                input_var: None,
                output_var: None,
                regex: "(".to_string(),
                fail_spec: fail_spec(None, vec![set_var("fb", "ran")]),
            },
        ],
        vec![],
    );
    let mut m = Machine::new(&f, vec![]);
    let (result, _) = run_all_ops_fail(&mut m);
    assert_eq!(result, RunResult::Failed(FlowError::InvalidPattern));
    assert_eq!(var_of(&m, "fb"), None);
}

#[test]
fn pattern_miss_is_recoverable() {
    let f = flow(
        vec![
            Step::SetVariable { output_var: None, input: "nothing here".to_string() },
            Step::TextExtractOneCapture {
                input_var: None,
                output_var: Some("x".to_string()),
                regex: "id:(\\d+)".to_string(),
                fail_spec: fail_spec(None, vec![set_var("fb", "ran")]),
            },
        ],
        vec![],
    );
    let mut m = Machine::new(&f, vec![]);
    let (result, _) = run_all_ops_fail(&mut m);
    assert_eq!(result, RunResult::Completed);
    assert_eq!(var_of(&m, "fb"), Some("ran".to_string()));
    assert_eq!(var_of(&m, "x"), None);
}

#[test]
fn notify_unknown_name_is_fatal() {
    let f = flow(
        vec![Step::Notify {
            notifier: "ghostly".to_string(),
            message: "hi".to_string(),
            fail_spec: fail_spec(None, vec![set_var("fb", "ran")]),
        }],
        vec![],
    );
    let mut m = Machine::new(&f, vec![]);
    let (result, _) = run_all_ops_fail(&mut m);
    assert_eq!(result, RunResult::Failed(FlowError::MissingNotifier));
    assert_eq!(var_of(&m, "fb"), None);
}

#[test]
fn sleep_and_debug_actions() {
    let f = flow(vec![Step::Sleep { duration: 3 }, Step::DebugState], vec![]);
    let mut m = Machine::new(&f, vec![]);
    assert!(matches!(m.next(Event::Tick), Action::SleepFor { seconds: 3 }));
    assert!(matches!(m.next(Event::Tick), Action::ShowState));
    assert!(matches!(m.next(Event::Tick), Action::Done { result: RunResult::Completed }));
}

#[test]
fn post_and_append_succeed_without_output() {
    let f = flow(
        vec![
            set_var("body", "payload"),
            Step::PostUrl {
                url: "https://e.x/p".to_string(),
                body: "data".to_string(),
                headers: Arc::new(vec![("k".to_string(), "v".to_string())]),
                fail_spec: no_fail(),
            },
            Step::AppendToFile {
                path: "/tmp/out".to_string(),
                input_var: Some("body".to_string()),
                fail_spec: no_fail(),
            },
        ],
        vec![],
    );
    let mut m = Machine::new(&f, vec![]);
    let mut ev = Event::Tick;
    loop {
        ev = match m.next(ev) {
            Action::HttpPost { url, headers, body } => {
                assert_eq!(url, "https://e.x/p");
                assert_eq!(body, "data");
                assert_eq!(headers.len(), 1);
                Event::OpOk
            }
            Action::AppendFile { path, text } => {
                assert_eq!(path, "/tmp/out");
                assert_eq!(text, "payload");
                Event::OpOk
            }
            Action::Done { result } => {
                assert_eq!(result, RunResult::Completed);
                break;
            }
            _ => Event::Tick,
        };
    }
    // posting and appending leave the last output where it was
    assert_eq!(m.run_state().get_input(&None), Ok(&"payload".to_string()));
}
