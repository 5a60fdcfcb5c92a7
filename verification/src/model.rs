use vstd::prelude::*;
use std::sync::Arc;

verus! {

/// Per-step failure policy: a retry budget, the pause between attempts,
/// and a fallback step list run once when the budget is exhausted.
pub struct FailSpec {
    /// Extra attempts after the first; `None` means none.
    pub retries: Option<u8>,
    /// Whole seconds to wait between attempts; `None` means one second.
    pub retry_interval: Option<u64>,
    /// Steps run once, against the same state, if the operation still fails.
    pub upon_failure: Arc<Vec<Step>>,
}

/// One executable unit of a flow. Branch and fallback lists make the
/// steps a tree, built once when the definition is loaded and never
/// mutated; sub-lists are shared read-only through `Arc`.
pub enum Step {
    GetUrl { url: String, output_var: Option<String>, fail_spec: FailSpec },
    PostUrl { url: String, body: String, headers: Arc<Vec<(String, String)>>, fail_spec: FailSpec },
    TextExtractOneCapture {
        input_var: Option<String>,
        output_var: Option<String>,
        regex: String,
        fail_spec: FailSpec,
    },
    CompareVar {
        input_var: Option<String>,
        compare_with: String,
        compare_for: String,
        if_true: Arc<Vec<Step>>,
        if_false: Arc<Vec<Step>>,
    },
    Notify { notifier: String, message: String, fail_spec: FailSpec },
    AbortFlow,
    DebugState,
    Sleep { duration: u64 },
    ReadFromFile { path: String, output_var: Option<String>, fail_spec: FailSpec },
    AppendToFile { path: String, input_var: Option<String>, fail_spec: FailSpec },
    SetVariable { output_var: Option<String>, input: String },
}

/// A named delivery channel declared by a flow.
pub struct Notifier {
    pub name: String,
    pub notifier_type: String,
    pub token: Option<String>,
    pub chat_id: Option<String>,
}

/// The scheduling rule of a flow: "once" or "timer" with an interval
/// in whole seconds (`None` means one second).
pub struct Trigger {
    pub trigger_type: String,
    pub interval: Option<u64>,
}

/// One flow definition: identity, trigger, declared notifiers, the root
/// step list, and a flow-level fallback list run once if the root list
/// fails uncaught.
pub struct YamlWorkflow {
    pub flow_name: Option<String>,
    pub trigger: Option<Trigger>,
    pub notifiers: Vec<Notifier>,
    pub steps: Arc<Vec<Step>>,
    pub upon_failure: Arc<Vec<Step>>,
}

impl FailSpec {
    /// The retry budget: extra attempts after the first.
    pub open spec fn spec_budget(&self) -> u8 {
        match self.retries {
            Some(r) => r,
            None => 0,
        }
    }

    /// Seconds to pause between attempts.
    pub open spec fn spec_pause(&self) -> u64 {
        match self.retry_interval {
            Some(s) => s,
            None => 1,
        }
    }

    #[verifier::when_used_as_spec(spec_budget)]
    pub fn budget(&self) -> (r: u8)
        ensures
            r == self.spec_budget(),
    {
        match self.retries {
            Some(r) => r,
            None => 0,
        }
    }

    #[verifier::when_used_as_spec(spec_pause)]
    pub fn pause(&self) -> (r: u64)
        ensures
            r == self.spec_pause(),
    {
        match self.retry_interval {
            Some(s) => s,
            None => 1,
        }
    }
}

} // verus!
