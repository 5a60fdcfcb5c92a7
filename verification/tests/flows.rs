use std::sync::Arc;
use m7m::errors::ConfigError;
use m7m::errors::FlowError;
use m7m::model::Notifier;
use m7m::model::Trigger;
use m7m::model::YamlWorkflow;
use m7m::notifiers::NotifierKind;
use m7m::numbers::parse_i64;
use m7m::schedule::TriggerSpec;
use m7m::schedule::trigger_spec_of;
use m7m::workflow::select_flow;
use m7m::workflow::start;

fn flow_with_notifiers(notifiers: Vec<Notifier>) -> YamlWorkflow {
    YamlWorkflow {
        flow_name: None,
        trigger: None,
        notifiers,
        steps: Arc::new(vec![]),
        upon_failure: Arc::new(vec![]),
    }
}

fn telegram_config(name: &str, token: Option<&str>, chat_id: Option<&str>) -> Notifier {
    Notifier {
        name: name.to_string(),
        notifier_type: "telegram".to_string(),
        token: token.map(|s| s.to_string()),
        chat_id: chat_id.map(|s| s.to_string()),
    }
}

#[test]
fn parse_i64_plain() {
    assert_eq!(parse_i64("123"), Some(123));
    assert_eq!(parse_i64("0"), Some(0));
    assert_eq!(parse_i64("+5"), Some(5));
    assert_eq!(parse_i64("-42"), Some(-42));
}

#[test]
fn parse_i64_bounds() {
    assert_eq!(parse_i64("9223372036854775807"), Some(i64::MAX));
    assert_eq!(parse_i64("-9223372036854775808"), Some(i64::MIN));
    assert_eq!(parse_i64("9223372036854775808"), None);
    assert_eq!(parse_i64("-9223372036854775809"), None);
}

#[test]
fn parse_i64_rejects_junk() {
    assert_eq!(parse_i64(""), None);
    assert_eq!(parse_i64("-"), None);
    assert_eq!(parse_i64("+"), None);
    assert_eq!(parse_i64("12a"), None);
    assert_eq!(parse_i64(" 12"), None);
    assert_eq!(parse_i64("--3"), None);
}

#[test]
fn select_flow_empty_filter_takes_all() {
    assert!(select_flow(&None, &vec![]));
    assert!(select_flow(&Some("a".to_string()), &vec![]));
}

#[test]
fn select_flow_filter_matches_by_name() {
    let filter = vec!["a".to_string(), "b".to_string()];
    assert!(select_flow(&Some("a".to_string()), &filter));
    assert!(select_flow(&Some("b".to_string()), &filter));
    assert!(!select_flow(&Some("c".to_string()), &filter));
    assert!(!select_flow(&None, &filter));
}

#[test]
fn start_builds_print_and_telegram_notifiers() {
    let f = flow_with_notifiers(vec![
        Notifier {
            name: "p".to_string(),
            notifier_type: "print".to_string(),
            token: None,
            chat_id: None,
        },
        telegram_config("t", Some("tok"), Some("-100123")),
    ]);
    let (set, _machine) = start(&f).unwrap();
    assert_eq!(set.len(), 2);
    assert_eq!(set.names(), vec!["p".to_string(), "t".to_string()]);
    assert!(matches!(set.kind_at(0), NotifierKind::Print(_)));
    assert!(matches!(set.kind_at(1), NotifierKind::Telegram(_)));
}

#[test]
fn start_rejects_unknown_notifier_type() {
    let f = flow_with_notifiers(vec![Notifier {
        name: "x".to_string(),
        notifier_type: "carrier-pigeon".to_string(),
        token: None,
        chat_id: None,
    }]);
    assert_eq!(start(&f).err(), Some(ConfigError::InvalidNotifierType));
}

#[test]
fn start_rejects_telegram_without_token() {
    let f = flow_with_notifiers(vec![telegram_config("t", None, Some("5"))]);
    assert_eq!(start(&f).err(), Some(ConfigError::MissingToken));
}

#[test]
fn start_rejects_telegram_without_chat_id() {
    let f = flow_with_notifiers(vec![telegram_config("t", Some("tok"), None)]);
    assert_eq!(start(&f).err(), Some(ConfigError::MissingChatId));
}

#[test]
fn start_rejects_unparseable_chat_id() {
    let f = flow_with_notifiers(vec![telegram_config("t", Some("tok"), Some("not-a-number"))]);
    assert_eq!(start(&f).err(), Some(ConfigError::InvalidChatId));
}

#[test]
fn error_classification() {
    // configuration errors are fatal: no step fallback catches them
    assert!(FlowError::MissingNotifier.is_fatal());
    assert!(FlowError::UnsupportedComparison.is_fatal());
    assert!(FlowError::InvalidPattern.is_fatal());
    assert!(FlowError::MissingInput.is_fatal());
    // operational failures are recoverable
    assert!(!FlowError::Aborted.is_fatal());
    assert!(!FlowError::NoCapture.is_fatal());
    assert!(!FlowError::OperationFailed.is_fatal());
}

#[test]
fn trigger_spec_reads_timer_and_once() {
    let timer = Trigger { trigger_type: "timer".to_string(), interval: Some(30) };
    assert_eq!(trigger_spec_of(&timer), Some(TriggerSpec::Interval(30)));
    let default_timer = Trigger { trigger_type: "timer".to_string(), interval: None };
    assert_eq!(trigger_spec_of(&default_timer), Some(TriggerSpec::Interval(1)));
    let once = Trigger { trigger_type: "once".to_string(), interval: None };
    assert_eq!(trigger_spec_of(&once), Some(TriggerSpec::Once));
    let odd = Trigger { trigger_type: "cron".to_string(), interval: None };
    assert_eq!(trigger_spec_of(&odd), None);
}
