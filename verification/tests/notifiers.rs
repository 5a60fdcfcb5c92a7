use m7m::notifiers::MemoryNotifier;
use m7m::notifiers::NotifierChain;
use m7m::notifiers::NotifierKind;
use m7m::notifiers::PrintNotifier;
use m7m::notifiers::TelegramNotifier;

#[test]
fn test_default_chain() {
    let dc = NotifierChain::default();
    assert_eq!(dc.len(), 1);
}

#[test]
fn test_builder() {
    let c = NotifierChain::new()
        .chain_with(NotifierKind::Print(PrintNotifier::new()))
        .chain_with(NotifierKind::Memory(MemoryNotifier::new()));
    assert_eq!(c.len(), 2);
}

#[test]
fn test_memory_send() {
    let mut n = MemoryNotifier::new();
    let _ = n.send_message("1");
    let _ = n.send_message("2");
    assert_eq!(n.get_saved_messages().len(), 2);
}

#[test]
fn test_builder_from_notifier() {
    let c = PrintNotifier::new()
        .chain_with(NotifierKind::Memory(MemoryNotifier::new()))
        .chain_with(NotifierKind::Telegram(TelegramNotifier::default()));
    assert_eq!(c.len(), 3);
}

#[test]
fn test_chain_from_memory_and_telegram() {
    let c = MemoryNotifier::new().chain_with(NotifierKind::Print(PrintNotifier::new()));
    assert_eq!(c.len(), 2);
    let c = TelegramNotifier::default().chain_with(NotifierKind::Memory(MemoryNotifier::new()));
    assert_eq!(c.len(), 2);
}

#[test]
fn test_memory_messages_in_order() {
    let mut n = MemoryNotifier::new();
    n.send_message("first").unwrap();
    n.send_message("second").unwrap();
    let saved = n.get_saved_messages();
    assert_eq!(saved, vec!["first".to_string(), "second".to_string()]);
}

#[test]
fn test_chain_delivers_to_all_members() {
    let mut c = NotifierChain::new()
        .chain_with(NotifierKind::Memory(MemoryNotifier::new()))
        .chain_with(NotifierKind::Print(PrintNotifier::new()))
        .chain_with(NotifierKind::Memory(MemoryNotifier::new()));
    assert!(c.send_message("hello").is_ok());
    assert!(c.send_message("again").is_ok());
    assert_eq!(c.len(), 3);
}

#[test]
fn test_kind_send_keeps_message() {
    let mut k = NotifierKind::Memory(MemoryNotifier::new());
    assert!(k.send_message("kept").is_ok());
    match k {
        NotifierKind::Memory(m) => assert_eq!(m.get_saved_messages(), vec!["kept".to_string()]),
        _ => panic!("expected a memory notifier"),
    }
}
