use std::sync::Arc;

use lsar::channel::EvalChannel;

#[test]
fn slot_starts_empty_and_is_shared() {
    let c: EvalChannel<String> = EvalChannel::new();
    let other = c.share();
    assert!(Arc::ptr_eq(&c.sender, &other.sender));
    assert!(c.sender.try_lock().unwrap().is_none());
    *other.sender.try_lock().unwrap() = Some("tx".to_string());
    assert_eq!(c.sender.try_lock().unwrap().as_deref(), Some("tx"));
}

#[test]
fn slot_guard_is_exclusive() {
    let c: EvalChannel<u32> = EvalChannel::new();
    let other = c.share();
    let guard = c.sender.try_lock().unwrap();
    assert!(other.sender.try_lock().is_err());
    drop(guard);
    assert!(other.sender.try_lock().is_ok());
}
