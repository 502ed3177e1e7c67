use infer_core::signals::Signal;

#[test]
fn test_signal_create() {
    let signal = Signal::new(Ok(Box::new([1, 2, 3])));
    assert_eq!(uuid::Uuid::from_u128(signal.id).is_nil(), false);
}

#[test]
fn test_signal_ok() {
    let signal = Signal::new(Ok(Box::new([1, 2, 3])));
    assert!(signal.is_ok());
    assert!(!signal.is_err());
    assert!(signal.type_check());
}

#[test]
fn test_signal_err() {
    let signal = Signal::<Box<[i32; 3]>>::new(Err("Error occurred".to_string()));
    assert!(!signal.is_ok());
    assert!(signal.is_err());
    assert!(!signal.type_check());
}

#[test]
fn signal_holds_exactly_one_arm() {
    let ok = Signal::new(Ok(7u8));
    let err = Signal::<u8>::new(Err("late".to_string()));
    assert_ne!(ok.is_ok(), ok.is_err());
    assert_ne!(err.is_ok(), err.is_err());
    assert_eq!(ok.result, Ok(7u8));
    assert_eq!(err.result, Err("late".to_string()));
}

#[test]
fn signal_identities_are_random() {
    let a = Signal::new(Ok(1u8));
    let b = Signal::new(Ok(1u8));
    assert_ne!(a.id, 0);
    assert_ne!(a.id, b.id);
    assert_eq!(uuid::Uuid::from_u128(a.id).get_version_num(), 4);
}

fn needs_send_and_sync<T: Send + Sync>(_value: &T) {}

#[test]
fn signal_can_cross_threads() {
    let signal = Signal::new(Ok(vec![1u8, 2, 3]));
    needs_send_and_sync(&signal);
    assert_eq!(signal.result, Ok(vec![1u8, 2, 3]));
}
