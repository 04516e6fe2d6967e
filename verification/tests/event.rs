use openentry_ext::event::{EventArgs, EventType, UnsafeEventArgs};
use openentry_ext::shutdown_type::ShutdownType;

#[test]
fn new_payload_has_an_address() {
    let args = EventArgs::new(42u64);
    assert_ne!(args.address(), 0);
}

#[test]
fn new_payload_is_aligned_for_its_value() {
    let args = EventArgs::new(42u64);
    assert_eq!(args.address() % std::mem::align_of::<u64>(), 0);
    let wide = EventArgs::new(7u128);
    assert_eq!(wide.address() % std::mem::align_of::<u128>(), 0);
}

#[test]
fn conversions_keep_the_address() {
    let args = EventArgs::new(String::from("payload"));
    let address = args.address();
    let erased: UnsafeEventArgs = args.into();
    assert_eq!(erased.address(), address);
    let typed: EventArgs<String> = erased.into();
    assert_eq!(typed.address(), address);
}

#[test]
fn payload_prints_its_address_in_hex() {
    let args = EventArgs::new([1u8, 2, 3]);
    let address = args.address();
    assert_eq!(args.debug_text(), format!("EventArgs(0x{:016x})", address));
    let erased: UnsafeEventArgs = args.into();
    assert_eq!(erased.debug_text(), format!("UnsafeEventArgs(0x{:016x})", address));
    assert_eq!(erased.debug_text().len(), "UnsafeEventArgs(0x".len() + 16 + 1);
}

#[test]
fn foreign_event_carries_its_payload() {
    let args = EventArgs::new(7i32);
    let address = args.address();
    let event = EventType::Foreign { from: 2, event: 9, payload: args.into() };
    match event {
        EventType::Foreign { from, event, payload } => {
            assert_eq!(from, 2);
            assert_eq!(event, 9);
            assert_eq!(payload.address(), address);
        }
        _ => panic!("wrong variant"),
    }
    let shutdown = EventType::VMShutdown(ShutdownType::Error);
    assert!(matches!(shutdown, EventType::VMShutdown(ShutdownType::Error)));
}
