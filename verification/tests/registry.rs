use panic_serial::registry::Registry;

#[test]
fn a_new_registry_is_empty() {
    let registry: Registry<String> = Registry::new();
    assert!(!registry.is_registered());
    assert!(registry.slot.is_none());
}

#[test]
fn registration_fills_the_slot() {
    let mut registry: Registry<String> = Registry::new();
    registry.register(String::from("uart0"));
    assert!(registry.is_registered());
    assert_eq!(registry.slot, Some(String::from("uart0")));
}

#[test]
fn the_handle_refers_to_the_registered_value() {
    let mut registry: Registry<Vec<u8>> = Registry::new();
    let handle = registry.register(vec![1, 2, 3]);
    assert_eq!(*handle, vec![1, 2, 3]);
}

#[test]
fn writes_through_the_handle_reach_the_slot() {
    let mut direct: Vec<u8> = vec![7];
    direct.extend_from_slice(b"Hello there!\r\n");
    direct.push(0);

    let mut registry: Registry<Vec<u8>> = Registry::new();
    let handle = registry.register(vec![7]);
    handle.extend_from_slice(b"Hello there!\r\n");
    handle.push(0);
    assert_eq!(*handle, direct);
    assert_eq!(registry.slot, Some(direct));
}

#[test]
fn a_second_registration_replaces_the_first() {
    let mut registry: Registry<String> = Registry::new();
    registry.register(String::from("first")).push_str(" port");
    let handle = registry.register(String::from("second"));
    assert_eq!(*handle, "second");
    handle.push_str(" port");
    assert_eq!(registry.slot, Some(String::from("second port")));
}
