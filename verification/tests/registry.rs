use victors::registry::Registry;

#[test]
fn a_new_registry_holds_nothing() {
    let registry: Registry<u8> = Registry::new();

    assert_eq!(0, registry.len());
    assert_eq!(None, registry.position(&"control".to_string()));
}

#[test]
fn entries_stand_in_the_order_of_registration() {
    let mut registry = Registry::new();

    assert_eq!(None, registry.register("control".to_string(), 1u8));
    assert_eq!(None, registry.register("candidate".to_string(), 2u8));
    assert_eq!(None, registry.register("third".to_string(), 3u8));

    assert_eq!(3, registry.len());
    assert_eq!(Some(0), registry.position(&"control".to_string()));
    assert_eq!(Some(1), registry.position(&"candidate".to_string()));
    assert_eq!(Some(2), registry.position(&"third".to_string()));
    assert_eq!(None, registry.position(&"Control".to_string()));
    assert_eq!("candidate", registry.name_at(1));
    assert_eq!(2, *registry.block_at(1));
}

#[test]
fn a_taken_name_is_refused_and_the_block_handed_back() {
    let mut registry = Registry::new();
    registry.register("control".to_string(), 1u8);

    let refused = registry.register("control".to_string(), 9u8);

    assert_eq!(Some(9), refused);
    assert_eq!(1, registry.len());
    assert_eq!(1, *registry.block_at(0));
}
