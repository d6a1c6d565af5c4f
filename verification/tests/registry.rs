use unity_bridge::registry::CallbackSlot;

#[test]
fn a_new_slot_is_empty() {
    let slot: CallbackSlot<u32> = CallbackSlot::new();
    assert_eq!(slot.get(), None);
}

#[test]
fn the_last_registration_wins() {
    let mut slot = CallbackSlot::new();
    slot.register(Some(1u32));
    slot.register(Some(2u32));
    assert_eq!(slot.get(), Some(2));
}

#[test]
fn registering_none_unregisters() {
    let mut slot = CallbackSlot::new();
    slot.register(Some(1u32));
    slot.register(None);
    assert_eq!(slot.get(), None);
}

fn double(x: u32) -> u32 {
    x * 2
}

#[test]
fn a_slot_holds_function_pointers() {
    let mut slot: CallbackSlot<fn(u32) -> u32> = CallbackSlot::new();
    slot.register(Some(double));
    let callback = slot.get().expect("registered");
    assert_eq!(callback(21), 42);
}
