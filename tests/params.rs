use isohedral::params::ParamSlots;

#[test]
fn set_then_read_back_parameters() {
    let mut slots = ParamSlots::new(0.0f32);
    let set = [0.1, 0.25, 0.5, 0.75, 0.9, 1.0];
    slots.set_parameters(&set);
    let mut read = [0.0f32; 6];
    slots.parameters(&mut read);
    assert_eq!(read, set);
}

#[test]
fn new_slots_hold_the_fill_value() {
    let slots = ParamSlots::new(3i32);
    let mut read = [0i32; 6];
    slots.parameters(&mut read);
    assert_eq!(read, [3; 6]);
}

#[test]
fn defaults_fill_only_the_first_slots() {
    let mut slots = ParamSlots::new(0.0f32);
    slots.set_parameters(&[9.0; 6]);
    slots.load_defaults(&vec![0.12, 0.34]);
    let mut read = [0.0f32; 6];
    slots.parameters(&mut read);
    assert_eq!(read, [0.12, 0.34, 9.0, 9.0, 9.0, 9.0]);
}

#[test]
fn no_defaults_change_nothing() {
    let mut slots = ParamSlots::new(1u8);
    slots.load_defaults(&vec![]);
    let mut read = [0u8; 6];
    slots.parameters(&mut read);
    assert_eq!(read, [1; 6]);
}

#[test]
fn six_defaults_replace_every_slot() {
    let mut slots = ParamSlots::new(0u8);
    slots.load_defaults(&vec![1, 2, 3, 4, 5, 6]);
    let mut read = [0u8; 6];
    slots.parameters(&mut read);
    assert_eq!(read, [1, 2, 3, 4, 5, 6]);
}
