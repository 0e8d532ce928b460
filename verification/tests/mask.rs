use raw_input::update_state;

#[test]
fn test_update_state_sets_and_clears_single_bits() {
    // Enabling sets exactly the requested bit.
    assert_eq!(update_state(0b0000, 0b0001, true), 0b0001);
    assert_eq!(update_state(0b0001, 0b1000, true), 0b1001);
    // Enabling an already set bit changes nothing.
    assert_eq!(update_state(0b1001, 0b0001, true), 0b1001);
    // Disabling clears exactly the requested bit.
    assert_eq!(update_state(0b1001, 0b0001, false), 0b1000);
    // Disabling a clear bit changes nothing.
    assert_eq!(update_state(0b1000, 0b0100, false), 0b1000);
    // The other three category bits survive a toggle of the fourth.
    assert_eq!(update_state(0b1111, 0b0010, false), 0b1101);
    assert_eq!(update_state(0b1101, 0b0010, true), 0b1111);
}
