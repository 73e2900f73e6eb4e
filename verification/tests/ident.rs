use xdg_notify::ident::{decimal_string, portal_identifier, PortalIdCounter};

#[test]
fn decimal_string_of_single_digits() {
    assert_eq!(decimal_string(0), "0");
    assert_eq!(decimal_string(7), "7");
    assert_eq!(decimal_string(9), "9");
}

#[test]
fn decimal_string_of_longer_numbers() {
    assert_eq!(decimal_string(10), "10");
    assert_eq!(decimal_string(42), "42");
    assert_eq!(decimal_string(1000), "1000");
    assert_eq!(decimal_string(90210), "90210");
    assert_eq!(decimal_string(u32::MAX), "4294967295");
}

#[test]
fn decimal_string_agrees_with_the_standard_library() {
    for n in [0u32, 1, 9, 10, 11, 99, 100, 101, 65535, 65536, 123456789, u32::MAX - 1] {
        assert_eq!(decimal_string(n), n.to_string());
    }
}

#[test]
fn counter_starts_at_one() {
    let mut counter = PortalIdCounter::new();
    assert_eq!(counter.allocate(), 1);
}

#[test]
fn counter_hands_out_rising_identifiers() {
    let mut counter = PortalIdCounter::new();
    let mut last = 0;
    for _ in 0..100 {
        let id = counter.allocate();
        assert!(id > last);
        assert_eq!(id, last + 1);
        last = id;
    }
}

#[test]
fn counter_starts_over_after_the_largest_identifier() {
    let mut counter = PortalIdCounter::starting_at(u32::MAX - 1);
    assert_eq!(counter.allocate(), u32::MAX - 1);
    assert_eq!(counter.allocate(), u32::MAX);
    assert_eq!(counter.allocate(), 0);
    assert_eq!(counter.allocate(), 1);
}

#[test]
fn portal_identifier_allocates_for_zero() {
    let mut counter = PortalIdCounter::new();
    assert_eq!(portal_identifier(0, &mut counter), 1);
    assert_eq!(portal_identifier(0, &mut counter), 2);
    assert_eq!(portal_identifier(0, &mut counter), 3);
}

#[test]
fn portal_identifier_keeps_a_given_identifier() {
    let mut counter = PortalIdCounter::new();
    assert_eq!(portal_identifier(17, &mut counter), 17);
    assert_eq!(portal_identifier(1, &mut counter), 1);
    assert_eq!(counter.allocate(), 1);
}
