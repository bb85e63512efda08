use ev_supervisor::button::ButtonFilter;

#[test]
fn presses_debounce_after_limit_samples() {
    let mut filter = ButtonFilter::<3>::new(false);

    assert!(!filter.sample(true));
    assert!(!filter.sample(true));
    assert!(filter.sample(true));
    assert!(filter.sample(true));

    // A single released sample does not clear the debounced press.
    assert!(filter.sample(false));
    assert!(filter.sample(true));

    // Three consecutive released samples do.
    assert!(filter.sample(false));
    assert!(filter.sample(false));
    assert!(!filter.sample(false));
    assert!(!filter.sample(false));
}

#[test]
fn glitches_are_ignored() {
    let mut filter = ButtonFilter::<2>::new(true);

    assert!(filter.sample(false));
    assert!(filter.sample(true));
    assert!(filter.sample(false));
    assert!(filter.sample(true));
    assert!(filter.sample(true));
}
