use ev_supervisor::timeout::{Timeout, TimeoutError};

#[test]
fn timout() {
    let mut timeout = Timeout::new(2);

    assert_eq!(timeout.tick(), Ok(()));
    assert_eq!(timeout.tick(), Ok(()));
    assert_eq!(timeout.tick(), Err(TimeoutError::Elapsed));
    assert_eq!(timeout.tick(), Err(TimeoutError::Elapsed));

    timeout.reset();
    assert_eq!(timeout.tick(), Ok(()));
    assert_eq!(timeout.tick(), Ok(()));
    assert_eq!(timeout.tick(), Err(TimeoutError::Elapsed));
}

#[test]
fn zero_reset_value_is_immediately_elapsed() {
    let mut timeout = Timeout::new(0);
    assert_eq!(timeout.tick(), Err(TimeoutError::Elapsed));
    timeout.reset();
    assert_eq!(timeout.tick(), Err(TimeoutError::Elapsed));
}
