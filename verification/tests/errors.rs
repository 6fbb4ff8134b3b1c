use libghostty_vt::error::{from_optional_result, from_result, from_result_with_len, Error};

#[test]
fn codes_become_results() {
    assert_eq!(from_result(0), Ok(()));
    assert_eq!(from_result(-1), Err(Error::OutOfMemory));
    assert_eq!(from_result(-2), Err(Error::InvalidValue));
    assert_eq!(from_result(-3), Err(Error::OutOfSpace { required: 0 }));
    assert_eq!(from_result(-4), Err(Error::InvalidValue));
    assert_eq!(from_result(7), Err(Error::InvalidValue));
}

#[test]
fn lengths_come_with_success_and_with_too_little_space() {
    assert_eq!(from_result_with_len(0, 5), Ok(5));
    assert_eq!(from_result_with_len(-1, 5), Err(Error::OutOfMemory));
    assert_eq!(from_result_with_len(-2, 5), Err(Error::InvalidValue));
    assert_eq!(from_result_with_len(-3, 5), Err(Error::OutOfSpace { required: 5 }));
    assert_eq!(from_result_with_len(99, 5), Err(Error::InvalidValue));
}

#[test]
fn absent_values_are_no_error() {
    assert_eq!(from_optional_result(0, 'x'), Ok(Some('x')));
    assert_eq!(from_optional_result(-4, 'x'), Ok(None));
    assert_eq!(from_optional_result(-1, 'x'), Err(Error::OutOfMemory));
    assert_eq!(from_optional_result(-2, 'x'), Err(Error::InvalidValue));
}

#[test]
fn errors_describe_themselves() {
    assert_eq!(Error::OutOfMemory.to_text(), "out of memory");
    assert_eq!(Error::InvalidValue.to_text(), "invalid value");
    assert_eq!(
        Error::OutOfSpace { required: 0 }.to_text(),
        "out of space, 0 bytes required"
    );
    assert_eq!(
        Error::OutOfSpace { required: 1230 }.to_text(),
        "out of space, 1230 bytes required"
    );
}
