use lessons::errors::{
    converting_type, returns_error, returns_io_error, returns_ok, u8_to_dec, upgrade_error,
    you_can_use_anything_lol, Error, OtherError,
};

#[test]
fn test_errors() {
    let res = returns_error(Some(Error::BaseError));
    let err = res.unwrap_err();
    // Possible because of the PartialEq derive on the error.
    assert_eq!(err, Error::BaseError);
    println!("{}", err.to_text());

    let res = returns_error(Some(Error::ParameterError("parameter!".to_owned())));
    // Can check for an error using if let.
    if let Err(Error::ParameterError(_)) = res {
        assert!(true)
    } else {
        assert!(false)
    }
    println!("{}", res.unwrap_err().to_text());

    let res = returns_error(Some(Error::TwoParameterError("first".to_owned(), 2)));
    // Or can match the result for any given error.
    match res {
        Err(Error::TwoParameterError(_, _)) => assert!(true),
        _ => assert!(false),
    }
    println!("{}", res.unwrap_err().to_text());

    let res = returns_error(Some(Error::StructError {
        name: "austin".to_owned(),
        number: 8,
    }));
    // Can check equality against an equal value error.
    let err = res.unwrap_err();
    assert_eq!(
        err,
        Error::StructError {
            name: "austin".to_owned(),
            number: 8,
        }
    );
    println!("{}", err.to_text());

    let res = returns_error(Some(Error::NestedError(OtherError::SimpleError)));
    let err = res.unwrap_err();
    assert_eq!(err, Error::NestedError(OtherError::SimpleError));
    println!("{}", err.to_text());
}

#[test]
#[should_panic]
fn unwrapping_error_panic() {
    // Unwrapping when an error is returned causes a panic.
    returns_error(None).unwrap();
}

#[test]
fn better_handling_errors() {
    let res = returns_error(None);
    let _unwrapped = match res {
        Ok(v) => v,
        Err(_e) => {
            println!("error handled here");
            1
        }
    };
    let res = returns_error(None);
    assert_eq!(res.err(), Some(Error::Other));

    let res = returns_ok();
    assert_eq!(res.is_err(), false);
    assert_eq!(res.err(), None);

    // Can unwrap with a value to use on error.
    let value = returns_error(None).unwrap_or(1);
    assert_eq!(value, 1);
    // Or leave the unwrap to the type's default value.
    let value = returns_error(None).unwrap_or_default();
    assert_eq!(value, 0);
}

#[test]
fn upgrading_error() {
    let res = upgrade_error();
    assert!(res.unwrap_err() == Error::Other);
}

#[test]
fn upgrade_example() {
    let err = converting_type(1);
    assert!(err == Error::BaseError);
}

#[test]
fn text_of_every_variant() {
    assert_eq!(Error::BaseError.to_text(), "Base Error".to_owned());
    assert_eq!(
        Error::ParameterError("parameter!".to_owned()).to_text(),
        "String parameter error: parameter!".to_owned()
    );
    assert_eq!(
        Error::TwoParameterError("first".to_owned(), 2).to_text(),
        "String: first, number: 2".to_owned()
    );
    assert_eq!(
        Error::StructError {
            name: "austin".to_owned(),
            number: 8,
        }
        .to_text(),
        "name: austin, num: 8".to_owned()
    );
    assert_eq!(
        Error::NestedError(OtherError::SimpleError).to_text(),
        "Nested error, err inside is: Other simple error".to_owned()
    );
    assert_eq!(Error::Other.to_text(), "Unknown error".to_owned());
    assert_eq!(OtherError::SimpleError.to_text(), "Other simple error".to_owned());
}

#[test]
fn decimal_rendering() {
    assert_eq!(u8_to_dec(0), "0".to_owned());
    assert_eq!(u8_to_dec(7), "7".to_owned());
    assert_eq!(u8_to_dec(10), "10".to_owned());
    assert_eq!(u8_to_dec(42), "42".to_owned());
    assert_eq!(u8_to_dec(99), "99".to_owned());
    assert_eq!(u8_to_dec(100), "100".to_owned());
    assert_eq!(u8_to_dec(255), "255".to_owned());
}

#[test]
fn numeric_conversion_values() {
    assert_eq!(converting_type(1), Error::BaseError);
    assert_eq!(converting_type(0), Error::Other);
    assert_eq!(converting_type(2), Error::Other);
    assert_eq!(converting_type(255), Error::Other);
    assert_eq!(Error::from(1u8), Error::BaseError);
    assert_eq!(Error::from(3u8), Error::Other);
}

#[test]
fn io_failures_widen_to_other() {
    assert!(returns_io_error().is_err());
    let not_found = std::io::Error::new(std::io::ErrorKind::NotFound, "missing");
    assert_eq!(Error::from(not_found), Error::Other);
    let denied = std::io::Error::new(std::io::ErrorKind::PermissionDenied, "no");
    assert_eq!(Error::from(denied), Error::Other);
}

#[test]
fn anything_as_error() {
    let res = you_can_use_anything_lol(5u16);
    let err = res.unwrap_err();
    assert_eq!(err.0, true);
    assert_eq!(err.1, 5u16);
    assert_eq!(err.2, "I'm a string");
    assert_eq!(err.3, 8u8);
    assert_eq!(err.4, Error::BaseError);
    assert_eq!(*err.5, ());
    assert_eq!(err.6, [8u8; 10]);
}
