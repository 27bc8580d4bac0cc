//! An error taxonomy as an enum: variants with and without payloads, a
//! nested error, an exact text form, and widening conversions into the
//! taxonomy from a plain number and from a foreign I/O failure.

use vstd::prelude::*;
use vstd::string::StringExecFns;

verus! {

/// A simple error nested inside [`Error::NestedError`].
#[derive(Debug, PartialEq)]
pub enum OtherError {
    SimpleError,
}

impl OtherError {
    /// The text this error renders to.
    pub open spec fn text_spec(&self) -> Seq<char> {
        "Other simple error"@
    }

    /// Renders the error as text.
    pub fn to_text(&self) -> (r: String)
        ensures
            r@ == self.text_spec(),
    {
        "Other simple error".to_owned()
    }
}

/// The local error taxonomy: variants carrying nothing, strings, numbers, a
/// nested error, or standing for an unknown failure.
#[derive(Debug, PartialEq)]
pub enum Error {
    BaseError,
    ParameterError(String),
    TwoParameterError(String, u8),
    StructError { name: String, number: u8 },
    NestedError(OtherError),
    Other,
}

/// The decimal digit for one value below ten.
pub open spec fn dec_digit(d: nat) -> char {
    if d == 0 {
        '0'
    } else if d == 1 {
        '1'
    } else if d == 2 {
        '2'
    } else if d == 3 {
        '3'
    } else if d == 4 {
        '4'
    } else if d == 5 {
        '5'
    } else if d == 6 {
        '6'
    } else if d == 7 {
        '7'
    } else if d == 8 {
        '8'
    } else {
        '9'
    }
}

/// The decimal digits of a number, most significant first, with no leading
/// zero except for the number zero itself.
pub open spec fn dec_rep(n: nat) -> Seq<char>
    decreases n,
{
    if n < 10 {
        seq![dec_digit(n)]
    } else {
        dec_rep(n / 10) + seq![dec_digit(n % 10)]
    }
}

/// One decimal digit as borrowed text.
fn digit_str(d: u8) -> (r: &'static str)
    requires
        d < 10,
    ensures
        r@ == seq![dec_digit(d as nat)],
{
    proof {
        reveal_strlit("0");
        reveal_strlit("1");
        reveal_strlit("2");
        reveal_strlit("3");
        reveal_strlit("4");
        reveal_strlit("5");
        reveal_strlit("6");
        reveal_strlit("7");
        reveal_strlit("8");
        reveal_strlit("9");
    }
    let r: &'static str = if d == 0 {
        "0"
    } else if d == 1 {
        "1"
    } else if d == 2 {
        "2"
    } else if d == 3 {
        "3"
    } else if d == 4 {
        "4"
    } else if d == 5 {
        "5"
    } else if d == 6 {
        "6"
    } else if d == 7 {
        "7"
    } else if d == 8 {
        "8"
    } else {
        "9"
    };
    proof {
        assert(r@ =~= seq![dec_digit(d as nat)]);
    }
    r
}

/// Renders a byte in decimal, exactly as [`dec_rep`] spells it.
pub fn u8_to_dec(n: u8) -> (r: String)
    ensures
        r@ == dec_rep(n as nat),
{
    if n < 10 {
        let r = digit_str(n).to_owned();
        proof {
            assert(r@ =~= dec_rep(n as nat));
        }
        r
    } else if n < 100 {
        let tens = n / 10;
        let ones = n % 10;
        let r = String::from_str(digit_str(tens)).concat(digit_str(ones));
        proof {
            assert(dec_rep(n as nat) == dec_rep(n as nat / 10) + seq![dec_digit(n as nat % 10)]);
            assert(r@ =~= dec_rep(n as nat));
        }
        r
    } else {
        let hundreds = n / 100;
        let tens = (n / 10) % 10;
        let ones = n % 10;
        let r = String::from_str(digit_str(hundreds)).concat(digit_str(tens)).concat(
            digit_str(ones),
        );
        proof {
            vstd::arithmetic::div_mod::lemma_div_denominator(n as int, 10, 10);
            assert(n as nat / 10 / 10 == n as nat / 100);
            assert(dec_rep(n as nat) == dec_rep(n as nat / 10) + seq![dec_digit(n as nat % 10)]);
            assert(dec_rep(n as nat / 10) == dec_rep(n as nat / 100) + seq![
                dec_digit(n as nat / 10 % 10),
            ]);
            assert(r@ =~= dec_rep(n as nat));
        }
        r
    }
}

impl Error {
    /// The text each variant renders to.
    pub open spec fn text_spec(&self) -> Seq<char> {
        match self {
            Error::BaseError => "Base Error"@,
            Error::ParameterError(s) => "String parameter error: "@ + s@,
            Error::TwoParameterError(s, n) => "String: "@ + s@ + ", number: "@ + dec_rep(
                *n as nat,
            ),
            Error::StructError { name, number } => "name: "@ + name@ + ", num: "@ + dec_rep(
                *number as nat,
            ),
            Error::NestedError(err) => "Nested error, err inside is: "@ + err.text_spec(),
            Error::Other => "Unknown error"@,
        }
    }

    /// Renders the error as text, numbers in decimal.
    pub fn to_text(&self) -> (r: String)
        ensures
            r@ == self.text_spec(),
    {
        match self {
            Error::BaseError => "Base Error".to_owned(),
            Error::ParameterError(s) => String::from_str("String parameter error: ").concat(
                s.as_str(),
            ),
            Error::TwoParameterError(s, n) => {
                let num = u8_to_dec(*n);
                String::from_str("String: ").concat(s.as_str()).concat(", number: ").concat(
                    num.as_str(),
                )
            },
            Error::StructError { name, number } => {
                let num = u8_to_dec(*number);
                String::from_str("name: ").concat(name.as_str()).concat(", num: ").concat(
                    num.as_str(),
                )
            },
            Error::NestedError(err) => {
                let inner = err.to_text();
                String::from_str("Nested error, err inside is: ").concat(inner.as_str())
            },
            Error::Other => "Unknown error".to_owned(),
        }
    }
}

/// The standard library's I/O error, declared so that values of it can be
/// carried through signatures; nothing of its inside is relied on.
#[verifier::external_type_specification]
#[verifier::external_body]
pub struct ExIoError(std::io::Error);

/// Relies on std::io::Error::new to build an I/O error value carrying the
/// given text; nothing is assumed of the value built.
#[verifier::external_body]
fn new_plain_io_error(msg: &'static str) -> std::io::Error {
    std::io::Error::new(std::io::ErrorKind::Other, msg)
}

/// Always fails, with a foreign (standard-library I/O) error value.
pub fn returns_io_error() -> (r: Result<(), std::io::Error>)
    ensures
        r is Err,
{
    Err(new_plain_io_error("Test standard error"))
}

impl From<std::io::Error> for Error {
    /// Widens a foreign I/O failure into the taxonomy: every one becomes the
    /// generic failure, whatever it carried.
    fn from(_e: std::io::Error) -> (r: Error)
        ensures
            r == Error::Other,
    {
        Error::Other
    }
}

impl vstd::std_specs::convert::FromSpecImpl<std::io::Error> for Error {
    open spec fn obeys_from_spec() -> bool {
        true
    }

    open spec fn from_spec(_e: std::io::Error) -> Error {
        Error::Other
    }
}

/// Raises the foreign failure into the local taxonomy: the wrapped call
/// always fails, so this always reports the widened generic failure.
pub fn upgrade_error() -> (r: Result<(), Error>)
    ensures
        r == Err::<(), Error>(Error::Other),
{
    match returns_io_error() {
        Ok(()) => Ok(()),
        Err(e) => Err(Error::from(e)),
    }
}

impl From<u8> for Error {
    /// The numeric conversion: one maps to the base error, every other value
    /// to the generic failure.
    fn from(i: u8) -> (r: Error)
        ensures
            i == 1 ==> r == Error::BaseError,
            i != 1 ==> r == Error::Other,
    {
        match i {
            1 => Error::BaseError,
            _ => Error::Other,
        }
    }
}

impl vstd::std_specs::convert::FromSpecImpl<u8> for Error {
    open spec fn obeys_from_spec() -> bool {
        true
    }

    open spec fn from_spec(i: u8) -> Error {
        if i == 1 {
            Error::BaseError
        } else {
            Error::Other
        }
    }
}

/// Converts a number into the taxonomy through the conversion above: one is
/// the base error, everything else the generic failure.
pub fn converting_type(i: u8) -> (r: Error)
    ensures
        i == 1 ==> r == Error::BaseError,
        i != 1 ==> r == Error::Other,
{
    i.into()
}

/// The failure slot of a result can be any type at all; here it is a tuple
/// bundling several, one of them a value of the taxonomy. Always fails, with
/// exactly these values.
pub fn you_can_use_anything_lol<T>(v: T) -> (r: Result<
    (),
    (bool, T, &'static str, u8, Error, Box<()>, [u8; 10]),
>)
    ensures
        r matches Err(t) && t.0 == true && t.1 == v && t.2@ == "I'm a string"@ && t.3 == 8u8
            && t.4 == Error::BaseError && t.6@ == Seq::new(10, |i: int| 8u8),
{
    let bytes: [u8; 10] = [8u8; 10];
    let t = (true, v, "I'm a string", 8u8, Error::BaseError, Box::new(()), bytes);
    proof {
        assert(t.6@ =~= Seq::new(10, |i: int| 8u8));
    }
    Err(t)
}

/// Reports success.
pub fn returns_ok() -> (r: Result<(), Error>)
    ensures
        r == Ok::<(), Error>(()),
{
    Ok(())
}

/// Raises an optional error to a result: an error given comes back as the
/// failure, and none at all becomes the generic failure. Never succeeds.
pub fn returns_error(optional_error: Option<Error>) -> (r: Result<u8, Error>)
    ensures
        r == match optional_error {
            Some(e) => Err::<u8, Error>(e),
            None => Err::<u8, Error>(Error::Other),
        },
{
    // Upgrade the optional to an error: None maps to the generic failure.
    let error = match optional_error {
        Some(e) => e,
        None => {
            return Err(Error::Other);
        },
    };
    Err(error)
}

} // verus!
