//! Errors, and how the engine's result codes come to them.
use crate::abi;
use vstd::prelude::*;
use vstd::string::StringExecFns;

verus! {

/// The result of every fallible operation of this library.
pub type Result<T> = std::result::Result<T, Error>;

/// What can go wrong in a call to the terminal engine.
#[derive(Clone, Copy, Debug, PartialEq, Eq, Structural)]
pub enum Error {
    /// An allocation failed.
    OutOfMemory,
    /// An argument, or something the engine answered, is not acceptable.
    InvalidValue,
    /// An output buffer is too small; `required` is the size that is needed.
    OutOfSpace { required: usize },
}

/// The character of the decimal digit `d`.
pub open spec fn digit_char(d: nat) -> char {
    (48 + d) as char
}

/// `n` written in decimal, without leading zeros.
pub open spec fn decimal(n: nat) -> Seq<char>
    decreases n,
{
    if n < 10 {
        seq![digit_char(n)]
    } else {
        decimal(n / 10).push(digit_char(n % 10))
    }
}

/// The text of the decimal digit `d`.
fn digit_text(d: usize) -> (res: &'static str)
    requires
        d < 10,
    ensures
        res@ == seq![digit_char(d as nat)],
{
    proof {
        reveal_strlit("0");
        reveal_strlit("1");
        reveal_strlit("2");
        reveal_strlit("3");
        reveal_strlit("4");
        reveal_strlit("5");
        reveal_strlit("6");
        reveal_strlit("7");
        reveal_strlit("8");
        reveal_strlit("9");
    }
    match d {
        0 => "0",
        1 => "1",
        2 => "2",
        3 => "3",
        4 => "4",
        5 => "5",
        6 => "6",
        7 => "7",
        8 => "8",
        _ => "9",
    }
}

/// Append `n`, written in decimal, to `text`.
fn append_decimal(text: &mut String, n: usize)
    ensures
        final(text)@ == old(text)@ + decimal(n as nat),
    decreases n,
{
    if n >= 10 {
        append_decimal(text, n / 10);
    }
    text.append(digit_text(n % 10));
}

impl Error {
    /// The message that describes an error.
    pub open spec fn message(self) -> Seq<char> {
        match self {
            Error::OutOfMemory => "out of memory"@,
            Error::InvalidValue => "invalid value"@,
            Error::OutOfSpace { required } => "out of space, "@ + decimal(required as nat)
                + " bytes required"@,
        }
    }

    /// The message that describes this error.
    pub fn to_text(&self) -> (res: String)
        ensures
            res@ == self.message(),
    {
        match self {
            Error::OutOfMemory => String::from_str("out of memory"),
            Error::InvalidValue => String::from_str("invalid value"),
            Error::OutOfSpace { required } => {
                let mut text = String::from_str("out of space, ");
                append_decimal(&mut text, *required);
                text.append(" bytes required");
                text
            },
        }
    }
}

/// What a call that answered with `code` and `len` comes to.
///
/// On success the result is `len`; when the buffer was too small, `len` is the size that the
/// call needs. A code that is not known counts as an invalid value.
pub open spec fn outcome_with_len(code: i32, len: usize) -> Result<usize> {
    if code == abi::SUCCESS {
        Ok(len)
    } else if code == abi::OUT_OF_MEMORY {
        Err(Error::OutOfMemory)
    } else if code == abi::OUT_OF_SPACE {
        Err(Error::OutOfSpace { required: len })
    } else {
        Err(Error::InvalidValue)
    }
}

/// What a call that answered with `code` and nothing else comes to.
pub open spec fn outcome(code: i32) -> Result<()> {
    match outcome_with_len(code, 0) {
        Ok(_) => Ok(()),
        Err(e) => Err(e),
    }
}

/// What a call that answered with `code` comes to when the queried `value` may be absent.
pub open spec fn optional_outcome<T>(code: i32, value: T) -> Result<Option<T>> {
    if code == abi::NO_VALUE {
        Ok(None)
    } else {
        match outcome(code) {
            Ok(_) => Ok(Some(value)),
            Err(e) => Err(e),
        }
    }
}

/// Turn a result code into a [`Result`].
pub fn from_result(code: i32) -> (res: Result<()>)
    ensures
        res == outcome(code),
{
    match code {
        abi::SUCCESS => Ok(()),
        abi::OUT_OF_MEMORY => Err(Error::OutOfMemory),
        abi::INVALID_VALUE => Err(Error::InvalidValue),
        abi::OUT_OF_SPACE => Err(Error::OutOfSpace { required: 0 }),
        _ => Err(Error::InvalidValue),
    }
}

/// Turn a result code and a length into a [`Result`].
pub fn from_result_with_len(code: i32, len: usize) -> (res: Result<usize>)
    ensures
        res == outcome_with_len(code, len),
{
    match code {
        abi::SUCCESS => Ok(len),
        abi::OUT_OF_MEMORY => Err(Error::OutOfMemory),
        abi::INVALID_VALUE => Err(Error::InvalidValue),
        abi::OUT_OF_SPACE => Err(Error::OutOfSpace { required: len }),
        _ => Err(Error::InvalidValue),
    }
}

/// Turn a result code and a value that may be absent into a [`Result`].
pub fn from_optional_result<T>(code: i32, value: T) -> (res: Result<Option<T>>)
    ensures
        res == optional_outcome(code, value),
{
    if code == abi::NO_VALUE {
        return Ok(None);
    }
    match from_result(code) {
        Ok(_) => Ok(Some(value)),
        Err(e) => Err(e),
    }
}

/// A call succeeds exactly on the success code, whatever length comes with it.
pub proof fn success_is_one_code(code: i32, len: usize)
    ensures
        outcome_with_len(code, len) is Ok <==> code == abi::SUCCESS,
        outcome(code) is Ok <==> code == abi::SUCCESS,
{
}

/// Only a buffer that is too small leads to `OutOfSpace`, and the size that is needed is the one
/// that the call reported.
pub proof fn required_size_is_reported(code: i32, len: usize, required: usize)
    ensures
        outcome_with_len(code, len) == Err::<usize, Error>(Error::OutOfSpace { required })
            <==> code == abi::OUT_OF_SPACE && required == len,
{
}

/// What a code comes to: zero is success, and the result is the length that came with it; -1 is a
/// lack of memory, -3 a buffer that is too small, by the length that came with it, and every other
/// code an invalid value.
pub proof fn codes_are_what_they_mean(code: i32, len: usize)
    ensures
        code == 0 ==> outcome_with_len(code, len) == Ok::<usize, Error>(len),
        code == -1 ==> outcome_with_len(code, len) == Err::<usize, Error>(Error::OutOfMemory),
        code == -3 ==> outcome_with_len(code, len) == Err::<usize, Error>(
            Error::OutOfSpace { required: len },
        ),
        code != 0 && code != -1 && code != -3 ==> outcome_with_len(code, len) == Err::<
            usize,
            Error,
        >(Error::InvalidValue),
{
}

/// A query for a value that may be absent tells three things apart: that there is none, which only
/// the code -4 says, the value as it came, which only success gives, and the error of any other code.
pub proof fn absence_is_no_error<T>(code: i32, value: T)
    ensures
        optional_outcome(code, value) == Ok::<Option<T>, Error>(None) <==> code == -4,
        optional_outcome(code, value) == Ok::<Option<T>, Error>(Some(value)) <==> code == 0,
        optional_outcome(code, value) is Err <==> code != 0 && code != -4,
        optional_outcome(code, value) matches Err(e) ==> outcome(code) == Err::<(), Error>(e),
{
}

} // verus!
