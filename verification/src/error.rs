//! The two ways an operation on a map fails, and the text of a size mismatch.

use crate::decimal::{decimal, push_decimal};
use vstd::prelude::*;
use vstd::string::StringExecFns;

verus! {

/// Why an operation on a map failed.
#[derive(Debug, Clone, PartialEq, Eq)]
pub enum Error {
    /// The caller's input was refused before the kernel was asked; the text says why.
    InvalidInput(String),
    /// The kernel refused; the number is its errno, positive.
    System(i32),
}

/// An [`Error`] as contracts see it: the message by its characters.
pub enum ErrorView {
    InvalidInput(Seq<char>),
    System(i32),
}

impl View for Error {
    type V = ErrorView;

    open spec fn view(&self) -> ErrorView {
        match self {
            Error::InvalidInput(text) => ErrorView::InvalidInput(text@),
            Error::System(code) => ErrorView::System(*code),
        }
    }
}

/// The outcome of an operation that returns nothing, as contracts see it.
pub open spec fn unit_view(r: Result<(), Error>) -> Result<(), ErrorView> {
    match r {
        Ok(()) => Ok(()),
        Err(e) => Err(e@),
    }
}

/// The outcome of a read, as contracts see it: the record by its bytes.
pub open spec fn record_view(r: Result<Option<Vec<u8>>, Error>) -> Result<
    Option<Seq<u8>>,
    ErrorView,
> {
    match r {
        Ok(Some(bytes)) => Ok(Some(bytes@)),
        Ok(None) => Ok(None),
        Err(e) => Err(e@),
    }
}

/// The text that reports a buffer of `actual` bytes where `expected` were due:
/// the name of the size, the actual length, ` != `, the expected length.
pub open spec fn size_message(name: Seq<char>, actual: nat, expected: nat) -> Seq<char> {
    name + " "@ + decimal(actual) + " != "@ + decimal(expected)
}

/// The text for a key of the wrong length.
pub open spec fn key_size_message(actual: nat, expected: nat) -> Seq<char> {
    size_message("key_size"@, actual, expected)
}

/// The text for a value of the wrong length.
pub open spec fn value_size_message(actual: nat, expected: nat) -> Seq<char> {
    size_message("value_size"@, actual, expected)
}

/// The error for a buffer of `actual` bytes where the map's `expected` were due.
pub fn size_mismatch(name: &str, actual: usize, expected: u32) -> (e: Error)
    ensures
        e@ == ErrorView::InvalidInput(size_message(name@, actual as nat, expected as nat)),
{
    let mut text = String::from_str(name);
    text.append(" ");
    push_decimal(&mut text, actual as u64);
    text.append(" != ");
    push_decimal(&mut text, expected as u64);
    Error::InvalidInput(text)
}

} // verus!
