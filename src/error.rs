//! Errors raised while decoding a CST container.
use vstd::prelude::*;

verus! {

/// Why a decode stopped. Every decode step is fallible and the first failure
/// aborts the whole decode: the format has no point at which to resynchronise.
#[derive(Debug, PartialEq, Eq)]
pub enum Error {
    /// Fewer bytes remain than the next field needs.
    Eof,
    /// The buffer does not start with the signature and its separator.
    InvalidHeader,
    /// A declared size differs from the one the field requires:
    /// `ExpectedSize(expected, declared)`.
    ExpectedSize(usize, usize),
    /// A boolean field held something other than a boolean.
    ExpectedBool,
    /// A text payload is not valid UTF-8.
    NotUtf8,
    /// A decimal text field is empty or its value does not fit the target type.
    ParseInt,
    /// A text field of the given declared size does not end with a null byte.
    WrongLength(usize),
    /// A record field carried another name than the expected one, given here.
    FieldNotFound(&'static str),
    /// A text field named no variant of the expected enumeration.
    UnknownVariant,
    /// Bytes were left after the top-level value.
    TrailingBytes,
    /// A message raised by code driving the decoder.
    Message(String),
}

impl Error {
    /// An error that carries a free-form message.
    pub fn custom(msg: String) -> (r: Error)
        ensures
            r matches Error::Message(m) && m@ == msg@,
    {
        Error::Message(msg)
    }
}

} // verus!
