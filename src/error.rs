//! The error shared by the working-directory, host-name and password helpers,
//! and the UTF-8 decoding they rely on.
use vstd::prelude::*;
use vstd::utf8::{decode_utf8, valid_utf8};

verus! {

#[verifier::external_type_specification]
#[verifier::external_body]
pub struct ExUtf8Error(std::str::Utf8Error);

#[verifier::external_type_specification]
#[verifier::external_body]
pub struct ExFromUtf8Error(std::string::FromUtf8Error);

/// Relies on `Clone` of `std::str::Utf8Error`; nothing is assumed of the copy.
pub assume_specification[ <std::str::Utf8Error as Clone>::clone ](e: &std::str::Utf8Error) -> std::str::Utf8Error;

/// Relies on `Clone` of `std::string::FromUtf8Error`; nothing is assumed of the copy.
pub assume_specification[ <std::string::FromUtf8Error as Clone>::clone ](
    e: &std::string::FromUtf8Error,
) -> std::string::FromUtf8Error;

/// Relies on `Clone` of `std::convert::Infallible`, which has no values.
pub assume_specification[ <std::convert::Infallible as Clone>::clone ](
    e: &std::convert::Infallible,
) -> std::convert::Infallible;

/// Why a query of the operating system could not produce its value.
#[derive(Clone, Debug)]
pub enum LibcError {
    /// The call failed; the text says which.
    GenericError(&'static str),
    /// Borrowed bytes were not UTF-8.
    StrFromUtf8(std::str::Utf8Error),
    /// Owned bytes were not UTF-8.
    StringFromUtf8(std::string::FromUtf8Error),
    /// The named call, made with the given argument, returned a null pointer.
    ReturnedNull(&'static str, u32),
    /// Cannot be built: the error of a conversion that never fails.
    FromInfallible(std::convert::Infallible),
    Undefined,
    Unknown,
}

impl Default for LibcError {
    fn default() -> (r: Self)
        ensures
            r is Undefined,
    {
        LibcError::Undefined
    }
}

pub type LibcResult<T> = Result<T, LibcError>;

/// Relies on `std::str::from_utf8`: it accepts exactly the well-formed UTF-8
/// byte strings and reads them as their characters.
#[verifier::external_body]
pub(crate) fn str_from_utf8(bytes: &[u8]) -> (r: Result<&str, std::str::Utf8Error>)
    ensures
        r is Ok <==> valid_utf8(bytes@),
        r matches Ok(s) ==> s@ == decode_utf8(bytes@),
{
    std::str::from_utf8(bytes)
}

/// Relies on `String::from_utf8`: it accepts exactly the well-formed UTF-8
/// byte strings and reads them as their characters.
#[verifier::external_body]
pub(crate) fn string_from_utf8(bytes: Vec<u8>) -> (r: Result<String, std::string::FromUtf8Error>)
    ensures
        r is Ok <==> valid_utf8(bytes@),
        r matches Ok(s) ==> s@ == decode_utf8(bytes@),
{
    String::from_utf8(bytes)
}

/// Reads `bytes` as UTF-8 text, copying it into an owned string.
pub fn text_from_bytes(bytes: &[u8]) -> (r: LibcResult<String>)
    ensures
        r is Ok <==> valid_utf8(bytes@),
        r matches Ok(s) ==> s@ == decode_utf8(bytes@),
        r matches Err(e) ==> e is StrFromUtf8,
{
    match str_from_utf8(bytes) {
        Ok(s) => Ok(s.to_owned()),
        Err(e) => Err(LibcError::StrFromUtf8(e)),
    }
}

} // verus!
