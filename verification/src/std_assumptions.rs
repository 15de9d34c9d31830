//! Contracts assumed of the standard library where vstd states none.

use vstd::prelude::*;
use vstd::utf8::{decode_utf8, valid_utf8};

verus! {

/// `FromUtf8Error` of the standard library, the error of
/// `String::from_utf8`. Nothing is claimed of what it holds.
#[verifier::external_type_specification]
#[verifier::external_body]
pub struct ExFromUtf8Error(std::string::FromUtf8Error);

/// `String::from_utf8` of the standard library. It succeeds exactly on the
/// byte vectors that are well-formed UTF-8, and the string it then gives
/// holds the characters that those bytes encode. Assumed, not proved.
pub assume_specification[ String::from_utf8 ](vec: Vec<u8>) -> (res: Result<
    String,
    std::string::FromUtf8Error,
>)
    ensures
        res is Ok <==> valid_utf8(vec@),
        res matches Ok(text) ==> text@ == decode_utf8(vec@),
;

/// The conversion of a type into itself, `impl<T> From<T> for T` of the
/// standard library. It hands its argument back. Assumed, not proved.
pub assume_specification<T>[ <T as core::convert::From<T>>::from ](t: T) -> (same: T)
    ensures
        same == t,
;

} // verus!
