//! Asset identifiers.
//!
//! An identifier is a path-like string in which every `.` stands for a
//! directory separator. Identifiers are kept as [`SmolStr`], which stores short
//! strings without an allocation.

use smol_str::SmolStr;
use vstd::prelude::*;

verus! {

/// Makes `smol_str::SmolStr` known to the verifier as a type that it does not
/// look inside. An identifier is known by its characters, [`smol_text`].
#[verifier::external_type_specification]
#[verifier::external_body]
pub struct ExSmolStr(SmolStr);

/// The characters of an identifier: the string that `SmolStr::as_str` hands
/// out for it.
pub uninterp spec fn smol_text(name: SmolStr) -> Seq<char>;

/// Calls `SmolStr::new`. Trusted: the identifier holds exactly the characters
/// of the string it was made from.
#[verifier::external_body]
pub(crate) fn smol_new(text: &str) -> (name: SmolStr)
    ensures
        smol_text(name) == text@,
{
    SmolStr::new(text)
}

/// Calls `SmolStr::as_str`. Trusted: the string handed out holds exactly the
/// characters of the identifier.
#[verifier::external_body]
pub(crate) fn smol_as_str(name: &SmolStr) -> (text: &str)
    ensures
        text@ == smol_text(*name),
{
    name.as_str()
}

} // verus!
