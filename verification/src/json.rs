//! What is read from a decoded JSON value.

use vstd::prelude::*;

verus! {

/// `serde_json::Value`, a decoded JSON value.  Nothing of what it holds is
/// known here; it is handed to `serde_json` as it came.
#[verifier::external_type_specification]
#[verifier::external_body]
pub struct ExValue(serde_json::Value);

/// The integer that `serde_json::from_value::<i32>` reads from `v`, where it
/// reads one.
pub uninterp spec fn value_number(v: serde_json::Value) -> Option<i32>;

/// The string that `serde_json::from_value::<String>` reads from `v`, where
/// it reads one.
pub uninterp spec fn value_text(v: serde_json::Value) -> Option<Seq<char>>;

/// Calls `serde_json::from_value::<i32>` on a copy of `v`; a failure to read
/// an integer becomes `None`.  The result is the one named by
/// [`value_number`].
#[verifier::external_body]
pub(crate) fn number_of(v: &serde_json::Value) -> (r: Option<i32>)
    ensures
        r == value_number(*v),
{
    serde_json::from_value::<i32>(v.clone()).ok()
}

/// Calls `serde_json::from_value::<String>` on a copy of `v`; a failure to
/// read a string becomes `None`.  The result is the one named by
/// [`value_text`].
#[verifier::external_body]
pub(crate) fn text_of(v: &serde_json::Value) -> (r: Option<String>)
    ensures
        match r {
            Some(s) => value_text(*v) == Some(s@),
            None => value_text(*v) is None,
        },
{
    serde_json::from_value::<String>(v.clone()).ok()
}

} // verus!
