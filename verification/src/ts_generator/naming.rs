//! Names in the generated declarations: camel case for columns, upper camel
//! case for queries.

use convert_case::{Case, Casing};
use vstd::prelude::*;

verus! {

/// `name` in camel case, as the `convert_case` crate writes it; with
/// `upper_first`, in upper camel case.
pub uninterp spec fn case_converted(name: Seq<char>, upper_first: bool) -> Seq<char>;

/// Calls `Casing::to_case` of `convert_case` with `Case::Camel`. The
/// contract only names the result: the words of a name are found by rules
/// on Unicode letters that are not restated here.
#[verifier::external_body]
pub(crate) fn to_camel_case(name: &str) -> (out: String)
    ensures
        out@ == case_converted(name@, false),
{
    name.to_case(Case::Camel)
}

/// Calls `Casing::to_case` of `convert_case` with `Case::UpperCamel`. The
/// contract only names the result, as that of `to_camel_case` does.
#[verifier::external_body]
pub(crate) fn to_upper_camel_case(name: &str) -> (out: String)
    ensures
        out@ == case_converted(name@, true),
{
    name.to_case(Case::UpperCamel)
}

/// The name of the declarations of a query: its binding name in upper camel
/// case.
pub fn query_name(binding_name: &str) -> (out: String)
    ensures
        out@ == case_converted(binding_name@, true),
{
    to_upper_camel_case(binding_name)
}

} // verus!
