//! What a handler hands back to the host: a `cosmwasm_std::Response`,
//! described by the attributes it carries.
//!
//! The items of this module are the boundary to `cosmwasm_std`. Their
//! contracts are read off the source of that crate and are believed, not
//! proved.

use cosmwasm_std::{Empty, Response};
use vstd::prelude::*;

verus! {

/// `cosmwasm_std::Empty`, the type of the custom messages of a plain
/// response; no value of it is ever made here.
#[verifier::external_type_specification]
#[verifier::external_body]
pub struct ExEmpty(Empty);

/// `cosmwasm_std::Response`, carried through as an opaque value.
#[verifier::external_type_specification]
#[verifier::external_body]
#[verifier::reject_recursive_types(T)]
pub struct ExResponse<T>(Response<T>);

/// The attributes of a response, each a key and a value, in the order in
/// which they were added.
pub uninterp spec fn attributes_of(response: Response) -> Seq<(Seq<char>, Seq<char>)>;

/// Calls `Response::default` of cosmwasm_std. Believed of it: the response
/// it makes carries no attribute.
#[verifier::external_body]
pub(crate) fn empty_response() -> (response: Response)
    ensures
        attributes_of(response) == Seq::<(Seq<char>, Seq<char>)>::empty(),
{
    Response::default()
}

/// Calls `Response::add_attribute` of cosmwasm_std. Believed of it: the
/// response it gives back carries the attributes of `response` and after
/// them one more, made of `key` and `value`. A key that starts with an
/// underscore is reserved and makes the call panic in a debug build, so
/// such a key is not accepted.
#[verifier::external_body]
pub(crate) fn add_attribute(response: Response, key: &str, value: &str) -> (out: Response)
    requires
        key@.len() == 0 || key@[0] != '_',
    ensures
        attributes_of(out) == attributes_of(response).push((key@, value@)),
{
    response.add_attribute(key, value)
}

} // verus!
