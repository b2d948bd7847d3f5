//! Trusted view of the host runtime's response type.
//!
//! A transition acknowledges success by returning a `cosmwasm_std::Response`
//! carrying key-value attributes. The type is opaque here; the only facts the
//! verified code relies on are what `Response::new` and
//! `Response::add_attribute` do to the attribute list, stated below over the
//! uninterpreted `response_attrs`.

use vstd::prelude::*;

use cosmwasm_std::Response;

verus! {

#[verifier::external_type_specification]
#[verifier::external_body]
#[verifier::reject_recursive_types(T)]
pub struct ExResponse<T>(Response<T>);

#[verifier::external_type_specification]
#[verifier::external_body]
pub struct ExEmpty(cosmwasm_std::Empty);

/// The attribute list a response carries, each attribute a key-value pair of
/// character sequences.
pub uninterp spec fn response_attrs(r: Response) -> Seq<(Seq<char>, Seq<char>)>;

/// Relies on `cosmwasm_std::Response::new`: a fresh response carries no
/// attributes.
#[verifier::external_body]
pub(crate) fn response_new() -> (r: Response)
    ensures
        response_attrs(r) == Seq::<(Seq<char>, Seq<char>)>::empty(),
{
    Response::new()
}

/// Relies on `cosmwasm_std::Response::add_attribute`: it appends the given
/// key-value pair to the response's attribute list. Keys starting with an
/// underscore are reserved by the host and make `Attribute::new` panic in
/// debug builds, so they are excluded here.
#[verifier::external_body]
pub(crate) fn response_add_attribute(r: Response, key: &str, value: &str) -> (s: Response)
    requires
        key@.len() > 0 ==> key@[0] != '_',
    ensures
        response_attrs(s) == response_attrs(r).push((key@, value@)),
{
    r.add_attribute(key, value)
}

} // verus!
