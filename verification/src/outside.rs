//! What this library believes of code it did not verify.
//!
//! Each item below names the function or type it stands for and says what is
//! claimed of it. Nothing else in the crate is taken on trust.

use actix_web::http::StatusCode;
use anyhow::Error as AnyhowError;
use std::rc::Rc;
use vstd::prelude::*;

verus! {

/// `anyhow::Error`, the structured cause that an error may show. The library
/// never looks inside one: it carries the value from the error to the report.
#[verifier::external_type_specification]
#[verifier::external_body]
pub struct ExAnyhowError(AnyhowError);

/// `StatusCode::from_u16`, then `StatusCode::is_server_error` on the code it
/// made.
///
/// `from_u16` accepts the numbers from 100 to 999 and no others;
/// `is_server_error` holds of the codes from 500 to 599.
#[verifier::external_body]
pub(crate) fn server_error_class(status: u16) -> (class: Option<bool>)
    ensures
        class is Some <==> 100 <= status <= 999,
        class matches Some(failing) ==> (failing <==> 500 <= status <= 599),
{
    match StatusCode::from_u16(status) {
        Ok(code) => Some(code.is_server_error()),
        Err(_) => None,
    }
}

/// `Rc::clone`: a second pointer to the same allocation. Verus sees an `Rc`
/// as the value it points to, so the two pointers are equal.
#[verifier::external_body]
pub(crate) fn share<T>(handle: &Rc<T>) -> (shared: Rc<T>)
    ensures
        shared == *handle,
{
    Rc::clone(handle)
}

} // verus!
