//! Shorthand constructors for the error taxonomy, with an internal
//! description.

use vstd::prelude::*;

use crate::http_error::{HttpCode, HttpError};

verus! {

pub fn bad_request(msg: &str) -> (r: HttpError)
    ensures
        r@.code == HttpCode::E400,
        r@.desc == Some(msg@),
        r@.info is None,
{
    HttpError::new_with_message(HttpCode::E400, msg)
}

pub fn forbidden(msg: &str) -> (r: HttpError)
    ensures
        r@.code == HttpCode::E403,
        r@.desc == Some(msg@),
        r@.info is None,
{
    HttpError::new_with_message(HttpCode::E403, msg)
}

pub fn not_found(msg: &str) -> (r: HttpError)
    ensures
        r@.code == HttpCode::E404,
        r@.desc == Some(msg@),
        r@.info is None,
{
    HttpError::new_with_message(HttpCode::E404, msg)
}

pub fn internal_server_error(msg: &str) -> (r: HttpError)
    ensures
        r@.code == HttpCode::E500,
        r@.desc == Some(msg@),
        r@.info is None,
{
    HttpError::new_with_message(HttpCode::E500, msg)
}

pub fn not_implemented(msg: &str) -> (r: HttpError)
    ensures
        r@.code == HttpCode::E501,
        r@.desc == Some(msg@),
        r@.info is None,
{
    HttpError::new_with_message(HttpCode::E501, msg)
}

} // verus!
