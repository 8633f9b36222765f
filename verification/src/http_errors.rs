//! Shorthand constructors for the error taxonomy, without messages.

pub mod msg;

use vstd::prelude::*;

use crate::http_error::{HttpCode, HttpError};

verus! {

pub fn bad_request() -> (r: HttpError)
    ensures
        r@.code == HttpCode::E400,
        r@.desc is None,
        r@.info is None,
{
    HttpError::new(HttpCode::E400)
}

pub fn forbidden() -> (r: HttpError)
    ensures
        r@.code == HttpCode::E403,
        r@.desc is None,
        r@.info is None,
{
    HttpError::new(HttpCode::E403)
}

pub fn not_found() -> (r: HttpError)
    ensures
        r@.code == HttpCode::E404,
        r@.desc is None,
        r@.info is None,
{
    HttpError::new(HttpCode::E404)
}

pub fn internal_server_error() -> (r: HttpError)
    ensures
        r@.code == HttpCode::E500,
        r@.desc is None,
        r@.info is None,
{
    HttpError::new(HttpCode::E500)
}

pub fn not_implemented() -> (r: HttpError)
    ensures
        r@.code == HttpCode::E501,
        r@.desc is None,
        r@.info is None,
{
    HttpError::new(HttpCode::E501)
}

} // verus!
