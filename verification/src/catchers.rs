//! The plain bodies that answer the statuses no handler answers.

use vstd::prelude::*;

verus! {

pub fn bad_request() -> (res: &'static str)
    ensures
        res@ == "Bad Request."@,
{
    "Bad Request."
}

pub fn unauthorized() -> (res: &'static str)
    ensures
        res@ == "Unauthorized access."@,
{
    "Unauthorized access."
}

pub fn forbidden() -> (res: &'static str)
    ensures
        res@ == "Forbidden: You don't have permission to access this resource."@,
{
    "Forbidden: You don't have permission to access this resource."
}

pub fn not_found() -> (res: &'static str)
    ensures
        res@ == "Resource not found."@,
{
    "Resource not found."
}

pub fn method_not_allowed() -> (res: &'static str)
    ensures
        res@ == "Method Not Allowed."@,
{
    "Method Not Allowed."
}

pub fn request_timeout() -> (res: &'static str)
    ensures
        res@ == "Request Timeout."@,
{
    "Request Timeout."
}

pub fn conflict() -> (res: &'static str)
    ensures
        res@ == "The request could not be completed due to a conflict."@,
{
    "The request could not be completed due to a conflict."
}

pub fn payload_too_large() -> (res: &'static str)
    ensures
        res@ == "Payload Too Large."@,
{
    "Payload Too Large."
}

pub fn unsupported_media_type() -> (res: &'static str)
    ensures
        res@ == "Unsupported Media Type."@,
{
    "Unsupported Media Type."
}

pub fn teapot() -> (res: &'static str)
    ensures
        res@ == "I'm a teapot. \u{2615}"@,
{
    "I'm a teapot. \u{2615}"
}

pub fn too_many_requests() -> (res: &'static str)
    ensures
        res@ == "Too Many Requests. Slow down!"@,
{
    "Too Many Requests. Slow down!"
}

pub fn internal_error() -> (res: &'static str)
    ensures
        res@ == "Internal Server Error."@,
{
    "Internal Server Error."
}

pub fn bad_gateway() -> (res: &'static str)
    ensures
        res@ == "Bad Gateway."@,
{
    "Bad Gateway."
}

pub fn service_unavailable() -> (res: &'static str)
    ensures
        res@ == "Service Unavailable."@,
{
    "Service Unavailable."
}

pub fn gateway_timeout() -> (res: &'static str)
    ensures
        res@ == "Gateway Timeout."@,
{
    "Gateway Timeout."
}

/// The body for each status that has one.
pub open spec fn catcher_body(status: u16) -> Option<Seq<char>> {
    match status {
        400 => Some("Bad Request."@),
        401 => Some("Unauthorized access."@),
        403 => Some("Forbidden: You don't have permission to access this resource."@),
        404 => Some("Resource not found."@),
        405 => Some("Method Not Allowed."@),
        408 => Some("Request Timeout."@),
        409 => Some("The request could not be completed due to a conflict."@),
        413 => Some("Payload Too Large."@),
        415 => Some("Unsupported Media Type."@),
        418 => Some("I'm a teapot. \u{2615}"@),
        429 => Some("Too Many Requests. Slow down!"@),
        500 => Some("Internal Server Error."@),
        502 => Some("Bad Gateway."@),
        503 => Some("Service Unavailable."@),
        504 => Some("Gateway Timeout."@),
        _ => None,
    }
}

/// The body for a status, where there is one.
pub fn catcher(status: u16) -> (res: Option<&'static str>)
    ensures
        crate::text::text_of_str(res) == catcher_body(status),
{
    match status {
        400 => Some(bad_request()),
        401 => Some(unauthorized()),
        403 => Some(forbidden()),
        404 => Some(not_found()),
        405 => Some(method_not_allowed()),
        408 => Some(request_timeout()),
        409 => Some(conflict()),
        413 => Some(payload_too_large()),
        415 => Some(unsupported_media_type()),
        418 => Some(teapot()),
        429 => Some(too_many_requests()),
        500 => Some(internal_error()),
        502 => Some(bad_gateway()),
        503 => Some(service_unavailable()),
        504 => Some(gateway_timeout()),
        _ => None,
    }
}

} // verus!
