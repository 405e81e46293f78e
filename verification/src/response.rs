//! Response codes and their numeric code values.

use vstd::prelude::*;

verus! {

/// A response code, by class and detail: success 2.xx, client error 4.xx,
/// server error 5.xx. `Empty` and `Reserved` are internal.
#[derive(Clone, Copy, Debug, PartialEq, Eq, Structural)]
pub enum ResponseType {
    Empty,
    Reserved,
    Created,
    Deleted,
    Valid,
    Changed,
    Content,
    BadRequest,
    Unauthorized,
    BadOption,
    Forbidden,
    NotFound,
    MethodNotAllowed,
    NotAcceptable,
    PreconditionFailed,
    RequestEntityTooLarge,
    UnsupportedContentFormat,
    InternalServerError,
    NotImplemented,
    BadGateway,
    ServiceUnavailable,
    GatewayTimeout,
    ProxyingNotSupported,
}

/// A response record; this profile keeps no state in it.
pub struct Response {}

/// The code byte of a response code: class times 32 plus detail. `Empty` is
/// 0; `Reserved` gets the out-of-band marker 0xFF.
pub open spec fn spec_response_number(t: ResponseType) -> u8 {
    match t {
        ResponseType::Empty => 0x00,
        ResponseType::Reserved => 0xFF,
        ResponseType::Created => 0x41,
        ResponseType::Deleted => 0x42,
        ResponseType::Valid => 0x43,
        ResponseType::Changed => 0x44,
        ResponseType::Content => 0x45,
        ResponseType::BadRequest => 0x80,
        ResponseType::Unauthorized => 0x81,
        ResponseType::BadOption => 0x82,
        ResponseType::Forbidden => 0x83,
        ResponseType::NotFound => 0x84,
        ResponseType::MethodNotAllowed => 0x85,
        ResponseType::NotAcceptable => 0x86,
        ResponseType::PreconditionFailed => 0x8C,
        ResponseType::RequestEntityTooLarge => 0x8D,
        ResponseType::UnsupportedContentFormat => 0x8F,
        ResponseType::InternalServerError => 0x90,
        ResponseType::NotImplemented => 0x91,
        ResponseType::BadGateway => 0x92,
        ResponseType::ServiceUnavailable => 0x93,
        ResponseType::GatewayTimeout => 0x94,
        ResponseType::ProxyingNotSupported => 0x95,
    }
}

pub fn response_to_number(opt: &ResponseType) -> (n: u8)
    ensures
        n == spec_response_number(*opt),
{
    match *opt {
        ResponseType::Empty => 0x00,
        ResponseType::Created => 0x41,
        ResponseType::Deleted => 0x42,
        ResponseType::Valid => 0x43,
        ResponseType::Changed => 0x44,
        ResponseType::Content => 0x45,
        ResponseType::BadRequest => 0x80,
        ResponseType::Unauthorized => 0x81,
        ResponseType::BadOption => 0x82,
        ResponseType::Forbidden => 0x83,
        ResponseType::NotFound => 0x84,
        ResponseType::MethodNotAllowed => 0x85,
        ResponseType::NotAcceptable => 0x86,
        ResponseType::PreconditionFailed => 0x8C,
        ResponseType::RequestEntityTooLarge => 0x8D,
        ResponseType::UnsupportedContentFormat => 0x8F,
        ResponseType::InternalServerError => 0x90,
        ResponseType::NotImplemented => 0x91,
        ResponseType::BadGateway => 0x92,
        ResponseType::ServiceUnavailable => 0x93,
        ResponseType::GatewayTimeout => 0x94,
        ResponseType::ProxyingNotSupported => 0x95,
        _ => 0xFF,
    }
}

} // verus!
