//! Request methods and their numeric code values.

use vstd::prelude::*;

verus! {

/// A request method; `Unknown` stands for any unrecognised method number.
#[derive(Clone, Copy, Debug, PartialEq, Eq, Structural)]
pub enum Method {
    Unknown,
    GET,
    POST,
    PUT,
    DELETE,
}

/// The code value of a method.
pub open spec fn spec_method_number(m: Method) -> u8 {
    match m {
        Method::Unknown => 0,
        Method::GET => 1,
        Method::POST => 2,
        Method::PUT => 3,
        Method::DELETE => 4,
    }
}

pub fn method_to_number(opt: &Method) -> (n: u8)
    ensures
        n == spec_method_number(*opt),
{
    match *opt {
        Method::Unknown => 0x00,
        Method::GET => 0x01,
        Method::POST => 0x02,
        Method::PUT => 0x03,
        Method::DELETE => 0x04,
    }
}

pub fn number_to_method(opt: &u8) -> (m: Method)
    ensures
        m == if *opt == 1 {
            Method::GET
        } else if *opt == 2 {
            Method::POST
        } else if *opt == 3 {
            Method::PUT
        } else if *opt == 4 {
            Method::DELETE
        } else {
            Method::Unknown
        },
        spec_method_number(m) == if *opt <= 4 {
            *opt
        } else {
            0
        },
{
    match *opt {
        0x01 => Method::GET,
        0x02 => Method::POST,
        0x03 => Method::PUT,
        0x04 => Method::DELETE,
        _ => Method::Unknown,
    }
}

} // verus!
