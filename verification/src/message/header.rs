//! The fixed four-byte message header: version, type, token length, code and
//! message id, packed as `version*64 + type*16 + tkl`, the code byte, and the
//! big-endian message id.

use vstd::prelude::*;

use crate::CoapError;

verus! {

/// The 2-bit message type field.
#[derive(Clone, Copy, Debug, PartialEq, Eq, Structural)]
pub enum CoapHeaderType {
    Confirmable,
    NonConfirmable,
    Acknowledgement,
    Reset,
}

impl CoapHeaderType {
    /// The numeric value of the 2-bit type field.
    pub open spec fn spec_number(self) -> u8 {
        match self {
            CoapHeaderType::Confirmable => 0,
            CoapHeaderType::NonConfirmable => 1,
            CoapHeaderType::Acknowledgement => 2,
            CoapHeaderType::Reset => 3,
        }
    }

    /// The type named by a 2-bit field value.
    pub open spec fn spec_of_number(n: u8) -> CoapHeaderType {
        if n == 0 {
            CoapHeaderType::Confirmable
        } else if n == 1 {
            CoapHeaderType::NonConfirmable
        } else if n == 2 {
            CoapHeaderType::Acknowledgement
        } else {
            CoapHeaderType::Reset
        }
    }

    pub fn to_number(self) -> (n: u8)
        ensures
            n == self.spec_number(),
    {
        match self {
            CoapHeaderType::Confirmable => 0,
            CoapHeaderType::NonConfirmable => 1,
            CoapHeaderType::Acknowledgement => 2,
            CoapHeaderType::Reset => 3,
        }
    }

    pub fn from_number(n: u8) -> (t: CoapHeaderType)
        requires
            n < 4,
        ensures
            t == CoapHeaderType::spec_of_number(n),
    {
        if n == 0 {
            CoapHeaderType::Confirmable
        } else if n == 1 {
            CoapHeaderType::NonConfirmable
        } else if n == 2 {
            CoapHeaderType::Acknowledgement
        } else {
            CoapHeaderType::Reset
        }
    }
}

/// The code byte: request methods, response codes, or the Empty code.
#[derive(Clone, Copy, Debug, PartialEq, Eq, Structural)]
pub enum CoapHeaderCode {
    EMPTY,
    GET,
    POST,
    PUT,
    DELETE,
    Created,
    Deleted,
    Valid,
    Changed,
    Content,
    BadRequest,
    Unauthorized,
    BadOption,
    Forbidden,
    NotFound,
    MethodNotAllowed,
    NotAcceptable,
    PreconditionFailed,
    RequestEntityTooLarge,
    UnsupportedContentFormat,
    InternalServerError,
    NotImplemented,
    BadGateway,
    ServiceUnavailable,
    GatewayTimeout,
    ProxyingNotSupported,
}

impl CoapHeaderCode {
    /// The wire value of the code (class * 32 + detail).
    pub open spec fn spec_number(self) -> u8 {
        match self {
            CoapHeaderCode::EMPTY => 0,
            CoapHeaderCode::GET => 1,
            CoapHeaderCode::POST => 2,
            CoapHeaderCode::PUT => 3,
            CoapHeaderCode::DELETE => 4,
            CoapHeaderCode::Created => 65,
            CoapHeaderCode::Deleted => 66,
            CoapHeaderCode::Valid => 67,
            CoapHeaderCode::Changed => 68,
            CoapHeaderCode::Content => 69,
            CoapHeaderCode::BadRequest => 128,
            CoapHeaderCode::Unauthorized => 129,
            CoapHeaderCode::BadOption => 130,
            CoapHeaderCode::Forbidden => 131,
            CoapHeaderCode::NotFound => 132,
            CoapHeaderCode::MethodNotAllowed => 133,
            CoapHeaderCode::NotAcceptable => 134,
            CoapHeaderCode::PreconditionFailed => 140,
            CoapHeaderCode::RequestEntityTooLarge => 141,
            CoapHeaderCode::UnsupportedContentFormat => 143,
            CoapHeaderCode::InternalServerError => 160,
            CoapHeaderCode::NotImplemented => 161,
            CoapHeaderCode::BadGateway => 162,
            CoapHeaderCode::ServiceUnavailable => 163,
            CoapHeaderCode::GatewayTimeout => 164,
            CoapHeaderCode::ProxyingNotSupported => 165,
        }
    }

    /// The code named by a byte, or `None` outside the recognised table.
    pub open spec fn spec_of_number(n: u8) -> Option<CoapHeaderCode> {
        if n == 0 {
            Some(CoapHeaderCode::EMPTY)
        } else if n == 1 {
            Some(CoapHeaderCode::GET)
        } else if n == 2 {
            Some(CoapHeaderCode::POST)
        } else if n == 3 {
            Some(CoapHeaderCode::PUT)
        } else if n == 4 {
            Some(CoapHeaderCode::DELETE)
        } else if n == 65 {
            Some(CoapHeaderCode::Created)
        } else if n == 66 {
            Some(CoapHeaderCode::Deleted)
        } else if n == 67 {
            Some(CoapHeaderCode::Valid)
        } else if n == 68 {
            Some(CoapHeaderCode::Changed)
        } else if n == 69 {
            Some(CoapHeaderCode::Content)
        } else if n == 128 {
            Some(CoapHeaderCode::BadRequest)
        } else if n == 129 {
            Some(CoapHeaderCode::Unauthorized)
        } else if n == 130 {
            Some(CoapHeaderCode::BadOption)
        } else if n == 131 {
            Some(CoapHeaderCode::Forbidden)
        } else if n == 132 {
            Some(CoapHeaderCode::NotFound)
        } else if n == 133 {
            Some(CoapHeaderCode::MethodNotAllowed)
        } else if n == 134 {
            Some(CoapHeaderCode::NotAcceptable)
        } else if n == 140 {
            Some(CoapHeaderCode::PreconditionFailed)
        } else if n == 141 {
            Some(CoapHeaderCode::RequestEntityTooLarge)
        } else if n == 143 {
            Some(CoapHeaderCode::UnsupportedContentFormat)
        } else if n == 160 {
            Some(CoapHeaderCode::InternalServerError)
        } else if n == 161 {
            Some(CoapHeaderCode::NotImplemented)
        } else if n == 162 {
            Some(CoapHeaderCode::BadGateway)
        } else if n == 163 {
            Some(CoapHeaderCode::ServiceUnavailable)
        } else if n == 164 {
            Some(CoapHeaderCode::GatewayTimeout)
        } else if n == 165 {
            Some(CoapHeaderCode::ProxyingNotSupported)
        } else {
            None
        }
    }

    pub fn to_number(self) -> (n: u8)
        ensures
            n == self.spec_number(),
    {
        match self {
            CoapHeaderCode::EMPTY => 0,
            CoapHeaderCode::GET => 1,
            CoapHeaderCode::POST => 2,
            CoapHeaderCode::PUT => 3,
            CoapHeaderCode::DELETE => 4,
            CoapHeaderCode::Created => 65,
            CoapHeaderCode::Deleted => 66,
            CoapHeaderCode::Valid => 67,
            CoapHeaderCode::Changed => 68,
            CoapHeaderCode::Content => 69,
            CoapHeaderCode::BadRequest => 128,
            CoapHeaderCode::Unauthorized => 129,
            CoapHeaderCode::BadOption => 130,
            CoapHeaderCode::Forbidden => 131,
            CoapHeaderCode::NotFound => 132,
            CoapHeaderCode::MethodNotAllowed => 133,
            CoapHeaderCode::NotAcceptable => 134,
            CoapHeaderCode::PreconditionFailed => 140,
            CoapHeaderCode::RequestEntityTooLarge => 141,
            CoapHeaderCode::UnsupportedContentFormat => 143,
            CoapHeaderCode::InternalServerError => 160,
            CoapHeaderCode::NotImplemented => 161,
            CoapHeaderCode::BadGateway => 162,
            CoapHeaderCode::ServiceUnavailable => 163,
            CoapHeaderCode::GatewayTimeout => 164,
            CoapHeaderCode::ProxyingNotSupported => 165,
        }
    }

    pub fn from_number(n: u8) -> (c: Option<CoapHeaderCode>)
        ensures
            c == CoapHeaderCode::spec_of_number(n),
    {
        match n {
            0 => Some(CoapHeaderCode::EMPTY),
            1 => Some(CoapHeaderCode::GET),
            2 => Some(CoapHeaderCode::POST),
            3 => Some(CoapHeaderCode::PUT),
            4 => Some(CoapHeaderCode::DELETE),
            65 => Some(CoapHeaderCode::Created),
            66 => Some(CoapHeaderCode::Deleted),
            67 => Some(CoapHeaderCode::Valid),
            68 => Some(CoapHeaderCode::Changed),
            69 => Some(CoapHeaderCode::Content),
            128 => Some(CoapHeaderCode::BadRequest),
            129 => Some(CoapHeaderCode::Unauthorized),
            130 => Some(CoapHeaderCode::BadOption),
            131 => Some(CoapHeaderCode::Forbidden),
            132 => Some(CoapHeaderCode::NotFound),
            133 => Some(CoapHeaderCode::MethodNotAllowed),
            134 => Some(CoapHeaderCode::NotAcceptable),
            140 => Some(CoapHeaderCode::PreconditionFailed),
            141 => Some(CoapHeaderCode::RequestEntityTooLarge),
            143 => Some(CoapHeaderCode::UnsupportedContentFormat),
            160 => Some(CoapHeaderCode::InternalServerError),
            161 => Some(CoapHeaderCode::NotImplemented),
            162 => Some(CoapHeaderCode::BadGateway),
            163 => Some(CoapHeaderCode::ServiceUnavailable),
            164 => Some(CoapHeaderCode::GatewayTimeout),
            165 => Some(CoapHeaderCode::ProxyingNotSupported),
            _ => None,
        }
    }
}

/// The decoded fixed header.
#[derive(Clone, Copy, Debug, PartialEq, Eq, Structural)]
pub struct CoapHeader {
    pub version: u8,
    pub t: CoapHeaderType,
    pub tkl: u8,
    pub code: CoapHeaderCode,
    pub message_id: u16,
}

/// The four bytes of a header on the wire.
pub open spec fn spec_header_bytes(h: CoapHeader) -> Seq<u8>
    recommends
        h.tkl <= 15,
{
    seq![
        (64 + h.t.spec_number() * 16 + h.tkl) as u8,
        h.code.spec_number(),
        (h.message_id / 256) as u8,
        (h.message_id % 256) as u8,
    ]
}

/// What decoding the first four bytes of `b` gives: the header, or the first
/// of the three rejections (wrong version, unrecognised code byte, Empty code
/// with a token).
pub open spec fn spec_decode_header(b: Seq<u8>) -> Result<CoapHeader, CoapError>
    recommends
        b.len() >= 4,
{
    if b[0] / 64 != 1 {
        Err(CoapError::WrongVersion)
    } else {
        match CoapHeaderCode::spec_of_number(b[1]) {
            None => Err(CoapError::HeaderError),
            Some(code) => {
                if code == CoapHeaderCode::EMPTY && b[0] % 16 > 0 {
                    Err(CoapError::MessageFormatError)
                } else {
                    Ok(
                        CoapHeader {
                            version: 1,
                            t: CoapHeaderType::spec_of_number((b[0] / 16) % 4),
                            tkl: b[0] % 16,
                            code,
                            message_id: (b[2] as u16 * 256 + b[3] as u16) as u16,
                        },
                    )
                }
            },
        }
    }
}

impl CoapHeader {
    /// A header whose fields can all reach the wire and come back: version 1,
    /// a token length a u4 can hold, and no token announced beside an Empty
    /// code.
    pub open spec fn wf(self) -> bool {
        &&& self.version == 1
        &&& self.tkl <= 15
        &&& !(self.code == CoapHeaderCode::EMPTY && self.tkl > 0)
    }

    /// Builds a header with version 1. An Empty code may not announce a
    /// token; the token length may not exceed the eight bytes a token can
    /// hold.
    pub fn new(t: CoapHeaderType, tkl: u8, code: CoapHeaderCode, message_id: u16) -> (r: Result<
        CoapHeader,
        CoapError,
    >)
        ensures
            code == CoapHeaderCode::EMPTY && tkl > 0 ==> r == Err::<CoapHeader, CoapError>(
                CoapError::MessageFormatError,
            ),
            !(code == CoapHeaderCode::EMPTY && tkl > 0) && tkl > 8 ==> r == Err::<
                CoapHeader,
                CoapError,
            >(CoapError::MessageError),
            !(code == CoapHeaderCode::EMPTY && tkl > 0) && tkl <= 8 ==> r == Ok::<
                CoapHeader,
                CoapError,
            >(CoapHeader { version: 1, t, tkl, code, message_id }),
            r matches Ok(h) ==> h.wf() && h.tkl <= 8,
    {
        if code == CoapHeaderCode::EMPTY && tkl > 0 {
            return Err(CoapError::MessageFormatError);
        }
        if tkl > 8 {
            return Err(CoapError::MessageError);
        }
        Ok(CoapHeader { version: 1, t, tkl, code, message_id })
    }

    /// Packs the header into its four wire bytes. Fails with `WrongVersion`
    /// for a version other than 1 and with `MessageFormatError` for an Empty
    /// code beside a non-zero token length.
    pub fn encode(&self) -> (r: Result<[u8; 4], CoapError>)
        requires
            self.tkl <= 15,
        ensures
            self.version != 1 ==> r == Err::<[u8; 4], CoapError>(CoapError::WrongVersion),
            self.version == 1 && self.code == CoapHeaderCode::EMPTY && self.tkl > 0 ==> r == Err::<
                [u8; 4],
                CoapError,
            >(CoapError::MessageFormatError),
            self.version == 1 && !(self.code == CoapHeaderCode::EMPTY && self.tkl > 0) ==> (
            r matches Ok(a) && a@ == spec_header_bytes(*self)),
    {
        if self.version != 1 {
            return Err(CoapError::WrongVersion);
        }
        if self.code == CoapHeaderCode::EMPTY && self.tkl > 0 {
            return Err(CoapError::MessageFormatError);
        }
        let vtt: u8 = 64 + self.t.to_number() * 16 + self.tkl;
        let code: u8 = self.code.to_number();
        let msg_1: u8 = (self.message_id / 256) as u8;
        let msg_2: u8 = (self.message_id % 256) as u8;
        let bytes: [u8; 4] = [vtt, code, msg_1, msg_2];
        proof {
            assert(bytes@ =~= spec_header_bytes(*self));
        }
        Ok(bytes)
    }

    /// Reads a header back out of the first four bytes of `buf`.
    pub fn decode(buf: &[u8]) -> (r: Result<CoapHeader, CoapError>)
        requires
            buf@.len() >= 4,
        ensures
            r == spec_decode_header(buf@),
            r matches Ok(h) ==> h.wf(),
    {
        let b0 = buf[0];
        let version: u8 = b0 / 64;
        if version != 1 {
            return Err(CoapError::WrongVersion);
        }
        let code = match CoapHeaderCode::from_number(buf[1]) {
            Some(c) => c,
            None => {
                return Err(CoapError::HeaderError);
            },
        };
        let tkl: u8 = b0 % 16;
        if code == CoapHeaderCode::EMPTY && tkl > 0 {
            return Err(CoapError::MessageFormatError);
        }
        let t = CoapHeaderType::from_number((b0 / 16) % 4);
        let message_id: u16 = buf[2] as u16 * 256 + buf[3] as u16;
        Ok(CoapHeader { version, t, tkl, code, message_id })
    }

    pub fn get_version(&self) -> (v: u8)
        ensures
            v == self.version,
    {
        self.version
    }

    pub fn get_tkl(&self) -> (tkl: u8)
        ensures
            tkl == self.tkl,
    {
        self.tkl
    }

    pub fn get_type(&self) -> (t: CoapHeaderType)
        ensures
            t == self.t,
    {
        self.t
    }

    pub fn get_code(&self) -> (c: CoapHeaderCode)
        ensures
            c == self.code,
    {
        self.code
    }

    pub fn get_message_id(&self) -> (id: u16)
        ensures
            id == self.message_id,
    {
        self.message_id
    }

}

/// Four bytes announcing a token beside the Empty code are refused by the
/// decoder, as the encoder refuses any header in that shape.
pub proof fn lemma_empty_code_with_token_rejected(b: Seq<u8>)
    requires
        b.len() >= 4,
        b[0] / 64 == 1,
        b[0] % 16 > 0,
        b[1] == 0,
    ensures
        spec_decode_header(b) == Err::<CoapHeader, CoapError>(CoapError::MessageFormatError),
{
}

/// Every well-formed header comes back unchanged from its own four wire
/// bytes.
pub proof fn lemma_header_round_trip(h: CoapHeader)
    requires
        h.wf(),
    ensures
        spec_decode_header(spec_header_bytes(h)) == Ok::<CoapHeader, CoapError>(h),
{
    let b = spec_header_bytes(h);
    let t = h.t.spec_number();
    assert(t <= 3);
    assert(b[0] == (64 + t * 16 + h.tkl) as u8);
    assert(64 + t * 16 + h.tkl <= 127);
    assert(b[0] / 64 == 1);
    assert(b[0] % 16 == h.tkl);
    assert((b[0] / 16) % 4 == t);
    assert(CoapHeaderType::spec_of_number(t) == h.t);
    assert(CoapHeaderCode::spec_of_number(h.code.spec_number()) == Some(h.code));
    assert(b[2] as u16 * 256 + b[3] as u16 == h.message_id) by {
        assert(h.message_id / 256 < 256);
        assert(h.message_id % 256 < 256);
    }
}

} // verus!
