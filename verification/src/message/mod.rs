//! The message layer: header, token, option list and payload, and their
//! composition into one wire buffer — the header's four bytes, the token
//! bytes, the delta-encoded options, then the payload behind its 0xFF marker
//! whenever there is one.

use vstd::prelude::*;

pub mod header;
pub mod option;

use crate::CoapError;
use crate::message::header::{
    CoapHeader, CoapHeaderCode, CoapHeaderType, lemma_header_round_trip, spec_decode_header,
    spec_header_bytes,
};
use crate::message::option::{
    CoapOption, CoapOptionError, CoapOptionNumbers, CoapOptions, OptionModel, OptionParse,
    OptionsParse, lemma_options_round_trip, spec_encode_option, spec_encode_options, spec_options_canonical,
    spec_options_encode_error, spec_parse_failure_error, spec_parse_options,
};

verus! {

/// A request method on its own, apart from the full code table.
#[derive(Clone, Copy, Debug, PartialEq, Eq, Structural)]
pub enum CoapMethod {
    GET,
    POST,
    PUT,
    DELETE,
}

impl CoapMethod {
    /// The code value of a method.
    pub open spec fn spec_number(self) -> u8 {
        match self {
            CoapMethod::GET => 1,
            CoapMethod::POST => 2,
            CoapMethod::PUT => 3,
            CoapMethod::DELETE => 4,
        }
    }

    pub fn to_number(self) -> (n: u8)
        ensures
            n == self.spec_number(),
    {
        match self {
            CoapMethod::GET => 1,
            CoapMethod::POST => 2,
            CoapMethod::PUT => 3,
            CoapMethod::DELETE => 4,
        }
    }

    /// The method a code value names, or `None` outside 1 to 4.
    pub fn from_number(n: u8) -> (m: Option<CoapMethod>)
        ensures
            m == if n == 1 {
                Some(CoapMethod::GET)
            } else if n == 2 {
                Some(CoapMethod::POST)
            } else if n == 3 {
                Some(CoapMethod::PUT)
            } else if n == 4 {
                Some(CoapMethod::DELETE)
            } else {
                None::<CoapMethod>
            },
    {
        match n {
            1 => Some(CoapMethod::GET),
            2 => Some(CoapMethod::POST),
            3 => Some(CoapMethod::PUT),
            4 => Some(CoapMethod::DELETE),
            _ => None,
        }
    }
}

/// The content formats this profile names.
#[derive(Clone, Copy, Debug, PartialEq, Eq, Structural)]
pub enum CoapMediaType {
    TextPlain,
    ApplicationLinkFormat,
    ApplicationXml,
    ApplicationOctetStream,
    ApplicationExi,
    ApplicationJson,
}

impl CoapMediaType {
    /// The registered value of a content format.
    pub open spec fn spec_number(self) -> u8 {
        match self {
            CoapMediaType::TextPlain => 0,
            CoapMediaType::ApplicationLinkFormat => 40,
            CoapMediaType::ApplicationXml => 41,
            CoapMediaType::ApplicationOctetStream => 42,
            CoapMediaType::ApplicationExi => 47,
            CoapMediaType::ApplicationJson => 50,
        }
    }

    pub fn to_number(self) -> (n: u8)
        ensures
            n == self.spec_number(),
    {
        match self {
            CoapMediaType::TextPlain => 0,
            CoapMediaType::ApplicationLinkFormat => 40,
            CoapMediaType::ApplicationXml => 41,
            CoapMediaType::ApplicationOctetStream => 42,
            CoapMediaType::ApplicationExi => 47,
            CoapMediaType::ApplicationJson => 50,
        }
    }

    /// The content format a value names, or `None` outside the table.
    pub fn from_number(n: u8) -> (m: Option<CoapMediaType>)
        ensures
            m == if n == 0 {
                Some(CoapMediaType::TextPlain)
            } else if n == 40 {
                Some(CoapMediaType::ApplicationLinkFormat)
            } else if n == 41 {
                Some(CoapMediaType::ApplicationXml)
            } else if n == 42 {
                Some(CoapMediaType::ApplicationOctetStream)
            } else if n == 47 {
                Some(CoapMediaType::ApplicationExi)
            } else if n == 50 {
                Some(CoapMediaType::ApplicationJson)
            } else {
                None::<CoapMediaType>
            },
    {
        match n {
            0 => Some(CoapMediaType::TextPlain),
            40 => Some(CoapMediaType::ApplicationLinkFormat),
            41 => Some(CoapMediaType::ApplicationXml),
            42 => Some(CoapMediaType::ApplicationOctetStream),
            47 => Some(CoapMediaType::ApplicationExi),
            50 => Some(CoapMediaType::ApplicationJson),
            _ => None,
        }
    }
}

/// The opaque correlation token of a message: zero to eight bytes echoed
/// from request to response.
#[derive(Clone, Debug, PartialEq)]
pub struct CoapToken {
    pub token: Vec<u8>,
}

impl View for CoapToken {
    type V = Seq<u8>;

    open spec fn view(&self) -> Seq<u8> {
        self.token@
    }
}

impl CoapToken {
    /// An empty token.
    pub fn new() -> (r: CoapToken)
        ensures
            r@ == Seq::<u8>::empty(),
    {
        let r = CoapToken { token: Vec::new() };
        proof {
            assert(r@ =~= Seq::<u8>::empty());
        }
        r
    }

    /// How many bytes the token holds.
    pub fn len(&self) -> (n: usize)
        ensures
            n == self@.len(),
    {
        self.token.len()
    }
}

/// One whole message: header, token, options and payload.
#[derive(Clone, Debug, PartialEq)]
pub struct CoapMessage {
    pub header: CoapHeader,
    pub token: CoapToken,
    pub options: CoapOptions,
    pub payload: Vec<u8>,
}

/// What a message is mathematically.
#[verifier::ext_equal]
pub struct MessageModel {
    pub header: CoapHeader,
    pub token: Seq<u8>,
    pub options: Seq<OptionModel>,
    pub payload: Seq<u8>,
}

impl View for CoapMessage {
    type V = MessageModel;

    open spec fn view(&self) -> MessageModel {
        MessageModel {
            header: self.header,
            token: self.token@,
            options: self.options@,
            payload: self.payload@,
        }
    }
}

/// The wire bytes of a message: the header's four bytes, the token, the
/// option run with deltas counted from zero, and — only when the payload is
/// not empty — the 0xFF marker and the payload.
pub open spec fn spec_encode_message(m: MessageModel) -> Seq<u8> {
    spec_header_bytes(m.header) + m.token + spec_encode_options(m.options, 0) + (if m.payload.len()
        > 0 {
        seq![0xFFu8] + m.payload
    } else {
        seq![]
    })
}

/// The outcome of reading a whole message.
#[verifier::ext_equal]
pub enum MessageParse {
    /// The decoded message.
    Msg { m: MessageModel },
    /// The buffer is shorter than its header and token announce, or a token
    /// or payload is over its bound.
    MsgTruncated,
    /// The two version bits are not 1.
    MsgBadVersion,
    /// The code byte is outside the recognised table.
    MsgBadCode,
    /// An Empty code beside a non-zero token length.
    MsgBadFormat,
    /// Reading one option failed; carries that outcome.
    MsgBadOption { fail: OptionParse },
    /// More options than the ten-slot list holds.
    MsgTooManyOptions,
}

/// Reads a whole message: the header from the first four bytes, the token
/// bytes the header announces, then the option run; a 0xFF marker, if one
/// stands after the options, is stripped and the rest is the payload. A
/// buffer that ends right after the token gives the stand-in payload of one
/// zero byte and no token.
pub open spec fn spec_parse_message(b: Seq<u8>) -> MessageParse {
    if b.len() < 4 {
        MessageParse::MsgTruncated
    } else {
        match spec_decode_header(b) {
            Err(e) => {
                if e == CoapError::WrongVersion {
                    MessageParse::MsgBadVersion
                } else if e == CoapError::HeaderError {
                    MessageParse::MsgBadCode
                } else {
                    MessageParse::MsgBadFormat
                }
            },
            Ok(h) => {
                if b.len() < 4 + h.tkl {
                    MessageParse::MsgTruncated
                } else if b.len() == 4 + h.tkl {
                    // nothing after the token: the stand-in payload quirk,
                    // and the token bytes are not kept
                    MessageParse::Msg {
                        m: MessageModel {
                            header: h,
                            token: seq![],
                            options: seq![],
                            payload: seq![0u8],
                        },
                    }
                } else {
                    let rest = b.skip(4 + h.tkl as int);
                    match spec_parse_options(0, rest, 10) {
                        OptionsParse::Failed { fail } => MessageParse::MsgBadOption { fail },
                        OptionsParse::TooMany => MessageParse::MsgTooManyOptions,
                        OptionsParse::Options { options, used } => {
                            let tail = rest.skip(used as int);
                            let payload = if tail.len() >= 1 && tail[0] == 0xFF {
                                tail.skip(1)
                            } else {
                                tail
                            };
                            if payload.len() > 255 {
                                MessageParse::MsgTruncated
                            } else if h.tkl > 8 {
                                MessageParse::MsgTruncated
                            } else {
                                MessageParse::Msg {
                                    m: MessageModel {
                                        header: h,
                                        token: b.subrange(4, 4 + h.tkl as int),
                                        options,
                                        payload,
                                    },
                                }
                            }
                        },
                    }
                }
            },
        }
    }
}

/// The error each failed message read is reported as.
pub open spec fn spec_message_failure_error(p: MessageParse) -> CoapError {
    match p {
        MessageParse::Msg { .. } => arbitrary(),
        MessageParse::MsgTruncated => CoapError::MessageError,
        MessageParse::MsgBadVersion => CoapError::WrongVersion,
        MessageParse::MsgBadCode => CoapError::HeaderError,
        MessageParse::MsgBadFormat => CoapError::MessageFormatError,
        MessageParse::MsgBadOption { fail } => spec_parse_failure_error(fail),
        MessageParse::MsgTooManyOptions => arbitrary(),
    }
}

impl CoapMessage {
    /// A message whose parts all sit within their bounds.
    pub open spec fn wf(self) -> bool {
        &&& self.header.wf()
        &&& self.token@.len() <= 8
        &&& self.options.wf()
        &&& self.payload@.len() <= 255
    }

    /// A fresh message under the given header: empty token, no options, and
    /// the given payload.
    pub fn new(header: CoapHeader, payload: &[u8]) -> (r: CoapMessage)
        requires
            payload@.len() <= 255,
        ensures
            r@ == (MessageModel {
                header,
                token: Seq::<u8>::empty(),
                options: Seq::<OptionModel>::empty(),
                payload: payload@,
            }),
            header.wf() ==> r.wf(),
    {
        let mut data: Vec<u8> = Vec::new();
        let mut i: usize = 0;
        while i < payload.len()
            invariant
                i <= payload@.len(),
                data@ == payload@.subrange(0, i as int),
            decreases payload@.len() - i,
        {
            data.push(payload[i]);
            i = i + 1;
            proof {
                assert(data@ =~= payload@.subrange(0, i as int));
            }
        }
        proof {
            assert(payload@.subrange(0, payload@.len() as int) =~= payload@);
        }
        let r = CoapMessage {
            header,
            token: CoapToken::new(),
            options: CoapOptions::new(),
            payload: data,
        };
        proof {
            assert(r@ =~= (MessageModel {
                header,
                token: Seq::<u8>::empty(),
                options: Seq::<OptionModel>::empty(),
                payload: payload@,
            }));
        }
        r
    }

    /// Replaces the token; more than eight bytes fail with `MessageError`
    /// and leave the message as it stands.
    pub fn set_token(&mut self, token: &[u8]) -> (r: Result<(), CoapError>)
        ensures
            token@.len() > 8 ==> r == Err::<(), CoapError>(CoapError::MessageError) && final(self)@
                == old(self)@,
            token@.len() <= 8 ==> r == Ok::<(), CoapError>(()) && final(self)@ == (MessageModel {
                token: token@,
                ..old(self)@
            }),
            old(self).wf() ==> final(self).wf(),
    {
        if token.len() > 8 {
            return Err(CoapError::MessageError);
        }
        let mut t: Vec<u8> = Vec::new();
        let mut i: usize = 0;
        while i < token.len()
            invariant
                i <= token@.len(),
                t@ == token@.subrange(0, i as int),
            decreases token@.len() - i,
        {
            t.push(token[i]);
            i = i + 1;
            proof {
                assert(t@ =~= token@.subrange(0, i as int));
            }
        }
        proof {
            assert(token@.subrange(0, token@.len() as int) =~= token@);
        }
        self.token = CoapToken { token: t };
        proof {
            assert(final(self)@ =~= (MessageModel { token: token@, ..old(self)@ }));
        }
        Ok(())
    }

    /// Appends an option to the message; the eleventh fails with `PushError`
    /// carrying the rejected option.
    pub fn add_option(&mut self, option: CoapOption) -> (r: Result<(), CoapError>)
        ensures
            old(self)@.options.len() < 10 ==> r == Ok::<(), CoapError>(()) && final(self)@
                == (MessageModel { options: old(self)@.options.push(option@), ..old(self)@ }),
            old(self)@.options.len() >= 10 ==> r == Err::<(), CoapError>(
                CoapError::OptionsError(CoapOptionError::PushError(option)),
            ) && final(self)@ == old(self)@,
            old(self).wf() && option.wf() ==> final(self).wf(),
    {
        let r = self.options.push(option);
        proof {
            if old(self)@.options.len() < 10 {
                assert(final(self)@ =~= (MessageModel {
                    options: old(self)@.options.push(option@),
                    ..old(self)@
                }));
            } else {
                assert(final(self)@ =~= old(self)@);
            }
        }
        r
    }

    /// Writes the whole message into a fresh buffer: the filled buffer and
    /// its length. The first option out of ascending order, or with a value
    /// over 254 bytes, fails as the option encoder says; a message past the
    /// 255-byte buffer fails with `MessageError`.
    pub fn encode(&self) -> (r: Result<(Vec<u8>, usize), CoapError>)
        requires
            self.header.tkl <= 15,
        ensures
            self.header.version != 1 ==> r == Err::<(Vec<u8>, usize), CoapError>(
                CoapError::WrongVersion,
            ),
            self.header.version == 1 && self.header.code == CoapHeaderCode::EMPTY
                && self.header.tkl > 0 ==> r == Err::<(Vec<u8>, usize), CoapError>(
                CoapError::MessageFormatError,
            ),
            self.header.version == 1 && !(self.header.code == CoapHeaderCode::EMPTY
                && self.header.tkl > 0) ==> (match spec_options_encode_error(self@.options, 0) {
                Some(e) => r == Err::<(Vec<u8>, usize), CoapError>(e),
                None => {
                    if spec_encode_message(self@).len() > 255 {
                        r == Err::<(Vec<u8>, usize), CoapError>(CoapError::MessageError)
                    } else {
                        r matches Ok((v, n)) && v@ == spec_encode_message(self@) && n == v@.len()
                    }
                },
            }),
    {
        let head = match self.header.encode() {
            Ok(a) => a,
            Err(e) => {
                return Err(e);
            },
        };
        let mut msg: Vec<u8> = Vec::new();
        msg.push(head[0]);
        msg.push(head[1]);
        msg.push(head[2]);
        msg.push(head[3]);
        proof {
            assert(msg@ =~= spec_header_bytes(self.header));
        }
        let ghost base = spec_header_bytes(self.header) + self.token@;
        let mut i: usize = 0;
        while i < self.token.token.len()
            invariant
                i <= self.token@.len(),
                msg@ == spec_header_bytes(self.header) + self.token@.subrange(0, i as int),
            decreases self.token@.len() - i,
        {
            msg.push(self.token.token[i]);
            i = i + 1;
            proof {
                assert(msg@ =~= spec_header_bytes(self.header) + self.token@.subrange(
                    0,
                    i as int,
                ));
            }
        }
        proof {
            assert(self.token@.subrange(0, self.token@.len() as int) =~= self.token@);
            assert(msg@ =~= base);
            assert(self@.options.skip(0) =~= self@.options);
        }
        let ghost opts = self@.options;
        let mut prev_option = CoapOptionNumbers::Zero;
        let mut j: usize = 0;
        while j < self.options.options.len()
            invariant
                self.header.version == 1,
                !(self.header.code == CoapHeaderCode::EMPTY && self.header.tkl > 0),
                j <= opts.len(),
                opts == self@.options,
                self.options@ == opts,
                prev_option.spec_number() == spec_options_prev(opts, j as int),
                spec_encode_options(opts, 0) == msg@.skip(base.len() as int)
                    + spec_encode_options(opts.skip(j as int), prev_option.spec_number()),
                spec_options_encode_error(opts, 0) == spec_options_encode_error(
                    opts.skip(j as int),
                    prev_option.spec_number(),
                ),
                msg@.len() >= base.len(),
                msg@.subrange(0, base.len() as int) == base,
            decreases opts.len() - j,
        {
            let opt = &self.options.options[j];
            proof {
                assert(opts.skip(j as int)[0] == opts[j as int]);
                assert(opt@ == opts[j as int]);
            }
            let encoded = match opt.encode(prev_option) {
                Ok(p) => p,
                Err(e) => {
                    return Err(e);
                },
            };
            let (obytes, olen) = encoded;
            let ghost msg_before = msg@;
            let mut k: usize = 0;
            while k < obytes.len()
                invariant
                    k <= obytes@.len(),
                    msg@ == msg_before + obytes@.subrange(0, k as int),
                decreases obytes@.len() - k,
            {
                msg.push(obytes[k]);
                k = k + 1;
                proof {
                    assert(msg@ =~= msg_before + obytes@.subrange(0, k as int));
                }
            }
            proof {
                assert(obytes@.subrange(0, obytes@.len() as int) =~= obytes@);
                assert(opts.skip(j as int).skip(1) =~= opts.skip(j + 1));
                assert(msg@.skip(base.len() as int) =~= msg_before.skip(base.len() as int)
                    + obytes@);
                assert(msg@.subrange(0, base.len() as int) =~= base);
            }
            prev_option = opt.get_option_number();
            j = j + 1;
        }
        proof {
            assert(opts.skip(opts.len() as int) =~= Seq::<OptionModel>::empty());
            assert(msg@ =~= base + spec_encode_options(opts, 0));
        }
        if self.payload.len() != 0 {
            let ghost msg_before = msg@;
            msg.push(0xFF);
            let mut i: usize = 0;
            while i < self.payload.len()
                invariant
                    i <= self.payload@.len(),
                    msg@ == msg_before + seq![0xFFu8] + self.payload@.subrange(0, i as int),
                decreases self.payload@.len() - i,
            {
                msg.push(self.payload[i]);
                i = i + 1;
                proof {
                    assert(msg@ =~= msg_before + seq![0xFFu8] + self.payload@.subrange(
                        0,
                        i as int,
                    ));
                }
            }
            proof {
                assert(self.payload@.subrange(0, self.payload@.len() as int) =~= self.payload@);
            }
        }
        proof {
            assert(msg@ =~= spec_encode_message(self@));
        }
        if msg.len() > 255 {
            return Err(CoapError::MessageError);
        }
        let n = msg.len();
        Ok((msg, n))
    }

    /// Reads a whole message back out of `buf`.
    pub fn decode(buf: &[u8]) -> (r: Result<CoapMessage, CoapError>)
        ensures
            (match spec_parse_message(buf@) {
                MessageParse::Msg { m } => r matches Ok(msg) && msg@ == m && msg.wf(),
                MessageParse::MsgTooManyOptions => r matches Err(e) && (e
                    matches CoapError::OptionsError(CoapOptionError::PushError(_))),
                fail => r == Err::<CoapMessage, CoapError>(spec_message_failure_error(fail)),
            }),
    {
        let buf_len: usize = buf.len();
        if buf_len < 4 {
            return Err(CoapError::MessageError);
        }
        let header = match CoapHeader::decode(buf) {
            Ok(h) => h,
            Err(e) => {
                return Err(e);
            },
        };
        let tkl: usize = header.get_tkl() as usize;
        if buf_len < 4 + tkl {
            return Err(CoapError::MessageError);
        }
        if buf_len == 4 + tkl {
            // nothing after the token: the stand-in payload
            let mut stand_in: Vec<u8> = Vec::new();
            stand_in.push(0);
            let r = CoapMessage {
                header,
                token: CoapToken::new(),
                options: CoapOptions::new(),
                payload: stand_in,
            };
            proof {
                assert(r@.payload =~= seq![0u8]);
            }
            return Ok(r);
        }
        let rest = &buf[4 + tkl..buf_len];
        proof {
            assert(rest@ =~= buf@.skip(4 + tkl));
        }
        let decoded = match CoapOptions::decode(rest) {
            Ok(p) => p,
            Err(e) => {
                return Err(e);
            },
        };
        let (options, used) = decoded;
        proof {
            let tail = rest@.skip(used as int);
            if used < rest@.len() {
                assert(tail[0] == rest@[used as int]);
            }
        }
        let mut pstart: usize = used;
        if pstart < rest.len() && rest[pstart] == 0xFF {
            pstart = pstart + 1;
            proof {
                assert(rest@.skip(pstart as int) =~= rest@.skip(used as int).skip(1));
            }
        }
        let rest_len = rest.len();
        if rest_len - pstart > 255 {
            return Err(CoapError::MessageError);
        }
        let mut payload: Vec<u8> = Vec::new();
        let mut i: usize = pstart;
        while i < rest_len
            invariant
                pstart <= i <= rest_len,
                rest_len == rest@.len(),
                payload@ == rest@.subrange(pstart as int, i as int),
            decreases rest_len - i,
        {
            payload.push(rest[i]);
            i = i + 1;
            proof {
                assert(payload@ =~= rest@.subrange(pstart as int, i as int));
            }
        }
        proof {
            assert(rest@.subrange(pstart as int, rest_len as int) =~= rest@.skip(pstart as int));
        }
        if tkl > 8 {
            return Err(CoapError::MessageError);
        }
        let mut token_bytes: Vec<u8> = Vec::new();
        let mut i: usize = 4;
        while i < 4 + tkl
            invariant
                tkl <= 8,
                4 <= i <= 4 + tkl,
                4 + tkl <= buf@.len(),
                token_bytes@ == buf@.subrange(4, i as int),
            decreases 4 + tkl - i,
        {
            token_bytes.push(buf[i]);
            i = i + 1;
            proof {
                assert(token_bytes@ =~= buf@.subrange(4, i as int));
            }
        }
        let r = CoapMessage { header, token: CoapToken { token: token_bytes }, options, payload };
        Ok(r)
    }
}

/// The number every delta counts from at position `i` of an option run:
/// zero at the start, then the number of the option before.
pub open spec fn spec_options_prev(options: Seq<OptionModel>, i: int) -> u8 {
    if i == 0 {
        0
    } else {
        options[i - 1].number.spec_number()
    }
}

/// Every message within bounds comes back unchanged from its own wire bytes:
/// a well-formed header whose token length matches the token, a canonical
/// ascending option run, a payload within the buffer — and not the shape
/// with no options and no payload, whose decode is the stand-in payload.
pub proof fn lemma_message_round_trip(m: MessageModel)
    requires
        m.header.wf(),
        m.header.tkl <= 8,
        m.token.len() == m.header.tkl,
        (spec_options_encode_error(m.options, 0) is None),
        spec_options_canonical(m.options),
        m.options.len() <= 10,
        m.payload.len() <= 255,
        m.options.len() > 0 || m.payload.len() > 0,
    ensures
        spec_parse_message(spec_encode_message(m)) == (MessageParse::Msg { m }),
{
    let b = spec_encode_message(m);
    let hb = spec_header_bytes(m.header);
    let oenc = spec_encode_options(m.options, 0);
    let ptail: Seq<u8> = if m.payload.len() > 0 {
        seq![0xFFu8] + m.payload
    } else {
        seq![]
    };
    lemma_header_round_trip(m.header);
    assert(b.len() >= 4);
    assert(b[0] == hb[0] && b[1] == hb[1] && b[2] == hb[2] && b[3] == hb[3]);
    assert(spec_decode_header(b) == Ok::<CoapHeader, CoapError>(m.header));
    lemma_options_round_trip(m.options, 0, 10, ptail);
    if m.options.len() > 0 {
        assert(oenc.len() > 0) by {
            assert(oenc == spec_encode_option(
                m.options[0].number.spec_number(),
                m.options[0].data,
                0,
            ) + spec_encode_options(m.options.skip(1), m.options[0].number.spec_number()));
        }
    }
    assert(b.len() > 4 + m.header.tkl);
    let rest = b.skip(4 + m.header.tkl as int);
    assert(rest =~= oenc + ptail);
    assert(spec_parse_options(0, rest, 10) == (OptionsParse::Options {
        options: m.options,
        used: oenc.len(),
    }));
    let tail = rest.skip(oenc.len() as int);
    assert(tail =~= ptail);
    if m.payload.len() > 0 {
        assert(tail.len() >= 1 && tail[0] == 0xFF);
        assert(tail.skip(1) =~= m.payload);
    } else {
        assert(tail.len() == 0);
    }
    assert(b.subrange(4, 4 + m.header.tkl as int) =~= m.token);
    assert(spec_parse_message(b) == (MessageParse::Msg { m })) by {
        let parsed = spec_parse_message(b);
        match parsed {
            MessageParse::Msg { m: m2 } => {
                assert(m2 =~= m);
            },
            _ => {},
        }
    }
}

} // verus!
