//! A small CoAP subset: a verified wire-format codec for the fixed
//! header, token, delta-encoded option list and payload of a message, and a
//! small server that routes decoded GET requests to registered resources.

#![allow(unused_imports)]

use vstd::prelude::*;

pub mod header;
pub mod message;
pub mod request;
pub mod response;

use crate::message::header::{CoapHeader, CoapHeaderCode, CoapHeaderType};
use crate::message::option::{
    CoapOptionError, CoapOptionNumbers, CoapOptions, OptionModel, spec_options_encode_error,
};
use crate::message::{
    CoapMessage, CoapToken, MessageModel, MessageParse, spec_encode_message, spec_parse_message,
};

verus! {

/// Everything that can go wrong while building, encoding or decoding a
/// message, or while configuring the server.
#[derive(Debug, Clone, PartialEq)]
pub enum CoapError {
    /// The resource table is full, or a resource path is over 255 bytes.
    ConfigError,
    /// A single option could not be encoded or decoded.
    OptionError(crate::message::option::CoapOptionError),
    /// The option list could not be extended or drained.
    OptionsError(crate::message::option::CoapOptionError),
    /// The header code byte is outside the recognised table.
    HeaderError,
    /// A buffer is too short for what its header announces, a token or
    /// payload is over its bound, or a message does not fit its buffer.
    MessageError,
    /// The two version bits are not 1.
    WrongVersion,
    /// An Empty code together with a non-zero token length.
    MessageFormatError,
}

/// What a resource does when its endpoint is hit: produce one byte, and
/// nothing else the caller can see. `byte_spec` names that byte, so that the
/// dispatcher's contract can speak of it.
pub trait ResourceCallback {
    /// The byte this callback produces.
    spec fn byte_spec(&self) -> u8;

    /// Produces the byte.
    fn invoke(&self) -> (b: u8)
        ensures
            b == self.byte_spec(),
    ;
}

/// A callback that always answers one fixed byte.
#[derive(Clone, Copy, Debug, PartialEq, Eq, Structural)]
pub struct ByteCallback {
    pub byte: u8,
}

impl ResourceCallback for ByteCallback {
    open spec fn byte_spec(&self) -> u8 {
        self.byte
    }

    fn invoke(&self) -> (b: u8) {
        self.byte
    }
}

/// A resource: an endpoint path, such as `house/livingroom/temperature`,
/// and the callback run when a request reaches it.
#[derive(Clone, Debug)]
pub struct CoapResource<C> {
    pub callback: C,
    pub path: Vec<u8>,
}

impl<C: ResourceCallback> CoapResource<C> {
    /// A path within the 255-byte bound.
    pub open spec fn wf(self) -> bool {
        self.path@.len() <= 255
    }

    /// The endpoint path of this resource.
    pub fn get_path(&self) -> (p: Vec<u8>)
        ensures
            p@ == self.path@,
    {
        let mut p: Vec<u8> = Vec::new();
        let mut i: usize = 0;
        while i < self.path.len()
            invariant
                i <= self.path@.len(),
                p@ == self.path@.subrange(0, i as int),
            decreases self.path@.len() - i,
        {
            p.push(self.path[i]);
            i = i + 1;
            proof {
                assert(p@ =~= self.path@.subrange(0, i as int));
            }
        }
        proof {
            assert(self.path@.subrange(0, self.path@.len() as int) =~= self.path@);
        }
        p
    }

    /// The callback of this resource.
    pub fn callback(&self) -> (c: &C)
        ensures
            c == &self.callback,
    {
        &self.callback
    }
}

/// The server configuration: a table of at most eight resources, filled once
/// before serving starts.
pub struct CoapConfig<C> {
    pub resources: Vec<CoapResource<C>>,
}

impl<C: ResourceCallback> CoapConfig<C> {
    /// At most eight resources, every one of them well formed.
    pub open spec fn wf(self) -> bool {
        &&& self.resources@.len() <= 8
        &&& forall|i: int| 0 <= i < self.resources@.len() ==> self.resources@[i].wf()
    }

    /// An empty table.
    pub fn new() -> (r: CoapConfig<C>)
        ensures
            r.resources@.len() == 0,
            r.wf(),
    {
        CoapConfig { resources: Vec::new() }
    }

    /// Adds a resource. A ninth resource, or a path over 255 bytes, fails
    /// with `ConfigError` and leaves the table as it stands.
    pub fn add_resource(&mut self, cb: C, path: &[u8]) -> (r: Result<(), CoapError>)
        ensures
            old(self).resources@.len() < 8 && path@.len() <= 255 ==> {
                &&& r == Ok::<(), CoapError>(())
                &&& final(self).resources@.len() == old(self).resources@.len() + 1
                &&& final(self).resources@.last().path@ == path@
                &&& final(self).resources@.last().callback == cb
                &&& forall|i: int|
                    0 <= i < old(self).resources@.len() ==> final(self).resources@[i]
                        == old(self).resources@[i]
            },
            old(self).resources@.len() >= 8 || path@.len() > 255 ==> r == Err::<(), CoapError>(
                CoapError::ConfigError,
            ) && final(self).resources@ == old(self).resources@,
            old(self).wf() ==> final(self).wf(),
    {
        if path.len() > 255 {
            return Err(CoapError::ConfigError);
        }
        if self.resources.len() >= 8 {
            return Err(CoapError::ConfigError);
        }
        let mut p: Vec<u8> = Vec::new();
        let mut i: usize = 0;
        while i < path.len()
            invariant
                i <= path@.len(),
                p@ == path@.subrange(0, i as int),
            decreases path@.len() - i,
        {
            p.push(path[i]);
            i = i + 1;
            proof {
                assert(p@ =~= path@.subrange(0, i as int));
            }
        }
        proof {
            assert(path@.subrange(0, path@.len() as int) =~= path@);
        }
        let res = CoapResource { callback: cb, path: p };
        self.resources.push(res);
        Ok(())
    }
}

/// The request path named by a run of options: the values of the `UriPath`
/// options in encounter order, a `/` before every one but the first. `seen`
/// says whether a segment already stands to the left.
pub open spec fn spec_path_from(options: Seq<OptionModel>, seen: bool) -> Seq<u8>
    decreases options.len(),
{
    if options.len() == 0 {
        seq![]
    } else if options[0].number == CoapOptionNumbers::UriPath {
        (if seen {
            seq![47u8]
        } else {
            seq![]
        }) + options[0].data + spec_path_from(options.skip(1), true)
    } else {
        spec_path_from(options.skip(1), seen)
    }
}

/// The joined lookup path of a request.
pub open spec fn spec_request_path(options: Seq<OptionModel>) -> Seq<u8> {
    spec_path_from(options, false)
}

/// Whether a request carries any `UriPath` option at all.
pub open spec fn spec_has_uri_path(options: Seq<OptionModel>) -> bool {
    exists|i: int| 0 <= i < options.len() && options[i].number == CoapOptionNumbers::UriPath
}

/// The resource a path reaches: the last table entry whose path equals it,
/// as the table walk leaves the last match standing.
pub open spec fn spec_resource_match<C>(resources: Seq<CoapResource<C>>, path: Seq<u8>) -> Option<
    int,
>
    decreases resources.len(),
{
    if resources.len() == 0 {
        None
    } else if resources.last().path@ == path {
        Some(resources.len() - 1)
    } else {
        spec_resource_match(resources.drop_last(), path)
    }
}

/// The response type a request's own type calls for: a non-confirmable
/// request gets a non-confirmable answer, everything else an
/// acknowledgement.
pub open spec fn spec_reply_type(t: CoapHeaderType) -> CoapHeaderType {
    if t == CoapHeaderType::NonConfirmable {
        CoapHeaderType::NonConfirmable
    } else {
        CoapHeaderType::Acknowledgement
    }
}

/// A bare response to `req`: the given type and code under the request's
/// token length and message id, no token, no options, the given payload.
pub open spec fn spec_reply(
    req: MessageModel,
    t: CoapHeaderType,
    code: CoapHeaderCode,
    payload: Seq<u8>,
) -> MessageModel {
    MessageModel {
        header: CoapHeader {
            version: 1,
            t,
            tkl: req.header.tkl,
            code,
            message_id: req.header.message_id,
        },
        token: seq![],
        options: seq![],
        payload,
    }
}

/// What a GET is answered: without a `UriPath` option, or when no resource
/// path equals the joined request path, NotFound under an acknowledgement;
/// on a match, the matched callback's byte as Content, under the reply type
/// the request's type calls for — and no answer at all to a GET carried by
/// an acknowledgement or reset.
pub open spec fn spec_get_response<C: ResourceCallback>(
    resources: Seq<CoapResource<C>>,
    req: MessageModel,
) -> Option<MessageModel> {
    if !spec_has_uri_path(req.options) {
        Some(
            spec_reply(
                req,
                CoapHeaderType::Acknowledgement,
                CoapHeaderCode::NotFound,
                Seq::<u8>::empty(),
            ),
        )
    } else {
        match spec_resource_match(resources, spec_request_path(req.options)) {
            None => Some(
                spec_reply(
                    req,
                    CoapHeaderType::Acknowledgement,
                    CoapHeaderCode::NotFound,
                    Seq::<u8>::empty(),
                ),
            ),
            Some(i) => {
                if req.header.t == CoapHeaderType::Confirmable {
                    Some(
                        spec_reply(
                            req,
                            CoapHeaderType::Acknowledgement,
                            CoapHeaderCode::Content,
                            seq![resources[i].callback.byte_spec()],
                        ),
                    )
                } else if req.header.t == CoapHeaderType::NonConfirmable {
                    Some(
                        spec_reply(
                            req,
                            CoapHeaderType::NonConfirmable,
                            CoapHeaderCode::Content,
                            seq![resources[i].callback.byte_spec()],
                        ),
                    )
                } else {
                    None
                }
            },
        }
    }
}

/// What the server answers a decoded request, if anything: the dispatch
/// state machine. An Empty code is answered by a reset; a GET as
/// `spec_get_response` says; POST, PUT and DELETE, unimplemented in this
/// profile, by NotImplemented; every other code by MethodNotAllowed.
pub open spec fn spec_response<C: ResourceCallback>(
    resources: Seq<CoapResource<C>>,
    req: MessageModel,
) -> Option<MessageModel> {
    if req.header.code == CoapHeaderCode::EMPTY {
        Some(
            spec_reply(req, CoapHeaderType::Reset, CoapHeaderCode::EMPTY, Seq::<u8>::empty()),
        )
    } else if req.header.code == CoapHeaderCode::GET {
        spec_get_response(resources, req)
    } else if req.header.code == CoapHeaderCode::POST || req.header.code == CoapHeaderCode::PUT
        || req.header.code == CoapHeaderCode::DELETE {
        Some(
            spec_reply(
                req,
                spec_reply_type(req.header.t),
                CoapHeaderCode::NotImplemented,
                Seq::<u8>::empty(),
            ),
        )
    } else {
        Some(
            spec_reply(
                req,
                spec_reply_type(req.header.t),
                CoapHeaderCode::MethodNotAllowed,
                Seq::<u8>::empty(),
            ),
        )
    }
}

/// Two byte strings holding the same bytes.
fn bytes_eq(a: &Vec<u8>, b: &Vec<u8>) -> (r: bool)
    ensures
        r <==> a@ == b@,
{
    if a.len() != b.len() {
        proof {
            assert(a@.len() != b@.len());
        }
        return false;
    }
    let n = a.len();
    let mut i: usize = 0;
    while i < n
        invariant
            i <= n,
            n == a@.len(),
            a@.len() == b@.len(),
            forall|k: int| 0 <= k < i ==> a@[k] == b@[k],
        decreases n - i,
    {
        if a[i] != b[i] {
            return false;
        }
        i = i + 1;
    }
    proof {
        assert(a@ =~= b@);
    }
    true
}

/// The server: a filled configuration, read-only while serving.
pub struct CoapServer<C> {
    pub config: CoapConfig<C>,
}

/// Every reply the dispatcher builds is small enough that encoding it
/// cannot fail: no token bytes, no options, at most one payload byte.
proof fn lemma_reply_encodes(m: MessageModel)
    requires
        m.options.len() == 0,
        m.payload.len() <= 1,
        m.token.len() == 0,
    ensures
        (spec_options_encode_error(m.options, 0) is None),
        spec_encode_message(m).len() <= 6,
{
    assert(crate::message::option::spec_encode_options(m.options, 0) =~= Seq::<u8>::empty());
}

impl<C: ResourceCallback> CoapServer<C> {
    /// A server over the given configuration.
    pub fn new(config: CoapConfig<C>) -> (r: CoapServer<C>)
        ensures
            r.config == config,
    {
        CoapServer { config }
    }

    /// A bare response to the request: the given type and code under the
    /// request's token length and message id, and at most one payload byte.
    fn reply(msg: &CoapMessage, t: CoapHeaderType, code: CoapHeaderCode, payload_byte: Option<u8>) -> (r:
        CoapMessage)
        ensures
            r@ == spec_reply(
                msg@,
                t,
                code,
                match payload_byte {
                    Some(b) => seq![b],
                    None => Seq::<u8>::empty(),
                },
            ),
    {
        let header = CoapHeader {
            version: 1,
            t,
            tkl: msg.header.get_tkl(),
            code,
            message_id: msg.header.get_message_id(),
        };
        let mut payload: Vec<u8> = Vec::new();
        match payload_byte {
            Some(b) => {
                payload.push(b);
                proof {
                    assert(payload@ =~= seq![b]);
                }
            },
            None => {
                proof {
                    assert(payload@ =~= Seq::<u8>::empty());
                }
            },
        }
        let r = CoapMessage {
            header,
            token: CoapToken::new(),
            options: CoapOptions::new(),
            payload,
        };
        proof {
            assert(r@ =~= spec_reply(
                msg@,
                t,
                code,
                match payload_byte {
                    Some(b) => seq![b],
                    None => Seq::<u8>::empty(),
                },
            ));
        }
        r
    }

    /// Answers a decoded GET as `spec_get_response` says, invoking the
    /// matched resource's callback.
    fn handle_get(&self, msg: &CoapMessage) -> (r: Option<CoapMessage>)
        requires
            msg.wf(),
        ensures
            (match spec_get_response(self.config.resources@, msg@) {
                Some(m) => r matches Some(resp) && resp@ == m,
                None => r is None,
            }),
    {
        let ghost opts = msg@.options;
        let mut uri_path: Vec<u8> = Vec::new();
        let mut segments: usize = 0;
        let mut i: usize = 0;
        proof {
            assert(opts.skip(0) =~= opts);
        }
        while i < msg.options.options.len()
            invariant
                msg.options@ == opts,
                i <= opts.len(),
                opts.len() <= 10,
                segments <= i,
                msg.wf(),
                uri_path@.len() <= 256 * i,
                segments > 0 ==> spec_has_uri_path(opts),
                segments == 0 ==> (forall|k: int|
                    0 <= k < i ==> (#[trigger] opts[k]).number != CoapOptionNumbers::UriPath),
                spec_request_path(opts) == uri_path@ + spec_path_from(
                    opts.skip(i as int),
                    segments > 0,
                ),
            decreases opts.len() - i,
        {
            let opt = &msg.options.options[i];
            proof {
                assert(opts.skip(i as int)[0] == opts[i as int]);
                assert(opt@ == opts[i as int]);
                assert(opts.skip(i as int).skip(1) =~= opts.skip(i + 1));
            }
            let ghost uri_before = uri_path@;
            let ghost seen_before = segments > 0;
            match opt.get_option_number() {
                CoapOptionNumbers::UriPath => {
                    if segments != 0 {
                        uri_path.push(47);
                    }
                    let mut k: usize = 0;
                    let ghost with_sep = if seen_before {
                        uri_before + seq![47u8]
                    } else {
                        uri_before
                    };
                    proof {
                        assert(uri_path@ =~= with_sep);
                    }
                    while k < opt.data.len()
                        invariant
                            k <= opt.data@.len(),
                            uri_path@ == with_sep + opt.data@.subrange(0, k as int),
                        decreases opt.data@.len() - k,
                    {
                        uri_path.push(opt.data[k]);
                        k = k + 1;
                        proof {
                            assert(uri_path@ =~= with_sep + opt.data@.subrange(0, k as int));
                        }
                    }
                    segments = segments + 1;
                    proof {
                        assert(opt.data@.subrange(0, opt.data@.len() as int) =~= opt.data@);
                        assert(opts[i as int].number == CoapOptionNumbers::UriPath);
                        assert(spec_has_uri_path(opts));
                        assert(uri_path@ =~= uri_before + ((if seen_before {
                            seq![47u8]
                        } else {
                            Seq::<u8>::empty()
                        }) + opts[i as int].data));
                        assert(msg.options.options@[i as int].wf());
                        assert(opts[i as int].data.len() <= 255);
                    }
                },
                _ => {
                    proof {
                        assert(opts[i as int].number != CoapOptionNumbers::UriPath);
                    }
                },
            }
            i = i + 1;
        }
        proof {
            assert(opts.skip(opts.len() as int) =~= Seq::<OptionModel>::empty());
            assert(spec_request_path(opts) =~= uri_path@);
            if segments == 0 {
                assert(!spec_has_uri_path(opts));
            }
        }
        let ghost resources = self.config.resources@;
        let mut matched: Option<usize> = None;
        let mut j: usize = 0;
        proof {
            assert(resources.take(0) =~= Seq::<CoapResource<C>>::empty());
        }
        while j < self.config.resources.len()
            invariant
                self.config.resources@ == resources,
                j <= resources.len(),
                (matched matches Some(mk) ==> mk < j),
                (match spec_resource_match(resources.take(j as int), uri_path@) {
                    Option::None => matched is None,
                    Option::Some(ix) => matched matches Some(mk) && mk == ix,
                }),
            decreases resources.len() - j,
        {
            proof {
                assert(resources.take(j + 1).last() == resources[j as int]);
                assert(resources.take(j + 1).drop_last() =~= resources.take(j as int));
            }
            if bytes_eq(&self.config.resources[j].path, &uri_path) {
                matched = Some(j);
            }
            j = j + 1;
        }
        proof {
            assert(resources.take(resources.len() as int) =~= resources);
        }
        if segments == 0 {
            return Some(
                CoapServer::<C>::reply(
                    msg,
                    CoapHeaderType::Acknowledgement,
                    CoapHeaderCode::NotFound,
                    None,
                ),
            );
        }
        match matched {
            None => Some(
                CoapServer::<C>::reply(
                    msg,
                    CoapHeaderType::Acknowledgement,
                    CoapHeaderCode::NotFound,
                    None,
                ),
            ),
            Some(ix) => {
                match msg.header.get_type() {
                    CoapHeaderType::Confirmable => {
                        let b = self.config.resources[ix].callback.invoke();
                        Some(
                            CoapServer::<C>::reply(
                                msg,
                                CoapHeaderType::Acknowledgement,
                                CoapHeaderCode::Content,
                                Some(b),
                            ),
                        )
                    },
                    CoapHeaderType::NonConfirmable => {
                        let b = self.config.resources[ix].callback.invoke();
                        Some(
                            CoapServer::<C>::reply(
                                msg,
                                CoapHeaderType::NonConfirmable,
                                CoapHeaderCode::Content,
                                Some(b),
                            ),
                        )
                    },
                    _ => None,
                }
            },
        }
    }

    /// Decodes an inbound buffer, dispatches it, and encodes the response:
    /// the response bytes, `None` where the state machine answers nothing,
    /// or the decode failure, which the caller drops or reports. No decode
    /// failure ever stops the server itself.
    pub fn handle_message(&self, msg: &[u8]) -> (r: Result<Option<Vec<u8>>, CoapError>)
        ensures
            (match spec_parse_message(msg@) {
                MessageParse::Msg { m } => (match spec_response(self.config.resources@, m) {
                    Some(resp) => r matches Ok(Some(v)) && v@ == spec_encode_message(resp),
                    None => r == Ok::<Option<Vec<u8>>, CoapError>(None),
                }),
                MessageParse::MsgTooManyOptions => r matches Err(e) && (e
                    matches CoapError::OptionsError(CoapOptionError::PushError(_))),
                fail => r == Err::<Option<Vec<u8>>, CoapError>(
                    crate::message::spec_message_failure_error(fail),
                ),
            }),
    {
        let request = match CoapMessage::decode(msg) {
            Ok(m) => m,
            Err(e) => {
                return Err(e);
            },
        };
        let response: Option<CoapMessage> = match request.header.get_code() {
            CoapHeaderCode::EMPTY => Some(
                CoapServer::<C>::reply(
                    &request,
                    CoapHeaderType::Reset,
                    CoapHeaderCode::EMPTY,
                    None,
                ),
            ),
            CoapHeaderCode::GET => self.handle_get(&request),
            CoapHeaderCode::POST => Some(
                CoapServer::<C>::reply(
                    &request,
                    CoapServer::<C>::reply_type(&request),
                    CoapHeaderCode::NotImplemented,
                    None,
                ),
            ),
            CoapHeaderCode::PUT => Some(
                CoapServer::<C>::reply(
                    &request,
                    CoapServer::<C>::reply_type(&request),
                    CoapHeaderCode::NotImplemented,
                    None,
                ),
            ),
            CoapHeaderCode::DELETE => Some(
                CoapServer::<C>::reply(
                    &request,
                    CoapServer::<C>::reply_type(&request),
                    CoapHeaderCode::NotImplemented,
                    None,
                ),
            ),
            _ => Some(
                CoapServer::<C>::reply(
                    &request,
                    CoapServer::<C>::reply_type(&request),
                    CoapHeaderCode::MethodNotAllowed,
                    None,
                ),
            ),
        };
        match response {
            None => Ok(None),
            Some(resp) => {
                proof {
                    lemma_reply_encodes(resp@);
                }
                match resp.encode() {
                    Ok(encoded) => Ok(Some(encoded.0)),
                    Err(e) => {
                        proof {
                            assert(false);
                        }
                        Err(e)
                    },
                }
            },
        }
    }

    /// The reply type the request's own type calls for.
    fn reply_type(msg: &CoapMessage) -> (t: CoapHeaderType)
        ensures
            t == spec_reply_type(msg@.header.t),
    {
        match msg.header.get_type() {
            CoapHeaderType::NonConfirmable => CoapHeaderType::NonConfirmable,
            _ => CoapHeaderType::Acknowledgement,
        }
    }
}

} // verus!
