//! Single options and the bounded option list, with their delta/length
//! prefixed wire form: one byte holding two four-bit selectors, optional
//! extension bytes, then the value bytes.

use vstd::prelude::*;

use crate::CoapError;

verus! {

/// What can go wrong around a single option or the option list.
#[derive(Debug, Clone, PartialEq)]
pub enum CoapOptionError {
    /// The eleventh push into the ten-slot list; carries the rejected option.
    PushError(CoapOption),
    /// A pop from an empty list.
    PopError,
    /// A reserved delta selector; carries the raw selector.
    DeltaError(u8),
    /// A reserved length selector; carries the raw selector.
    LengthError(u8),
    /// Options handed to the encoder out of ascending numeric order.
    WrongOptionOrder,
    /// A value too long, or a decoded delta or length too large, for this
    /// profile.
    Overflow,
}

/// The option numbers this profile knows. `Unrecognized` keeps any other
/// number a decoder meets, so that no wire value is unrepresentable.
#[derive(Clone, Copy, Debug, PartialEq, Eq, Structural)]
pub enum CoapOptionNumbers {
    Zero,
    IfMatch,
    UriHost,
    ETag,
    IfNoneMatch,
    UriPort,
    LocationPath,
    UriPath,
    ContentFormat,
    MaxAge,
    UriQuery,
    Accept,
    LocationQuery,
    ProxyUri,
    ProxyScheme,
    Size1,
    Unrecognized(u8),
}

impl CoapOptionNumbers {
    /// The numeric value of an option number.
    pub open spec fn spec_number(self) -> u8 {
        match self {
            CoapOptionNumbers::Zero => 0,
            CoapOptionNumbers::IfMatch => 1,
            CoapOptionNumbers::UriHost => 3,
            CoapOptionNumbers::ETag => 4,
            CoapOptionNumbers::IfNoneMatch => 5,
            CoapOptionNumbers::UriPort => 7,
            CoapOptionNumbers::LocationPath => 8,
            CoapOptionNumbers::UriPath => 11,
            CoapOptionNumbers::ContentFormat => 12,
            CoapOptionNumbers::MaxAge => 14,
            CoapOptionNumbers::UriQuery => 15,
            CoapOptionNumbers::Accept => 17,
            CoapOptionNumbers::LocationQuery => 20,
            CoapOptionNumbers::ProxyUri => 35,
            CoapOptionNumbers::ProxyScheme => 39,
            CoapOptionNumbers::Size1 => 60,
            CoapOptionNumbers::Unrecognized(n) => n,
        }
    }

    /// The option number named by a numeric value; a value outside the table
    /// keeps its raw byte.
    pub open spec fn spec_of_number(n: u8) -> CoapOptionNumbers {
        if n == 0 {
            CoapOptionNumbers::Zero
        } else if n == 1 {
            CoapOptionNumbers::IfMatch
        } else if n == 3 {
            CoapOptionNumbers::UriHost
        } else if n == 4 {
            CoapOptionNumbers::ETag
        } else if n == 5 {
            CoapOptionNumbers::IfNoneMatch
        } else if n == 7 {
            CoapOptionNumbers::UriPort
        } else if n == 8 {
            CoapOptionNumbers::LocationPath
        } else if n == 11 {
            CoapOptionNumbers::UriPath
        } else if n == 12 {
            CoapOptionNumbers::ContentFormat
        } else if n == 14 {
            CoapOptionNumbers::MaxAge
        } else if n == 15 {
            CoapOptionNumbers::UriQuery
        } else if n == 17 {
            CoapOptionNumbers::Accept
        } else if n == 20 {
            CoapOptionNumbers::LocationQuery
        } else if n == 35 {
            CoapOptionNumbers::ProxyUri
        } else if n == 39 {
            CoapOptionNumbers::ProxyScheme
        } else if n == 60 {
            CoapOptionNumbers::Size1
        } else {
            CoapOptionNumbers::Unrecognized(n)
        }
    }

    /// A number in the shape the decoder produces: named where the table
    /// names it, `Unrecognized` only elsewhere.
    pub open spec fn canonical(self) -> bool {
        CoapOptionNumbers::spec_of_number(self.spec_number()) == self
    }

    pub fn to_number(self) -> (n: u8)
        ensures
            n == self.spec_number(),
    {
        match self {
            CoapOptionNumbers::Zero => 0,
            CoapOptionNumbers::IfMatch => 1,
            CoapOptionNumbers::UriHost => 3,
            CoapOptionNumbers::ETag => 4,
            CoapOptionNumbers::IfNoneMatch => 5,
            CoapOptionNumbers::UriPort => 7,
            CoapOptionNumbers::LocationPath => 8,
            CoapOptionNumbers::UriPath => 11,
            CoapOptionNumbers::ContentFormat => 12,
            CoapOptionNumbers::MaxAge => 14,
            CoapOptionNumbers::UriQuery => 15,
            CoapOptionNumbers::Accept => 17,
            CoapOptionNumbers::LocationQuery => 20,
            CoapOptionNumbers::ProxyUri => 35,
            CoapOptionNumbers::ProxyScheme => 39,
            CoapOptionNumbers::Size1 => 60,
            CoapOptionNumbers::Unrecognized(n) => n,
        }
    }

    pub fn from_number(n: u8) -> (o: CoapOptionNumbers)
        ensures
            o == CoapOptionNumbers::spec_of_number(n),
            o.canonical(),
    {
        let o = match n {
            0 => CoapOptionNumbers::Zero,
            1 => CoapOptionNumbers::IfMatch,
            3 => CoapOptionNumbers::UriHost,
            4 => CoapOptionNumbers::ETag,
            5 => CoapOptionNumbers::IfNoneMatch,
            7 => CoapOptionNumbers::UriPort,
            8 => CoapOptionNumbers::LocationPath,
            11 => CoapOptionNumbers::UriPath,
            12 => CoapOptionNumbers::ContentFormat,
            14 => CoapOptionNumbers::MaxAge,
            15 => CoapOptionNumbers::UriQuery,
            17 => CoapOptionNumbers::Accept,
            20 => CoapOptionNumbers::LocationQuery,
            35 => CoapOptionNumbers::ProxyUri,
            39 => CoapOptionNumbers::ProxyScheme,
            60 => CoapOptionNumbers::Size1,
            _ => CoapOptionNumbers::Unrecognized(n),
        };
        o
    }
}

/// One option: a number and a value of at most 255 bytes.
#[derive(Clone, Debug, PartialEq)]
pub struct CoapOption {
    pub option: CoapOptionNumbers,
    pub data: Vec<u8>,
}

/// What an option is mathematically: its number and its value bytes.
#[verifier::ext_equal]
pub struct OptionModel {
    pub number: CoapOptionNumbers,
    pub data: Seq<u8>,
}

impl View for CoapOption {
    type V = OptionModel;

    open spec fn view(&self) -> OptionModel {
        OptionModel { number: self.option, data: self.data@ }
    }
}

/// The four-bit selector for a delta or length value: the value itself up to
/// 12, else 13 with the rest in an extension byte. (Selector 14, the two-byte
/// extension, is never needed on encode: deltas fit one byte and values stop
/// at 254 bytes.)
pub open spec fn spec_selector(v: nat) -> u8
    recommends
        v <= 268,
{
    if v <= 12 {
        v as u8
    } else {
        13
    }
}

/// The extension bytes a delta or length value needs: none up to 12, else
/// one holding the value less 13.
pub open spec fn spec_ext_bytes(v: nat) -> Seq<u8>
    recommends
        v <= 268,
{
    if v <= 12 {
        seq![]
    } else {
        seq![(v - 13) as u8]
    }
}

/// The wire bytes of one option standing after an option with number
/// `prev`: the selector byte, the delta and length extension bytes, then the
/// value.
pub open spec fn spec_encode_option(number: u8, data: Seq<u8>, prev: u8) -> Seq<u8>
    recommends
        prev <= number,
        data.len() <= 254,
{
    let delta = (number - prev) as nat;
    seq![(spec_selector(delta) * 16 + spec_selector(data.len())) as u8] + spec_ext_bytes(delta)
        + spec_ext_bytes(data.len()) + data
}

/// The outcome of reading one option at the head of a buffer.
#[verifier::ext_equal]
pub enum OptionParse {
    /// An option was read: its absolute number, its value bytes, and how
    /// many bytes of the buffer it covered.
    Parsed { number: u8, data: Seq<u8>, used: nat },
    /// The buffer ends before the bytes its selectors announce.
    Truncated,
    /// The reserved delta selector 15.
    BadDeltaSelector { sel: u8 },
    /// The reserved length selector 15.
    BadLengthSelector { sel: u8 },
    /// A delta or length beyond what this profile can hold: an option number
    /// over 255, or a value over 255 bytes.
    TooLarge,
}

/// Reads one option at the head of `b`, the previous option's number being
/// `prev`: both selectors are resolved through the 0..=12 / 13 / 14 ladder,
/// the absolute number is `prev` plus the delta, and the value is copied out.
pub open spec fn spec_parse_option(prev: u8, b: Seq<u8>) -> OptionParse {
    if b.len() < 1 {
        OptionParse::Truncated
    } else {
        let sd = b[0] / 16;
        let sl = b[0] % 16;
        if sd == 15 {
            OptionParse::BadDeltaSelector { sel: 15 }
        } else if sd == 14 {
            // a two-byte delta extension means a delta of at least 269
            OptionParse::TooLarge
        } else {
            let dext: nat = if sd == 13 {
                1nat
            } else {
                0nat
            };
            if b.len() < 1 + dext {
                OptionParse::Truncated
            } else {
                let delta: nat = if sd == 13 {
                    (b[1] + 13) as nat
                } else {
                    sd as nat
                };
                if prev + delta > 255 {
                    OptionParse::TooLarge
                } else if sl == 15 {
                    OptionParse::BadLengthSelector { sel: 15 }
                } else if sl == 14 {
                    // a two-byte length extension means a length of at least 269
                    OptionParse::TooLarge
                } else {
                    let lext: nat = if sl == 13 {
                        1nat
                    } else {
                        0nat
                    };
                    if b.len() < 1 + dext + lext {
                        OptionParse::Truncated
                    } else {
                        let len: nat = if sl == 13 {
                            (b[1 + dext as int] + 13) as nat
                        } else {
                            sl as nat
                        };
                        if len > 255 {
                            OptionParse::TooLarge
                        } else if b.len() < 1 + dext + lext + len {
                            OptionParse::Truncated
                        } else {
                            OptionParse::Parsed {
                                number: (prev + delta) as u8,
                                data: b.subrange(
                                    (1 + dext + lext) as int,
                                    (1 + dext + lext + len) as int,
                                ),
                                used: 1 + dext + lext + len,
                            }
                        }
                    }
                }
            }
        }
    }
}

/// The error each failed read is reported as.
pub open spec fn spec_parse_failure_error(fail: OptionParse) -> CoapError {
    match fail {
        OptionParse::Parsed { .. } => arbitrary(),
        OptionParse::Truncated => CoapError::MessageError,
        OptionParse::BadDeltaSelector { sel } => CoapError::OptionError(
            CoapOptionError::DeltaError(sel),
        ),
        OptionParse::BadLengthSelector { sel } => CoapError::OptionError(
            CoapOptionError::LengthError(sel),
        ),
        OptionParse::TooLarge => CoapError::OptionError(CoapOptionError::Overflow),
    }
}

impl CoapOption {
    /// A value within the 255-byte profile bound, under a canonical number.
    pub open spec fn wf(self) -> bool {
        &&& self.data@.len() <= 255
        &&& self.option.canonical()
    }

    /// Builds an option. The number is brought to its canonical shape, so a
    /// recognised numeric value always gets its name.
    pub fn new(option: CoapOptionNumbers, data: &[u8]) -> (r: CoapOption)
        requires
            data@.len() <= 255,
        ensures
            r@.number == CoapOptionNumbers::spec_of_number(option.spec_number()),
            r@.data == data@,
            r.wf(),
            option.canonical() ==> r@.number == option,
    {
        let number = CoapOptionNumbers::from_number(option.to_number());
        let mut d: Vec<u8> = Vec::new();
        let mut i: usize = 0;
        while i < data.len()
            invariant
                i <= data@.len(),
                d@ == data@.subrange(0, i as int),
            decreases data@.len() - i,
        {
            d.push(data[i]);
            i = i + 1;
            proof {
                assert(d@ =~= data@.subrange(0, i as int));
            }
        }
        proof {
            assert(data@.subrange(0, data@.len() as int) =~= data@);
        }
        CoapOption { option: number, data: d }
    }

    pub fn get_option_number(&self) -> (n: CoapOptionNumbers)
        ensures
            n == self@.number,
    {
        self.option
    }

    pub fn get_option_data(&self) -> (d: Vec<u8>)
        ensures
            d@ == self@.data,
    {
        let mut d: Vec<u8> = Vec::new();
        let mut i: usize = 0;
        while i < self.data.len()
            invariant
                i <= self.data@.len(),
                d@ == self.data@.subrange(0, i as int),
            decreases self.data@.len() - i,
        {
            d.push(self.data[i]);
            i = i + 1;
            proof {
                assert(d@ =~= self.data@.subrange(0, i as int));
            }
        }
        proof {
            assert(self.data@.subrange(0, self.data@.len() as int) =~= self.data@);
        }
        d
    }

    /// Writes this option's wire bytes, its delta taken from `prev_option`:
    /// the filled buffer and its length. Fails with `WrongOptionOrder` when
    /// this option's number is below the previous one, and with `Overflow`
    /// when the value is over 254 bytes.
    pub fn encode(&self, prev_option: CoapOptionNumbers) -> (r: Result<(Vec<u8>, usize), CoapError>)
        ensures
            prev_option.spec_number() > self@.number.spec_number() ==> r == Err::<
                (Vec<u8>, usize),
                CoapError,
            >(CoapError::OptionError(CoapOptionError::WrongOptionOrder)),
            prev_option.spec_number() <= self@.number.spec_number() && self@.data.len() > 254
                ==> r == Err::<(Vec<u8>, usize), CoapError>(
                CoapError::OptionError(CoapOptionError::Overflow),
            ),
            prev_option.spec_number() <= self@.number.spec_number() && self@.data.len() <= 254 ==> (
            r matches Ok((v, n)) && v@ == spec_encode_option(
                self@.number.spec_number(),
                self@.data,
                prev_option.spec_number(),
            ) && n == v@.len()),
    {
        let o: u8 = self.option.to_number();
        let po: u8 = prev_option.to_number();
        // options must reach the encoder in ascending numeric order
        if po > o {
            return Err(CoapError::OptionError(CoapOptionError::WrongOptionOrder));
        }
        let option_delta: u8 = o - po;
        if self.data.len() > 254 {
            return Err(CoapError::OptionError(CoapOptionError::Overflow));
        }
        let option_length: u8 = self.data.len() as u8;
        let mut v: Vec<u8> = Vec::new();
        let delta_selector: u8 = if option_delta <= 12 {
            option_delta
        } else {
            13
        };
        let length_selector: u8 = if option_length <= 12 {
            option_length
        } else {
            13
        };
        v.push(delta_selector * 16 + length_selector);
        if option_delta > 12 {
            v.push(option_delta - 13);
        }
        if option_length > 12 {
            v.push(option_length - 13);
        }
        let ghost head = seq![
            (spec_selector((option_delta as nat)) * 16 + spec_selector(self@.data.len())) as u8,
        ] + spec_ext_bytes(option_delta as nat) + spec_ext_bytes(self@.data.len());
        proof {
            assert(v@ =~= head);
        }
        let mut i: usize = 0;
        while i < self.data.len()
            invariant
                i <= self.data@.len(),
                v@ == head + self.data@.subrange(0, i as int),
            decreases self.data@.len() - i,
        {
            v.push(self.data[i]);
            i = i + 1;
            proof {
                assert(v@ =~= head + self.data@.subrange(0, i as int));
            }
        }
        let n = v.len();
        proof {
            assert(self.data@.subrange(0, self.data@.len() as int) =~= self.data@);
            assert(v@ =~= spec_encode_option(
                self@.number.spec_number(),
                self@.data,
                prev_option.spec_number(),
            ));
        }
        Ok((v, n))
    }

    /// Reads one option at the head of `buf`, resolving both selectors and
    /// copying the value bytes; also reports how many bytes it covered.
    fn decode_one(prev: u8, buf: &[u8]) -> (r: Result<(CoapOption, usize), CoapError>)
        ensures
            (match spec_parse_option(prev, buf@) {
                OptionParse::Parsed { number, data, used } => r matches Ok((o, u))
                    && o@.number == CoapOptionNumbers::spec_of_number(number) && o@.data == data
                    && o.wf() && u == used,
                fail => r == Err::<(CoapOption, usize), CoapError>(spec_parse_failure_error(fail)),
            }),
            r matches Ok((o, u)) ==> 1 <= u <= buf@.len(),
    {
        if buf.len() < 1 {
            return Err(CoapError::MessageError);
        }
        let b0 = buf[0];
        let delta_selector: u8 = b0 / 16;
        let length_selector: u8 = b0 % 16;
        if delta_selector == 15 {
            return Err(CoapError::OptionError(CoapOptionError::DeltaError(15)));
        }
        if delta_selector == 14 {
            return Err(CoapError::OptionError(CoapOptionError::Overflow));
        }
        let delta_ext: usize = if delta_selector == 13 {
            1
        } else {
            0
        };
        if buf.len() < 1 + delta_ext {
            return Err(CoapError::MessageError);
        }
        let delta: u16 = if delta_selector == 13 {
            buf[1] as u16 + 13
        } else {
            delta_selector as u16
        };
        if prev as u16 + delta > 255 {
            return Err(CoapError::OptionError(CoapOptionError::Overflow));
        }
        let number: u8 = (prev as u16 + delta) as u8;
        if length_selector == 15 {
            return Err(CoapError::OptionError(CoapOptionError::LengthError(15)));
        }
        if length_selector == 14 {
            return Err(CoapError::OptionError(CoapOptionError::Overflow));
        }
        let length_ext: usize = if length_selector == 13 {
            1
        } else {
            0
        };
        if buf.len() < 1 + delta_ext + length_ext {
            return Err(CoapError::MessageError);
        }
        let length: usize = if length_selector == 13 {
            buf[1 + delta_ext] as usize + 13
        } else {
            length_selector as usize
        };
        if length > 255 {
            return Err(CoapError::OptionError(CoapOptionError::Overflow));
        }
        if buf.len() < 1 + delta_ext + length_ext + length {
            return Err(CoapError::MessageError);
        }
        let start: usize = 1 + delta_ext + length_ext;
        let buf_len: usize = buf.len();
        let mut data: Vec<u8> = Vec::new();
        let mut i: usize = 0;
        while i < length
            invariant
                i <= length,
                start + length <= buf_len,
                buf_len == buf@.len(),
                data@ == buf@.subrange(start as int, start + i),
            decreases length - i,
        {
            data.push(buf[start + i]);
            i = i + 1;
            proof {
                assert(data@ =~= buf@.subrange(start as int, start + i));
            }
        }
        let option = CoapOptionNumbers::from_number(number);
        Ok((CoapOption { option, data }, start + length))
    }

    /// Reads one option at the head of `buf`, the previous option's number
    /// being `prev_option_number`.
    pub fn decode(prev_option_number: u8, buf: &[u8]) -> (r: Result<CoapOption, CoapError>)
        ensures
            (match spec_parse_option(prev_option_number, buf@) {
                OptionParse::Parsed { number, data, used } => r matches Ok(o) && o@.number
                    == CoapOptionNumbers::spec_of_number(number) && o@.data == data && o.wf(),
                fail => r == Err::<CoapOption, CoapError>(spec_parse_failure_error(fail)),
            }),
    {
        match CoapOption::decode_one(prev_option_number, buf) {
            Ok((option, _used)) => Ok(option),
            Err(e) => Err(e),
        }
    }
}

/// The ordered option list of one message, bounded at ten entries.
#[derive(Clone, Debug, PartialEq)]
pub struct CoapOptions {
    pub options: Vec<CoapOption>,
}

impl View for CoapOptions {
    type V = Seq<OptionModel>;

    open spec fn view(&self) -> Seq<OptionModel> {
        self.options@.map_values(|o: CoapOption| o@)
    }
}

/// How many options one message can carry.
pub const MAX_OPTIONS: usize = 10;

/// The outcome of reading a whole option run, up to the payload marker or
/// the end of the buffer.
#[verifier::ext_equal]
pub enum OptionsParse {
    /// Every option read, in order, and the bytes they covered together.
    Options { options: Seq<OptionModel>, used: nat },
    /// Reading one option failed; carries that outcome.
    Failed { fail: OptionParse },
    /// More options than the ten-slot list holds.
    TooMany,
}

/// Reads options from the head of `b` until the payload marker or the end of
/// the buffer, each option's delta resolved against the number of the one
/// before it; `room` slots are left in the list.
pub open spec fn spec_parse_options(prev: u8, b: Seq<u8>, room: nat) -> OptionsParse
    decreases b.len(),
{
    if b.len() == 0 || b[0] == 0xFF {
        OptionsParse::Options { options: seq![], used: 0 }
    } else {
        match spec_parse_option(prev, b) {
            OptionParse::Parsed { number, data, used } => {
                if room == 0 {
                    OptionsParse::TooMany
                } else {
                    match spec_parse_options(number, b.skip(used as int), (room - 1) as nat) {
                        OptionsParse::Options { options, used: tail_used } => {
                            OptionsParse::Options {
                                options: seq![
                                    OptionModel {
                                        number: CoapOptionNumbers::spec_of_number(number),
                                        data,
                                    },
                                ] + options,
                                used: used + tail_used,
                            }
                        },
                        other => other,
                    }
                }
            },
            fail => OptionsParse::Failed { fail },
        }
    }
}

/// A run already read, standing before the outcome of the rest of the
/// buffer.
pub open spec fn spec_options_prepend(
    pre: Seq<OptionModel>,
    pre_used: nat,
    sub: OptionsParse,
) -> OptionsParse {
    match sub {
        OptionsParse::Options { options, used } => OptionsParse::Options {
            options: pre + options,
            used: pre_used + used,
        },
        other => other,
    }
}

impl CoapOptions {
    /// At most ten options, every one of them well formed.
    pub open spec fn wf(self) -> bool {
        &&& self@.len() <= 10
        &&& forall|i: int| 0 <= i < self.options@.len() ==> self.options@[i].wf()
    }

    /// An empty list.
    pub fn new() -> (r: CoapOptions)
        ensures
            r@ == Seq::<OptionModel>::empty(),
            r.wf(),
    {
        let r = CoapOptions { options: Vec::new() };
        proof {
            assert(r@ =~= Seq::<OptionModel>::empty());
        }
        r
    }

    /// How many options the list holds.
    pub fn len(&self) -> (n: usize)
        ensures
            n == self@.len(),
    {
        self.options.len()
    }

    /// Appends an option; the eleventh push fails with `PushError` carrying
    /// the rejected option, and leaves the list as it stands.
    pub fn push(&mut self, option: CoapOption) -> (r: Result<(), CoapError>)
        ensures
            old(self)@.len() < 10 ==> r == Ok::<(), CoapError>(()) && final(self)@ == old(
                self,
            )@.push(option@),
            old(self)@.len() >= 10 ==> r == Err::<(), CoapError>(
                CoapError::OptionsError(CoapOptionError::PushError(option)),
            ) && final(self)@ == old(self)@,
            old(self).wf() && option.wf() ==> final(self).wf(),
    {
        if self.options.len() >= MAX_OPTIONS {
            return Err(CoapError::OptionsError(CoapOptionError::PushError(option)));
        }
        self.options.push(option);
        proof {
            assert(final(self)@ =~= old(self)@.push(option@));
        }
        Ok(())
    }

    /// Removes and returns the last option; fails with `PopError` on an
    /// empty list.
    pub fn pop(&mut self) -> (r: Result<CoapOption, CoapError>)
        ensures
            old(self)@.len() == 0 ==> r == Err::<CoapOption, CoapError>(
                CoapError::OptionsError(CoapOptionError::PopError),
            ) && final(self)@ == old(self)@,
            old(self)@.len() > 0 ==> (r matches Ok(o) && o@ == old(self)@.last() && final(self)@
                == old(self)@.drop_last()),
            old(self).wf() ==> final(self).wf(),
    {
        if self.options.len() == 0 {
            return Err(CoapError::OptionsError(CoapOptionError::PopError));
        }
        let o = self.options.pop().unwrap();
        proof {
            assert(final(self)@ =~= old(self)@.drop_last());
        }
        Ok(o)
    }

    /// Reads options from the head of `buf` until the payload marker or the
    /// end of the buffer: the filled list and the index where the unread
    /// tail begins (at the marker, or at the buffer's end).
    pub fn decode(buf: &[u8]) -> (r: Result<(CoapOptions, usize), CoapError>)
        ensures
            (match spec_parse_options(0, buf@, 10) {
                OptionsParse::Options { options, used } => r matches Ok((opts, idx)) && opts@
                    == options && opts.wf() && idx == used && idx <= buf@.len(),
                OptionsParse::Failed { fail } => r == Err::<(CoapOptions, usize), CoapError>(
                    spec_parse_failure_error(fail),
                ),
                OptionsParse::TooMany => r matches Err(e) && (e matches CoapError::OptionsError(
                    CoapOptionError::PushError(_),
                )),
            }),
    {
        let buf_len: usize = buf.len();
        let mut options = CoapOptions::new();
        let mut idx: usize = 0;
        let mut prev: u8 = 0;
        proof {
            assert(buf@.skip(0) =~= buf@);
            match spec_parse_options(0, buf@, 10) {
                OptionsParse::Options { options: o, used: u } => {
                    assert(Seq::<OptionModel>::empty() + o =~= o);
                },
                _ => {},
            }
        }
        loop
            invariant
                idx <= buf_len,
                buf_len == buf@.len(),
                options.wf(),
                spec_parse_options(0, buf@, 10) == spec_options_prepend(
                    options@,
                    idx as nat,
                    spec_parse_options(prev, buf@.skip(idx as int), (10 - options@.len()) as nat),
                ),
            decreases buf@.len() - idx,
        {
            if idx >= buf_len || buf[idx] == 0xFF {
                return Ok((options, idx));
            }
            let ghost sub = buf@.skip(idx as int);
            let ghost old_opts = options@;
            let ghost room = (10 - options@.len()) as nat;
            proof {
                assert(sub =~= buf@.subrange(idx as int, buf_len as int));
                assert(sub[0] == buf@[idx as int]);
            }
            match CoapOption::decode_one(prev, &buf[idx..buf_len]) {
                Err(e) => {
                    return Err(e);
                },
                Ok((option, used)) => {
                    let ghost m = option@;
                    let number = option.get_option_number().to_number();
                    proof {
                        // the absolute number survives the trip through the
                        // canonical name
                        assert(CoapOptionNumbers::spec_of_number(number).spec_number() == number);
                    }
                    let pushed = options.push(option);
                    match pushed {
                        Err(e) => {
                            // spec side: no room left for the option just read
                            return Err(e);
                        },
                        Ok(()) => {},
                    }
                    proof {
                        let pn = match spec_parse_option(prev, sub) {
                            OptionParse::Parsed { number: pn, .. } => pn,
                            _ => arbitrary(),
                        };
                        assert(pn == number);
                        assert(options@ =~= old_opts + seq![m]);
                        assert(sub.skip(used as int) =~= buf@.skip(idx + used));
                        match spec_parse_options(number, buf@.skip(idx + used), (room - 1) as nat) {
                            OptionsParse::Options { options: o2, used: u2 } => {
                                assert(old_opts + (seq![m] + o2) =~= (old_opts + seq![m]) + o2);
                            },
                            _ => {},
                        }
                    }
                    idx = idx + used;
                    prev = number;
                },
            }
        }
    }
}

/// The wire bytes of a whole option run, each option's delta taken from the
/// number of the one before it.
pub open spec fn spec_encode_options(options: Seq<OptionModel>, prev: u8) -> Seq<u8>
    decreases options.len(),
{
    if options.len() == 0 {
        seq![]
    } else {
        spec_encode_option(options[0].number.spec_number(), options[0].data, prev)
            + spec_encode_options(options.skip(1), options[0].number.spec_number())
    }
}

/// The first failure an encoder meets walking an option run, if any: an
/// option numbered below its predecessor, or a value over 254 bytes.
pub open spec fn spec_options_encode_error(options: Seq<OptionModel>, prev: u8) -> Option<CoapError>
    decreases options.len(),
{
    if options.len() == 0 {
        None
    } else if options[0].number.spec_number() < prev {
        Some(CoapError::OptionError(CoapOptionError::WrongOptionOrder))
    } else if options[0].data.len() > 254 {
        Some(CoapError::OptionError(CoapOptionError::Overflow))
    } else {
        spec_options_encode_error(options.skip(1), options[0].number.spec_number())
    }
}

/// Every number of the run in the shape the decoder produces.
pub open spec fn spec_options_canonical(options: Seq<OptionModel>) -> bool {
    forall|i: int| 0 <= i < options.len() ==> options[i].number.canonical()
}

/// Reading back an encoded option run gives the run itself and covers
/// exactly its bytes, whether the buffer ends there or goes on with the
/// payload marker.
pub proof fn lemma_options_round_trip(options: Seq<OptionModel>, prev: u8, room: nat, tail: Seq<u8>)
    requires
        (spec_options_encode_error(options, prev) is None),
        spec_options_canonical(options),
        options.len() <= room,
        tail.len() == 0 || tail[0] == 0xFF,
    ensures
        spec_parse_options(prev, spec_encode_options(options, prev) + tail, room)
            == (OptionsParse::Options {
            options,
            used: spec_encode_options(options, prev).len(),
        }),
    decreases options.len(),
{
    if options.len() == 0 {
        assert(spec_encode_options(options, prev) + tail =~= tail);
        assert(options =~= Seq::<OptionModel>::empty());
    } else {
        let number = options[0].number.spec_number();
        let data = options[0].data;
        let e1 = spec_encode_option(number, data, prev);
        let rest = options.skip(1);
        let rest_enc = spec_encode_options(rest, number);
        let b = spec_encode_options(options, prev) + tail;
        lemma_option_round_trip(number, data, prev, rest_enc + tail);
        assert(b =~= e1 + (rest_enc + tail));
        assert(spec_parse_option(prev, b) == (OptionParse::Parsed {
            number,
            data,
            used: e1.len(),
        }));
        assert(b[0] != 0xFF);
        assert(forall|i: int| 0 <= i < rest.len() ==> rest[i] == options[i + 1]);
        lemma_options_round_trip(rest, number, (room - 1) as nat, tail);
        assert(b.skip(e1.len() as int) =~= rest_enc + tail);
        assert(options[0].number == CoapOptionNumbers::spec_of_number(number));
        let m0 = OptionModel { number: CoapOptionNumbers::spec_of_number(number), data };
        assert(m0 =~= options[0]);
        assert(seq![m0] + rest =~= options);
        assert(spec_encode_options(options, prev).len() == e1.len() + rest_enc.len());
        assert(spec_parse_options(number, b.skip(e1.len() as int), (room - 1) as nat)
            == spec_parse_options(number, rest_enc + tail, (room - 1) as nat));
    }
}

/// Reading back an encoded option gives its number and value and covers
/// exactly its bytes, whatever follows it in the buffer.
pub proof fn lemma_option_round_trip(number: u8, data: Seq<u8>, prev: u8, rest: Seq<u8>)
    requires
        prev <= number,
        data.len() <= 254,
    ensures
        spec_parse_option(prev, spec_encode_option(number, data, prev) + rest)
            == (OptionParse::Parsed {
            number,
            data,
            used: spec_encode_option(number, data, prev).len(),
        }),
{
    let e = spec_encode_option(number, data, prev);
    let b = e + rest;
    let delta = (number - prev) as nat;
    let len = data.len();
    let sd = spec_selector(delta);
    let sl = spec_selector(len);
    let dext: nat = if delta <= 12 {
        0nat
    } else {
        1nat
    };
    let lext: nat = if len <= 12 {
        0nat
    } else {
        1nat
    };
    assert(sd <= 13 && sl <= 13);
    assert(b[0] == (sd * 16 + sl) as u8);
    assert(b[0] / 16 == sd && b[0] % 16 == sl);
    assert(e.len() == 1 + dext + lext + len);
    if delta > 12 {
        assert(b[1] == spec_ext_bytes(delta)[0]);
        assert(b[1] == (delta - 13) as u8);
    }
    if len > 12 {
        assert(b[(1 + dext) as int] == spec_ext_bytes(len)[0]);
        assert(b[(1 + dext) as int] == (len - 13) as u8);
    }
    assert(prev + delta == number);
    assert(b.subrange((1 + dext + lext) as int, (1 + dext + lext + len) as int) =~= data);
}

} // verus!
