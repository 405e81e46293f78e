use xoap::CoapError;
use xoap::message::option::{CoapOption, CoapOptionError, CoapOptionNumbers, CoapOptions};

#[test]
fn decode() {
    let option = CoapOption::decode(0, &[(3 << 4) | 5, 10, 11, 12, 13, 14]).unwrap();
    assert_eq!(option.option, CoapOptionNumbers::UriHost);
    assert_eq!(option.data[0], 10);
    assert_eq!(option.data[1], 11);
    assert_eq!(option.data[2], 12);
    assert_eq!(option.data[3], 13);
    assert_eq!(option.data[4], 14);
}

#[test]
fn decode_previous_option() {
    let option = CoapOption::decode(3, &[(2 << 4) | 2, 10, 11]).unwrap();
    assert_eq!(option.option, CoapOptionNumbers::IfNoneMatch);
    assert_eq!(option.data[0], 10);
}

#[test]
fn encode() {
    let data = [1, 2, 3, 4, 5];
    let option = CoapOption::new(CoapOptionNumbers::UriHost, &data)
        .encode(CoapOptionNumbers::Zero)
        .unwrap();
    assert_eq!(
        CoapOptionNumbers::from_number(option.0[0] >> 4),
        CoapOptionNumbers::UriHost
    );
    assert_eq!(option.1, 1 + 5);
    assert_eq!(option.0[1], 1);
    assert_eq!(option.0[2], 2);
    assert_eq!(option.0[3], 3);
    assert_eq!(option.0[4], 4);
    assert_eq!(option.0[5], 5);
}

#[test]
fn encode_previous_option() {
    let data = [1, 2, 3, 4, 5];
    let option = CoapOption::new(CoapOptionNumbers::ETag, &data)
        .encode(CoapOptionNumbers::UriHost)
        .unwrap();
    assert_eq!(
        CoapOptionNumbers::from_number(option.0[0] >> 4),
        CoapOptionNumbers::IfMatch
    );
    assert_eq!(option.1, 1 + 5);
    assert_eq!(option.0[1], 1);
    assert_eq!(option.0[2], 2);
    assert_eq!(option.0[3], 3);
    assert_eq!(option.0[4], 4);
    assert_eq!(option.0[5], 5);
}

#[test]
fn encode_decode_option() {
    let data = [1, 2, 3, 4, 5];
    let vec_data: Vec<u8> = data.to_vec();
    let en_option = CoapOption::new(CoapOptionNumbers::UriHost, &data)
        .encode(CoapOptionNumbers::Zero)
        .unwrap();
    let de_option = CoapOption::decode(0, &en_option.0).unwrap();

    assert_eq!(de_option.option, CoapOptionNumbers::UriHost);
    assert_eq!(de_option.data, vec_data);
}

#[test]
fn encode_decode_previous_option() {
    let data = [1, 2, 3, 4, 5];
    let vec_data: Vec<u8> = data.to_vec();
    let en_option = CoapOption::new(CoapOptionNumbers::UriHost, &data)
        .encode(CoapOptionNumbers::IfMatch)
        .unwrap();
    let de_option = CoapOption::decode(CoapOptionNumbers::IfMatch.to_number(), &en_option.0).unwrap();

    assert_eq!(de_option.option, CoapOptionNumbers::UriHost);
    assert_eq!(de_option.data, vec_data);
}

#[test]
fn encode_decode_previous_option_uripath() {
    let data = "test".as_bytes();
    let vec_data: Vec<u8> = data.to_vec();
    let en_option = CoapOption::new(CoapOptionNumbers::UriPath, &data)
        .encode(CoapOptionNumbers::IfMatch)
        .unwrap();
    let de_option = CoapOption::decode(CoapOptionNumbers::IfMatch.to_number(), &en_option.0).unwrap();

    assert_eq!(de_option.option, CoapOptionNumbers::UriPath);
    assert_eq!(de_option.data, vec_data);
}

#[test]
fn delta_ladder_boundaries() {
    // 11 and 12 sit in the selector itself
    let e11 = CoapOption::new(CoapOptionNumbers::UriPath, &[])
        .encode(CoapOptionNumbers::Zero)
        .unwrap();
    assert_eq!(e11.0, vec![11 << 4]);
    let e12 = CoapOption::new(CoapOptionNumbers::ContentFormat, &[])
        .encode(CoapOptionNumbers::Zero)
        .unwrap();
    assert_eq!(e12.0, vec![12 << 4]);
    // 13 and 14 need the one-byte extension holding the value less 13
    let e13 = CoapOption::new(CoapOptionNumbers::Unrecognized(13), &[])
        .encode(CoapOptionNumbers::Zero)
        .unwrap();
    assert_eq!(e13.0, vec![13 << 4, 0]);
    let e14 = CoapOption::new(CoapOptionNumbers::MaxAge, &[])
        .encode(CoapOptionNumbers::Zero)
        .unwrap();
    assert_eq!(e14.0, vec![13 << 4, 1]);
    // each boundary decodes back to its absolute number
    assert_eq!(CoapOption::decode(0, &e11.0).unwrap().option, CoapOptionNumbers::UriPath);
    assert_eq!(CoapOption::decode(0, &e12.0).unwrap().option, CoapOptionNumbers::ContentFormat);
    assert_eq!(
        CoapOption::decode(0, &e13.0).unwrap().option,
        CoapOptionNumbers::Unrecognized(13)
    );
    assert_eq!(CoapOption::decode(0, &e14.0).unwrap().option, CoapOptionNumbers::MaxAge);
}

#[test]
fn length_ladder_boundaries() {
    for len in [11usize, 12, 13, 14] {
        let data = vec![7u8; len];
        let en = CoapOption::new(CoapOptionNumbers::UriHost, &data)
            .encode(CoapOptionNumbers::Zero)
            .unwrap();
        if len <= 12 {
            // the length sits in the low nibble
            assert_eq!(en.0[0], (3 << 4) | len as u8);
            assert_eq!(en.1, 1 + len);
        } else {
            // selector 13, one extension byte holding the length less 13
            assert_eq!(en.0[0], (3 << 4) | 13);
            assert_eq!(en.0[1], (len - 13) as u8);
            assert_eq!(en.1, 2 + len);
        }
        let de = CoapOption::decode(0, &en.0).unwrap();
        assert_eq!(de.data.len(), len);
        assert_eq!(de.data, data);
    }
}

#[test]
fn longest_value_round_trips() {
    // 254 bytes is the longest value the encoder accepts
    let data = vec![9u8; 254];
    let en = CoapOption::new(CoapOptionNumbers::UriHost, &data)
        .encode(CoapOptionNumbers::Zero)
        .unwrap();
    assert_eq!(en.0[0], (3 << 4) | 13);
    assert_eq!(en.0[1], 254 - 13);
    let de = CoapOption::decode(0, &en.0).unwrap();
    assert_eq!(de.data, data);
}

#[test]
fn value_over_254_bytes_overflows() {
    let data = vec![9u8; 255];
    let r = CoapOption::new(CoapOptionNumbers::UriHost, &data).encode(CoapOptionNumbers::Zero);
    assert!(matches!(
        r,
        Err(CoapError::OptionError(CoapOptionError::Overflow))
    ));
}

#[test]
fn decoded_length_255_is_accepted_268_is_not() {
    // selector 13, extension 242: a 255-byte value, the profile's bound
    let mut buf = vec![(3 << 4) | 13, 242];
    buf.extend(std::iter::repeat(1u8).take(255));
    let de = CoapOption::decode(0, &buf).unwrap();
    assert_eq!(de.data.len(), 255);
    // selector 13, extension 255: a 268-byte value, past the bound
    let mut big = vec![(3 << 4) | 13, 255];
    big.extend(std::iter::repeat(1u8).take(268));
    assert!(matches!(
        CoapOption::decode(0, &big),
        Err(CoapError::OptionError(CoapOptionError::Overflow))
    ));
}

#[test]
fn two_byte_extensions_overflow_this_profile() {
    // a two-byte length extension means at least 269 value bytes
    assert!(matches!(
        CoapOption::decode(0, &[(3 << 4) | 14, 0, 0]),
        Err(CoapError::OptionError(CoapOptionError::Overflow))
    ));
    // a two-byte delta extension means an option number past 255
    assert!(matches!(
        CoapOption::decode(0, &[(14 << 4) | 0, 0, 0]),
        Err(CoapError::OptionError(CoapOptionError::Overflow))
    ));
}

#[test]
fn reserved_selectors_rejected() {
    assert!(matches!(
        CoapOption::decode(0, &[15 << 4]),
        Err(CoapError::OptionError(CoapOptionError::DeltaError(15)))
    ));
    assert!(matches!(
        CoapOption::decode(0, &[(1 << 4) | 15, 0]),
        Err(CoapError::OptionError(CoapOptionError::LengthError(15)))
    ));
}

#[test]
fn truncated_option_rejected() {
    // the selector byte announces five value bytes; only two follow
    assert!(matches!(
        CoapOption::decode(0, &[(3 << 4) | 5, 10, 11]),
        Err(CoapError::MessageError)
    ));
}

#[test]
fn descending_options_fail_encode() {
    // IfMatch (1) cannot follow UriHost (3)
    let r = CoapOption::new(CoapOptionNumbers::IfMatch, &[])
        .encode(CoapOptionNumbers::UriHost);
    assert!(matches!(
        r,
        Err(CoapError::OptionError(CoapOptionError::WrongOptionOrder))
    ));
}

#[test]
fn eleventh_option_fails_and_list_keeps_ten() {
    let mut options = CoapOptions::new();
    for _ in 0..10 {
        options
            .push(CoapOption::new(CoapOptionNumbers::UriPath, &[1]))
            .unwrap();
    }
    assert_eq!(options.len(), 10);
    let r = options.push(CoapOption::new(CoapOptionNumbers::UriPath, &[2]));
    assert!(matches!(
        r,
        Err(CoapError::OptionsError(CoapOptionError::PushError(_)))
    ));
    assert_eq!(options.len(), 10);
}

#[test]
fn pop_returns_last_and_fails_when_empty() {
    let mut options = CoapOptions::new();
    options
        .push(CoapOption::new(CoapOptionNumbers::UriHost, &[1]))
        .unwrap();
    options
        .push(CoapOption::new(CoapOptionNumbers::UriPath, &[2]))
        .unwrap();
    let last = options.pop().unwrap();
    assert_eq!(last.option, CoapOptionNumbers::UriPath);
    options.pop().unwrap();
    assert!(matches!(
        options.pop(),
        Err(CoapError::OptionsError(CoapOptionError::PopError))
    ));
}

#[test]
fn options_decode_stops_at_marker() {
    // UriHost "ab", then the payload marker and two payload bytes
    let buf = [(3 << 4) | 2, 97, 98, 0xFF, 5, 6];
    let (options, idx) = CoapOptions::decode(&buf).unwrap();
    assert_eq!(options.len(), 1);
    assert_eq!(idx, 3);
}
