use xoap::CoapError;
use xoap::message::{CoapMediaType, CoapMessage, CoapMethod};
use xoap::message::header::{CoapHeader, CoapHeaderCode, CoapHeaderType};
use xoap::message::option::{CoapOption, CoapOptionError, CoapOptionNumbers};

#[test]
fn encode_header_payload() {
    let data = [0, 1, 2, 3, 4, 5, 6, 7, 8, 9];
    let header = CoapHeader::new(
        CoapHeaderType::Acknowledgement,
        0,
        CoapHeaderCode::Content,
        123,
    )
    .unwrap();
    let msg = CoapMessage::new(header.clone(), &data);
    let en_msg = msg.encode().unwrap();

    // Check payload marker and payload
    let expected_msg = [255, 0, 1, 2, 3, 4, 5, 6, 7, 8, 9];
    assert_eq!(en_msg.0[4..en_msg.1], expected_msg[..(en_msg.1 - 4)]);
    // Check payload length
    assert_eq!(en_msg.1, 4 + 1 + data.len());

    // Check header
    let de_header = CoapHeader::decode(&en_msg.0[0..4]).unwrap();
    assert_eq!(header, de_header);
}

#[test]
fn encode_decode_header_payload() {
    let data = [0, 1, 2, 3, 4, 5, 6, 7, 8, 9];
    let header = CoapHeader::new(
        CoapHeaderType::Acknowledgement,
        0,
        CoapHeaderCode::Content,
        123,
    )
    .unwrap();
    let msg = CoapMessage::new(header.clone(), &data);
    let en_msg = msg.encode().unwrap();
    let buf = &en_msg.0[..en_msg.1];
    let de_msg = CoapMessage::decode(buf).unwrap();

    assert_eq!(de_msg, msg);
}

#[test]
fn encode_decode_header_token_payload() {
    let data = [0, 1, 2, 3, 4, 5, 6, 7, 8, 9];
    let header = CoapHeader::new(
        CoapHeaderType::Acknowledgement,
        3,
        CoapHeaderCode::Content,
        123,
    )
    .unwrap();
    let mut msg = CoapMessage::new(header.clone(), &data);
    msg.set_token(&[100, 111, 122]).unwrap();
    let en_msg = msg.encode().unwrap();
    let buf = &en_msg.0[..en_msg.1];
    let de_msg = CoapMessage::decode(buf).unwrap();

    assert_eq!(de_msg, msg);
}

#[test]
fn encode_decode_header_token_option_payload() {
    let data = [0, 1, 2, 3, 4, 5, 6, 7, 8, 9];
    let header = CoapHeader::new(
        CoapHeaderType::Acknowledgement,
        3,
        CoapHeaderCode::Content,
        123,
    )
    .unwrap();
    let mut msg = CoapMessage::new(header.clone(), &data);
    msg.set_token(&[100, 111, 122]).unwrap();
    msg.add_option(CoapOption::new(CoapOptionNumbers::Accept, &[]))
        .unwrap();

    let ref_msg = msg.clone();
    let en_msg = msg.encode().unwrap();
    let buf = &en_msg.0[..en_msg.1];
    let de_msg = CoapMessage::decode(buf).unwrap();

    assert_eq!(de_msg, ref_msg);
}

#[test]
fn encode_decode_header_token_multiple_option_payload() {
    let data = [0, 1, 2, 3, 4, 5, 6, 7, 8, 9];
    let header = CoapHeader::new(
        CoapHeaderType::Acknowledgement,
        3,
        CoapHeaderCode::Content,
        123,
    )
    .unwrap();
    let mut msg = CoapMessage::new(header.clone(), &data);
    msg.set_token(&[100, 111, 122]).unwrap();
    msg.add_option(CoapOption::new(CoapOptionNumbers::IfNoneMatch, &[]))
        .unwrap(); // 5
    msg.add_option(CoapOption::new(CoapOptionNumbers::UriPath, b"test"))
        .unwrap(); // 11

    msg.add_option(CoapOption::new(CoapOptionNumbers::Accept, &[]))
        .unwrap(); // 17

    msg.add_option(CoapOption::new(CoapOptionNumbers::ProxyUri, b"ost"))
        .unwrap(); // 35

    let ref_msg = msg.clone();
    let en_msg = msg.encode().unwrap();
    let buf = &en_msg.0[..en_msg.1];
    let de_msg = CoapMessage::decode(buf).unwrap();

    assert_eq!(de_msg, ref_msg);
}

#[test]
fn descending_options_fail_message_encode() {
    // UriHost (3) first, then IfMatch (1): out of ascending order
    let header = CoapHeader::new(CoapHeaderType::Confirmable, 0, CoapHeaderCode::GET, 1).unwrap();
    let mut msg = CoapMessage::new(header, &[]);
    msg.add_option(CoapOption::new(CoapOptionNumbers::UriHost, &[1]))
        .unwrap();
    msg.add_option(CoapOption::new(CoapOptionNumbers::IfMatch, &[2]))
        .unwrap();
    assert!(matches!(
        msg.encode(),
        Err(CoapError::OptionError(CoapOptionError::WrongOptionOrder))
    ));
}

#[test]
fn buffer_shorter_than_header_rejected() {
    assert!(matches!(
        CoapMessage::decode(&[0x40, 0x01, 0x00]),
        Err(CoapError::MessageError)
    ));
}

#[test]
fn buffer_shorter_than_token_rejected() {
    // tkl 4, but only two token bytes follow
    assert!(matches!(
        CoapMessage::decode(&[0x44, 0x01, 0x00, 0x07, 9, 9]),
        Err(CoapError::MessageError)
    ));
}

#[test]
fn nothing_after_token_gives_stand_in_payload() {
    // header announces two token bytes and the buffer ends right after them
    let de = CoapMessage::decode(&[0x42, 0x01, 0x00, 0x05, 9, 9]).unwrap();
    assert_eq!(de.payload, vec![0]);
    assert_eq!(de.token.len(), 0);
    assert_eq!(de.options.len(), 0);
}

#[test]
fn marker_alone_gives_empty_payload() {
    let de = CoapMessage::decode(&[0x40, 0x01, 0x00, 0x05, 0xFF]).unwrap();
    assert_eq!(de.payload.len(), 0);
}

#[test]
fn message_over_buffer_fails_encode() {
    // five options of 60 bytes each put the message past its 255-byte buffer
    let header = CoapHeader::new(CoapHeaderType::Confirmable, 0, CoapHeaderCode::GET, 1).unwrap();
    let mut msg = CoapMessage::new(header, &[]);
    for _ in 0..5 {
        msg.add_option(CoapOption::new(CoapOptionNumbers::UriPath, &[7u8; 60]))
            .unwrap();
    }
    assert!(matches!(msg.encode(), Err(CoapError::MessageError)));
}

#[test]
fn eleventh_option_fails_message_too() {
    let header = CoapHeader::new(CoapHeaderType::Confirmable, 0, CoapHeaderCode::GET, 1).unwrap();
    let mut msg = CoapMessage::new(header, &[]);
    for _ in 0..10 {
        msg.add_option(CoapOption::new(CoapOptionNumbers::UriPath, &[1]))
            .unwrap();
    }
    assert!(matches!(
        msg.add_option(CoapOption::new(CoapOptionNumbers::UriPath, &[1])),
        Err(CoapError::OptionsError(CoapOptionError::PushError(_)))
    ));
}

#[test]
fn token_over_eight_bytes_rejected() {
    let header = CoapHeader::new(CoapHeaderType::Confirmable, 0, CoapHeaderCode::GET, 1).unwrap();
    let mut msg = CoapMessage::new(header, &[]);
    assert!(matches!(
        msg.set_token(&[1, 2, 3, 4, 5, 6, 7, 8, 9]),
        Err(CoapError::MessageError)
    ));
    msg.set_token(&[1, 2, 3, 4, 5, 6, 7, 8]).unwrap();
}

#[test]
fn method_numbers_round_trip() {
    for m in [
        CoapMethod::GET,
        CoapMethod::POST,
        CoapMethod::PUT,
        CoapMethod::DELETE,
    ] {
        assert_eq!(CoapMethod::from_number(m.to_number()), Some(m));
    }
    assert_eq!(CoapMethod::from_number(0), None);
    assert_eq!(CoapMethod::from_number(5), None);
}

#[test]
fn media_type_numbers_round_trip() {
    for m in [
        CoapMediaType::TextPlain,
        CoapMediaType::ApplicationLinkFormat,
        CoapMediaType::ApplicationXml,
        CoapMediaType::ApplicationOctetStream,
        CoapMediaType::ApplicationExi,
        CoapMediaType::ApplicationJson,
    ] {
        assert_eq!(CoapMediaType::from_number(m.to_number()), Some(m));
    }
    assert_eq!(CoapMediaType::from_number(1), None);
}

#[test]
fn unrecognized_option_number_round_trips() {
    // number 21 has no name in the table, yet survives the wire unchanged
    let header = CoapHeader::new(CoapHeaderType::Confirmable, 0, CoapHeaderCode::GET, 9).unwrap();
    let mut msg = CoapMessage::new(header, &[1]);
    msg.add_option(CoapOption::new(CoapOptionNumbers::Unrecognized(21), &[3, 4]))
        .unwrap();
    let ref_msg = msg.clone();
    let en = msg.encode().unwrap();
    let de = CoapMessage::decode(&en.0[..en.1]).unwrap();
    assert_eq!(de, ref_msg);
}
