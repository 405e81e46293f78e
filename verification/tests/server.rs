use xoap::message::CoapMessage;
use xoap::message::header::{CoapHeader, CoapHeaderCode, CoapHeaderType};
use xoap::message::option::{CoapOption, CoapOptionNumbers};
use xoap::{ByteCallback, CoapConfig, CoapError, CoapServer};

#[test]
fn resource_calling() {
    let mut config = CoapConfig::new();
    config
        .add_resource(ByteCallback { byte: 1 }, "test".as_bytes())
        .unwrap();
    let server = CoapServer::new(config);

    let header = CoapHeader::new(CoapHeaderType::Confirmable, 2, CoapHeaderCode::GET, 123).unwrap();
    let mut msg = CoapMessage::new(header, &[1, 2]);
    let option = CoapOption::new(CoapOptionNumbers::UriPath, "test".as_bytes());
    msg.add_option(option).unwrap();
    msg.set_token(&[100, 101]).unwrap();
    let raw_msg = msg.encode().unwrap();
    let resp = server.handle_message(&raw_msg.0).unwrap().unwrap();

    let expected_response = vec![98, 69, 0, 123, 255, 1];

    assert_eq!(expected_response, resp);
}

#[test]
fn multiple_uri_path() {
    let mut config = CoapConfig::new();
    config
        .add_resource(ByteCallback { byte: 1 }, "test".as_bytes())
        .unwrap();
    config
        .add_resource(ByteCallback { byte: 2 }, "test/level".as_bytes())
        .unwrap();
    config
        .add_resource(ByteCallback { byte: 3 }, "test/level/cheese".as_bytes())
        .unwrap();

    let server = CoapServer::new(config);

    let header = CoapHeader::new(CoapHeaderType::Confirmable, 2, CoapHeaderCode::GET, 123).unwrap();
    let mut msg = CoapMessage::new(header, &[1, 2]);
    let option = CoapOption::new(CoapOptionNumbers::UriPath, "test".as_bytes());
    let option_2 = CoapOption::new(CoapOptionNumbers::UriPath, "level".as_bytes());
    let option_3 = CoapOption::new(CoapOptionNumbers::UriPath, "cheese".as_bytes());
    msg.add_option(option).unwrap();
    msg.add_option(option_2).unwrap();
    msg.add_option(option_3).unwrap();
    msg.set_token(&[100, 101]).unwrap();
    let raw_msg = msg.encode().unwrap();
    let resp = server.handle_message(&raw_msg.0).unwrap().unwrap();

    let expected_response = vec![98, 69, 0, 123, 255, 3];

    assert_eq!(expected_response, resp);
}

#[test]
fn endpoint_not_found() {
    let mut config = CoapConfig::new();
    config
        .add_resource(ByteCallback { byte: 1 }, "test".as_bytes())
        .unwrap();
    config
        .add_resource(ByteCallback { byte: 2 }, "test/level".as_bytes())
        .unwrap();
    config
        .add_resource(ByteCallback { byte: 3 }, "test/level/cheese".as_bytes())
        .unwrap();

    let server = CoapServer::new(config);

    let header = CoapHeader::new(CoapHeaderType::Confirmable, 2, CoapHeaderCode::GET, 123).unwrap();
    let mut msg = CoapMessage::new(header, &[1, 2]);
    let option = CoapOption::new(CoapOptionNumbers::UriPath, "test".as_bytes());
    let option_2 = CoapOption::new(CoapOptionNumbers::UriPath, "level".as_bytes());
    let option_3 = CoapOption::new(CoapOptionNumbers::UriPath, "wrongEndpoint".as_bytes());
    msg.add_option(option).unwrap();
    msg.add_option(option_2).unwrap();
    msg.add_option(option_3).unwrap();
    msg.set_token(&[100, 101]).unwrap();
    let raw_msg = msg.encode().unwrap();
    let resp = server.handle_message(&raw_msg.0).unwrap().unwrap();

    let expected_response = vec![98, 132, 0, 123];

    assert_eq!(expected_response, resp);
}

#[test]
fn empty_code_answered_by_reset() {
    let config: CoapConfig<ByteCallback> = CoapConfig::new();
    let server = CoapServer::new(config);
    // version 1, Confirmable, tkl 0, Empty code, id 0x1234
    let resp = server
        .handle_message(&[0x40, 0x00, 0x12, 0x34])
        .unwrap()
        .unwrap();
    // Reset (3) type, Empty code, same id
    assert_eq!(resp, vec![0x70, 0x00, 0x12, 0x34]);
}

#[test]
fn post_answered_not_implemented() {
    let config: CoapConfig<ByteCallback> = CoapConfig::new();
    let server = CoapServer::new(config);
    // Confirmable POST -> acknowledged NotImplemented (0xA1)
    let resp = server
        .handle_message(&[0x40, 0x02, 0x00, 0x63])
        .unwrap()
        .unwrap();
    assert_eq!(resp, vec![0x60, 0xA1, 0x00, 0x63]);
    // NonConfirmable PUT -> non-confirmable NotImplemented
    let resp = server
        .handle_message(&[0x50, 0x03, 0x00, 0x63])
        .unwrap()
        .unwrap();
    assert_eq!(resp, vec![0x50, 0xA1, 0x00, 0x63]);
    // NonConfirmable DELETE as well
    let resp = server
        .handle_message(&[0x50, 0x04, 0x00, 0x63])
        .unwrap()
        .unwrap();
    assert_eq!(resp, vec![0x50, 0xA1, 0x00, 0x63]);
}

#[test]
fn response_code_as_request_answered_method_not_allowed() {
    let config: CoapConfig<ByteCallback> = CoapConfig::new();
    let server = CoapServer::new(config);
    // Confirmable Content (0x45) as a request -> acknowledged MethodNotAllowed
    let resp = server
        .handle_message(&[0x40, 0x45, 0x00, 0x07])
        .unwrap()
        .unwrap();
    assert_eq!(resp, vec![0x60, 0x85, 0x00, 0x07]);
    // NonConfirmable keeps its own type
    let resp = server
        .handle_message(&[0x50, 0x45, 0x00, 0x07])
        .unwrap()
        .unwrap();
    assert_eq!(resp, vec![0x50, 0x85, 0x00, 0x07]);
}

#[test]
fn get_without_uri_path_is_not_found() {
    let mut config = CoapConfig::new();
    config
        .add_resource(ByteCallback { byte: 1 }, "test".as_bytes())
        .unwrap();
    let server = CoapServer::new(config);
    // Confirmable GET, no options at all
    let resp = server
        .handle_message(&[0x40, 0x01, 0x00, 0x07, 0xFF, 0x01])
        .unwrap()
        .unwrap();
    assert_eq!(resp, vec![0x60, 0x84, 0x00, 0x07]);
}

#[test]
fn get_on_acknowledgement_is_dropped() {
    let mut config = CoapConfig::new();
    config
        .add_resource(ByteCallback { byte: 1 }, "test".as_bytes())
        .unwrap();
    let server = CoapServer::new(config);
    let header =
        CoapHeader::new(CoapHeaderType::Acknowledgement, 0, CoapHeaderCode::GET, 7).unwrap();
    let mut msg = CoapMessage::new(header, &[]);
    msg.add_option(CoapOption::new(CoapOptionNumbers::UriPath, b"test"))
        .unwrap();
    let raw = msg.encode().unwrap();
    let resp = server.handle_message(&raw.0).unwrap();
    assert!(resp.is_none());
}

#[test]
fn non_confirmable_get_answered_non_confirmable() {
    let mut config = CoapConfig::new();
    config
        .add_resource(ByteCallback { byte: 9 }, "test".as_bytes())
        .unwrap();
    let server = CoapServer::new(config);
    let header =
        CoapHeader::new(CoapHeaderType::NonConfirmable, 0, CoapHeaderCode::GET, 0x2B).unwrap();
    let mut msg = CoapMessage::new(header, &[]);
    msg.add_option(CoapOption::new(CoapOptionNumbers::UriPath, b"test"))
        .unwrap();
    let raw = msg.encode().unwrap();
    let resp = server.handle_message(&raw.0).unwrap().unwrap();
    assert_eq!(resp, vec![0x50, 0x45, 0x00, 0x2B, 0xFF, 9]);
}

#[test]
fn callback_byte_zero_still_answers_content() {
    let mut config = CoapConfig::new();
    config
        .add_resource(ByteCallback { byte: 0 }, "test".as_bytes())
        .unwrap();
    let server = CoapServer::new(config);
    let header = CoapHeader::new(CoapHeaderType::Confirmable, 0, CoapHeaderCode::GET, 3).unwrap();
    let mut msg = CoapMessage::new(header, &[]);
    msg.add_option(CoapOption::new(CoapOptionNumbers::UriPath, b"test"))
        .unwrap();
    let raw = msg.encode().unwrap();
    let resp = server.handle_message(&raw.0).unwrap().unwrap();
    assert_eq!(resp, vec![0x60, 0x45, 0x00, 0x03, 0xFF, 0x00]);
}

#[test]
fn malformed_request_reported_not_crashed() {
    let config: CoapConfig<ByteCallback> = CoapConfig::new();
    let server = CoapServer::new(config);
    assert!(matches!(
        server.handle_message(&[0x40]),
        Err(CoapError::MessageError)
    ));
    assert!(matches!(
        server.handle_message(&[0x00, 0x01, 0x00, 0x07]),
        Err(CoapError::WrongVersion)
    ));
}

#[test]
fn ninth_resource_fails_and_table_keeps_eight() {
    let mut config = CoapConfig::new();
    let paths = ["a", "b", "c", "d", "e", "f", "g", "h"];
    for (i, p) in paths.iter().enumerate() {
        config
            .add_resource(ByteCallback { byte: i as u8 + 1 }, p.as_bytes())
            .unwrap();
    }
    let r = config.add_resource(ByteCallback { byte: 9 }, "i".as_bytes());
    assert!(matches!(r, Err(CoapError::ConfigError)));
    assert_eq!(config.resources.len(), 8);
    for (i, p) in paths.iter().enumerate() {
        assert_eq!(config.resources[i].get_path(), p.as_bytes().to_vec());
        assert_eq!(config.resources[i].callback().byte, i as u8 + 1);
    }
}

#[test]
fn path_over_255_bytes_rejected() {
    let mut config = CoapConfig::new();
    let long = vec![b'x'; 256];
    assert!(matches!(
        config.add_resource(ByteCallback { byte: 1 }, &long),
        Err(CoapError::ConfigError)
    ));
    assert_eq!(config.resources.len(), 0);
}

#[test]
fn last_matching_resource_wins() {
    let mut config = CoapConfig::new();
    config
        .add_resource(ByteCallback { byte: 1 }, "test".as_bytes())
        .unwrap();
    config
        .add_resource(ByteCallback { byte: 2 }, "test".as_bytes())
        .unwrap();
    let server = CoapServer::new(config);
    let header = CoapHeader::new(CoapHeaderType::Confirmable, 0, CoapHeaderCode::GET, 1).unwrap();
    let mut msg = CoapMessage::new(header, &[]);
    msg.add_option(CoapOption::new(CoapOptionNumbers::UriPath, b"test"))
        .unwrap();
    let raw = msg.encode().unwrap();
    let resp = server.handle_message(&raw.0).unwrap().unwrap();
    assert_eq!(resp, vec![0x60, 0x45, 0x00, 0x01, 0xFF, 2]);
}
