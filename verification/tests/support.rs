use gateway::ack_bytes;
use gateway::config::parse_u16;
use gateway::events::EventType;
use gateway::identity::start_session;
use gateway::session::Phase;
use gateway::validate::is_valid_utf8;

#[test]
fn ack_is_three_ascii_bytes() {
    assert_eq!(ack_bytes(), b"ACK".to_vec());
}

#[test]
fn utf8_validation_accepts_well_formed_sequences() {
    assert!(is_valid_utf8(&Vec::new()));
    assert!(is_valid_utf8(&b"plain ascii".to_vec()));
    assert!(is_valid_utf8(&"héllo wörld".as_bytes().to_vec()));
    assert!(is_valid_utf8(&"✓ check".as_bytes().to_vec()));
    assert!(is_valid_utf8(&"🎉🎊".as_bytes().to_vec()));
}

#[test]
fn utf8_validation_rejects_malformed_sequences() {
    assert!(!is_valid_utf8(&vec![0xff]));
    assert!(!is_valid_utf8(&vec![0x80])); // stray continuation byte
    assert!(!is_valid_utf8(&vec![0xc0, 0x80])); // overlong two-byte form
    assert!(!is_valid_utf8(&vec![0xc2])); // truncated two-byte form
    assert!(!is_valid_utf8(&vec![0xe0, 0x80, 0x80])); // overlong three-byte form
    assert!(!is_valid_utf8(&vec![0xed, 0xa0, 0x80])); // surrogate
    assert!(!is_valid_utf8(&vec![0xf0, 0x80, 0x80, 0x80])); // overlong four-byte form
    assert!(!is_valid_utf8(&vec![0xf4, 0x90, 0x80, 0x80])); // above the last scalar
    assert!(!is_valid_utf8(&vec![0xe2, 0x82])); // truncated three-byte form
    let mut mixed = b"ok ".to_vec();
    mixed.push(0xfe);
    assert!(!is_valid_utf8(&mixed));
}

#[test]
fn utf8_validation_agrees_with_std() {
    let samples: Vec<Vec<u8>> = vec![
        b"abc".to_vec(),
        vec![0xc3, 0xa9],
        vec![0xc3],
        vec![0xe2, 0x82, 0xac],
        vec![0xf0, 0x9f, 0x8e, 0x89],
        vec![0xed, 0x9f, 0xbf],
        vec![0xed, 0xa0, 0x80],
        vec![0xf4, 0x8f, 0xbf, 0xbf],
        vec![0xf4, 0x90, 0x80, 0x80],
        vec![0x00, 0x7f, 0x41],
    ];
    for s in &samples {
        assert_eq!(is_valid_utf8(s), std::str::from_utf8(s).is_ok());
    }
}

#[test]
fn parse_u16_accepts_ports() {
    assert_eq!(parse_u16(&b"0".to_vec()), Some(0));
    assert_eq!(parse_u16(&b"8080".to_vec()), Some(8080));
    assert_eq!(parse_u16(&b"4433".to_vec()), Some(4433));
    assert_eq!(parse_u16(&b"65535".to_vec()), Some(65535));
    assert_eq!(parse_u16(&b"070".to_vec()), Some(70));
    assert_eq!(parse_u16(&b"000000065535".to_vec()), Some(65535));
    assert_eq!(parse_u16(&b"+80".to_vec()), Some(80));
    assert_eq!(parse_u16(&b"+65535".to_vec()), Some(65535));
}

#[test]
fn parse_u16_rejects_bad_input() {
    assert_eq!(parse_u16(&b"".to_vec()), None);
    assert_eq!(parse_u16(&b"65536".to_vec()), None);
    assert_eq!(parse_u16(&b"99999999".to_vec()), None);
    assert_eq!(parse_u16(&b"12a".to_vec()), None);
    assert_eq!(parse_u16(&b"-1".to_vec()), None);
    assert_eq!(parse_u16(&b" 80".to_vec()), None);
    assert_eq!(parse_u16(&b"+".to_vec()), None);
    assert_eq!(parse_u16(&b"++1".to_vec()), None);
    assert_eq!(parse_u16(&b"80+".to_vec()), None);
}

#[test]
fn parse_u16_agrees_with_std() {
    let samples: Vec<&[u8]> = vec![
        b"0", b"80", b"+80", b"65535", b"+65535", b"65536", b"+65536", b"", b"+", b"++1", b"-1",
        b"007", b" 1", b"1 ", b"1+1", b"0x10",
    ];
    for s in &samples {
        let expected = std::str::from_utf8(s).unwrap().parse::<u16>().ok();
        assert_eq!(parse_u16(&s.to_vec()), expected);
    }
}

#[test]
fn start_session_draws_hyphenated_uuid() {
    let (session, connected) = start_session();
    assert_eq!(session.phase, Phase::Active);
    assert_eq!(session.id.len(), 36);
    for (i, b) in session.id.iter().enumerate() {
        if i == 8 || i == 13 || i == 18 || i == 23 {
            assert_eq!(*b, b'-');
        } else {
            assert!(b.is_ascii_hexdigit() && !b.is_ascii_uppercase());
        }
    }
    assert_eq!(connected.event_type, EventType::Connected);
    assert_eq!(connected.connection_id, session.id);

    let (other, _) = start_session();
    assert_ne!(other.id, session.id);
}
