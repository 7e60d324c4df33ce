//! Wire-type contracts: the canonical byte encodings round-trip, malformed buffers are rejected,
//! the DID↔launcher-id invariant is enforced, and the persisted `serde` form round-trips.

use chia_sdk_utils::Address;
use dig_social_graph::codec::{did_str, hex_bytes32, CodecError};
use dig_social_graph::{
    Bytes32, ConnectAccept, ConnectDeny, ConnectRequest, Did, Error, Revoke, SealedOffer,
    SocialMessage, StoreCoords,
};
use serde_json::Value;

/// Mint a well-formed `did:chia:` DID from a single filler byte.
fn make_did(filler: u8) -> Did {
    let launcher = dig_identity::Bytes32::new([filler; 32]);
    let text = Address::new(launcher, "did:chia:".to_string())
        .encode()
        .expect("encodes a did:chia: address");
    Did::parse(&text).expect("parses the minted did")
}

/// Coordinates for a DID with a committed root filled from `root_filler`.
fn make_coords(did: &Did, root_filler: u8) -> StoreCoords {
    StoreCoords::from_did(did.clone(), Bytes32::from([root_filler; 32]))
}

/// Coordinates as JSON text: the DID as its string, the ids as hex.
fn coords_to_json(coords: &StoreCoords) -> String {
    let mut object = serde_json::Map::new();
    object.insert("did".into(), Value::String(did_str::serialize(&coords.did)));
    object.insert(
        "launcher_id".into(),
        Value::String(hex_bytes32::serialize(&coords.launcher_id)),
    );
    object.insert(
        "committed_root".into(),
        Value::String(hex_bytes32::serialize(&coords.committed_root)),
    );
    serde_json::to_string(&Value::Object(object)).unwrap()
}

/// Coordinates read back from JSON text.
fn coords_from_json(json: &str) -> Result<StoreCoords, CodecError> {
    let value: Value = serde_json::from_str(json).unwrap();
    let field = |name: &str| value.get(name).unwrap().as_str().unwrap().to_string();
    Ok(StoreCoords {
        did: did_str::deserialize(&field("did"))?,
        launcher_id: hex_bytes32::deserialize(&field("launcher_id"))?,
        committed_root: hex_bytes32::deserialize(&field("committed_root"))?,
    })
}

/// The text of the wire error that a buffer of coordinates is refused with.
fn coords_fault(bytes: &[u8]) -> &'static str {
    match StoreCoords::from_canonical_bytes(bytes) {
        Err(Error::Wire(text)) => text,
        other => panic!("expected a wire error, got {other:?}"),
    }
}

/// The text of the wire error that a message buffer is refused with.
fn message_fault(bytes: &[u8]) -> &'static str {
    match SocialMessage::from_canonical_bytes(bytes) {
        Err(Error::Wire(text)) => text,
        other => panic!("expected a wire error, got {other:?}"),
    }
}

#[test]
fn store_coords_canonical_bytes_round_trip() {
    let did = make_did(0x11);
    let coords = make_coords(&did, 0x22);
    let bytes = coords.to_canonical_bytes();
    let decoded = StoreCoords::from_canonical_bytes(&bytes).unwrap();
    assert_eq!(decoded, coords);
}

#[test]
fn store_coords_rejects_launcher_mismatch() {
    let did = make_did(0x11);
    // Hand-build coordinates whose launcher id does not match the DID.
    let bogus = StoreCoords {
        did,
        launcher_id: Bytes32::from([0xFF; 32]),
        committed_root: Bytes32::from([0x22; 32]),
    };
    assert!(matches!(bogus.validate(), Err(Error::Invariant(_))));
}

#[test]
fn store_coords_from_did_derives_matching_launcher() {
    let did = make_did(0x11);
    let coords = StoreCoords::from_did(did.clone(), Bytes32::from([0x22; 32]));
    assert_eq!(coords.launcher_id, did.launcher_id());
    coords.validate().unwrap();
}

#[test]
fn store_coords_decode_rejects_malformed_buffers() {
    assert!(matches!(
        StoreCoords::from_canonical_bytes(&[0x00]),
        Err(Error::Wire(_))
    ));
    let did = make_did(0x11);
    let mut bytes = make_coords(&did, 0x22).to_canonical_bytes();
    bytes.push(0xAB); // trailing byte
    assert!(matches!(
        StoreCoords::from_canonical_bytes(&bytes),
        Err(Error::Wire(_))
    ));
}

#[test]
fn social_message_canonical_bytes_round_trip() {
    let offer = SealedOffer::new(vec![1, 2, 3, 4]);
    let messages = [
        SocialMessage::Request(ConnectRequest {
            requestor_offer: offer.clone(),
        }),
        SocialMessage::Accept(ConnectAccept {
            recipient_offer: offer,
        }),
        SocialMessage::Deny(ConnectDeny),
        SocialMessage::Revoke(Revoke),
    ];
    for message in messages {
        let bytes = message.to_canonical_bytes();
        assert_eq!(
            SocialMessage::from_canonical_bytes(&bytes).unwrap(),
            message
        );
    }
}

#[test]
fn social_message_decode_rejects_bad_input() {
    assert!(matches!(
        SocialMessage::from_canonical_bytes(&[]),
        Err(Error::Wire(_))
    ));
    assert!(matches!(
        SocialMessage::from_canonical_bytes(&[9]), // unknown tag
        Err(Error::Wire(_))
    ));
    assert!(matches!(
        SocialMessage::from_canonical_bytes(&[2, 0xFF]), // Deny with trailing bytes
        Err(Error::Wire(_))
    ));
}

#[test]
fn store_coords_serde_round_trip() {
    let did = make_did(0x11);
    let coords = make_coords(&did, 0x22);
    let json = coords_to_json(&coords);
    // DID is a did:chia: string; the 32-byte fields are lowercase hex.
    assert!(json.contains("did:chia:"));
    let decoded: StoreCoords = coords_from_json(&json).unwrap();
    assert_eq!(decoded, coords);
}

#[test]
fn store_coords_serde_rejects_bad_hex_length() {
    let json = r#"{"did":"did:chia:1abc","launcher_id":"00","committed_root":"00"}"#;
    assert!(coords_from_json(json).is_err());
    // With a DID that parses, it is the hex that is refused.
    let did = make_did(0x11);
    let json = coords_to_json(&make_coords(&did, 0x22)).replace(&"22".repeat(32), "00");
    assert_eq!(coords_from_json(&json), Err(CodecError::WrongLength));
}

/// The exact bytes of encoded coordinates.
#[test]
fn store_coords_bytes_are_laid_out_exactly() {
    let did = make_did(0x11);
    let coords = make_coords(&did, 0x22);
    let mut expected = vec![0x00, 0x44];
    expected.extend_from_slice(did.as_str().as_bytes());
    expected.extend_from_slice(&[0x11; 32]);
    expected.extend_from_slice(&[0x22; 32]);
    assert_eq!(did.as_str().len(), 0x44);
    assert_eq!(coords.to_canonical_bytes(), expected);
}

/// Each fault of a coordinates buffer, found from left to right.
#[test]
fn store_coords_faults_are_exact() {
    let did = make_did(0x11);
    let good = make_coords(&did, 0x22).to_canonical_bytes();
    assert_eq!(coords_fault(&[]), "truncated: missing did length prefix");
    assert_eq!(coords_fault(&[0x00]), "truncated: missing did length prefix");
    assert_eq!(
        coords_fault(&[0x00, 0x03, b'a', b'b']),
        "truncated: did shorter than its length prefix"
    );
    assert_eq!(coords_fault(&[0x00, 0x01, 0xFF]), "did is not valid utf-8");
    assert_eq!(coords_fault(&[0x00, 0x01, b'x']), "not a valid did:chia: string");
    assert_eq!(coords_fault(&good[..70]), "truncated: missing launcher id");
    assert_eq!(coords_fault(&good[..101]), "truncated: missing launcher id");
    assert_eq!(coords_fault(&good[..102]), "truncated: missing committed root");
    assert_eq!(coords_fault(&good[..133]), "truncated: missing committed root");
    let mut long = good.clone();
    long.push(0x00);
    assert_eq!(coords_fault(&long), "trailing bytes after committed root");
    let mut foreign = good.clone();
    foreign[70] ^= 0x01;
    match StoreCoords::from_canonical_bytes(&foreign) {
        Err(Error::Invariant(text)) => {
            assert_eq!(text, "store launcher_id does not match the DID's launcher id");
        }
        other => panic!("expected an invariant error, got {other:?}"),
    }
}

/// Surrounding whitespace in the DID is tolerated, and not kept: the one way in which two buffers
/// decode to the same coordinates.
#[test]
fn store_coords_tolerate_whitespace_around_the_did() {
    let did = make_did(0x11);
    let coords = make_coords(&did, 0x22);
    let mut padded = vec![0x00, 0x46, b' '];
    padded.extend_from_slice(did.as_str().as_bytes());
    padded.push(b'\n');
    padded.extend_from_slice(&[0x11; 32]);
    padded.extend_from_slice(&[0x22; 32]);
    assert_eq!(StoreCoords::from_canonical_bytes(&padded).unwrap(), coords);
    assert_ne!(padded, coords.to_canonical_bytes());
}

/// The exact bytes of encoded messages.
#[test]
fn social_message_bytes_are_exact() {
    let offer = SealedOffer::new(vec![0xA0, 0xB0, 0xC0]);
    let request = SocialMessage::Request(ConnectRequest {
        requestor_offer: offer.clone(),
    });
    let accept = SocialMessage::Accept(ConnectAccept {
        recipient_offer: offer,
    });
    assert_eq!(
        request.to_canonical_bytes(),
        vec![0, 0, 0, 0, 3, 0xA0, 0xB0, 0xC0]
    );
    assert_eq!(
        accept.to_canonical_bytes(),
        vec![1, 0, 0, 0, 3, 0xA0, 0xB0, 0xC0]
    );
    assert_eq!(SocialMessage::Deny(ConnectDeny).to_canonical_bytes(), vec![2]);
    assert_eq!(SocialMessage::Revoke(Revoke).to_canonical_bytes(), vec![3]);
    let big = SocialMessage::Request(ConnectRequest {
        requestor_offer: SealedOffer::new(vec![7; 0x01_02_03]),
    });
    assert_eq!(&big.to_canonical_bytes()[..5], &[0, 0x00, 0x01, 0x02, 0x03]);
}

/// Each fault of a message buffer.
#[test]
fn social_message_faults_are_exact() {
    assert_eq!(message_fault(&[]), "empty message buffer");
    assert_eq!(message_fault(&[0, 0, 0, 0]), "truncated: missing offer length prefix");
    assert_eq!(
        message_fault(&[1, 0, 0, 0, 2, 9]),
        "truncated: offer shorter than its length prefix"
    );
    assert_eq!(
        message_fault(&[0, 0xFF, 0xFF, 0xFF, 0xFF, 9]),
        "truncated: offer shorter than its length prefix"
    );
    assert_eq!(message_fault(&[0, 0, 0, 0, 1, 9, 9]), "trailing bytes after offer");
    assert_eq!(message_fault(&[2, 0]), "trailing bytes after bodyless message");
    assert_eq!(message_fault(&[3, 0]), "trailing bytes after bodyless message");
    assert_eq!(message_fault(&[4]), "unknown message kind tag");
    assert_eq!(message_fault(&[4, 0]), "unknown message kind tag");
}

/// A buffer that decodes is the encoding of what it decodes to.
#[test]
fn social_message_encoding_is_canonical() {
    for buffer in [
        vec![0, 0, 0, 0, 0],
        vec![1, 0, 0, 0, 2, 5, 6],
        vec![2],
        vec![3],
    ] {
        let message = SocialMessage::from_canonical_bytes(&buffer).unwrap();
        assert_eq!(message.to_canonical_bytes(), buffer);
    }
}

/// A buffer that is cut short anywhere is refused for what is missing, and one with a byte too many
/// for that.
#[test]
fn cut_and_extended_buffers_are_refused() {
    let did = make_did(0x11);
    let mut coords = make_coords(&did, 0x22).to_canonical_bytes();
    assert_eq!(coords.len(), 134);
    for n in 0..coords.len() {
        let expected = match n {
            0..=1 => "truncated: missing did length prefix",
            2..=69 => "truncated: did shorter than its length prefix",
            70..=101 => "truncated: missing launcher id",
            _ => "truncated: missing committed root",
        };
        assert_eq!(coords_fault(&coords[..n]), expected, "{n}");
    }
    coords.push(0);
    assert_eq!(coords_fault(&coords), "trailing bytes after committed root");

    let offer = SealedOffer::new(vec![1, 2, 3, 4]);
    let (after_offer, bodyless) = (
        "trailing bytes after offer",
        "trailing bytes after bodyless message",
    );
    for (message, trailing) in [
        (
            SocialMessage::Request(ConnectRequest {
                requestor_offer: offer.clone(),
            }),
            after_offer,
        ),
        (
            SocialMessage::Accept(ConnectAccept {
                recipient_offer: offer.clone(),
            }),
            after_offer,
        ),
        (SocialMessage::Deny(ConnectDeny), bodyless),
        (SocialMessage::Revoke(Revoke), bodyless),
    ] {
        let mut bytes = message.to_canonical_bytes();
        for n in 0..bytes.len() {
            let expected = match n {
                0 => "empty message buffer",
                1..=4 => "truncated: missing offer length prefix",
                _ => "truncated: offer shorter than its length prefix",
            };
            assert_eq!(message_fault(&bytes[..n]), expected, "{n}");
        }
        bytes.push(0);
        assert_eq!(message_fault(&bytes), trailing);
    }
}
