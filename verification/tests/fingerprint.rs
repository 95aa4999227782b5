use desnet::utils::msg::{fingerprint, message_id, Message, MessageId};
use desnet::utils::peer::NodeIdentifier;
use std::collections::hash_map::DefaultHasher;
use std::hash::{Hash, Hasher};

fn std_hash(data: &Vec<u8>) -> u64 {
    let mut state = DefaultHasher::new();
    data.hash(&mut state);
    state.finish()
}

fn message(data: &[u8], topic: &str) -> Message {
    Message { source: None, data: data.to_vec(), sequence_number: None, topic: topic.to_string() }
}

#[test]
fn message_id_is_the_hash_of_the_payload() {
    for data in [&b""[..], b"hello", b"hello world", &[0u8; 100][..], &[0xff, 0x00, 0x80][..]] {
        let id = message_id(&message(data, "room"));
        assert_eq!(id.hash, std_hash(&data.to_vec()));
        assert_eq!(id.to_bytes(), std_hash(&data.to_vec()).to_string().into_bytes());
    }
}

#[test]
fn message_id_of_known_payloads() {
    assert_eq!(fingerprint(&b"".to_vec()).hash, 13646096770106105413);
    assert_eq!(fingerprint(&b"hello".to_vec()).hash, 9754003402134539932);
    assert_eq!(fingerprint(&b"hello world".to_vec()).hash, 9542440807163689880);
    assert_eq!(fingerprint(&b"hello".to_vec()).to_bytes(), b"9754003402134539932".to_vec());
}

#[test]
fn message_id_is_the_same_every_time() {
    let first = message_id(&message(b"payload", "room"));
    let second = message_id(&message(b"payload", "room"));
    assert_eq!(first, second);
    assert_eq!(first.to_bytes(), second.to_bytes());
}

#[test]
fn message_id_ignores_sender_number_and_topic() {
    let sender = NodeIdentifier::from_bytes(
        &bs58::decode("QmYyQSo1c1Ym7orWxLYvCrM2EmxFTANf8wXmmE7DWjhx5N").into_vec().unwrap(),
    ).unwrap();
    let plain = message(b"payload", "room");
    let other = Message {
        source: Some(sender),
        data: b"payload".to_vec(),
        sequence_number: Some(42),
        topic: "another room".to_string(),
    };
    assert_eq!(message_id(&plain), message_id(&other));
    assert_eq!(message_id(&plain), fingerprint(&b"payload".to_vec()));
}

#[test]
fn different_payloads_have_different_fingerprints() {
    let payloads: [&[u8]; 6] = [b"", b"a", b"b", b"ab", b"ba", b"a\0"];
    for (i, one) in payloads.iter().enumerate() {
        for other in payloads.iter().skip(i + 1) {
            assert_ne!(fingerprint(&one.to_vec()), fingerprint(&other.to_vec()));
        }
    }
}

#[test]
fn fingerprint_text_is_decimal() {
    assert_eq!(MessageId { hash: 0 }.to_bytes(), b"0".to_vec());
    assert_eq!(MessageId { hash: 7 }.to_bytes(), b"7".to_vec());
    assert_eq!(MessageId { hash: 10 }.to_bytes(), b"10".to_vec());
    assert_eq!(MessageId { hash: 1234567890 }.to_bytes(), b"1234567890".to_vec());
    assert_eq!(MessageId { hash: 1000000 }.to_bytes(), b"1000000".to_vec());
    assert_eq!(MessageId { hash: u64::MAX }.to_bytes(), b"18446744073709551615".to_vec());
}

#[test]
fn fingerprint_text_tells_fingerprints_apart() {
    let hashes = [0u64, 1, 9, 10, 11, 99, 100, 101, u64::MAX - 1, u64::MAX];
    for (i, one) in hashes.iter().enumerate() {
        for other in hashes.iter().skip(i + 1) {
            assert_ne!(MessageId { hash: *one }.to_bytes(), MessageId { hash: *other }.to_bytes());
        }
    }
}
