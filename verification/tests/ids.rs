use libp2p::PeerId;
use modelnet::decimal::to_decimal;
use modelnet::content::to_native_bytes;
use modelnet::message_id;
use modelnet::ByteOrder;
use modelnet::Peer;
use std::collections::hash_map::DefaultHasher;
use std::hash::{Hash, Hasher};

fn hashed(data: &Vec<u8>) -> String {
    let mut s = DefaultHasher::new();
    data.hash(&mut s);
    s.finish().to_string()
}

fn native() -> ByteOrder {
    if 1u16.to_ne_bytes() == [1, 0] {
        ByteOrder::Little
    } else {
        ByteOrder::Big
    }
}

#[test]
fn message_ids_are_the_standard_hash_in_decimal() {
    for data in [vec![], vec![0u8], vec![0u8, 0u8], b"hello".to_vec(), vec![7u8; 70000]] {
        assert_eq!(message_id(native(), &data), hashed(&data));
    }
    for size in 0..600usize {
        let data: Vec<u8> = (0..size).map(|i| (i * 31 + size) as u8).collect();
        assert_eq!(message_id(native(), &data), hashed(&data));
    }
}

#[test]
fn messages_with_the_same_content_share_an_id() {
    let json = br#"{"mode":"ALL"}"#.to_vec();
    for order in [ByteOrder::Little, ByteOrder::Big] {
        assert_eq!(message_id(order, &json), message_id(order, &json.clone()));
        assert_ne!(message_id(order, &json), message_id(order, &b"{}".to_vec()));
        assert!(message_id(order, &json).parse::<u64>().is_ok());
    }
}

#[test]
fn lengths_are_hashed_in_the_bytes_of_the_machine() {
    for n in [0usize, 1, 14, 258, 70000, usize::MAX - 1] {
        assert_eq!(to_native_bytes(ByteOrder::Little, n), n.to_le_bytes().to_vec());
        assert_eq!(to_native_bytes(ByteOrder::Big, n), n.to_be_bytes().to_vec());
        assert_eq!(to_native_bytes(native(), n), n.to_ne_bytes().to_vec());
    }
    for data in [vec![], b"hello".to_vec(), vec![7u8; 300]] {
        let mut s = DefaultHasher::new();
        s.write(&data.len().to_be_bytes());
        s.write(&data);
        assert_eq!(message_id(ByteOrder::Big, &data), s.finish().to_string());
    }
}

#[test]
fn numbers_in_decimal() {
    assert_eq!(to_decimal(0), "0");
    assert_eq!(to_decimal(9), "9");
    assert_eq!(to_decimal(10), "10");
    assert_eq!(to_decimal(1234567890), "1234567890");
    assert_eq!(to_decimal(u64::MAX), "18446744073709551615");
}

#[test]
fn peer_text_is_that_of_the_network() {
    for _ in 0..50 {
        let id = PeerId::random();
        let peer = Peer::from_bytes(id.to_bytes()).unwrap();
        assert_eq!(peer.text(), id.to_string());
        assert_eq!(peer.to_bytes(), id.to_bytes());
    }
    for size in 0..65u8 {
        let mut bytes = vec![0x12, size];
        for i in 0..size {
            bytes.push(i.wrapping_mul(37).wrapping_add(size));
        }
        let id = PeerId::from_bytes(&bytes).unwrap();
        assert_eq!(Peer::from_bytes(bytes).unwrap().text(), id.to_string());
    }
}

#[test]
fn peer_text_in_base_58() {
    assert_eq!(Peer::from_bytes(vec![0x00, 0x00]).unwrap().text(), "11");
    assert_eq!(Peer::from_bytes(vec![0x12, 0x01, 0x01]).unwrap().text(), "73kC");
    assert_eq!(Peer::from_bytes(vec![0x00, 0x02, 0x00, 0x01]).unwrap().text(), "1fxt");
}

/// Base 58 by long division: a `1` for each leading zero byte, then the number in base 58.
fn long_division(bytes: &[u8]) -> String {
    let alphabet = b"123456789ABCDEFGHJKLMNPQRSTUVWXYZabcdefghijkmnopqrstuvwxyz";
    let zeros = bytes.iter().take_while(|b| **b == 0).count();
    let mut rest = bytes.to_vec();
    let mut digits = Vec::new();
    while rest.iter().any(|b| *b != 0) {
        let mut carry = 0usize;
        for byte in rest.iter_mut() {
            let n = carry * 256 + *byte as usize;
            *byte = (n / 58) as u8;
            carry = n % 58;
        }
        digits.push(alphabet[carry] as char);
    }
    "1".repeat(zeros) + &digits.iter().rev().collect::<String>()
}

#[test]
fn peer_text_by_long_division() {
    for seed in 0..200u32 {
        let size = (seed % 43) as u8;
        let mut bytes = vec![0x00, size];
        for i in 0..size as u32 {
            let n = seed.wrapping_mul(2654435761).wrapping_add(i.wrapping_mul(40503)) >> 7;
            bytes.push(if i < seed % 3 { 0 } else { n as u8 });
        }
        let text = long_division(&bytes);
        assert_eq!(Peer::from_bytes(bytes).unwrap().text(), text);
    }
}

#[test]
fn other_bytes_are_no_peer_id() {
    assert!(Peer::from_bytes(vec![]).is_none());
    assert!(Peer::from_bytes(vec![0x12]).is_none());
    assert!(Peer::from_bytes(vec![0x12, 0x01]).is_none());
    assert!(Peer::from_bytes(vec![0x12, 0x00, 0x00]).is_none());
    assert!(Peer::from_bytes(vec![0x13, 0x00]).is_none());
    let inline = |size: u8| {
        let mut bytes = vec![0x00, size];
        bytes.resize(2 + size as usize, 1);
        bytes
    };
    assert!(Peer::from_bytes(inline(42)).is_some());
    assert!(Peer::from_bytes(inline(43)).is_none());
    assert!(PeerId::from_bytes(&inline(43)).is_err());
    let digest = |size: u8| {
        let mut bytes = vec![0x12, size];
        bytes.resize(2 + size as usize, 1);
        bytes
    };
    assert!(Peer::from_bytes(digest(64)).is_some());
    assert!(Peer::from_bytes(digest(65)).is_none());
    assert!(PeerId::from_bytes(&digest(65)).is_err());
}

#[test]
fn peers_are_the_same_by_their_bytes() {
    let a = Peer::from_bytes(vec![0x12, 0x01, 0x01]).unwrap();
    let b = Peer::from_bytes(vec![0x12, 0x01, 0x02]).unwrap();
    let c = Peer::from_bytes(vec![0x12, 0x02, 0x01, 0x01]).unwrap();
    assert!(a.same(&a.clone()));
    assert!(!a.same(&b));
    assert!(!a.same(&c));
    assert_ne!(a.text(), b.text());
    assert_ne!(a.text(), c.text());
}
