use touhou_tracker::bytes::{ByteReader, ReadError};
use touhou_tracker::cipher::Decryptor;

fn rotl3(x: u8) -> u8 {
    x.rotate_left(3)
}

/// Encrypts `plain` behind an envelope with key seed `seed`, announcing the
/// checksum `announced`.
fn encrypt(seed: u8, announced: u16, plain: &[u8]) -> Vec<u8> {
    let mut out = vec![0xAA, seed];
    let mut key = rotl3(seed);
    for b in announced.to_le_bytes().iter().chain(plain.iter()) {
        out.push(*b ^ key);
        key = rotl3(key.wrapping_add(*b));
    }
    out
}

fn checksum(plain: &[u8]) -> u16 {
    plain.iter().fold(0u16, |acc, b| acc.wrapping_add(*b as u16))
}

#[test]
fn envelope_sets_key_and_target() {
    // seed 0x21 rotates to 0x09; the low checksum byte 0x34 is stored as
    // 0x34 ^ 0x09, after which the key is rotl3(0x09 + 0x34) = rotl3(0x3D) = 0xE9.
    let raw = [0x00, 0x21, 0x34 ^ 0x09, 0x12 ^ 0xE9, 0xFF];
    let mut src = ByteReader::new(&raw);
    let d = Decryptor::new(&mut src).unwrap();
    assert_eq!(d.target_checksum(), 0x1234);
    assert_eq!(d.checksum(), 0);
    assert_eq!(src.len(), 1);
    assert!(!d.is_valid());
}

#[test]
fn envelope_truncated() {
    for n in 0..4 {
        let raw = [1u8, 2, 3, 4];
        let mut src = ByteReader::new(&raw[..n]);
        assert_eq!(Decryptor::new(&mut src).err(), Some(ReadError::UnexpectedEof));
        assert_eq!(src.len(), 0);
    }
}

#[test]
fn decrypt_known_bytes() {
    // key after the envelope below: seed 0 -> 0; checksum bytes 0, 0 leave 0.
    let raw = [0u8, 0, 0, 0];
    let mut src = ByteReader::new(&raw);
    let mut d = Decryptor::new(&mut src).unwrap();
    // plain 1 with key 0 -> key rotl3(1) = 8; plain 2 stored as 2 ^ 8 = 10,
    // key rotl3(8 + 2) = 80; plain 0xFF stored as 0xFF ^ 80 = 0xAF.
    let mut buf = [1u8, 10, 0xAF];
    d.decrypt(&mut buf);
    assert_eq!(buf, [1, 2, 0xFF]);
    assert_eq!(d.checksum(), 1 + 2 + 0xFF);
}

#[test]
fn decrypt_round_trip_keeps_length_and_checksum() {
    let plain: Vec<u8> = (0..=255u8).chain(0..=255u8).chain([7u8, 200, 13]).collect();
    let raw = encrypt(0x5C, checksum(&plain), &plain);
    assert_eq!(raw.len(), plain.len() + 4);
    let mut src = ByteReader::new(&raw);
    let mut d = Decryptor::new(&mut src).unwrap();
    let mut buf = raw[4..].to_vec();
    d.decrypt(&mut buf);
    assert_eq!(buf.len(), raw.len() - 4);
    assert_eq!(buf, plain);
    assert_eq!(d.checksum(), checksum(&plain));
    assert_eq!(d.target_checksum(), checksum(&plain));
    assert!(d.is_valid());
}

#[test]
fn checksum_wraps_around() {
    let plain = vec![0xFFu8; 300];
    let raw = encrypt(3, 0, &plain);
    let mut src = ByteReader::new(&raw);
    let mut d = Decryptor::new(&mut src).unwrap();
    let mut buf = raw[4..].to_vec();
    d.decrypt(&mut buf);
    assert_eq!(buf, plain);
    assert_eq!(d.checksum(), ((300u32 * 255) % 65536) as u16);
    assert!(!d.is_valid());
}

#[test]
fn decrypt_in_pieces_is_decrypt_at_once() {
    let plain: Vec<u8> = (0..100u8).map(|i| i.wrapping_mul(37)).collect();
    let raw = encrypt(0xF1, checksum(&plain), &plain);
    let mut src = ByteReader::new(&raw);
    let mut whole = Decryptor::new(&mut src).unwrap();
    let mut pieces = whole;
    let mut a = raw[4..].to_vec();
    whole.decrypt(&mut a);
    let mut b = raw[4..].to_vec();
    let (front, back) = b.split_at_mut(33);
    pieces.decrypt(front);
    pieces.decrypt(&mut back[..0]);
    pieces.decrypt(back);
    assert_eq!(a, b);
    assert_eq!(whole.checksum(), pieces.checksum());
    assert!(pieces.is_valid());
}
