use touhou_tracker::bytes::ReadError;
use touhou_tracker::score::ScoreReader;

fn rotl3(x: u8) -> u8 {
    x.rotate_left(3)
}

fn checksum(plain: &[u8]) -> u16 {
    plain.iter().fold(0u16, |acc, b| acc.wrapping_add(*b as u16))
}

fn encrypt(seed: u8, announced: u16, plain: &[u8]) -> Vec<u8> {
    let mut out = vec![0x7F, seed];
    let mut key = rotl3(seed);
    for b in announced.to_le_bytes().iter().chain(plain.iter()) {
        out.push(*b ^ key);
        key = rotl3(key.wrapping_add(*b));
    }
    out
}

fn plain_file(body: &[u8]) -> Vec<u8> {
    let mut b = Vec::new();
    b.extend_from_slice(&0x000Bu16.to_le_bytes());
    b.extend_from_slice(&[0; 2]);
    b.extend_from_slice(&0x1Cu32.to_le_bytes());
    b.extend_from_slice(&[0; 4]);
    b.extend_from_slice(&(0x1C + 5000u32).to_le_bytes());
    b.extend_from_slice(&5000u32.to_le_bytes());
    b.extend_from_slice(&(body.len() as u32).to_le_bytes());
    b.extend_from_slice(body);
    b
}

#[test]
fn open_good_file() {
    let body: Vec<u8> = (0..1000u32).map(|i| (i * 7 + 3) as u8).collect();
    let plain = plain_file(&body);
    let raw = encrypt(0xA5, checksum(&plain), &plain);
    let reader = ScoreReader::new(&raw).unwrap();
    assert_eq!(reader.header().version(), 11);
    assert_eq!(reader.header().header_sz(), 0x1C);
    assert_eq!(reader.header().decomp_full_sz(), 5028);
    assert_eq!(reader.header().decomp_body_sz(), 5000);
    assert_eq!(reader.header().encoded_body_sz(), 1000);
    assert_eq!(reader.body(), &body[..]);
    assert_eq!(24 + reader.body().len(), raw.len() - 4);
    assert!(reader.is_valid());
    assert_eq!(reader.decryptor().checksum(), checksum(&plain));
    assert_eq!(reader.decryptor().target_checksum(), checksum(&plain));
}

#[test]
fn open_file_with_wrong_checksum_still_reads() {
    let body = [1u8, 2, 3, 4, 5];
    let plain = plain_file(&body);
    let raw = encrypt(0x01, checksum(&plain).wrapping_add(1), &plain);
    let reader = ScoreReader::new(&raw).unwrap();
    assert!(!reader.is_valid());
    assert_eq!(reader.body(), &body[..]);
    assert_eq!(reader.header().encoded_body_sz(), 5);
    assert_eq!(reader.decryptor().checksum(), checksum(&plain));
    assert_eq!(reader.decryptor().target_checksum(), checksum(&plain).wrapping_add(1));
}

#[test]
fn open_file_without_body() {
    let plain = plain_file(&[]);
    let raw = encrypt(0xFF, checksum(&plain), &plain);
    assert_eq!(raw.len(), 28);
    let reader = ScoreReader::new(&raw).unwrap();
    assert_eq!(reader.body().len(), 0);
    assert!(reader.is_valid());
}

#[test]
fn open_truncated_file_fails() {
    let plain = plain_file(&[9; 10]);
    let raw = encrypt(0x42, checksum(&plain), &plain);
    for n in 0..28 {
        assert_eq!(ScoreReader::new(&raw[..n]).err(), Some(ReadError::UnexpectedEof), "{}", n);
    }
    assert!(ScoreReader::new(&raw[..28]).is_ok());
}
