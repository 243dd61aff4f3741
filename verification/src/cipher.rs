//! The rotating-key XOR cipher that wraps a score file, and its running
//! checksum.

use vstd::prelude::*;
use crate::bytes::{ByteReader, ReadError, u16_at};

verus! {

/// `x` rotated left by three bits.
pub open spec fn rotate_left_3(x: u8) -> u8 {
    (x << 3) | (x >> 5)
}

/// The key that follows `key` once the byte decrypted with it was `plain`.
pub open spec fn next_key(key: u8, plain: u8) -> u8 {
    rotate_left_3(key.wrapping_add(plain))
}

/// The key in force after the bytes of `cipher` were decrypted one after the
/// other, starting with `key`.
pub open spec fn key_after(key: u8, cipher: Seq<u8>) -> u8
    decreases cipher.len(),
{
    if cipher.len() == 0 {
        key
    } else {
        let before = key_after(key, cipher.drop_last());
        next_key(before, cipher.last() ^ before)
    }
}

/// The plain byte at position `i` of a stream `cipher` whose first byte is
/// decrypted with `key`.
pub open spec fn plain_at(key: u8, cipher: Seq<u8>, i: int) -> u8
    recommends
        0 <= i < cipher.len(),
{
    cipher[i] ^ key_after(key, cipher.take(i))
}

/// The plain text of `cipher` when its first byte is decrypted with `key`.
pub open spec fn decrypt(key: u8, cipher: Seq<u8>) -> Seq<u8> {
    Seq::new(cipher.len(), |i: int| plain_at(key, cipher, i))
}

/// The running checksum after the bytes of `plain` were added, with
/// wrap-around, to `start`.
pub open spec fn checksum_after(start: u16, plain: Seq<u8>) -> u16
    decreases plain.len(),
{
    if plain.len() == 0 {
        start
    } else {
        checksum_after(start, plain.drop_last()).wrapping_add(plain.last() as u16)
    }
}

/// What a decryptor holds between two calls.
pub struct CipherState {
    /// The key for the next byte.
    pub key: u8,
    /// The wrapping sum of the plain bytes produced so far.
    pub checksum: u16,
    /// The sum that the envelope announces for the whole stream.
    pub target_checksum: u16,
}

/// The state that the four envelope bytes at the front of `e` set up: one
/// unused byte, the key seed, and the two bytes of the announced checksum,
/// which are decrypted like payload but do not count towards the sum.
pub open spec fn envelope_state(e: Seq<u8>) -> CipherState
    recommends
        e.len() >= 4,
{
    let seed_key = rotate_left_3(e[1]);
    let sum = decrypt(seed_key, e.subrange(2, 4));
    CipherState {
        key: key_after(seed_key, e.subrange(2, 4)),
        checksum: 0,
        target_checksum: u16_at(sum, 0),
    }
}

/// The state after `state` has decrypted `cipher`.
pub open spec fn state_after(state: CipherState, cipher: Seq<u8>) -> CipherState {
    CipherState {
        key: key_after(state.key, cipher),
        checksum: checksum_after(state.checksum, decrypt(state.key, cipher)),
        target_checksum: state.target_checksum,
    }
}

/// Decryption keeps the length of its input.
pub proof fn lemma_decrypt_len(key: u8, cipher: Seq<u8>)
    ensures
        decrypt(key, cipher).len() == cipher.len(),
{
}

/// An encrypted stream is four bytes longer than its plain text: the
/// envelope.
pub proof fn lemma_plain_len(stream: Seq<u8>)
    requires
        stream.len() >= 4,
    ensures
        decrypt(envelope_state(stream).key, stream.skip(4)).len() == stream.len() - 4,
{
}

/// The key after a stream made of two parts is the key after the second
/// part, started with the key after the first.
pub proof fn lemma_key_after_concat(key: u8, a: Seq<u8>, b: Seq<u8>)
    ensures
        key_after(key, a + b) == key_after(key_after(key, a), b),
    decreases b.len(),
{
    if b.len() == 0 {
        assert(a + b =~= a);
    } else {
        assert((a + b).drop_last() =~= a + b.drop_last());
        assert((a + b).last() == b.last());
        lemma_key_after_concat(key, a, b.drop_last());
    }
}

/// A stream can be decrypted in pieces: the plain text of two parts in a row
/// is the plain text of the first followed by that of the second, decrypted
/// with the key that the first part left.
pub proof fn lemma_decrypt_concat(key: u8, a: Seq<u8>, b: Seq<u8>)
    ensures
        decrypt(key, a + b) == decrypt(key, a) + decrypt(key_after(key, a), b),
{
    let whole = decrypt(key, a + b);
    let parts = decrypt(key, a) + decrypt(key_after(key, a), b);
    assert(whole.len() == parts.len());
    assert forall|i: int| 0 <= i < whole.len() implies whole[i] == parts[i] by {
        if i < a.len() {
            assert((a + b).take(i) =~= a.take(i));
        } else {
            let j = i - a.len();
            assert((a + b).take(i) =~= a + b.take(j));
            lemma_key_after_concat(key, a, b.take(j));
        }
    }
    assert(whole =~= parts);
}

/// The checksum over two pieces of plain text in a row is the checksum over
/// the second, started from the checksum over the first.
pub proof fn lemma_checksum_concat(start: u16, a: Seq<u8>, b: Seq<u8>)
    ensures
        checksum_after(start, a + b) == checksum_after(checksum_after(start, a), b),
    decreases b.len(),
{
    if b.len() == 0 {
        assert(a + b =~= a);
    } else {
        assert((a + b).drop_last() =~= a + b.drop_last());
        assert((a + b).last() == b.last());
        lemma_checksum_concat(start, a, b.drop_last());
    }
}

/// Decrypting two pieces one after the other leaves the state that
/// decrypting them as one piece leaves.
pub proof fn lemma_state_after_concat(state: CipherState, a: Seq<u8>, b: Seq<u8>)
    ensures
        state_after(state, a + b) == state_after(state_after(state, a), b),
{
    lemma_key_after_concat(state.key, a, b);
    lemma_decrypt_concat(state.key, a, b);
    lemma_checksum_concat(
        state.checksum,
        decrypt(state.key, a),
        decrypt(key_after(state.key, a), b),
    );
}

/// The key in force after the bytes of `plain` were encrypted one after the
/// other, starting with `key`.
pub open spec fn key_after_plain(key: u8, plain: Seq<u8>) -> u8
    decreases plain.len(),
{
    if plain.len() == 0 {
        key
    } else {
        next_key(key_after_plain(key, plain.drop_last()), plain.last())
    }
}

/// The cipher text of `plain` when its first byte is encrypted with `key`.
pub open spec fn encrypt(key: u8, plain: Seq<u8>) -> Seq<u8> {
    Seq::new(plain.len(), |i: int| plain[i] ^ key_after_plain(key, plain.take(i)))
}

proof fn lemma_xor_twice(x: u8, k: u8)
    by (bit_vector)
    ensures
        (x ^ k) ^ k == x,
{
}

/// Decrypting what was encrypted leaves the key that encrypting left.
pub proof fn lemma_key_after_encrypt(key: u8, plain: Seq<u8>)
    ensures
        key_after(key, encrypt(key, plain)) == key_after_plain(key, plain),
    decreases plain.len(),
{
    if plain.len() > 0 {
        let cipher = encrypt(key, plain);
        let front = plain.drop_last();
        assert forall|i: int| 0 <= i < front.len() implies cipher.drop_last()[i] == encrypt(
            key,
            front,
        )[i] by {
            assert(front.take(i) =~= plain.take(i));
        }
        assert(cipher.drop_last() =~= encrypt(key, front));
        assert(plain.take(plain.len() - 1) =~= front);
        lemma_key_after_encrypt(key, front);
        lemma_xor_twice(plain.last(), key_after_plain(key, front));
    }
}

/// Decrypting undoes encrypting with the same key.
pub proof fn lemma_decrypt_encrypt(key: u8, plain: Seq<u8>)
    ensures
        decrypt(key, encrypt(key, plain)) == plain,
{
    let cipher = encrypt(key, plain);
    assert forall|i: int| 0 <= i < plain.len() implies decrypt(key, cipher)[i] == plain[i] by {
        let front = plain.take(i);
        assert forall|j: int| 0 <= j < i implies cipher.take(i)[j] == encrypt(key, front)[j] by {
            assert(front.take(j) =~= plain.take(j));
        }
        assert(cipher.take(i) =~= encrypt(key, front));
        lemma_key_after_encrypt(key, front);
        lemma_xor_twice(plain[i], key_after_plain(key, front));
    }
    assert(decrypt(key, cipher) =~= plain);
}

/// The decrypting end of the cipher: the key for the next byte and the
/// checksum of what came out so far.
#[derive(Debug, Clone, Copy)]
pub struct Decryptor {
    key: u8,
    checksum: u16,
    target_checksum: u16,
}

impl View for Decryptor {
    type V = CipherState;

    closed spec fn view(&self) -> CipherState {
        CipherState {
            key: self.key,
            checksum: self.checksum,
            target_checksum: self.target_checksum,
        }
    }
}

fn rotl3(x: u8) -> (r: u8)
    ensures
        r == rotate_left_3(x),
{
    (x << 3) | (x >> 5)
}

impl Decryptor {
    /// Consumes the four-byte envelope at the front of `src` and sets up the
    /// key for the byte behind it.
    pub fn new(src: &mut ByteReader) -> (r: Result<Decryptor, ReadError>)
        ensures
            final(src).data() == old(src).data(),
            final(src).pos() <= final(src).data().len(),
            old(src).remaining().len() >= 4 ==> r is Ok && r->Ok_0@ == envelope_state(
                old(src).remaining(),
            ) && final(src).pos() == old(src).pos() + 4,
            old(src).remaining().len() < 4 ==> r is Err && r->Err_0 == ReadError::UnexpectedEof
                && final(src).pos() == old(src).data().len(),
    {
        proof {
            use_type_invariant(&*src);
        }
        let ghost e = src.remaining();
        let _ = src.read_u8()?;
        let seed = src.read_u8()?;
        let sum = src.read_exact(2)?;
        let seed_key = rotl3(seed);
        let low = sum[0] ^ seed_key;
        let mid_key = rotl3(seed_key.wrapping_add(low));
        let high = sum[1] ^ mid_key;
        let key = rotl3(mid_key.wrapping_add(high));
        let target_checksum = (low as u16) + 256 * (high as u16);
        proof {
            let c = e.subrange(2, 4);
            let first = c.take(1);
            assert(c =~= sum@);
            assert(c.drop_last() =~= first);
            assert(first.last() == c[0]);
            assert(key_after(seed_key, first.drop_last()) == seed_key);
            assert(key_after(seed_key, c.take(0)) == seed_key);
            assert(key_after(seed_key, c.take(1)) == mid_key);
            assert(key_after(seed_key, c) == key);
            assert(decrypt(seed_key, c)[0] == low);
            assert(decrypt(seed_key, c)[1] == high);
        }
        Ok(Decryptor { key, checksum: 0, target_checksum })
    }

    /// Decrypts `buf` in place, as the continuation of what this decryptor
    /// has decrypted before, and adds the plain bytes to the checksum.
    pub fn decrypt(&mut self, buf: &mut [u8])
        ensures
            final(buf)@ == decrypt(old(self)@.key, old(buf)@),
            final(buf)@.len() == old(buf)@.len(),
            final(self)@ == state_after(old(self)@, old(buf)@),
    {
        let n = buf.len();
        let ghost cipher = buf@;
        let ghost start = self@;
        let mut i: usize = 0;
        while i < n
            invariant
                i <= n,
                n == cipher.len(),
                buf@.len() == n,
                forall|j: int| 0 <= j < i ==> buf@[j] == plain_at(start.key, cipher, j),
                forall|j: int| i <= j < n ==> buf@[j] == cipher[j],
                self@.key == key_after(start.key, cipher.take(i as int)),
                self@.checksum == checksum_after(
                    start.checksum,
                    decrypt(start.key, cipher).take(i as int),
                ),
                self@.target_checksum == start.target_checksum,
            decreases n - i,
        {
            let x = buf[i] ^ self.key;
            buf[i] = x;
            self.key = rotl3(self.key.wrapping_add(x));
            self.checksum = self.checksum.wrapping_add(x as u16);
            proof {
                let next = cipher.take(i + 1);
                assert(next.drop_last() =~= cipher.take(i as int));
                assert(next.last() == cipher[i as int]);
                let plain = decrypt(start.key, cipher);
                assert(plain.take(i + 1).drop_last() =~= plain.take(i as int));
                assert(plain.take(i + 1).last() == x);
            }
            i += 1;
        }
        proof {
            assert(cipher.take(n as int) =~= cipher);
            assert(decrypt(start.key, cipher).take(n as int) =~= decrypt(start.key, cipher));
            assert(buf@ =~= decrypt(start.key, cipher));
        }
    }

    /// Whether the checksum of what was decrypted so far is the one that the
    /// envelope announced. This is meaningful once the whole stream has been
    /// decrypted.
    pub fn is_valid(&self) -> (r: bool)
        ensures
            r == (self@.checksum == self@.target_checksum),
    {
        self.checksum == self.target_checksum
    }

    /// The wrapping sum of the plain bytes produced so far.
    pub fn checksum(&self) -> (r: u16)
        ensures
            r == self@.checksum,
    {
        self.checksum
    }

    /// The checksum that the envelope announced.
    pub fn target_checksum(&self) -> (r: u16)
        ensures
            r == self@.target_checksum,
    {
        self.target_checksum
    }
}

} // verus!
