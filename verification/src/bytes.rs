//! A forward-only cursor over a byte buffer with little-endian integer reads.

use vstd::prelude::*;
use vstd::string::StringExecFns;
use crate::types::InvalidDiscriminant;

verus! {

/// Why a read or a decode failed.
#[derive(Debug, Clone, Copy, PartialEq, Eq, Hash, Structural)]
pub enum ReadError {
    /// The bytes ended inside a field or inside a declared payload.
    UnexpectedEof,
    /// An enumerated byte was outside its valid range.
    InvalidDiscriminant(InvalidDiscriminant),
    /// A stored card number has no one-based successor in sixteen bits.
    CardIdOverflow,
}

impl ReadError {
    /// What to tell of this error.
    pub open spec fn spec_message(self) -> Seq<char> {
        match self {
            ReadError::UnexpectedEof => "the data ends inside a field or a payload"@,
            ReadError::InvalidDiscriminant(e) => e.spec_message(),
            ReadError::CardIdOverflow => "the stored card number has no successor"@,
        }
    }

    /// What to tell of this error.
    pub fn message(&self) -> (r: String)
        ensures
            r@ == self.spec_message(),
    {
        match self {
            ReadError::UnexpectedEof => String::from_str(
                "the data ends inside a field or a payload",
            ),
            ReadError::InvalidDiscriminant(e) => e.message(),
            ReadError::CardIdOverflow => String::from_str(
                "the stored card number has no successor",
            ),
        }
    }
}

/// The two bytes of `s` from `at` on, read as a little-endian integer.
pub open spec fn u16_at(s: Seq<u8>, at: int) -> u16
    recommends
        0 <= at,
        at + 2 <= s.len(),
{
    (s[at] as int + 256 * (s[at + 1] as int)) as u16
}

/// The four bytes of `s` from `at` on, read as a little-endian integer.
pub open spec fn u32_at(s: Seq<u8>, at: int) -> u32
    recommends
        0 <= at,
        at + 4 <= s.len(),
{
    (s[at] as int + 256 * (s[at + 1] as int) + 65536 * (s[at + 2] as int) + 16777216 * (s[at
        + 3] as int)) as u32
}

/// Calls `byteorder::LittleEndian::read_u16`, which decodes the first two
/// bytes of `buf` as a little-endian integer and panics on a shorter buffer.
#[verifier::external_body]
fn le_read_u16(buf: &[u8]) -> (r: u16)
    requires
        buf@.len() >= 2,
    ensures
        r == u16_at(buf@, 0),
{
    <byteorder::LittleEndian as byteorder::ByteOrder>::read_u16(buf)
}

/// Calls `byteorder::LittleEndian::read_u32`, which decodes the first four
/// bytes of `buf` as a little-endian integer and panics on a shorter buffer.
#[verifier::external_body]
fn le_read_u32(buf: &[u8]) -> (r: u32)
    requires
        buf@.len() >= 4,
    ensures
        r == u32_at(buf@, 0),
{
    <byteorder::LittleEndian as byteorder::ByteOrder>::read_u32(buf)
}

/// Copies the `N` bytes of `src` into `dst`.
pub(crate) fn fill_from<const N: usize>(dst: &mut [u8; N], src: &[u8])
    requires
        src@.len() == N,
    ensures
        final(dst)@ == src@,
{
    let mut i: usize = 0;
    while i < N
        invariant
            i <= N,
            src@.len() == N,
            dst@.len() == N,
            forall|j: int| 0 <= j < i ==> dst@[j] == src@[j],
        decreases N - i,
    {
        dst[i] = src[i];
        i += 1;
    }
    assert(dst@ =~= src@);
}

/// Whether `r` is the outcome that `expected` describes: the same error, or
/// a value with the expected view.
pub open spec fn agrees<T: View>(r: Result<T, ReadError>, expected: Result<T::V, ReadError>) -> bool {
    match r {
        Ok(v) => expected == Ok::<T::V, ReadError>(v@),
        Err(e) => expected == Err::<T::V, ReadError>(e),
    }
}

/// How a cursor moves through a read of a record of `size` bytes: only
/// forward over the same buffer, by `size` bytes when the read succeeded
/// (`ok`), and to the end of the buffer when the bytes ran out (`eof`).
pub open spec fn advanced(
    before: ByteReader,
    after: ByteReader,
    ok: bool,
    eof: bool,
    size: nat,
) -> bool {
    &&& after.data() == before.data()
    &&& before.pos() <= after.pos() <= after.data().len()
    &&& ok ==> after.pos() == before.pos() + size
    &&& eof ==> after.pos() == after.data().len()
}

/// A cursor that hands out the bytes of a buffer from front to back.
///
/// A read that finds too few bytes left fails with
/// [`ReadError::UnexpectedEof`] and leaves the cursor at the end of the
/// buffer, as a stream that ran dry would be.
#[derive(Debug)]
pub struct ByteReader<'a> {
    data: &'a [u8],
    pos: usize,
}

impl<'a> ByteReader<'a> {
    /// The cursor never stands behind the end of its buffer.
    #[verifier::type_invariant]
    pub open spec fn in_bounds(&self) -> bool {
        self.pos() <= self.data().len()
    }

    /// All the bytes of the buffer, read or not.
    pub closed spec fn data(&self) -> Seq<u8> {
        self.data@
    }

    /// How many bytes have been consumed.
    pub closed spec fn pos(&self) -> nat {
        self.pos as nat
    }

    /// The bytes that have not been consumed yet.
    pub open spec fn remaining(&self) -> Seq<u8> {
        self.data().skip(self.pos() as int)
    }

    /// A cursor at the start of `data`.
    pub fn new(data: &'a [u8]) -> (r: Self)
        ensures
            r.data() == data@,
            r.pos() == 0,
            r.remaining() == data@,
    {
        ByteReader { data, pos: 0 }
    }

    /// How many bytes are left.
    pub fn len(&self) -> (r: usize)
        ensures
            r == self.remaining().len(),
            r == self.data().len() - self.pos(),
    {
        proof {
            use_type_invariant(self);
        }
        self.data.len() - self.pos
    }

    /// Consumes the next `n` bytes, or everything that is left if there are
    /// fewer.
    pub fn read_exact(&mut self, n: usize) -> (r: Result<&'a [u8], ReadError>)
        ensures
            final(self).data() == old(self).data(),
            final(self).pos() <= final(self).data().len(),
            old(self).pos() + n <= old(self).data().len() ==> r is Ok && r->Ok_0@
                == old(self).data().subrange(
                old(self).pos() as int,
                old(self).pos() + n,
            ) && final(self).pos() == old(self).pos() + n,
            old(self).pos() + n > old(self).data().len() ==> r == Err::<&[u8], ReadError>(
                ReadError::UnexpectedEof,
            ) && final(self).pos() == old(self).data().len(),
    {
        proof {
            use_type_invariant(&*self);
        }
        let len = self.data.len();
        if n <= len - self.pos {
            let start = self.pos;
            self.pos = start + n;
            Ok(&self.data[start..start + n])
        } else {
            self.pos = len;
            Err(ReadError::UnexpectedEof)
        }
    }

    /// Consumes one byte.
    pub fn read_u8(&mut self) -> (r: Result<u8, ReadError>)
        ensures
            final(self).data() == old(self).data(),
            final(self).pos() <= final(self).data().len(),
            old(self).pos() + 1 <= old(self).data().len() ==> r == Ok::<u8, ReadError>(
                old(self).data()[old(self).pos() as int],
            ) && final(self).pos() == old(self).pos() + 1,
            old(self).pos() + 1 > old(self).data().len() ==> r == Err::<u8, ReadError>(
                ReadError::UnexpectedEof,
            ) && final(self).pos() == old(self).data().len(),
    {
        match self.read_exact(1) {
            Ok(b) => Ok(b[0]),
            Err(e) => Err(e),
        }
    }

    /// Consumes two bytes and decodes them as a little-endian integer.
    pub fn read_u16(&mut self) -> (r: Result<u16, ReadError>)
        ensures
            final(self).data() == old(self).data(),
            final(self).pos() <= final(self).data().len(),
            old(self).pos() + 2 <= old(self).data().len() ==> r == Ok::<u16, ReadError>(
                u16_at(old(self).data(), old(self).pos() as int),
            ) && final(self).pos() == old(self).pos() + 2,
            old(self).pos() + 2 > old(self).data().len() ==> r == Err::<u16, ReadError>(
                ReadError::UnexpectedEof,
            ) && final(self).pos() == old(self).data().len(),
    {
        match self.read_exact(2) {
            Ok(b) => Ok(le_read_u16(b)),
            Err(e) => Err(e),
        }
    }

    /// Consumes four bytes and decodes them as a little-endian integer.
    pub fn read_u32(&mut self) -> (r: Result<u32, ReadError>)
        ensures
            final(self).data() == old(self).data(),
            final(self).pos() <= final(self).data().len(),
            old(self).pos() + 4 <= old(self).data().len() ==> r == Ok::<u32, ReadError>(
                u32_at(old(self).data(), old(self).pos() as int),
            ) && final(self).pos() == old(self).pos() + 4,
            old(self).pos() + 4 > old(self).data().len() ==> r == Err::<u32, ReadError>(
                ReadError::UnexpectedEof,
            ) && final(self).pos() == old(self).data().len(),
    {
        match self.read_exact(4) {
            Ok(b) => Ok(le_read_u32(b)),
            Err(e) => Err(e),
        }
    }
}

} // verus!
