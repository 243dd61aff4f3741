//! Opening a score file: the cipher envelope, the header behind it and the
//! body that is still to be decompressed.

use vstd::prelude::*;
use vstd::slice::slice_to_vec;
use crate::bytes::{agrees, ByteReader, ReadError};
use crate::cipher::{decrypt, envelope_state, state_after, CipherState, Decryptor};
use crate::records::{FileHeader, FileHeaderView};

verus! {

/// A score file with its envelope removed and its header read.
#[derive(Debug)]
pub struct ScoreReader {
    header: FileHeader,
    decryptor: Decryptor,
    body: Vec<u8>,
}

/// What a [`ScoreReader`] holds.
pub struct ScoreReaderView {
    /// The header of the file.
    pub header: FileHeaderView,
    /// The state of the cipher after the whole file.
    pub cipher: CipherState,
    /// The decrypted bytes behind the header: the body as it is stored,
    /// before decompression.
    pub body: Seq<u8>,
}

impl View for ScoreReader {
    type V = ScoreReaderView;

    closed spec fn view(&self) -> ScoreReaderView {
        ScoreReaderView { header: self.header@, cipher: self.decryptor@, body: self.body@ }
    }
}

impl ScoreReader {
    /// What opening the file `src` gives. The first four bytes are the
    /// envelope of the cipher; everything behind them is decrypted as one
    /// stream, which starts with the 24 bytes of the header. A file that
    /// ends inside the envelope or inside the header cannot be opened.
    pub open spec fn open(src: Seq<u8>) -> Result<ScoreReaderView, ReadError> {
        if src.len() < 28 {
            Err(ReadError::UnexpectedEof)
        } else {
            let start = envelope_state(src);
            let plain = decrypt(start.key, src.skip(4));
            Ok(
                ScoreReaderView {
                    header: FileHeader::parse(plain)->Ok_0,
                    cipher: state_after(start, src.skip(4)),
                    body: plain.skip(24),
                },
            )
        }
    }

    /// Opens the score file `src`.
    pub fn new(src: &[u8]) -> (r: Result<Self, ReadError>)
        ensures
            agrees(r, Self::open(src@)),
            r is Ok <==> src@.len() >= 28,
            r matches Ok(reader) ==> 24 + reader@.body.len() == src@.len() - 4,
    {
        let mut reader = ByteReader::new(src);
        let mut decryptor = Decryptor::new(&mut reader)?;
        let rest = reader.len();
        let cipher = reader.read_exact(rest)?;
        assert(cipher@ =~= src@.skip(4));
        let mut plain = slice_to_vec(cipher);
        decryptor.decrypt(plain.as_mut_slice());
        let mut front = ByteReader::new(plain.as_slice());
        let header = FileHeader::read_from(&mut front)?;
        let body = plain.split_off(24);
        proof {
            assert(body@ =~= decrypt(envelope_state(src@).key, src@.skip(4)).skip(24));
        }
        Ok(ScoreReader { header, decryptor, body })
    }

    /// The header of the file.
    pub fn header(&self) -> (r: &FileHeader)
        ensures
            r@ == self@.header,
    {
        &self.header
    }

    /// The body of the file, decrypted but not yet decompressed.
    pub fn body(&self) -> (r: &[u8])
        ensures
            r@ == self@.body,
    {
        self.body.as_slice()
    }

    /// The cipher as the end of the file left it.
    pub fn decryptor(&self) -> (r: &Decryptor)
        ensures
            r@ == self@.cipher,
    {
        &self.decryptor
    }

    /// Whether the checksum over the decrypted file is the one that its
    /// envelope announces. A file that fails this can still be read.
    pub fn is_valid(&self) -> (r: bool)
        ensures
            r == (self@.cipher.checksum == self@.cipher.target_checksum),
    {
        self.decryptor.is_valid()
    }
}

} // verus!
