//! The fixed-layout records of a score file. Every multi-byte integer is
//! little-endian.

use vstd::prelude::*;
use crate::bytes::{advanced, agrees, fill_from, u16_at, u32_at, ByteReader, ReadError};
use crate::types::{Difficulty, Field, InvalidDiscriminant, ShotType, Stage, StageProgress};

verus! {

/// The error for a byte `value` that `field` does not accept.
pub open spec fn invalid(field: Field, value: u8) -> ReadError {
    ReadError::InvalidDiscriminant(InvalidDiscriminant { field, value })
}

fn read_shot_type(src: &mut ByteReader) -> (r: Result<ShotType, ReadError>)
    ensures
        advanced(
            *old(src),
            *final(src),
            old(src).remaining().len() > 0,
            old(src).remaining().len() == 0,
            1,
        ),
        old(src).remaining().len() == 0 ==> r == Err::<ShotType, ReadError>(
            ReadError::UnexpectedEof,
        ),
        old(src).remaining().len() > 0 ==> r == match ShotType::of(old(src).remaining()[0]) {
            Some(v) => Ok::<ShotType, ReadError>(v),
            None => Err(invalid(Field::ShotType, old(src).remaining()[0])),
        },
{
    proof {
        use_type_invariant(&*src);
    }
    let raw = src.read_u8()?;
    match ShotType::from_raw(raw) {
        Ok(v) => Ok(v),
        Err(e) => Err(ReadError::InvalidDiscriminant(e)),
    }
}

fn read_difficulty(src: &mut ByteReader) -> (r: Result<Difficulty, ReadError>)
    ensures
        advanced(
            *old(src),
            *final(src),
            old(src).remaining().len() > 0,
            old(src).remaining().len() == 0,
            1,
        ),
        old(src).remaining().len() == 0 ==> r == Err::<Difficulty, ReadError>(
            ReadError::UnexpectedEof,
        ),
        old(src).remaining().len() > 0 ==> r == match Difficulty::of(old(src).remaining()[0]) {
            Some(v) => Ok::<Difficulty, ReadError>(v),
            None => Err(invalid(Field::Difficulty, old(src).remaining()[0])),
        },
{
    proof {
        use_type_invariant(&*src);
    }
    let raw = src.read_u8()?;
    match Difficulty::from_raw(raw) {
        Ok(v) => Ok(v),
        Err(e) => Err(ReadError::InvalidDiscriminant(e)),
    }
}

fn read_stage(src: &mut ByteReader) -> (r: Result<Stage, ReadError>)
    ensures
        advanced(
            *old(src),
            *final(src),
            old(src).remaining().len() > 0,
            old(src).remaining().len() == 0,
            1,
        ),
        old(src).remaining().len() == 0 ==> r == Err::<Stage, ReadError>(
            ReadError::UnexpectedEof,
        ),
        old(src).remaining().len() > 0 ==> r == match Stage::of(old(src).remaining()[0]) {
            Some(v) => Ok::<Stage, ReadError>(v),
            None => Err(invalid(Field::Stage, old(src).remaining()[0])),
        },
{
    proof {
        use_type_invariant(&*src);
    }
    let raw = src.read_u8()?;
    match Stage::from_raw(raw) {
        Ok(v) => Ok(v),
        Err(e) => Err(ReadError::InvalidDiscriminant(e)),
    }
}

fn read_progress(src: &mut ByteReader) -> (r: Result<StageProgress, ReadError>)
    ensures
        advanced(
            *old(src),
            *final(src),
            old(src).remaining().len() > 0,
            old(src).remaining().len() == 0,
            1,
        ),
        old(src).remaining().len() == 0 ==> r == Err::<StageProgress, ReadError>(
            ReadError::UnexpectedEof,
        ),
        old(src).remaining().len() > 0 ==> r == match StageProgress::of(
            old(src).remaining()[0],
        ) {
            Some(v) => Ok::<StageProgress, ReadError>(v),
            None => Err(invalid(Field::StageProgress, old(src).remaining()[0])),
        },
{
    proof {
        use_type_invariant(&*src);
    }
    let raw = src.read_u8()?;
    match StageProgress::from_raw(raw) {
        Ok(v) => Ok(v),
        Err(e) => Err(ReadError::InvalidDiscriminant(e)),
    }
}

fn read_u32_table(src: &mut ByteReader) -> (r: Result<[u32; 7], ReadError>)
    ensures
        advanced(*old(src), *final(src), r is Ok, r is Err, 28),
        r is Ok <==> old(src).remaining().len() >= 28,
        r is Err ==> r->Err_0 == ReadError::UnexpectedEof,
        r matches Ok(table) ==> table@ == Seq::new(
            7,
            |i: int| u32_at(old(src).data(), old(src).pos() + 4 * i),
        ),
{
    proof {
        use_type_invariant(&*src);
    }
    let v0 = src.read_u32()?;
    let v1 = src.read_u32()?;
    let v2 = src.read_u32()?;
    let v3 = src.read_u32()?;
    let v4 = src.read_u32()?;
    let v5 = src.read_u32()?;
    let v6 = src.read_u32()?;
    let table = [v0, v1, v2, v3, v4, v5, v6];
    assert(table@ =~= Seq::new(7, |i: int| u32_at(old(src).data(), old(src).pos() + 4 * i)));
    Ok(table)
}

fn read_u16_table(src: &mut ByteReader) -> (r: Result<[u16; 7], ReadError>)
    ensures
        advanced(*old(src), *final(src), r is Ok, r is Err, 14),
        r is Ok <==> old(src).remaining().len() >= 14,
        r is Err ==> r->Err_0 == ReadError::UnexpectedEof,
        r matches Ok(table) ==> table@ == Seq::new(
            7,
            |i: int| u16_at(old(src).data(), old(src).pos() + 2 * i),
        ),
{
    proof {
        use_type_invariant(&*src);
    }
    let v0 = src.read_u16()?;
    let v1 = src.read_u16()?;
    let v2 = src.read_u16()?;
    let v3 = src.read_u16()?;
    let v4 = src.read_u16()?;
    let v5 = src.read_u16()?;
    let v6 = src.read_u16()?;
    let table = [v0, v1, v2, v3, v4, v5, v6];
    assert(table@ =~= Seq::new(7, |i: int| u16_at(old(src).data(), old(src).pos() + 2 * i)));
    Ok(table)
}

/// A duration as the game stores it.
#[derive(Debug, Clone, Copy, PartialEq, Eq, PartialOrd, Ord)]
pub struct StoredTime {
    hours: u32,
    minutes: u32,
    seconds: u32,
    milliseconds: u32,
}

/// What a [`StoredTime`] holds.
pub struct StoredTimeView {
    pub hours: u32,
    pub minutes: u32,
    pub seconds: u32,
    pub milliseconds: u32,
}

impl View for StoredTime {
    type V = StoredTimeView;

    closed spec fn view(&self) -> StoredTimeView {
        StoredTimeView {
            hours: self.hours,
            minutes: self.minutes,
            seconds: self.seconds,
            milliseconds: self.milliseconds,
        }
    }
}

impl StoredTime {
    /// The number of bytes of a stored time.
    pub open spec fn size() -> nat {
        16
    }

    /// The time laid out in the sixteen bytes of `s` from `at` on: hours,
    /// minutes, seconds and milliseconds.
    pub open spec fn decode(s: Seq<u8>, at: int) -> StoredTimeView {
        StoredTimeView {
            hours: u32_at(s, at),
            minutes: u32_at(s, at + 4),
            seconds: u32_at(s, at + 8),
            milliseconds: u32_at(s, at + 12),
        }
    }

    /// What reading a time from the front of `s` gives.
    pub open spec fn parse(s: Seq<u8>) -> Result<StoredTimeView, ReadError> {
        if s.len() < 16 {
            Err(ReadError::UnexpectedEof)
        } else {
            Ok(Self::decode(s, 0))
        }
    }

    /// Reads a time from the front of what `src` has left.
    pub fn read_from(src: &mut ByteReader) -> (r: Result<Self, ReadError>)
        ensures
            agrees(r, Self::parse(old(src).remaining())),
            advanced(*old(src), *final(src), r is Ok, r is Err, Self::size()),
            r is Ok <==> old(src).remaining().len() >= 16,
            r matches Ok(v) ==> v@ == Self::decode(old(src).data(), old(src).pos() as int),
            r is Err ==> r->Err_0 == ReadError::UnexpectedEof,
    {
        proof {
            use_type_invariant(&*src);
        }
        let hours = src.read_u32()?;
        let minutes = src.read_u32()?;
        let seconds = src.read_u32()?;
        let milliseconds = src.read_u32()?;
        Ok(StoredTime { hours, minutes, seconds, milliseconds })
    }

    /// The whole hours.
    pub fn hours(&self) -> (r: u32)
        ensures
            r == self@.hours,
    {
        self.hours
    }

    /// The minutes beyond the hours.
    pub fn minutes(&self) -> (r: u32)
        ensures
            r == self@.minutes,
    {
        self.minutes
    }

    /// The seconds beyond the minutes.
    pub fn seconds(&self) -> (r: u32)
        ensures
            r == self@.seconds,
    {
        self.seconds
    }

    /// The milliseconds beyond the seconds.
    pub fn milliseconds(&self) -> (r: u32)
        ensures
            r == self@.milliseconds,
    {
        self.milliseconds
    }
}

/// The counters of one difficulty, or of all together.
#[derive(Debug, Clone, Copy)]
pub struct PlayCount {
    total_attempts: u32,
    attempts: [u32; 6],
    retries: u32,
    clears: u32,
    continues: u32,
    practices: u32,
}

/// What a [`PlayCount`] holds; `attempts` has one entry per shot type.
pub struct PlayCountView {
    pub total_attempts: u32,
    pub attempts: Seq<u32>,
    pub retries: u32,
    pub clears: u32,
    pub continues: u32,
    pub practices: u32,
}

impl View for PlayCount {
    type V = PlayCountView;

    closed spec fn view(&self) -> PlayCountView {
        PlayCountView {
            total_attempts: self.total_attempts,
            attempts: self.attempts@,
            retries: self.retries,
            clears: self.clears,
            continues: self.continues,
            practices: self.practices,
        }
    }
}

impl PlayCount {
    /// The number of bytes of a play count.
    pub open spec fn size() -> nat {
        44
    }

    /// The counters laid out in the 44 bytes of `s` from `at` on: the total,
    /// the attempts of the six shot types, then retries, clears, continues
    /// and practices.
    pub open spec fn decode(s: Seq<u8>, at: int) -> PlayCountView {
        PlayCountView {
            total_attempts: u32_at(s, at),
            attempts: Seq::new(6, |i: int| u32_at(s, at + 4 + 4 * i)),
            retries: u32_at(s, at + 28),
            clears: u32_at(s, at + 32),
            continues: u32_at(s, at + 36),
            practices: u32_at(s, at + 40),
        }
    }

    /// What reading a play count from the front of `s` gives.
    pub open spec fn parse(s: Seq<u8>) -> Result<PlayCountView, ReadError> {
        if s.len() < 44 {
            Err(ReadError::UnexpectedEof)
        } else {
            Ok(Self::decode(s, 0))
        }
    }

    /// A play count read from the bytes behind the first `n` is the one laid
    /// out `n` bytes further on.
    pub proof fn lemma_decode_skip(s: Seq<u8>, n: int, at: int)
        requires
            0 <= n,
            0 <= at,
            n + at + 44 <= s.len(),
        ensures
            Self::decode(s.skip(n), at) == Self::decode(s, n + at),
    {
        assert(Self::decode(s.skip(n), at).attempts =~= Self::decode(s, n + at).attempts);
    }

    /// Reads a play count from the front of what `src` has left.
    pub fn read_from(src: &mut ByteReader) -> (r: Result<Self, ReadError>)
        ensures
            agrees(r, Self::parse(old(src).remaining())),
            advanced(*old(src), *final(src), r is Ok, r is Err, Self::size()),
            r is Ok <==> old(src).remaining().len() >= 44,
            r matches Ok(v) ==> v@ == Self::decode(old(src).data(), old(src).pos() as int),
            r is Err ==> r->Err_0 == ReadError::UnexpectedEof,
    {
        proof {
            use_type_invariant(&*src);
        }
        let ghost s = src.remaining();
        let ghost data = src.data();
        let ghost base = src.pos() as int;
        let total_attempts = src.read_u32()?;
        let a0 = src.read_u32()?;
        let a1 = src.read_u32()?;
        let a2 = src.read_u32()?;
        let a3 = src.read_u32()?;
        let a4 = src.read_u32()?;
        let a5 = src.read_u32()?;
        let attempts = [a0, a1, a2, a3, a4, a5];
        let retries = src.read_u32()?;
        let clears = src.read_u32()?;
        let continues = src.read_u32()?;
        let practices = src.read_u32()?;
        proof {
            assert(attempts@ =~= Self::decode(data, base).attempts);
            Self::lemma_decode_skip(data, base, 0);
        }
        Ok(PlayCount { total_attempts, attempts, retries, clears, continues, practices })
    }

    /// The attempts made with one shot type.
    pub fn attempts(&self, key: &ShotType) -> (r: u32)
        ensures
            r == self@.attempts[key.spec_index()],
    {
        self.attempts[key.index()]
    }

    /// The attempts with all shot types together.
    pub fn total_attempts(&self) -> (r: u32)
        ensures
            r == self@.total_attempts,
    {
        self.total_attempts
    }

    /// How often a run was started over.
    pub fn retries(&self) -> (r: u32)
        ensures
            r == self@.retries,
    {
        self.retries
    }

    /// How often the game was cleared.
    pub fn clears(&self) -> (r: u32)
        ensures
            r == self@.clears,
    {
        self.clears
    }

    /// How many continues were used.
    pub fn continues(&self) -> (r: u32)
        ensures
            r == self@.continues,
    {
        self.continues
    }

    /// How many practice runs were played.
    pub fn practices(&self) -> (r: u32)
        ensures
            r == self@.practices,
    {
        self.practices
    }
}

/// The six bytes in which a high score keeps its date.
#[derive(Debug, Clone, Copy)]
pub struct ShortDate {
    raw: [u8; 6],
}

impl View for ShortDate {
    type V = Seq<u8>;

    closed spec fn view(&self) -> Seq<u8> {
        self.raw@
    }
}

impl ShortDate {
    /// Reads the six bytes of a date from the front of what `src` has left.
    pub fn read_from(src: &mut ByteReader) -> (r: Result<Self, ReadError>)
        ensures
            agrees(
                r,
                if old(src).remaining().len() < 6 {
                    Err::<Seq<u8>, ReadError>(ReadError::UnexpectedEof)
                } else {
                    Ok(old(src).remaining().subrange(0, 6))
                },
            ),
            advanced(*old(src), *final(src), r is Ok, r is Err, 6),
    {
        proof {
            use_type_invariant(&*src);
        }
        let bytes = src.read_exact(6)?;
        let mut raw = [0u8; 6];
        fill_from(&mut raw, bytes);
        assert(raw@ =~= old(src).remaining().subrange(0, 6));
        Ok(ShortDate { raw })
    }

    /// The stored bytes.
    pub fn raw(&self) -> (r: &[u8; 6])
        ensures
            r@ == self@,
    {
        &self.raw
    }
}

/// One entry of a high score table.
#[derive(Debug, Clone, Copy)]
pub struct HighScore {
    score: u32,
    slow_bits: u32,
    shot_type: ShotType,
    difficulty: Difficulty,
    progress: StageProgress,
    name: [u8; 9],
    date: ShortDate,
    continues: u16,
}

/// What a [`HighScore`] holds. The slowdown rate is kept as the bit pattern
/// of the 32-bit float that the file stores.
pub struct HighScoreView {
    pub score: u32,
    pub slow_bits: u32,
    pub shot_type: ShotType,
    pub difficulty: Difficulty,
    pub progress: StageProgress,
    pub name: Seq<u8>,
    pub date: Seq<u8>,
    pub continues: u16,
}

impl View for HighScore {
    type V = HighScoreView;

    closed spec fn view(&self) -> HighScoreView {
        HighScoreView {
            score: self.score,
            slow_bits: self.slow_bits,
            shot_type: self.shot_type,
            difficulty: self.difficulty,
            progress: self.progress,
            name: self.name@,
            date: self.date@,
            continues: self.continues,
        }
    }
}

/// Calls `core::str::from_utf8`, which gives the string made of exactly
/// these bytes if they are valid UTF-8 and an error otherwise; the error is
/// turned into `None`.
#[verifier::external_body]
fn utf8_str(bytes: &[u8]) -> (r: Option<&str>)
    ensures
        r is Some <==> vstd::utf8::valid_utf8(bytes@),
        r matches Some(text) ==> vstd::utf8::encode_utf8(text@) == bytes@,
{
    core::str::from_utf8(bytes).ok()
}

impl HighScore {
    /// The number of bytes of a high score.
    pub open spec fn size() -> nat {
        32
    }

    /// What reading a high score from the front of `s` gives. The layout is
    /// four unused bytes, the score, the slowdown rate, one byte each for
    /// shot type, difficulty and progress, nine bytes of name, six of date
    /// and the number of continues. A byte that its field does not accept is
    /// reported when it is reached, before the bytes behind it are looked at.
    pub open spec fn parse(s: Seq<u8>) -> Result<HighScoreView, ReadError> {
        if s.len() < 13 {
            Err(ReadError::UnexpectedEof)
        } else if ShotType::of(s[12]) is None {
            Err(invalid(Field::ShotType, s[12]))
        } else if s.len() < 14 {
            Err(ReadError::UnexpectedEof)
        } else if Difficulty::of(s[13]) is None {
            Err(invalid(Field::Difficulty, s[13]))
        } else if s.len() < 15 {
            Err(ReadError::UnexpectedEof)
        } else if StageProgress::of(s[14]) is None {
            Err(invalid(Field::StageProgress, s[14]))
        } else if s.len() < 32 {
            Err(ReadError::UnexpectedEof)
        } else {
            Ok(
                HighScoreView {
                    score: u32_at(s, 4),
                    slow_bits: u32_at(s, 8),
                    shot_type: ShotType::of(s[12])->Some_0,
                    difficulty: Difficulty::of(s[13])->Some_0,
                    progress: StageProgress::of(s[14])->Some_0,
                    name: s.subrange(15, 24),
                    date: s.subrange(24, 30),
                    continues: u16_at(s, 30),
                },
            )
        }
    }

    /// Reads a high score from the front of what `src` has left. After a
    /// byte that its field does not accept, the cursor stands behind that
    /// byte.
    pub fn read_from(src: &mut ByteReader) -> (r: Result<Self, ReadError>)
        ensures
            agrees(r, Self::parse(old(src).remaining())),
            advanced(
                *old(src),
                *final(src),
                r is Ok,
                r == Err::<Self, ReadError>(ReadError::UnexpectedEof),
                Self::size(),
            ),
            r matches Err(ReadError::InvalidDiscriminant(e)) ==> final(src).pos() == old(
                src,
            ).pos() + match e.field {
                Field::ShotType => 13nat,
                Field::Difficulty => 14nat,
                _ => 15nat,
            },
    {
        proof {
            use_type_invariant(&*src);
        }
        let ghost s = src.remaining();
        let _ = src.read_u32()?;
        let score = src.read_u32()?;
        let slow_bits = src.read_u32()?;
        let shot_type = read_shot_type(src)?;
        let difficulty = read_difficulty(src)?;
        let progress = read_progress(src)?;
        let name_bytes = src.read_exact(9)?;
        let mut name = [0u8; 9];
        fill_from(&mut name, name_bytes);
        let date = ShortDate::read_from(src)?;
        let continues = src.read_u16()?;
        proof {
            assert(name@ =~= s.subrange(15, 24));
            assert(date@ =~= s.subrange(24, 30));
        }
        Ok(
            HighScore {
                score,
                slow_bits,
                shot_type,
                difficulty,
                progress,
                name,
                date,
                continues,
            },
        )
    }

    /// The player's initials: the first eight bytes of the name field as
    /// text, if they are valid UTF-8.
    pub fn name(&self) -> (r: Option<&str>)
        ensures
            r is Some <==> vstd::utf8::valid_utf8(self@.name.subrange(0, 8)),
            r matches Some(text) ==> vstd::utf8::encode_utf8(text@) == self@.name.subrange(0, 8),
    {
        utf8_str(&self.name[0..8])
    }

    /// The score.
    pub fn score(&self) -> (r: u32)
        ensures
            r == self@.score,
    {
        self.score
    }

    /// The slowdown rate, as the bits of a 32-bit float.
    pub fn slow_bits(&self) -> (r: u32)
        ensures
            r == self@.slow_bits,
    {
        self.slow_bits
    }

    /// The shot type of the record.
    pub fn shot_type(&self) -> (r: ShotType)
        ensures
            r == self@.shot_type,
    {
        self.shot_type
    }

    /// The difficulty of the record.
    pub fn difficulty(&self) -> (r: Difficulty)
        ensures
            r == self@.difficulty,
    {
        self.difficulty
    }

    /// How far the run got.
    pub fn progress(&self) -> (r: StageProgress)
        ensures
            r == self@.progress,
    {
        self.progress
    }

    /// The date of the run.
    pub fn date(&self) -> (r: ShortDate)
        ensures
            r@ == self@.date,
    {
        self.date
    }

    /// How many continues were used.
    pub fn continues(&self) -> (r: u16)
        ensures
            r == self@.continues,
    {
        self.continues
    }
}

/// Which difficulties a shot type has cleared, in the story and in practice.
#[derive(Debug, Clone, Copy)]
pub struct ClearData {
    story_flags: [u8; 6],
    practice_flags: [u8; 6],
    shot_type: ShotType,
}

/// What a [`ClearData`] holds; the flags have one entry per difficulty.
pub struct ClearDataView {
    pub story_flags: Seq<u8>,
    pub practice_flags: Seq<u8>,
    pub shot_type: ShotType,
}

impl View for ClearData {
    type V = ClearDataView;

    closed spec fn view(&self) -> ClearDataView {
        ClearDataView {
            story_flags: self.story_flags@,
            practice_flags: self.practice_flags@,
            shot_type: self.shot_type,
        }
    }
}

impl ClearData {
    /// The number of bytes of a clear record.
    pub open spec fn size() -> nat {
        20
    }

    /// What reading a clear record from the front of `s` gives. The layout is
    /// four unused bytes, six story flags, six practice flags and a
    /// four-byte word of which only the lowest byte, the shot type, counts.
    pub open spec fn parse(s: Seq<u8>) -> Result<ClearDataView, ReadError> {
        if s.len() < 20 {
            Err(ReadError::UnexpectedEof)
        } else if ShotType::of(s[16]) is None {
            Err(invalid(Field::ShotType, s[16]))
        } else {
            Ok(
                ClearDataView {
                    story_flags: s.subrange(4, 10),
                    practice_flags: s.subrange(10, 16),
                    shot_type: ShotType::of(s[16])->Some_0,
                },
            )
        }
    }

    /// Reads a clear record from the front of what `src` has left. The
    /// record is consumed whole also where its shot type is not accepted.
    pub fn read_from(src: &mut ByteReader) -> (r: Result<Self, ReadError>)
        ensures
            agrees(r, Self::parse(old(src).remaining())),
            advanced(
                *old(src),
                *final(src),
                r is Ok || r is Err && r->Err_0 != ReadError::UnexpectedEof,
                r == Err::<Self, ReadError>(ReadError::UnexpectedEof),
                Self::size(),
            ),
    {
        proof {
            use_type_invariant(&*src);
        }
        let ghost s = src.remaining();
        let _ = src.read_u32()?;
        let story_bytes = src.read_exact(6)?;
        let practice_bytes = src.read_exact(6)?;
        let word = src.read_u32()?;
        let low = (word % 256) as u8;
        assert(low == s[16]);
        let shot_type = match ShotType::from_raw(low) {
            Ok(v) => v,
            Err(e) => { return Err(ReadError::InvalidDiscriminant(e)); },
        };
        let mut story_flags = [0u8; 6];
        fill_from(&mut story_flags, story_bytes);
        let mut practice_flags = [0u8; 6];
        fill_from(&mut practice_flags, practice_bytes);
        proof {
            assert(story_flags@ =~= s.subrange(4, 10));
            assert(practice_flags@ =~= s.subrange(10, 16));
        }
        Ok(ClearData { story_flags, practice_flags, shot_type })
    }

    /// The shot type of the record.
    pub fn shot_type(&self) -> (r: ShotType)
        ensures
            r == self@.shot_type,
    {
        self.shot_type
    }

    /// The story flag of one difficulty.
    pub fn story_flags(&self, key: &Difficulty) -> (r: u8)
        ensures
            r == self@.story_flags[key.spec_index()],
    {
        self.story_flags[key.index()]
    }

    /// The practice flag of one difficulty.
    pub fn practice_flags(&self, key: &Difficulty) -> (r: u8)
        ensures
            r == self@.practice_flags[key.spec_index()],
    {
        self.practice_flags[key.index()]
    }
}

/// The counters of one spell card. Each table has a slot per shot type and a
/// seventh for all shot types together.
#[derive(Debug, Clone, Copy)]
pub struct SpellCardData {
    max_bonuses: [u32; 7],
    card_id: u16,
    card_name: [u8; 0x30],
    attempts: [u16; 7],
    captures: [u16; 7],
}

/// What a [`SpellCardData`] holds. `card_id` counts from one.
pub struct SpellCardDataView {
    pub max_bonuses: Seq<u32>,
    pub card_id: u16,
    pub card_name: Seq<u8>,
    pub attempts: Seq<u16>,
    pub captures: Seq<u16>,
}

impl View for SpellCardData {
    type V = SpellCardDataView;

    closed spec fn view(&self) -> SpellCardDataView {
        SpellCardDataView {
            max_bonuses: self.max_bonuses@,
            card_id: self.card_id,
            card_name: self.card_name@,
            attempts: self.attempts@,
            captures: self.captures@,
        }
    }
}

impl SpellCardData {
    /// Card numbers count from one.
    #[verifier::type_invariant]
    pub closed spec fn numbered_from_one(&self) -> bool {
        self.card_id >= 1
    }

    /// The number of bytes of a spell card record.
    pub open spec fn size() -> nat {
        112
    }

    /// What reading a spell card record from the front of `s` gives. The
    /// layout is four unused bytes, seven maximum bonuses, the card number
    /// counted from zero, an unused byte, 48 bytes of name, another unused
    /// byte, then seven attempt and seven capture counters of two bytes each.
    /// The stored number `0xFFFF` has no successor and is refused when it is
    /// reached.
    pub open spec fn parse(s: Seq<u8>) -> Result<SpellCardDataView, ReadError> {
        if s.len() < 34 {
            Err(ReadError::UnexpectedEof)
        } else if u16_at(s, 32) == 0xFFFF {
            Err(ReadError::CardIdOverflow)
        } else if s.len() < 112 {
            Err(ReadError::UnexpectedEof)
        } else {
            Ok(
                SpellCardDataView {
                    max_bonuses: Seq::new(7, |i: int| u32_at(s, 4 + 4 * i)),
                    card_id: (u16_at(s, 32) + 1) as u16,
                    card_name: s.subrange(35, 83),
                    attempts: Seq::new(7, |i: int| u16_at(s, 84 + 2 * i)),
                    captures: Seq::new(7, |i: int| u16_at(s, 98 + 2 * i)),
                },
            )
        }
    }

    /// Reads a spell card record from the front of what `src` has left.
    /// After a card number that is refused, the cursor stands behind that
    /// number.
    pub fn read_from(src: &mut ByteReader) -> (r: Result<Self, ReadError>)
        ensures
            agrees(r, Self::parse(old(src).remaining())),
            advanced(
                *old(src),
                *final(src),
                r is Ok,
                r == Err::<Self, ReadError>(ReadError::UnexpectedEof),
                Self::size(),
            ),
            r == Err::<Self, ReadError>(ReadError::CardIdOverflow) ==> final(src).pos() == old(
                src,
            ).pos() + 34,
    {
        proof {
            use_type_invariant(&*src);
        }
        let ghost s = src.remaining();
        let _ = src.read_u32()?;
        let max_bonuses = read_u32_table(src)?;
        let stored = src.read_u16()?;
        if stored == 0xFFFF {
            return Err(ReadError::CardIdOverflow);
        }
        let card_id = stored + 1;
        let _ = src.read_u8()?;
        let name_bytes = src.read_exact(0x30)?;
        let _ = src.read_u8()?;
        let attempts = read_u16_table(src)?;
        let captures = read_u16_table(src)?;
        let mut card_name = [0u8; 0x30];
        fill_from(&mut card_name, name_bytes);
        proof {
            let v = Self::parse(s)->Ok_0;
            assert(max_bonuses@ =~= v.max_bonuses);
            assert(card_name@ =~= v.card_name);
            assert(attempts@ =~= v.attempts);
            assert(captures@ =~= v.captures);
        }
        Ok(SpellCardData { max_bonuses, card_id, card_name, attempts, captures })
    }

    /// The name as the record stores it.
    pub fn raw_card_name(&self) -> (r: &[u8])
        ensures
            r@ == self@.card_name,
    {
        &self.card_name
    }

    /// The name of the card in `names`, a table with one entry per card in
    /// the order of their numbers.
    pub fn card_name(&self, names: &[&'static str]) -> (r: &'static str)
        requires
            self@.card_id <= names@.len(),
        ensures
            self@.card_id >= 1,
            r == names@[self@.card_id - 1],
    {
        proof {
            use_type_invariant(self);
        }
        names[(self.card_id - 1) as usize]
    }

    /// The number of the card, counted from one.
    pub fn card_id(&self) -> (r: u16)
        ensures
            r == self@.card_id,
            r >= 1,
    {
        proof {
            use_type_invariant(self);
        }
        self.card_id
    }

    /// The highest bonus over all shot types.
    pub fn total_max_bonus(&self) -> (r: u32)
        ensures
            r == self@.max_bonuses[6],
    {
        self.max_bonuses[6]
    }

    /// The attempts over all shot types.
    pub fn total_attempts(&self) -> (r: u16)
        ensures
            r == self@.attempts[6],
    {
        self.attempts[6]
    }

    /// The captures over all shot types.
    pub fn total_captures(&self) -> (r: u16)
        ensures
            r == self@.captures[6],
    {
        self.captures[6]
    }

    /// The highest bonus with one shot type.
    pub fn max_bonuses(&self, key: &ShotType) -> (r: u32)
        ensures
            r == self@.max_bonuses[key.spec_index()],
    {
        self.max_bonuses[key.index()]
    }

    /// The attempts with one shot type.
    pub fn attempts(&self, key: &ShotType) -> (r: u16)
        ensures
            r == self@.attempts[key.spec_index()],
    {
        self.attempts[key.index()]
    }

    /// The captures with one shot type.
    pub fn captures(&self, key: &ShotType) -> (r: u16)
        ensures
            r == self@.captures[key.spec_index()],
    {
        self.captures[key.index()]
    }
}

/// The practice record of one stage, difficulty and shot type.
#[derive(Debug, Clone, Copy)]
pub struct PracticeData {
    attempts: u32,
    high_score: u32,
    shot_type: ShotType,
    difficulty: Difficulty,
    stage: Stage,
}

/// What a [`PracticeData`] holds.
pub struct PracticeDataView {
    pub attempts: u32,
    pub high_score: u32,
    pub shot_type: ShotType,
    pub difficulty: Difficulty,
    pub stage: Stage,
}

impl View for PracticeData {
    type V = PracticeDataView;

    closed spec fn view(&self) -> PracticeDataView {
        PracticeDataView {
            attempts: self.attempts,
            high_score: self.high_score,
            shot_type: self.shot_type,
            difficulty: self.difficulty,
            stage: self.stage,
        }
    }
}

impl PracticeData {
    /// The number of bytes of a practice record.
    pub open spec fn size() -> nat {
        16
    }

    /// What reading a practice record from the front of `s` gives. The layout
    /// is four unused bytes, the attempts, the high score, one byte each for
    /// shot type, difficulty and stage, and an unused byte. A byte that its
    /// field does not accept is reported when it is reached.
    pub open spec fn parse(s: Seq<u8>) -> Result<PracticeDataView, ReadError> {
        if s.len() < 13 {
            Err(ReadError::UnexpectedEof)
        } else if ShotType::of(s[12]) is None {
            Err(invalid(Field::ShotType, s[12]))
        } else if s.len() < 14 {
            Err(ReadError::UnexpectedEof)
        } else if Difficulty::of(s[13]) is None {
            Err(invalid(Field::Difficulty, s[13]))
        } else if s.len() < 15 {
            Err(ReadError::UnexpectedEof)
        } else if Stage::of(s[14]) is None {
            Err(invalid(Field::Stage, s[14]))
        } else if s.len() < 16 {
            Err(ReadError::UnexpectedEof)
        } else {
            Ok(
                PracticeDataView {
                    attempts: u32_at(s, 4),
                    high_score: u32_at(s, 8),
                    shot_type: ShotType::of(s[12])->Some_0,
                    difficulty: Difficulty::of(s[13])->Some_0,
                    stage: Stage::of(s[14])->Some_0,
                },
            )
        }
    }

    /// Reads a practice record from the front of what `src` has left. After
    /// a byte that its field does not accept, the cursor stands behind that
    /// byte.
    pub fn read_from(src: &mut ByteReader) -> (r: Result<Self, ReadError>)
        ensures
            agrees(r, Self::parse(old(src).remaining())),
            advanced(
                *old(src),
                *final(src),
                r is Ok,
                r == Err::<Self, ReadError>(ReadError::UnexpectedEof),
                Self::size(),
            ),
            r matches Err(ReadError::InvalidDiscriminant(e)) ==> final(src).pos() == old(
                src,
            ).pos() + match e.field {
                Field::ShotType => 13nat,
                Field::Difficulty => 14nat,
                _ => 15nat,
            },
    {
        proof {
            use_type_invariant(&*src);
        }
        let _ = src.read_u32()?;
        let attempts = src.read_u32()?;
        let high_score = src.read_u32()?;
        let shot_type = read_shot_type(src)?;
        let difficulty = read_difficulty(src)?;
        let stage = read_stage(src)?;
        let _ = src.read_u8()?;
        Ok(PracticeData { attempts, high_score, shot_type, difficulty, stage })
    }

    /// How often the stage was practised.
    pub fn attempts(&self) -> (r: u32)
        ensures
            r == self@.attempts,
    {
        self.attempts
    }

    /// The best score of the practice runs.
    pub fn high_score(&self) -> (r: u32)
        ensures
            r == self@.high_score,
    {
        self.high_score
    }

    /// The shot type of the record.
    pub fn shot_type(&self) -> (r: ShotType)
        ensures
            r == self@.shot_type,
    {
        self.shot_type
    }

    /// The difficulty of the record.
    pub fn difficulty(&self) -> (r: Difficulty)
        ensures
            r == self@.difficulty,
    {
        self.difficulty
    }

    /// The stage that was practised.
    pub fn stage(&self) -> (r: Stage)
        ensures
            r == self@.stage,
    {
        self.stage
    }
}

fn read_play_counts(src: &mut ByteReader) -> (r: Result<[PlayCount; 7], ReadError>)
    ensures
        advanced(*old(src), *final(src), r is Ok, r is Err, 308),
        r is Ok <==> old(src).remaining().len() >= 308,
        r is Err ==> r->Err_0 == ReadError::UnexpectedEof,
        r matches Ok(table) ==> forall|k: int|
            0 <= k < 7 ==> (#[trigger] table@[k])@ == PlayCount::decode(
                old(src).data(),
                old(src).pos() + 44 * k,
            ),
{
    proof {
        use_type_invariant(&*src);
    }
    let count0 = PlayCount::read_from(src)?;
    let count1 = PlayCount::read_from(src)?;
    let count2 = PlayCount::read_from(src)?;
    let count3 = PlayCount::read_from(src)?;
    let count4 = PlayCount::read_from(src)?;
    let count5 = PlayCount::read_from(src)?;
    let count6 = PlayCount::read_from(src)?;
    Ok([count0, count1, count2, count3, count4, count5, count6])
}

/// The play statistics of a score file.
#[derive(Debug, Clone, Copy)]
pub struct PlayData {
    running_time: StoredTime,
    play_time: StoredTime,
    play_counts: [PlayCount; 7],
}

/// What a [`PlayData`] holds. `play_counts` has a slot per difficulty and a
/// seventh for all difficulties together.
pub struct PlayDataView {
    pub running_time: StoredTimeView,
    pub play_time: StoredTimeView,
    pub play_counts: Seq<PlayCountView>,
}

impl View for PlayData {
    type V = PlayDataView;

    closed spec fn view(&self) -> PlayDataView {
        PlayDataView {
            running_time: self.running_time@,
            play_time: self.play_time@,
            play_counts: Seq::new(7, |i: int| self.play_counts@[i]@),
        }
    }
}

impl PlayData {
    /// The number of bytes of a play status record.
    pub open spec fn size() -> nat {
        344
    }

    /// What reading a play status record from the front of `s` gives. The
    /// layout is four unused bytes, the running time, the play time and
    /// seven play counts.
    pub open spec fn parse(s: Seq<u8>) -> Result<PlayDataView, ReadError> {
        if s.len() < 344 {
            Err(ReadError::UnexpectedEof)
        } else {
            Ok(
                PlayDataView {
                    running_time: StoredTime::decode(s, 4),
                    play_time: StoredTime::decode(s, 20),
                    play_counts: Seq::new(7, |i: int| PlayCount::decode(s, 36 + 44 * i)),
                },
            )
        }
    }

    /// Reads a play status record from the front of what `src` has left.
    pub fn read_from(src: &mut ByteReader) -> (r: Result<Self, ReadError>)
        ensures
            agrees(r, Self::parse(old(src).remaining())),
            advanced(*old(src), *final(src), r is Ok, r is Err, Self::size()),
    {
        proof {
            use_type_invariant(&*src);
        }
        let ghost s = src.remaining();
        let ghost base = src.pos() as int;
        let ghost data = src.data();
        let _ = src.read_u32()?;
        let running_time = StoredTime::read_from(src)?;
        let play_time = StoredTime::read_from(src)?;
        let play_counts = read_play_counts(src)?;
        let out = PlayData { running_time, play_time, play_counts };
        proof {
            let want = Self::parse(s)->Ok_0;
            assert forall|k: int| 0 <= k < 7 implies out@.play_counts[k] == want.play_counts[k] by {
                PlayCount::lemma_decode_skip(data, base, 36 + 44 * k);
            }
            assert(out@.play_counts =~= want.play_counts);
            assert(out@.running_time == want.running_time);
            assert(out@.play_time == want.play_time);
        }
        Ok(out)
    }

    /// The play counts of one difficulty.
    pub fn play_counts(&self, key: &Difficulty) -> (r: &PlayCount)
        ensures
            r@ == self@.play_counts[key.spec_index()],
    {
        &self.play_counts[key.index()]
    }

    /// The play counts of all difficulties together.
    pub fn total_play_counts(&self) -> (r: &PlayCount)
        ensures
            r@ == self@.play_counts[6],
    {
        &self.play_counts[6]
    }

    /// How long the game has been running.
    pub fn running_time(&self) -> (r: StoredTime)
        ensures
            r@ == self@.running_time,
    {
        self.running_time
    }

    /// How long the game has been played.
    pub fn play_time(&self) -> (r: StoredTime)
        ensures
            r@ == self@.play_time,
    {
        self.play_time
    }
}

/// The header in front of the compressed body of a score file.
#[derive(Debug, Clone, Copy)]
pub struct FileHeader {
    version: u16,
    header_sz: u32,
    decomp_full_sz: usize,
    decomp_body_sz: usize,
    encoded_body_sz: usize,
}

/// What a [`FileHeader`] holds.
pub struct FileHeaderView {
    pub version: u16,
    pub header_sz: u32,
    pub decomp_full_sz: usize,
    pub decomp_body_sz: usize,
    pub encoded_body_sz: usize,
}

impl View for FileHeader {
    type V = FileHeaderView;

    closed spec fn view(&self) -> FileHeaderView {
        FileHeaderView {
            version: self.version,
            header_sz: self.header_sz,
            decomp_full_sz: self.decomp_full_sz,
            decomp_body_sz: self.decomp_body_sz,
            encoded_body_sz: self.encoded_body_sz,
        }
    }
}

impl FileHeader {
    /// The number of bytes of a file header.
    pub open spec fn size() -> nat {
        24
    }

    /// What reading a header from the front of `s` gives. The layout is the
    /// version in two bytes, two reserved bytes, the header size, four
    /// reserved bytes, then the size of the whole file once decompressed,
    /// the size of its body once decompressed and the size of the body as
    /// stored, each in four bytes. Fewer than 24 bytes give no header.
    pub open spec fn parse(s: Seq<u8>) -> Result<FileHeaderView, ReadError> {
        if s.len() < 24 {
            Err(ReadError::UnexpectedEof)
        } else {
            Ok(
                FileHeaderView {
                    version: u16_at(s, 0),
                    header_sz: u32_at(s, 4),
                    decomp_full_sz: u32_at(s, 12) as usize,
                    decomp_body_sz: u32_at(s, 16) as usize,
                    encoded_body_sz: u32_at(s, 20) as usize,
                },
            )
        }
    }

    /// Reads a header from the front of what `src` has left.
    pub fn read_from(src: &mut ByteReader) -> (r: Result<Self, ReadError>)
        ensures
            agrees(r, Self::parse(old(src).remaining())),
            advanced(*old(src), *final(src), r is Ok, r is Err, Self::size()),
            r is Ok <==> old(src).remaining().len() >= 24,
            r is Err ==> r->Err_0 == ReadError::UnexpectedEof,
    {
        proof {
            use_type_invariant(&*src);
        }
        let version = src.read_u16()?;
        let _ = src.read_u16()?;
        let header_sz = src.read_u32()?;
        let _ = src.read_u32()?;
        let decomp_full_sz = src.read_u32()? as usize;
        let decomp_body_sz = src.read_u32()? as usize;
        let encoded_body_sz = src.read_u32()? as usize;
        Ok(FileHeader { version, header_sz, decomp_full_sz, decomp_body_sz, encoded_body_sz })
    }

    /// The version of the file format.
    pub fn version(&self) -> (r: u16)
        ensures
            r == self@.version,
    {
        self.version
    }

    /// The size of the header as the file declares it.
    pub fn header_sz(&self) -> (r: u32)
        ensures
            r == self@.header_sz,
    {
        self.header_sz
    }

    /// The size of the whole file once decompressed.
    pub fn decomp_full_sz(&self) -> (r: usize)
        ensures
            r == self@.decomp_full_sz,
    {
        self.decomp_full_sz
    }

    /// The size of the body once decompressed.
    pub fn decomp_body_sz(&self) -> (r: usize)
        ensures
            r == self@.decomp_body_sz,
    {
        self.decomp_body_sz
    }

    /// The size of the body as it is stored.
    pub fn encoded_body_sz(&self) -> (r: usize)
        ensures
            r == self@.encoded_body_sz,
    {
        self.encoded_body_sz
    }
}

} // verus!
