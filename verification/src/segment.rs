//! The framed, tagged records that make up a decompressed score file.
//!
//! A frame is a four-byte tag, two sixteen-bit size fields and a payload of
//! as many bytes as the first size field exceeds eight. A frame whose first
//! size field is eight or less is filler: it has no payload and is passed
//! over.

use vstd::prelude::*;
use vstd::slice::slice_to_vec;
use crate::bytes::{fill_from, u16_at, ByteReader, ReadError};
use crate::records::{
    ClearData, ClearDataView, HighScore, HighScoreView, PlayData, PlayDataView, PracticeData,
    PracticeDataView, SpellCardData, SpellCardDataView,
};

verus! {

/// The tag `TH7K` of the header marker.
pub open spec fn tag_header() -> Seq<u8> {
    seq![0x54u8, 0x48u8, 0x37u8, 0x4Bu8]
}

/// The tag `HSCR` of a high score.
pub open spec fn tag_high_score() -> Seq<u8> {
    seq![0x48u8, 0x53u8, 0x43u8, 0x52u8]
}

/// The tag `CLRD` of a clear record.
pub open spec fn tag_clear() -> Seq<u8> {
    seq![0x43u8, 0x4Cu8, 0x52u8, 0x44u8]
}

/// The tag `CATK` of a spell card record.
pub open spec fn tag_spell_card() -> Seq<u8> {
    seq![0x43u8, 0x41u8, 0x54u8, 0x4Bu8]
}

/// The tag `PSCR` of a practice record.
pub open spec fn tag_practice() -> Seq<u8> {
    seq![0x50u8, 0x53u8, 0x43u8, 0x52u8]
}

/// The tag `PLST` of the play status.
pub open spec fn tag_play_status() -> Seq<u8> {
    seq![0x50u8, 0x4Cu8, 0x53u8, 0x54u8]
}

/// The tag `LSNM` of the last name entered.
pub open spec fn tag_last_name() -> Seq<u8> {
    seq![0x4Cu8, 0x53u8, 0x4Eu8, 0x4Du8]
}

/// The tag `VRSM` of the version record.
pub open spec fn tag_version() -> Seq<u8> {
    seq![0x56u8, 0x52u8, 0x53u8, 0x4Du8]
}

/// One record of a score file.
#[derive(Debug, Clone)]
pub enum Segment {
    Header,
    HighScore(HighScore),
    Clear(ClearData),
    SpellCard(SpellCardData),
    PracticeScore(PracticeData),
    PlayStatus(PlayData),
    LastName([u8; 12]),
    Version([u8; 6]),
    /// A record with a tag that is not known: the tag, the two size fields
    /// and the payload as they were found.
    Unknown([u8; 4], usize, usize, Vec<u8>),
}

/// What a [`Segment`] holds.
pub enum SegmentView {
    Header,
    HighScore(HighScoreView),
    Clear(ClearDataView),
    SpellCard(SpellCardDataView),
    PracticeScore(PracticeDataView),
    PlayStatus(PlayDataView),
    LastName(Seq<u8>),
    Version(Seq<u8>),
    Unknown(Seq<u8>, usize, usize, Seq<u8>),
}

impl View for Segment {
    type V = SegmentView;

    open spec fn view(&self) -> SegmentView {
        match *self {
            Segment::Header => SegmentView::Header,
            Segment::HighScore(d) => SegmentView::HighScore(d@),
            Segment::Clear(d) => SegmentView::Clear(d@),
            Segment::SpellCard(d) => SegmentView::SpellCard(d@),
            Segment::PracticeScore(d) => SegmentView::PracticeScore(d@),
            Segment::PlayStatus(d) => SegmentView::PlayStatus(d@),
            Segment::LastName(name) => SegmentView::LastName(name@),
            Segment::Version(version) => SegmentView::Version(version@),
            Segment::Unknown(tag, size1, size2, data) => SegmentView::Unknown(
                tag@,
                size1,
                size2,
                data@,
            ),
        }
    }
}

impl SegmentView {
    /// The tag under which the record is stored.
    pub open spec fn signature(self) -> Seq<u8> {
        match self {
            SegmentView::Header => tag_header(),
            SegmentView::HighScore(_) => tag_high_score(),
            SegmentView::Clear(_) => tag_clear(),
            SegmentView::SpellCard(_) => tag_spell_card(),
            SegmentView::PracticeScore(_) => tag_practice(),
            SegmentView::PlayStatus(_) => tag_play_status(),
            SegmentView::LastName(_) => tag_last_name(),
            SegmentView::Version(_) => tag_version(),
            SegmentView::Unknown(tag, _, _, _) => tag,
        }
    }
}

/// `r` with the value, if there is one, wrapped by `wrap`.
pub open spec fn map_ok<T>(r: Result<T, ReadError>, wrap: spec_fn(T) -> SegmentView) -> Result<
    SegmentView,
    ReadError,
> {
    match r {
        Ok(v) => Ok(wrap(v)),
        Err(e) => Err(e),
    }
}

/// The record that a frame with tag `tag`, size fields `size1` and `size2`
/// and payload `payload` holds. Known tags are decoded by their layout from
/// the front of the payload, and fail if it is too short for them; the
/// header marker has no fields; the last name is the twelve bytes behind four
/// unused ones, the version the six bytes behind four unused ones, with ten
/// more unused bytes after it. Any other tag gives `Unknown`.
pub open spec fn decode_payload(tag: Seq<u8>, size1: usize, size2: usize, payload: Seq<u8>) -> Result<
    SegmentView,
    ReadError,
> {
    if tag == tag_header() {
        Ok(SegmentView::Header)
    } else if tag == tag_high_score() {
        map_ok(HighScore::parse(payload), |v: HighScoreView| SegmentView::HighScore(v))
    } else if tag == tag_clear() {
        map_ok(ClearData::parse(payload), |v: ClearDataView| SegmentView::Clear(v))
    } else if tag == tag_spell_card() {
        map_ok(SpellCardData::parse(payload), |v: SpellCardDataView| SegmentView::SpellCard(v))
    } else if tag == tag_practice() {
        map_ok(
            PracticeData::parse(payload),
            |v: PracticeDataView| SegmentView::PracticeScore(v),
        )
    } else if tag == tag_play_status() {
        map_ok(PlayData::parse(payload), |v: PlayDataView| SegmentView::PlayStatus(v))
    } else if tag == tag_last_name() {
        if payload.len() < 16 {
            Err(ReadError::UnexpectedEof)
        } else {
            Ok(SegmentView::LastName(payload.subrange(4, 16)))
        }
    } else if tag == tag_version() {
        if payload.len() < 20 {
            Err(ReadError::UnexpectedEof)
        } else {
            Ok(SegmentView::Version(payload.subrange(4, 10)))
        }
    } else {
        Ok(SegmentView::Unknown(tag, size1, size2, payload))
    }
}

/// Where the first frame of `s` at or behind `at` starts that is not filler,
/// or that is cut short by the end of `s`.
pub open spec fn frame_start(s: Seq<u8>, at: int) -> int
    decreases s.len() - at,
{
    if 0 <= at && at + 8 <= s.len() && u16_at(s, at + 4) <= 8 {
        frame_start(s, at + 8)
    } else {
        at
    }
}

/// What reading the next record from the front of `s` gives: nothing if `s`
/// ends before the tag of the next frame that is not filler is complete; an
/// error if it ends inside the size fields or the declared payload of that
/// frame; else what the frame decodes to.
pub open spec fn next_result(s: Seq<u8>) -> Result<Option<SegmentView>, ReadError> {
    let at = frame_start(s, 0);
    if s.len() - at < 4 {
        Ok(None)
    } else if s.len() - at < 8 {
        Err(ReadError::UnexpectedEof)
    } else if s.len() - at < u16_at(s, at + 4) {
        Err(ReadError::UnexpectedEof)
    } else {
        match decode_payload(
            s.subrange(at, at + 4),
            u16_at(s, at + 4) as usize,
            u16_at(s, at + 6) as usize,
            s.subrange(at + 8, at + u16_at(s, at + 4)),
        ) {
            Ok(v) => Ok(Some(v)),
            Err(e) => Err(e),
        }
    }
}

/// How many bytes of `s` reading the next record consumes: the filler and
/// the whole frame behind it, or all of `s` if it ends inside that frame.
pub open spec fn next_consumed(s: Seq<u8>) -> int {
    let at = frame_start(s, 0);
    if s.len() - at < 8 || s.len() - at < u16_at(s, at + 4) {
        s.len() as int
    } else {
        at + u16_at(s, at + 4)
    }
}

/// Filler is only ever passed over forwards, and never beyond the end.
pub proof fn lemma_frame_start_bounds(s: Seq<u8>, at: int)
    requires
        0 <= at <= s.len(),
    ensures
        at <= frame_start(s, at) <= s.len(),
        frame_start(s, at) + 8 <= s.len() ==> u16_at(s, frame_start(s, at) + 4) > 8,
    decreases s.len() - at,
{
    if at + 8 <= s.len() && u16_at(s, at + 4) <= 8 {
        lemma_frame_start_bounds(s, at + 8);
    }
}

/// Reading a record consumes at least the eight bytes of its frame header,
/// and never more than there is.
pub proof fn lemma_next_consumed(s: Seq<u8>)
    ensures
        0 <= next_consumed(s) <= s.len(),
        next_result(s) matches Ok(Some(_)) ==> next_consumed(s) > 8,
{
    lemma_frame_start_bounds(s, 0);
}

/// Whether `r` is the outcome that `expected` describes.
pub open spec fn segment_agrees(
    r: Result<Option<Segment>, ReadError>,
    expected: Result<Option<SegmentView>, ReadError>,
) -> bool {
    match r {
        Ok(Some(segment)) => expected == Ok::<Option<SegmentView>, ReadError>(Some(segment@)),
        Ok(None) => expected == Ok::<Option<SegmentView>, ReadError>(None),
        Err(e) => expected == Err::<Option<SegmentView>, ReadError>(e),
    }
}

fn tag_is(tag: &[u8], a: u8, b: u8, c: u8, d: u8) -> (r: bool)
    requires
        tag@.len() == 4,
    ensures
        r == (tag@ == seq![a, b, c, d]),
{
    let r = tag[0] == a && tag[1] == b && tag[2] == c && tag[3] == d;
    proof {
        if r {
            assert(tag@ =~= seq![a, b, c, d]);
        }
    }
    r
}

/// Passes over filler and reads the header of the frame behind it: its tag
/// and its two size fields.
fn seek_frame<'a>(src: &mut ByteReader<'a>) -> (r: Result<Option<(&'a [u8], u16, u16)>, ReadError>)
    ensures
        final(src).data() == old(src).data(),
        final(src).pos() <= final(src).data().len(),
        ({
            let s = old(src).remaining();
            let at = frame_start(s, 0);
            &&& 0 <= at <= s.len()
            &&& s.len() - at < 4 ==> r == Ok::<Option<(&[u8], u16, u16)>, ReadError>(None)
                && final(src).pos() == final(src).data().len()
            &&& 4 <= s.len() - at < 8 ==> r == Err::<Option<(&[u8], u16, u16)>, ReadError>(
                ReadError::UnexpectedEof,
            ) && final(src).pos() == final(src).data().len()
            &&& s.len() - at >= 8 ==> r is Ok && r->Ok_0 is Some && ({
                let (tag, size1, size2) = r->Ok_0->Some_0;
                &&& tag@ == s.subrange(at, at + 4)
                &&& size1 == u16_at(s, at + 4)
                &&& size2 == u16_at(s, at + 6)
                &&& size1 > 8
                &&& final(src).pos() == old(src).pos() + at + 8
            })
        }),
{
    proof {
        use_type_invariant(&*src);
    }
    let ghost s = src.remaining();
    let ghost base = src.pos() as int;
    let ghost data = src.data();
    proof {
        lemma_frame_start_bounds(s, 0);
    }
    loop
        invariant
            data == old(src).data(),
            base == old(src).pos(),
            src.data() == data,
            base <= src.pos() <= data.len(),
            s == data.skip(base),
            0 <= frame_start(s, 0) <= s.len(),
            frame_start(s, 0) == frame_start(s, src.pos() - base),
        decreases data.len() - src.pos(),
    {
        let ghost at = src.pos() - base;
        let tag = match src.read_exact(4) {
            Ok(tag) => tag,
            Err(_) => { return Ok(None); },
        };
        let size1 = src.read_u16()?;
        let size2 = src.read_u16()?;
        if size1 > 8 {
            proof {
                assert(tag@ =~= s.subrange(at, at + 4));
            }
            return Ok(Some((tag, size1, size2)));
        }
    }
}

impl Segment {
    /// The tag under which the record is stored.
    pub fn signature(&self) -> (r: [u8; 4])
        ensures
            r@ == self@.signature(),
    {
        let r = match self {
            Segment::Header => [0x54, 0x48, 0x37, 0x4B],
            Segment::HighScore(_) => [0x48, 0x53, 0x43, 0x52],
            Segment::Clear(_) => [0x43, 0x4C, 0x52, 0x44],
            Segment::SpellCard(_) => [0x43, 0x41, 0x54, 0x4B],
            Segment::PracticeScore(_) => [0x50, 0x53, 0x43, 0x52],
            Segment::PlayStatus(_) => [0x50, 0x4C, 0x53, 0x54],
            Segment::LastName(_) => [0x4C, 0x53, 0x4E, 0x4D],
            Segment::Version(_) => [0x56, 0x52, 0x53, 0x4D],
            Segment::Unknown(tag, _, _, _) => *tag,
        };
        assert(r@ =~= self@.signature());
        r
    }

    /// Decodes the payload of a frame.
    pub fn decode(tag: &[u8], size1: usize, size2: usize, payload: &[u8]) -> (r: Result<
        Segment,
        ReadError,
    >)
        requires
            tag@.len() == 4,
        ensures
            match r {
                Ok(segment) => decode_payload(tag@, size1, size2, payload@) == Ok::<
                    SegmentView,
                    ReadError,
                >(segment@),
                Err(e) => decode_payload(tag@, size1, size2, payload@) == Err::<
                    SegmentView,
                    ReadError,
                >(e),
            },
    {
        let mut reader = ByteReader::new(payload);
        if tag_is(tag, 0x54, 0x48, 0x37, 0x4B) {
            Ok(Segment::Header)
        } else if tag_is(tag, 0x48, 0x53, 0x43, 0x52) {
            match HighScore::read_from(&mut reader) {
                Ok(d) => Ok(Segment::HighScore(d)),
                Err(e) => Err(e),
            }
        } else if tag_is(tag, 0x43, 0x4C, 0x52, 0x44) {
            match ClearData::read_from(&mut reader) {
                Ok(d) => Ok(Segment::Clear(d)),
                Err(e) => Err(e),
            }
        } else if tag_is(tag, 0x43, 0x41, 0x54, 0x4B) {
            match SpellCardData::read_from(&mut reader) {
                Ok(d) => Ok(Segment::SpellCard(d)),
                Err(e) => Err(e),
            }
        } else if tag_is(tag, 0x50, 0x53, 0x43, 0x52) {
            match PracticeData::read_from(&mut reader) {
                Ok(d) => Ok(Segment::PracticeScore(d)),
                Err(e) => Err(e),
            }
        } else if tag_is(tag, 0x50, 0x4C, 0x53, 0x54) {
            match PlayData::read_from(&mut reader) {
                Ok(d) => Ok(Segment::PlayStatus(d)),
                Err(e) => Err(e),
            }
        } else if tag_is(tag, 0x4C, 0x53, 0x4E, 0x4D) {
            let _ = reader.read_u32()?;
            let bytes = reader.read_exact(12)?;
            let mut name = [0u8; 12];
            fill_from(&mut name, bytes);
            assert(name@ =~= payload@.subrange(4, 16));
            Ok(Segment::LastName(name))
        } else if tag_is(tag, 0x56, 0x52, 0x53, 0x4D) {
            let _ = reader.read_u16()?;
            let _ = reader.read_u16()?;
            let bytes = reader.read_exact(6)?;
            let _ = reader.read_u32()?;
            let _ = reader.read_u32()?;
            let _ = reader.read_u16()?;
            let mut version = [0u8; 6];
            fill_from(&mut version, bytes);
            assert(version@ =~= payload@.subrange(4, 10));
            Ok(Segment::Version(version))
        } else {
            let mut signature = [0u8; 4];
            fill_from(&mut signature, tag);
            Ok(Segment::Unknown(signature, size1, size2, slice_to_vec(payload)))
        }
    }

    /// Reads the next record from what `src` has left, passing over filler.
    /// `Ok(None)` says that the records have come to their end.
    pub fn read_from(src: &mut ByteReader) -> (r: Result<Option<Segment>, ReadError>)
        ensures
            segment_agrees(r, next_result(old(src).remaining())),
            final(src).data() == old(src).data(),
            final(src).pos() == old(src).pos() + next_consumed(old(src).remaining()),
            final(src).pos() <= final(src).data().len(),
    {
        proof {
            use_type_invariant(&*src);
        }
        let ghost s = src.remaining();
        let ghost at = frame_start(s, 0);
        let (tag, size1, size2) = match seek_frame(src)? {
            Some(header) => header,
            None => { return Ok(None); },
        };
        let payload = src.read_exact((size1 - 8) as usize)?;
        proof {
            assert(payload@ =~= s.subrange(at + 8, at + size1));
        }
        match Segment::decode(tag, size1 as usize, size2 as usize, payload) {
            Ok(segment) => Ok(Some(segment)),
            Err(e) => Err(e),
        }
    }
}

/// The views of the segments of `segments`, in order.
pub open spec fn views(segments: Seq<Segment>) -> Seq<SegmentView> {
    Seq::new(segments.len(), |i: int| segments[i]@)
}

/// `first` put in front of the records of `rest`, if there are any.
pub open spec fn prepend(first: Seq<SegmentView>, rest: Result<Seq<SegmentView>, ReadError>) -> Result<
    Seq<SegmentView>,
    ReadError,
> {
    match rest {
        Ok(more) => Ok(first + more),
        Err(e) => Err(e),
    }
}

/// All the records of `s`, from the first to the clean end of the frames, or
/// the first error that reading them one by one meets.
pub open spec fn all_segments(s: Seq<u8>) -> Result<Seq<SegmentView>, ReadError>
    decreases s.len(),
{
    match next_result(s) {
        Err(e) => Err(e),
        Ok(None) => Ok(Seq::empty()),
        Ok(Some(segment)) => {
            if 0 < next_consumed(s) <= s.len() {
                prepend(seq![segment], all_segments(s.skip(next_consumed(s))))
            } else {
                Ok(seq![segment])
            }
        },
    }
}

/// Reads all the records of `bytes`, a decompressed score file. The first
/// error ends the reading and is the result.
pub fn read_segments(bytes: &[u8]) -> (r: Result<Vec<Segment>, ReadError>)
    ensures
        match r {
            Ok(segments) => all_segments(bytes@) == Ok::<Seq<SegmentView>, ReadError>(
                views(segments@),
            ),
            Err(e) => all_segments(bytes@) == Err::<Seq<SegmentView>, ReadError>(e),
        },
{
    let mut src = ByteReader::new(bytes);
    let mut out: Vec<Segment> = Vec::new();
    assert(views(out@) + Seq::<SegmentView>::empty() =~= Seq::<SegmentView>::empty());
    loop
        invariant
            src.data() == bytes@,
            src.pos() <= bytes@.len(),
            all_segments(bytes@) == prepend(views(out@), all_segments(src.remaining())),
        decreases bytes@.len() - src.pos(),
    {
        let ghost s = src.remaining();
        let ghost before = views(out@);
        proof {
            lemma_next_consumed(s);
        }
        match Segment::read_from(&mut src) {
            Err(e) => { return Err(e); },
            Ok(None) => {
                proof {
                    assert(before + Seq::<SegmentView>::empty() =~= before);
                }
                return Ok(out);
            },
            Ok(Some(segment)) => {
                let ghost view = segment@;
                out.push(segment);
                proof {
                    assert(src.remaining() =~= s.skip(next_consumed(s)));
                    assert(views(out@) =~= before.push(view));
                    let rest = all_segments(src.remaining());
                    if rest is Ok {
                        assert(before + (seq![view] + rest->Ok_0) =~= before.push(view)
                            + rest->Ok_0);
                    }
                }
            },
        }
    }
}

} // verus!
