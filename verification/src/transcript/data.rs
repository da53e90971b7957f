use std::time::Duration;
use vstd::prelude::*;
use vstd::string::*;

use crate::db::PPPData;

verus! {

/// A span of audio time.
#[derive(Clone, Copy, Debug)]
pub struct FromTo {
    pub from: Duration,
    pub to: Duration,
}

/// One unit of recognised speech: when it was said and what was said.
#[derive(Debug)]
pub struct Segment {
    pub timestamps: FromTo,
    pub text: String,
}

/// A segment as the inference service reports it.
#[derive(Debug)]
pub struct SegmentAlt {
    pub start: Duration,
    pub end: Duration,
    pub text: String,
}

/// The raw segments of one episode, ascending in time.
#[derive(Debug)]
pub struct Transcript {
    pub transcription: Vec<Segment>,
}

/// The raw segments of one episode as the inference service reports them.
#[derive(Debug)]
pub struct TranscriptAlt {
    pub segments: Vec<SegmentAlt>,
}

/// The audio time of one segment and the character range that its text takes in the
/// episode's text.
#[derive(Debug)]
pub struct Timestamp {
    pub time: FromTo,
    pub offsets: (usize, usize),
}

/// The text of one episode and the index from character offsets to audio time.
#[derive(Debug)]
pub struct EpisodeTranscript {
    pub episode_id: u32,
    pub data: String,
    pub timestamps: Vec<Timestamp>,
}

/// The texts of the segments, one after the other with nothing between them.
pub open spec fn joined_text(segments: Seq<Segment>) -> Seq<char>
    decreases segments.len(),
{
    if segments.len() == 0 {
        Seq::empty()
    } else {
        joined_text(segments.drop_last()) + segments.last().text@
    }
}

/// Every range ends no earlier than it starts.
pub open spec fn ranges_ordered(timestamps: Seq<Timestamp>) -> bool {
    forall|i: int|
        0 <= i < timestamps.len() ==> (#[trigger] timestamps[i]).offsets.0
            <= timestamps[i].offsets.1
}

/// The ranges ascend by their start.
pub open spec fn sorted_by_start(timestamps: Seq<Timestamp>) -> bool {
    forall|i: int, j: int|
        0 <= i <= j < timestamps.len() ==> (#[trigger] timestamps[i]).offsets.0 <= (
        #[trigger] timestamps[j]).offsets.0
}

/// Each range starts where the one before it ends.
pub open spec fn contiguous(timestamps: Seq<Timestamp>) -> bool {
    forall|i: int, j: int|
        0 <= i && j == i + 1 && j < timestamps.len() ==> (#[trigger] timestamps[i]).offsets.1 == (
        #[trigger] timestamps[j]).offsets.0
}

/// The ranges start at 0 and end at `len`; with no range at all, `len` is 0.
pub open spec fn covers(timestamps: Seq<Timestamp>, len: nat) -> bool {
    if timestamps.len() == 0 {
        len == 0
    } else {
        timestamps[0].offsets.0 == 0 && timestamps.last().offsets.1 == len
    }
}

/// The pieces of `data` that the ranges cut out, one after the other.
pub open spec fn joined_ranges(data: Seq<char>, timestamps: Seq<Timestamp>) -> Seq<char>
    decreases timestamps.len(),
{
    if timestamps.len() == 0 {
        Seq::empty()
    } else {
        joined_ranges(data, timestamps.drop_last()) + data.subrange(
            timestamps.last().offsets.0 as int,
            timestamps.last().offsets.1 as int,
        )
    }
}

impl EpisodeTranscript {
    /// The index is sorted and contiguous, and covers the text from its first character to
    /// its last.
    pub open spec fn well_formed(&self) -> bool {
        index_well_formed(self.timestamps@, self.data@.len())
    }

    /// This transcript is the one that the segments of episode `id` give: the text is the
    /// segments' texts joined, and the i-th entry of the index holds the i-th segment's time
    /// and the range that its text takes in the joined text.
    pub open spec fn normalizes(&self, id: u32, segments: Seq<Segment>) -> bool {
        &&& self.episode_id == id
        &&& self.data@ == joined_text(segments)
        &&& self.timestamps@.len() == segments.len()
        &&& forall|i: int|
            0 <= i < segments.len() ==> {
                &&& (#[trigger] self.timestamps@[i]).time == segments[i].timestamps
                &&& self.timestamps@[i].offsets.0 == joined_text(segments.take(i)).len()
                &&& self.timestamps@[i].offsets.1 == joined_text(segments.take(i + 1)).len()
            }
    }
}

/// The joined text of the first `n` segments, extended by the next segment's text, is the
/// joined text of the first `n + 1`.
pub proof fn lemma_joined_text_step(segments: Seq<Segment>, n: int)
    requires
        0 <= n < segments.len(),
    ensures
        joined_text(segments.take(n + 1)) == joined_text(segments.take(n)) + segments[n].text@,
{
    assert(segments.take(n + 1).drop_last() == segments.take(n));
}

/// The joined text of a prefix of the segments is a prefix of the joined text of all.
pub proof fn lemma_joined_text_prefix(segments: Seq<Segment>, n: int)
    requires
        0 <= n <= segments.len(),
    ensures
        joined_text(segments.take(n)).len() <= joined_text(segments).len(),
        joined_text(segments.take(n)) == joined_text(segments).take(
            joined_text(segments.take(n)).len() as int,
        ),
    decreases segments.len() - n,
{
    if n == segments.len() {
        assert(segments.take(n) == segments);
    } else {
        lemma_joined_text_step(segments, n);
        lemma_joined_text_prefix(segments, n + 1);
    }
}

/// A transcript that the segments give has a well-formed index.
pub proof fn lemma_normalized_is_well_formed(t: EpisodeTranscript, id: u32, segments: Seq<Segment>)
    requires
        t.normalizes(id, segments),
    ensures
        t.well_formed(),
{
    let ts = t.timestamps@;
    assert forall|i: int| 0 <= i < ts.len() implies (#[trigger] ts[i]).offsets.0
        <= ts[i].offsets.1 by {
        lemma_joined_text_step(segments, i);
    }
    assert forall|i: int, j: int| 0 <= i <= j < ts.len() implies (#[trigger] ts[i]).offsets.0 <= (
    #[trigger] ts[j]).offsets.0 by {
        lemma_joined_text_prefix(segments.take(j), i);
        assert(segments.take(j).take(i) == segments.take(i));
    }
    if ts.len() > 0 {
        assert(segments.take(0) == Seq::<Segment>::empty());
        assert(segments.take(segments.len() as int) == segments);
    }
}

/// In a transcript that the segments give, the range of the i-th entry of the index cuts
/// the i-th segment's text out of the joined text.
pub proof fn lemma_range_holds_segment_text(
    t: EpisodeTranscript,
    id: u32,
    segments: Seq<Segment>,
    i: int,
)
    requires
        t.normalizes(id, segments),
        0 <= i < segments.len(),
    ensures
        t.data@.subrange(t.timestamps@[i].offsets.0 as int, t.timestamps@[i].offsets.1 as int)
            == segments[i].text@,
{
    lemma_joined_text_step(segments, i);
    lemma_joined_text_prefix(segments, i + 1);
    let whole = joined_text(segments);
    let before = joined_text(segments.take(i));
    let upto = joined_text(segments.take(i + 1));
    assert(whole.take(upto.len() as int).subrange(before.len() as int, upto.len() as int)
        == whole.subrange(before.len() as int, upto.len() as int));
    assert(upto.subrange(before.len() as int, upto.len() as int) == segments[i].text@);
}

/// Well-formed means, of ranges and a length alone, what it means of a transcript.
pub open spec fn index_well_formed(timestamps: Seq<Timestamp>, len: nat) -> bool {
    &&& ranges_ordered(timestamps)
    &&& sorted_by_start(timestamps)
    &&& contiguous(timestamps)
    &&& covers(timestamps, len)
}

/// No range of a well-formed index reaches beyond the text.
pub proof fn lemma_range_within_text(timestamps: Seq<Timestamp>, len: nat, i: int)
    requires
        index_well_formed(timestamps, len),
        0 <= i < timestamps.len(),
    ensures
        timestamps[i].offsets.0 <= timestamps[i].offsets.1 <= len,
{
    let last = timestamps.len() - 1;
    if i < last {
        assert(timestamps[i].offsets.1 == timestamps[i + 1].offsets.0);
        assert(timestamps[i + 1].offsets.0 <= timestamps[last].offsets.0);
        assert(timestamps[last].offsets.0 <= timestamps[last].offsets.1);
    }
}

/// The pieces that the first `n` ranges of a well-formed index cut out, joined, are the
/// text up to where the n-th range ends.
proof fn lemma_joined_ranges_prefix(data: Seq<char>, timestamps: Seq<Timestamp>, n: int)
    requires
        index_well_formed(timestamps, data.len()),
        0 < n <= timestamps.len(),
    ensures
        timestamps[n - 1].offsets.1 <= data.len(),
        joined_ranges(data, timestamps.take(n)) == data.take(timestamps[n - 1].offsets.1 as int),
    decreases n,
{
    lemma_range_within_text(timestamps, data.len(), n - 1);
    let head = timestamps.take(n);
    assert(head.drop_last() == timestamps.take(n - 1));
    assert(head.last() == timestamps[n - 1]);
    if n == 1 {
        assert(joined_ranges(data, timestamps.take(0)) == Seq::<char>::empty());
        assert(timestamps[0].offsets.0 == 0);
        assert(Seq::<char>::empty() + data.subrange(0, timestamps[0].offsets.1 as int)
            == data.take(timestamps[0].offsets.1 as int));
    } else {
        lemma_joined_ranges_prefix(data, timestamps, n - 1);
        assert(timestamps[n - 2].offsets.1 == timestamps[n - 1].offsets.0);
        assert(timestamps[n - 1].offsets.0 <= timestamps[n - 1].offsets.1);
        assert(data.take(timestamps[n - 1].offsets.0 as int) + data.subrange(
            timestamps[n - 1].offsets.0 as int,
            timestamps[n - 1].offsets.1 as int,
        ) == data.take(timestamps[n - 1].offsets.1 as int));
    }
}

/// Cutting the text of a well-formed transcript by the ranges of its index, in order, and
/// joining the pieces gives the text back.
pub proof fn lemma_round_trip(t: EpisodeTranscript)
    requires
        t.well_formed(),
    ensures
        joined_ranges(t.data@, t.timestamps@) == t.data@,
{
    let ts = t.timestamps@;
    if ts.len() == 0 {
        assert(t.data@ == Seq::<char>::empty());
    } else {
        lemma_joined_ranges_prefix(t.data@, ts, ts.len() as int);
        assert(ts.take(ts.len() as int) == ts);
        assert(t.data@.take(t.data@.len() as int) == t.data@);
    }
}

/// What the conversion gives is stated where it is made, by the `ensures` of `from`: a text
/// and an index have no value in specifications to be held against.
impl vstd::std_specs::convert::FromSpecImpl<(u32, Transcript)> for EpisodeTranscript {
    open spec fn obeys_from_spec() -> bool {
        false
    }

    open spec fn from_spec(v: (u32, Transcript)) -> Self {
        arbitrary()
    }
}

impl From<(u32, Transcript)> for EpisodeTranscript {
    /// Joins the segments' texts, with nothing put between them, and records for each
    /// segment its time and the range of characters that its text takes.
    fn from(transcript: (u32, Transcript)) -> (r: Self)
        ensures
            r.normalizes(transcript.0, transcript.1.transcription@),
            r.well_formed(),
            forall|i: int|
                0 <= i < transcript.1.transcription@.len() ==> r.data@.subrange(
                    r.timestamps@[i].offsets.0 as int,
                    r.timestamps@[i].offsets.1 as int,
                ) == (#[trigger] transcript.1.transcription@[i]).text@,
    {
        let (episode_id, transcript) = transcript;
        let Transcript { transcription } = transcript;
        let ghost segments = transcription@;
        let n = transcription.len();

        let mut data = String::new();
        let mut i: usize = 0;
        while i < n
            invariant
                n == transcription.len(),
                segments == transcription@,
                i <= n,
                data@ == joined_text(segments.take(i as int)),
            decreases n - i,
        {
            proof {
                lemma_joined_text_step(segments, i as int);
            }
            data.append(transcription[i].text.as_str());
            i += 1;
        }
        assert(segments.take(n as int) == segments);
        let total = data.as_str().unicode_len();

        let mut timestamps: Vec<Timestamp> = Vec::with_capacity(n);
        let mut len: usize = 0;
        let mut j: usize = 0;
        while j < n
            invariant
                n == transcription.len(),
                segments == transcription@,
                j <= n,
                total == joined_text(segments).len(),
                len == joined_text(segments.take(j as int)).len(),
                timestamps@.len() == j,
                forall|k: int|
                    0 <= k < j ==> {
                        &&& (#[trigger] timestamps@[k]).time == segments[k].timestamps
                        &&& timestamps@[k].offsets.0 == joined_text(segments.take(k)).len()
                        &&& timestamps@[k].offsets.1 == joined_text(segments.take(k + 1)).len()
                    },
            decreases n - j,
        {
            let sl = transcription[j].text.as_str().unicode_len();
            proof {
                lemma_joined_text_step(segments, j as int);
                lemma_joined_text_prefix(segments, j + 1);
            }
            let time = transcription[j].timestamps;
            timestamps.push(Timestamp { time, offsets: (len, len + sl) });
            len += sl;
            j += 1;
        }
        let r = Self { episode_id, data, timestamps };
        proof {
            lemma_normalized_is_well_formed(r, episode_id, segments);
            assert forall|i: int| 0 <= i < segments.len() implies r.data@.subrange(
                r.timestamps@[i].offsets.0 as int,
                r.timestamps@[i].offsets.1 as int,
            ) == (#[trigger] segments[i]).text@ by {
                lemma_range_holds_segment_text(r, episode_id, segments, i);
            }
        }
        r
    }
}

impl PPPData for EpisodeTranscript {
    const COLLECTION: &'static str = "transcripts";

    const ID_KEY: &'static str = "episode_id";

    type IdType = u32;
}

impl SegmentAlt {
    /// The segment with its time span gathered into one value.
    pub open spec fn segment(self) -> Segment {
        Segment { timestamps: FromTo { from: self.start, to: self.end }, text: self.text }
    }
}

/// What the conversion gives is stated where it is made, by the `ensures` of `from`.
impl vstd::std_specs::convert::FromSpecImpl<TranscriptAlt> for Transcript {
    open spec fn obeys_from_spec() -> bool {
        false
    }

    open spec fn from_spec(v: TranscriptAlt) -> Self {
        arbitrary()
    }
}

impl From<TranscriptAlt> for Transcript {
    /// Keeps every segment, in order, with its text and its time span.
    fn from(transcript: TranscriptAlt) -> (r: Self)
        ensures
            r.transcription@ == transcript.segments@.map_values(|s: SegmentAlt| s.segment()),
    {
        let TranscriptAlt { segments } = transcript;
        let mut transcription: Vec<Segment> = Vec::with_capacity(segments.len());
        for segment in it: segments.into_iter()
            invariant
                transcription@ == it.seq().take(it.index() as int).map_values(
                    |s: SegmentAlt| s.segment(),
                ),
        {
            let SegmentAlt { start, end, text } = segment;
            let timestamps = FromTo { from: start, to: end };
            transcription.push(Segment { timestamps, text });
        }
        Self { transcription }
    }
}

} // verus!
