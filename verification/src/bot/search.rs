use std::collections::VecDeque;
use vstd::prelude::*;
use vstd::string::*;

use super::matching::{escape, escaped, find_match_starts, match_starts, transliterate, unidecoded};
use crate::spreaker::Episode;
use super::offsets::{
    ascending, clipped, cover_holds, hint_of, is_time_at, lemma_located_covers,
    lemma_located_in_well_formed, located, next_open, HINT_RADIUS,
};
use crate::transcript::{index_well_formed, EpisodeTranscript, FromTo, Timestamp};

verus! {

/// The most results that are shown: a search that finds more reports that instead.
pub const MAX_RESULTS: usize = 50;

/// An episode that a search found.
#[derive(Debug)]
pub struct SearchResult {
    pub episode: Episode,
}

/// One place in an episode where the pattern matches: when it is said, and the text around
/// it.
#[derive(Debug)]
pub struct EpisodeOffsetMatch {
    pub time: FromTo,
    pub hint: String,
}

/// The places in one episode where the pattern matches, in the order of the text.
#[derive(Debug)]
pub struct OffsetSearchResult {
    pub matches: Vec<EpisodeOffsetMatch>,
    pub episode: Episode,
}

/// Why a search gave no answer.
#[derive(Debug)]
pub enum SearchError {
    EpisodeNotFound(u32),
    Mongo(mongodb::error::Error),
    Regex(regex::Error),
    NoResults,
    TooManyResults(usize),
    InvariantViolated,
}

/// Calls `substring::Substring::substring` on `text`, which counts in characters: where
/// `end` is not after `start` it gives the empty text, else the characters from `start` to
/// `end`, each of the two taken as the end of `text` where it lies beyond it.
#[verifier::external_body]
fn char_substring<'a>(text: &'a str, start: usize, end: usize) -> (piece: &'a str)
    ensures
        piece@ == if end <= start {
            Seq::<char>::empty()
        } else {
            text@.subrange(clipped(start as int, text@.len()), clipped(end as int, text@.len()))
        },
{
    substring::Substring::substring(text, start, end)
}

/// The hint for a match that starts at position `at` of `data`.
fn hint(data: &str, at: usize) -> (h: String)
    requires
        data@.len() <= usize::MAX,
    ensures
        h@ == hint_of(data@, at as int),
{
    let start: usize = if at >= HINT_RADIUS {
        at - HINT_RADIUS
    } else {
        0
    };
    let end: usize = if at <= usize::MAX - HINT_RADIUS {
        at + HINT_RADIUS
    } else {
        usize::MAX
    };
    char_substring(data, start, end).to_owned()
}

impl OffsetSearchResult {
    /// This result answers for the matches that start at `starts`: it holds, in order, one
    /// entry for each, with the time of the `ranges[i]`-th range and the hint around the
    /// match.
    pub open spec fn answers(
        self,
        episode: Episode,
        timestamps: Seq<Timestamp>,
        data: Seq<char>,
        starts: Seq<usize>,
        ranges: Seq<int>,
    ) -> bool {
        &&& self.episode == episode
        &&& self.matches@.len() == starts.len()
        &&& forall|i: int|
            0 <= i < starts.len() ==> {
                &&& (#[trigger] self.matches@[i]).time == timestamps[ranges[i]].time
                &&& self.matches@[i].hint@ == hint_of(data, starts[i] as int)
            }
    }

    /// Maps each match to the time of the range that covers where it starts, and gives it
    /// its hint. The ranges are walked once, from the first on, and never backwards: a match
    /// that the range reached for it does not cover, or for which no range is left, shows
    /// that the index is broken, and is an error.
    pub fn from(
        episode: Episode,
        input: VecDeque<usize>,
        timestamps: Vec<Timestamp>,
        data: &String,
    ) -> (r: Result<Self, SearchError>)
        ensures
            match located(timestamps@, 0, input@) {
                Some(ranges) => r matches Ok(found) && found.answers(
                    episode,
                    timestamps@,
                    data@,
                    input@,
                    ranges,
                ),
                None => r matches Err(SearchError::InvariantViolated),
            },
            r matches Ok(found) ==> forall|i: int|
                0 <= i < input@.len() ==> is_time_at(
                    timestamps@,
                    input@[i] as int,
                    (#[trigger] found.matches@[i]).time,
                ),
            index_well_formed(timestamps@, data@.len()) && ascending(input@) ==> (r is Ok
                <==> forall|i: int| 0 <= i < input@.len() ==> #[trigger] input@[i] < data@.len()),
    {
        proof {
            let starts = input@;
            lemma_located_covers(timestamps@, 0, starts);
            if let Some(ranges) = located(timestamps@, 0, starts) {
                assert forall|i: int| 0 <= i < starts.len() implies is_time_at(
                    timestamps@,
                    starts[i] as int,
                    timestamps@[#[trigger] ranges[i]].time,
                ) by {
                    assert(cover_holds(timestamps@, ranges[i], starts[i] as int));
                }
            }
            if index_well_formed(timestamps@, data@.len()) && ascending(starts) {
                lemma_located_in_well_formed(timestamps@, data@.len(), starts);
            }
        }
        Self::scan(episode, input, timestamps, data)
    }

    /// Walks the ranges once for all the matches.
    fn scan(
        episode: Episode,
        input: VecDeque<usize>,
        timestamps: Vec<Timestamp>,
        data: &String,
    ) -> (r: Result<Self, SearchError>)
        ensures
            match located(timestamps@, 0, input@) {
                Some(ranges) => r matches Ok(found) && found.answers(
                    episode,
                    timestamps@,
                    data@,
                    input@,
                    ranges,
                ),
                None => r matches Err(SearchError::InvariantViolated),
            },
    {
        let ghost starts = input@;
        // counting the characters shows that their number fits a `usize`
        let _ = data.as_str().unicode_len();
        let mut pending = input;
        let mut matches: Vec<EpisodeOffsetMatch> = Vec::new();
        let mut cursor: usize = 0;
        let ghost mut ranges: Seq<int> = Seq::empty();
        assert(starts.skip(0) == starts);
        proof {
            if let Some(all) = located(timestamps@, 0, starts) {
                assert(Seq::<int>::empty() + all == all);
            }
        }
        loop
            invariant
                starts == input@,
                data@.len() <= usize::MAX,
                cursor <= timestamps.len(),
                matches@.len() == ranges.len(),
                matches@.len() + pending@.len() == starts.len(),
                pending@ == starts.skip(matches@.len() as int),
                match located(timestamps@, cursor as int, pending@) {
                    Some(rest) => located(timestamps@, 0, starts) == Some(ranges + rest),
                    None => located(timestamps@, 0, starts) is None,
                },
                forall|i: int|
                    0 <= i < ranges.len() ==> 0 <= #[trigger] ranges[i] < timestamps@.len(),
                forall|i: int|
                    0 <= i < matches@.len() ==> (#[trigger] matches@[i]).time
                        == timestamps@[ranges[i]].time,
                forall|i: int|
                    0 <= i < matches@.len() ==> (#[trigger] matches@[i]).hint@ == hint_of(
                        data@,
                        starts[i] as int,
                    ),
            decreases pending@.len(),
        {
            let ghost waiting = pending@;
            let curr = match pending.pop_front() {
                Some(m) => m,
                None => {
                    assert(ranges + Seq::<int>::empty() == ranges);
                    return Ok(Self { episode, matches });
                },
            };
            assert(waiting.drop_first() == pending@);
            assert(curr == starts[matches@.len() as int]);
            let ghost before = cursor as int;
            while cursor < timestamps.len() && curr >= timestamps[cursor].offsets.1
                invariant
                    before <= cursor <= timestamps.len(),
                    next_open(timestamps@, before, curr as int) == next_open(
                        timestamps@,
                        cursor as int,
                        curr as int,
                    ),
                decreases timestamps.len() - cursor,
            {
                cursor += 1;
            }
            assert(next_open(timestamps@, before, curr as int) == cursor);
            if cursor >= timestamps.len() || curr < timestamps[cursor].offsets.0 {
                return Err(SearchError::InvariantViolated);
            }
            proof {
                let rest = located(timestamps@, cursor as int, pending@);
                if rest is Some {
                    assert(ranges + (seq![cursor as int] + rest.unwrap()) == ranges.push(
                        cursor as int,
                    ) + rest.unwrap());
                }
                assert(starts.skip(matches@.len() as int).drop_first() == starts.skip(
                    matches@.len() as int + 1,
                ));
                ranges = ranges.push(cursor as int);
            }
            let found = EpisodeOffsetMatch {
                time: timestamps[cursor].time,
                hint: hint(data.as_str(), curr),
            };
            matches.push(found);
        }
    }

    /// How many matches there are.
    pub fn len(&self) -> (n: usize)
        ensures
            n == self.matches@.len(),
    {
        self.matches.len()
    }
}

impl vstd::std_specs::convert::FromSpecImpl<mongodb::error::Error> for SearchError {
    open spec fn obeys_from_spec() -> bool {
        true
    }

    open spec fn from_spec(e: mongodb::error::Error) -> Self {
        SearchError::Mongo(e)
    }
}

impl From<mongodb::error::Error> for SearchError {
    fn from(e: mongodb::error::Error) -> (r: Self) {
        SearchError::Mongo(e)
    }
}

impl vstd::std_specs::convert::FromSpecImpl<regex::Error> for SearchError {
    open spec fn obeys_from_spec() -> bool {
        true
    }

    open spec fn from_spec(e: regex::Error) -> Self {
        SearchError::Regex(e)
    }
}

impl From<regex::Error> for SearchError {
    fn from(e: regex::Error) -> (r: Self) {
        SearchError::Regex(e)
    }
}

impl SearchError {
    /// What the user is told of the error.
    pub fn respond_client(&self) -> (message: &str)
        ensures
            message@ == match self {
                SearchError::EpisodeNotFound(_) => "l'episodio richiesto non esiste"@,
                SearchError::Mongo(_) => "errore del database"@,
                SearchError::Regex(_) => "errore nella query"@,
                SearchError::NoResults => "nessun risultato trovato"@,
                SearchError::TooManyResults(_) => "troppi risultati, affina la ricerca"@,
                SearchError::InvariantViolated => "la trascrizione dell'episodio e' corrotta"@,
            },
    {
        match self {
            SearchError::EpisodeNotFound(_) => "l'episodio richiesto non esiste",
            SearchError::Mongo(_) => "errore del database",
            SearchError::Regex(_) => "errore nella query",
            SearchError::NoResults => "nessun risultato trovato",
            SearchError::TooManyResults(_) => "troppi risultati, affina la ricerca",
            SearchError::InvariantViolated => "la trascrizione dell'episodio e' corrotta",
        }
    }
}

/// The results as they are, unless they are more than can be shown.
pub fn within_cap<T>(results: Vec<T>) -> (r: Result<Vec<T>, SearchError>)
    ensures
        r == if results@.len() > MAX_RESULTS {
            Err::<Vec<T>, SearchError>(SearchError::TooManyResults(results@.len() as usize))
        } else {
            Ok(results)
        },
{
    if results.len() > MAX_RESULTS {
        Err(SearchError::TooManyResults(results.len()))
    } else {
        Ok(results)
    }
}

/// Each episode as a result, in the same order.
pub open spec fn results_of(found: Seq<Episode>) -> Seq<SearchResult> {
    found.map_values(|episode: Episode| SearchResult { episode })
}

/// The episodes that the store found, each as a result and in the store's order; that
/// there are none is an error.
pub fn found_episodes(found: Vec<Episode>) -> (r: Result<Vec<SearchResult>, SearchError>)
    ensures
        found@.len() == 0 ==> r == Err::<Vec<SearchResult>, SearchError>(SearchError::NoResults),
        found@.len() > 0 ==> r is Ok && r.unwrap()@ == results_of(found@),
{
    if found.len() == 0 {
        return Err(SearchError::NoResults);
    }
    let mut results: Vec<SearchResult> = Vec::with_capacity(found.len());
    for episode in it: found.into_iter()
        invariant
            results@ == results_of(it.seq().take(it.index() as int)),
    {
        results.push(SearchResult { episode });
    }
    Ok(results)
}

/// The pattern that the store is asked to find, whatever the case, in titles and
/// descriptions: `text` itself, with nothing in it read as a regular expression.
pub fn meta_pattern(text: &str) -> (pattern: String)
    ensures
        pattern@ == escaped(text@),
{
    escape(text)
}

/// What a search in titles and descriptions answers once the store has found `found`: the
/// episodes in the store's order, or that there are none, or that there are too many to
/// show.
pub fn search_meta(found: Vec<Episode>) -> (r: Result<Vec<SearchResult>, SearchError>)
    ensures
        found@.len() == 0 ==> r == Err::<Vec<SearchResult>, SearchError>(SearchError::NoResults),
        found@.len() > MAX_RESULTS ==> r == Err::<Vec<SearchResult>, SearchError>(
            SearchError::TooManyResults(found@.len() as usize),
        ),
        0 < found@.len() <= MAX_RESULTS ==> r is Ok && r.unwrap()@ == results_of(found@),
{
    match found_episodes(found) {
        Ok(results) => within_cap(results),
        Err(e) => Err(e),
    }
}

/// What a search over all transcripts answers once the store has found `found`, ranked:
/// the episodes in the store's order, or that there are none.
pub fn search_transcript_all(found: Vec<Episode>) -> (r: Result<Vec<SearchResult>, SearchError>)
    ensures
        found@.len() == 0 ==> r == Err::<Vec<SearchResult>, SearchError>(SearchError::NoResults),
        found@.len() > 0 ==> r is Ok && r.unwrap()@ == results_of(found@),
{
    found_episodes(found)
}

/// `r` is what a search in one transcript answers for matches that start at `starts`: that
/// there are none; that the index does not cover them; that there are too many to show; or
/// each match with its time and hint.
pub open spec fn is_offset_search_outcome(
    r: Result<OffsetSearchResult, SearchError>,
    episode: Episode,
    transcript: EpisodeTranscript,
    starts: Seq<usize>,
) -> bool {
    if starts.len() == 0 {
        r == Err::<OffsetSearchResult, SearchError>(SearchError::NoResults)
    } else {
        match located(transcript.timestamps@, 0, starts) {
            None => r == Err::<OffsetSearchResult, SearchError>(SearchError::InvariantViolated),
            Some(ranges) => if starts.len() > MAX_RESULTS {
                r == Err::<OffsetSearchResult, SearchError>(
                    SearchError::TooManyResults(starts.len() as usize),
                )
            } else {
                r matches Ok(found) && found.answers(
                    episode,
                    transcript.timestamps@,
                    transcript.data@,
                    starts,
                    ranges,
                )
            },
        }
    }
}

/// What a search in one transcript answers once the pattern has been matched against its
/// text: the error of a pattern that is no regular expression, or what the matches give.
pub fn offset_search(
    episode: Episode,
    transcript: EpisodeTranscript,
    found: Result<VecDeque<usize>, regex::Error>,
) -> (r: Result<OffsetSearchResult, SearchError>)
    ensures
        match found {
            Ok(starts) => is_offset_search_outcome(r, episode, transcript, starts@),
            Err(e) => r == Err::<OffsetSearchResult, SearchError>(SearchError::Regex(e)),
        },
{
    let matches = match found {
        Ok(matches) => matches,
        Err(e) => {
            return Err(SearchError::from(e));
        },
    };
    if matches.len() == 0 {
        return Err(SearchError::NoResults);
    }
    let EpisodeTranscript { episode_id: _, data, timestamps } = transcript;
    let result = OffsetSearchResult::from(episode, matches, timestamps, &data)?;
    if result.len() > MAX_RESULTS {
        return Err(SearchError::TooManyResults(result.len()));
    }
    Ok(result)
}

/// Searches one episode's transcript for a pattern, whatever the case and whatever accents
/// the text carries. `episode` and `transcript` are what the store holds under `id`.
pub fn search_transcript_one(
    id: u32,
    episode: Option<Episode>,
    transcript: Option<EpisodeTranscript>,
    text: &str,
) -> (r: Result<OffsetSearchResult, SearchError>)
    ensures
        match (episode, transcript) {
            (Some(e), Some(t)) => match match_starts(text@, unidecoded(t.data@)) {
                Some(starts) => is_offset_search_outcome(r, e, t, starts),
                None => r matches Err(SearchError::Regex(_)),
            },
            _ => r == Err::<OffsetSearchResult, SearchError>(SearchError::EpisodeNotFound(id)),
        },
{
    let episode = match episode {
        Some(e) => e,
        None => {
            return Err(SearchError::EpisodeNotFound(id));
        },
    };
    let transcript = match transcript {
        Some(t) => t,
        None => {
            return Err(SearchError::EpisodeNotFound(id));
        },
    };
    let ascii = transliterate(transcript.data.as_str());
    let found = find_match_starts(text, ascii.as_str());
    offset_search(episode, transcript, found)
}

} // verus!
