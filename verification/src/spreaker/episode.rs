use vstd::prelude::*;

use super::simple_episode::SimpleEpisode;
use crate::db::PPPData;

verus! {

/// How the episode API writes the time at which an episode was published.
pub const PUBLISHED_AT_FORMAT: &'static str = "%Y-%m-%d %H:%M:%S";

/// The seconds since the epoch, in UTC, of the date and time that `text` gives when read by
/// `format`, or `None` where `text` does not fit `format`.
pub uninterp spec fn utc_seconds_of(text: Seq<char>, format: Seq<char>) -> Option<i64>;

/// Calls `chrono::NaiveDateTime::parse_from_str`, takes the date and time it returns as one
/// in UTC (`and_utc`) and gives its `timestamp`. Nothing is claimed of the outcome but that
/// it is a function of the two texts.
#[verifier::external_body]
fn parse_utc_seconds(text: &str, format: &str) -> (seconds: Option<i64>)
    ensures
        seconds == utc_seconds_of(text@, format@),
{
    match chrono::NaiveDateTime::parse_from_str(text, format) {
        Ok(date) => Some(date.and_utc().timestamp()),
        Err(_) => None,
    }
}

/// One podcast installment. `published_at` counts the seconds since the epoch, in UTC.
#[derive(Debug)]
pub struct Episode {
    pub id: u32,
    pub title: String,
    pub duration: u32,
    pub show_id: u32,
    pub author_id: u32,
    pub published_at: i64,
    pub download_url: String,
    pub description: String,
    pub description_html: String,
}

/// An episode as the episode API describes it, the time of publication still as text.
pub struct ProtoEpisode {
    pub episode_id: u32,
    pub title: String,
    pub duration: u32,
    pub show_id: u32,
    pub author_id: u32,
    pub published_at: String,
    pub download_url: String,
    pub description: String,
    pub description_html: String,
}

impl ProtoEpisode {
    /// When the episode was published, if the API's text is a date and time.
    pub open spec fn published_seconds(self) -> Option<i64> {
        utc_seconds_of(self.published_at@, PUBLISHED_AT_FORMAT@)
    }

    /// The episode that this description gives once its time of publication is known.
    pub open spec fn published(self, published_at: i64) -> Episode {
        Episode {
            id: self.episode_id,
            title: self.title,
            duration: self.duration,
            show_id: self.show_id,
            author_id: self.author_id,
            published_at,
            download_url: self.download_url,
            description: self.description,
            description_html: self.description_html,
        }
    }
}

impl Episode {
    /// The episode that `p` describes, published at `published_at`.
    pub fn published(p: ProtoEpisode, published_at: i64) -> (e: Episode)
        ensures
            e == p.published(published_at),
    {
        Episode {
            id: p.episode_id,
            title: p.title,
            duration: p.duration,
            show_id: p.show_id,
            author_id: p.author_id,
            published_at,
            download_url: p.download_url,
            description: p.description,
            description_html: p.description_html,
        }
    }

    /// The episode that `p` describes. The time of publication must be a date and time in
    /// the API's format.
    pub fn from(p: ProtoEpisode) -> (e: Episode)
        requires
            p.published_seconds() is Some,
        ensures
            e == p.published(p.published_seconds().unwrap()),
    {
        match parse_utc_seconds(p.published_at.as_str(), PUBLISHED_AT_FORMAT) {
            Some(published_at) => Episode::published(p, published_at),
            None => vstd::pervasive::unreached(),
        }
    }

    /// The episode that `p` describes, or `None` where its time of publication is no date
    /// and time in the API's format.
    pub fn checked_from(p: ProtoEpisode) -> (e: Option<Episode>)
        ensures
            e == match p.published_seconds() {
                Some(published_at) => Some(p.published(published_at)),
                None => None,
            },
    {
        match parse_utc_seconds(p.published_at.as_str(), PUBLISHED_AT_FORMAT) {
            Some(_) => Some(Episode::from(p)),
            None => None,
        }
    }
}

impl PPPData for Episode {
    const COLLECTION: &'static str = "episodes";

    const ID_KEY: &'static str = "id";

    type IdType = u32;
}

/// The envelope in which the episode API answers a request for one episode.
pub struct EpisodeResponse<T> {
    response: EpisodeEpisode<T>,
}

struct EpisodeEpisode<T> {
    episode: T,
}

impl<T> EpisodeResponse<T> {
    /// What the envelope holds.
    pub closed spec fn episode(self) -> T {
        self.response.episode
    }

    /// The envelope around `episode`.
    pub fn new(episode: T) -> (r: Self)
        ensures
            r.episode() == episode,
    {
        EpisodeResponse { response: EpisodeEpisode { episode } }
    }
}

impl EpisodeResponse<ProtoEpisode> {
    /// The episode that the answer describes. Its time of publication must be a date and
    /// time in the API's format.
    pub fn into_inner(self) -> (e: Episode)
        requires
            self.episode().published_seconds() is Some,
        ensures
            e == self.episode().published(self.episode().published_seconds().unwrap()),
    {
        Episode::from(self.response.episode)
    }

    /// The episode that the answer describes, or `None` where its time of publication is no
    /// date and time in the API's format.
    pub fn checked_into_inner(self) -> (e: Option<Episode>)
        ensures
            e == match self.episode().published_seconds() {
                Some(published_at) => Some(self.episode().published(published_at)),
                None => None,
            },
    {
        match parse_utc_seconds(self.response.episode.published_at.as_str(), PUBLISHED_AT_FORMAT) {
            Some(_) => Some(self.into_inner()),
            None => None,
        }
    }
}

impl EpisodeResponse<SimpleEpisode> {
    /// The episode that the answer holds.
    pub fn into_inner(self) -> (e: SimpleEpisode)
        ensures
            e == self.episode(),
    {
        self.response.episode
    }
}

} // verus!
