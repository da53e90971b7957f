pub mod downloader;
pub mod episode;
pub mod error;
pub mod paginator;
pub mod simple_episode;

pub use downloader::SpreakerDownloader;
pub use episode::{Episode, EpisodeResponse, ProtoEpisode};
pub use error::SpreakerError;
pub use paginator::{Pull, SpreakerDataIter};
pub use simple_episode::SimpleEpisode;

use vstd::prelude::*;
use vstd::string::*;

use crate::decimal::{decimal_digits, u32_to_string};

verus! {

/// The address under which the episode API is reached.
pub const API_URL: &'static str = "https://api.spreaker.com/v2";

/// The envelope of one page of a listing.
pub struct SpreakerResponse<T> {
    pub response: SpreakerData<T>,
}

/// One page of a listing: its items and, unless it is the last, where the next page is.
pub struct SpreakerData<T> {
    pub items: Vec<T>,
    pub next_url: Option<String>,
}

impl<T> SpreakerData<T> {
    /// The sequence of the items of every page, from the page at `next_url` on.
    pub fn request(next_url: String) -> (it: SpreakerDataIter<T>)
        ensures
            it@ == paginator::Pages::<T>::start(next_url@),
    {
        SpreakerDataIter::new(next_url)
    }
}

/// Where the episode API describes episode `id`.
pub fn episode_url(id: u32) -> (url: String)
    ensures
        url@ == API_URL@ + "/episodes/"@ + decimal_digits(id as nat),
{
    let mut url = String::from_str(API_URL);
    url.append("/episodes/");
    url.append(u32_to_string(id).as_str());
    url
}

/// Where the episode API lists the episodes of `show`.
pub fn show_episodes_url(show: &str) -> (url: String)
    ensures
        url@ == API_URL@ + "/shows/"@ + show@ + "/episodes"@,
{
    let mut url = String::from_str(API_URL);
    url.append("/shows/");
    url.append(show);
    url.append("/episodes");
    url
}

} // verus!
