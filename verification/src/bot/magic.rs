use vstd::prelude::*;

use super::search::SearchError;
use crate::decimal::{decimal_digits, decimal_u32, parse_u32, u32_to_string};
use crate::spreaker::Episode;

verus! {

/// A number above this is taken for an episode's id, one up to it for an episode's number.
pub const EPISODE_ID_THRESHOLD: u32 = 10000;

/// What a token that names an episode asks for.
#[derive(Debug)]
pub enum MagicEpisode {
    /// The token is the episode's id: nothing has to be looked up.
    Id(u32),
    /// The episode is the first whose title matches this pattern, whatever the case.
    Title(String),
}

/// Reads the token by which a user names an episode. A number above the threshold is the
/// episode's id. A number up to the threshold is the episode's number, to be looked up in
/// the titles as it is written in decimal. Anything else is looked up in the titles as it
/// stands.
pub fn magic_episode_search(query: String) -> (wanted: MagicEpisode)
    ensures
        match decimal_u32(query@) {
            Some(number) => if number > EPISODE_ID_THRESHOLD {
                wanted == MagicEpisode::Id(number)
            } else {
                wanted matches MagicEpisode::Title(pattern) && pattern@ == decimal_digits(
                    number as nat,
                )
            },
            None => wanted == MagicEpisode::Title(query),
        },
{
    match parse_u32(query.as_str()) {
        Some(number) => {
            if number > EPISODE_ID_THRESHOLD {
                MagicEpisode::Id(number)
            } else {
                MagicEpisode::Title(u32_to_string(number))
            }
        },
        None => MagicEpisode::Title(query),
    }
}

/// The id of the first episode that the lookup by title gave, if it gave any.
pub fn magic_episode_found(first: Option<Episode>) -> (id: Result<u32, SearchError>)
    ensures
        id == match first {
            Some(episode) => Ok::<u32, SearchError>(episode.id),
            None => Err(SearchError::NoResults),
        },
{
    match first {
        Some(episode) => Ok(episode.id),
        None => Err(SearchError::NoResults),
    }
}

} // verus!
