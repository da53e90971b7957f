pub mod access;
pub mod args;
pub mod command;
pub mod magic;
pub mod matching;
pub mod offsets;
pub mod pages;
pub mod search;

pub use args::split_quoted_args;
pub use command::Command;
pub use magic::{magic_episode_found, magic_episode_search, MagicEpisode};
pub use search::{
    found_episodes, meta_pattern, offset_search, search_meta, search_transcript_all,
    search_transcript_one, within_cap, EpisodeOffsetMatch, OffsetSearchResult, SearchError,
    SearchResult,
};
