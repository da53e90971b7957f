use vstd::prelude::*;

verus! {

/// What a listing tells of an episode: enough to fetch the rest.
#[derive(Debug)]
pub struct SimpleEpisode {
    pub id: u32,
    pub download_url: String,
    pub title: String,
}

} // verus!
