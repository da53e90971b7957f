use vstd::prelude::*;
use vstd::string::*;

use crate::decimal::{decimal_digits, u32_to_string};
use crate::spreaker::error::{labelled, prefixed, with_label};

verus! {

/// Why a job of the acquisition pipeline failed.
#[derive(Debug)]
pub enum JobManagerError {
    Reqwest(reqwest::Error),
    Io(std::io::Error),
    Tokio(tokio::task::JoinError),
    Mongo(mongodb::error::Error),
    Mutex,
    Serde(serde_json::Error),
    /// The store holds no episode under this id.
    EpisodeNotFound(u32),
    /// The audio of this episode could not be converted.
    Conversion(u32),
}

impl vstd::std_specs::convert::FromSpecImpl<reqwest::Error> for JobManagerError {
    open spec fn obeys_from_spec() -> bool {
        true
    }

    open spec fn from_spec(e: reqwest::Error) -> Self {
        JobManagerError::Reqwest(e)
    }
}

impl From<reqwest::Error> for JobManagerError {
    fn from(e: reqwest::Error) -> (r: Self) {
        JobManagerError::Reqwest(e)
    }
}

impl vstd::std_specs::convert::FromSpecImpl<std::io::Error> for JobManagerError {
    open spec fn obeys_from_spec() -> bool {
        true
    }

    open spec fn from_spec(e: std::io::Error) -> Self {
        JobManagerError::Io(e)
    }
}

impl From<std::io::Error> for JobManagerError {
    fn from(e: std::io::Error) -> (r: Self) {
        JobManagerError::Io(e)
    }
}

impl vstd::std_specs::convert::FromSpecImpl<tokio::task::JoinError> for JobManagerError {
    open spec fn obeys_from_spec() -> bool {
        true
    }

    open spec fn from_spec(e: tokio::task::JoinError) -> Self {
        JobManagerError::Tokio(e)
    }
}

impl From<tokio::task::JoinError> for JobManagerError {
    fn from(e: tokio::task::JoinError) -> (r: Self) {
        JobManagerError::Tokio(e)
    }
}

impl<T> vstd::std_specs::convert::FromSpecImpl<std::sync::PoisonError<T>> for JobManagerError {
    open spec fn obeys_from_spec() -> bool {
        true
    }

    open spec fn from_spec(e: std::sync::PoisonError<T>) -> Self {
        JobManagerError::Mutex
    }
}

impl<T> From<std::sync::PoisonError<T>> for JobManagerError {
    fn from(e: std::sync::PoisonError<T>) -> (r: Self) {
        JobManagerError::Mutex
    }
}

impl vstd::std_specs::convert::FromSpecImpl<mongodb::error::Error> for JobManagerError {
    open spec fn obeys_from_spec() -> bool {
        true
    }

    open spec fn from_spec(e: mongodb::error::Error) -> Self {
        JobManagerError::Mongo(e)
    }
}

impl From<mongodb::error::Error> for JobManagerError {
    fn from(e: mongodb::error::Error) -> (r: Self) {
        JobManagerError::Mongo(e)
    }
}

impl vstd::std_specs::convert::FromSpecImpl<serde_json::Error> for JobManagerError {
    open spec fn obeys_from_spec() -> bool {
        true
    }

    open spec fn from_spec(e: serde_json::Error) -> Self {
        JobManagerError::Serde(e)
    }
}

impl From<serde_json::Error> for JobManagerError {
    fn from(e: serde_json::Error) -> (r: Self) {
        JobManagerError::Serde(e)
    }
}

impl JobManagerError {
    /// The error written out: a label, then the outside error's own words or the id of the
    /// episode.
    pub fn to_string(&self) -> (text: String)
        ensures
            match self {
                JobManagerError::Reqwest(e) => labelled("Reqwest error: "@, e, text@),
                JobManagerError::Io(e) => labelled("IO error: "@, e, text@),
                JobManagerError::Tokio(e) => labelled("Tokio error: "@, e, text@),
                JobManagerError::Mongo(e) => labelled("MongoDB error: "@, e, text@),
                JobManagerError::Mutex => text@ == "Mutex error"@,
                JobManagerError::Serde(e) => labelled("Serde error: "@, e, text@),
                JobManagerError::EpisodeNotFound(id) => text@ == "Episode not found: "@
                    + decimal_digits(*id as nat),
                JobManagerError::Conversion(id) => text@ == "Conversion error: episode "@
                    + decimal_digits(*id as nat),
            },
    {
        match self {
            JobManagerError::Reqwest(e) => with_label("Reqwest error: ", e),
            JobManagerError::Io(e) => with_label("IO error: ", e),
            JobManagerError::Tokio(e) => with_label("Tokio error: ", e),
            JobManagerError::Mongo(e) => with_label("MongoDB error: ", e),
            JobManagerError::Mutex => String::from_str("Mutex error"),
            JobManagerError::Serde(e) => with_label("Serde error: ", e),
            JobManagerError::EpisodeNotFound(id) => prefixed(
                "Episode not found: ",
                u32_to_string(*id),
            ),
            JobManagerError::Conversion(id) => prefixed(
                "Conversion error: episode ",
                u32_to_string(*id),
            ),
        }
    }
}

} // verus!
