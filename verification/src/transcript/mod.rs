pub mod data;
pub mod error;
pub mod files;
pub mod jobs;
pub mod stage;

pub use data::{
    contiguous, covers, index_well_formed, joined_ranges, joined_text, ranges_ordered,
    sorted_by_start, EpisodeTranscript, FromTo, Segment, SegmentAlt, Timestamp, Transcript,
    TranscriptAlt,
};
pub use error::JobManagerError;
pub use jobs::{JobManager, JobOutcome, WaitStep};
pub use stage::{first_stage, plan, Admission, Plan, Stage};
