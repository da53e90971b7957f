use vstd::prelude::*;
use vstd::string::*;

use super::error::JobManagerError;
use super::jobs::JobOutcome;
use crate::decimal::{decimal_digits, u32_to_string};
use crate::spreaker::Episode;

verus! {

/// Where the inference service listens.
pub const INFERENCE_URL: &'static str = "http://127.0.0.1:8080/inference";

/// `before`, the episode's id in decimal, `after`.
pub open spec fn named(before: Seq<char>, id: u32, after: Seq<char>) -> Seq<char> {
    before + decimal_digits(id as nat) + after
}

fn name(before: &str, id: u32, after: &str) -> (path: String)
    ensures
        path@ == named(before@, id, after@),
{
    let mut path = String::from_str(before);
    path.append(u32_to_string(id).as_str());
    path.append(after);
    path
}

/// Where the audio of episode `id` is kept as it was fetched.
pub fn mp3_path(id: u32) -> (path: String)
    ensures
        path@ == named("./audio/mp3/"@, id, ".mp3"@),
{
    name("./audio/mp3/", id, ".mp3")
}

/// Where the converted audio of episode `id` is kept.
pub fn wav_path(id: u32) -> (path: String)
    ensures
        path@ == named("./audio/wav/"@, id, ".wav"@),
{
    name("./audio/wav/", id, ".wav")
}

/// Where the raw segments of episode `id` are cached.
pub fn cache_path(id: u32) -> (path: String)
    ensures
        path@ == named("output/"@, id, ".json"@),
{
    name("output/", id, ".json")
}

/// The arguments with which the audio converter turns `mp3` into `wav`: one channel of
/// 16-bit samples at 16 kHz, which is what the inference service takes.
pub open spec fn spec_conversion_args(mp3: Seq<char>, wav: Seq<char>) -> Seq<Seq<char>> {
    seq!["-i"@, mp3, "-ar"@, "16000"@, "-ac"@, "1"@, "-c:a"@, "pcm_s16le"@, wav]
}

pub fn conversion_args(mp3: &str, wav: &str) -> (args: Vec<String>)
    ensures
        args@.map_values(|a: String| a@) == spec_conversion_args(mp3@, wav@),
{
    let mut args: Vec<String> = Vec::with_capacity(9);
    args.push(String::from_str("-i"));
    args.push(String::from_str(mp3));
    args.push(String::from_str("-ar"));
    args.push(String::from_str("16000"));
    args.push(String::from_str("-ac"));
    args.push(String::from_str("1"));
    args.push(String::from_str("-c:a"));
    args.push(String::from_str("pcm_s16le"));
    args.push(String::from_str(wav));
    assert(args@.map_values(|a: String| a@) =~= spec_conversion_args(mp3@, wav@));
    args
}

/// The text fields that go with the audio in a request to the inference service.
pub open spec fn spec_inference_fields() -> Seq<(Seq<char>, Seq<char>)> {
    seq![
        ("temperature"@, "0.0"@),
        ("temperature_inc"@, "0.0"@),
        ("response_format"@, "verbose_json"@),
    ]
}

pub fn inference_fields() -> (fields: Vec<(&'static str, &'static str)>)
    ensures
        fields@.map_values(|f: (&'static str, &'static str)| (f.0@, f.1@))
            == spec_inference_fields(),
{
    let mut fields: Vec<(&'static str, &'static str)> = Vec::with_capacity(3);
    fields.push(("temperature", "0.0"));
    fields.push(("temperature_inc", "0.0"));
    fields.push(("response_format", "verbose_json"));
    assert(fields@.map_values(|f: (&'static str, &'static str)| (f.0@, f.1@))
        =~= spec_inference_fields());
    fields
}

/// Where the audio of episode `id` is fetched from, given what the store holds under the
/// id; that it holds nothing is an error.
pub fn download_source(id: u32, episode: Option<Episode>) -> (url: Result<String, JobManagerError>)
    ensures
        url == match episode {
            Some(e) => Ok::<String, JobManagerError>(e.download_url),
            None => Err(JobManagerError::EpisodeNotFound(id)),
        },
{
    match episode {
        Some(e) => Ok(e.download_url),
        None => Err(JobManagerError::EpisodeNotFound(id)),
    }
}

/// How the download of episode `id` ended, once the audio converter has run: with the
/// episode ready for its transcription, or, where the converter failed, with a failure.
pub fn download_finished(id: u32, converted: bool) -> (outcome: JobOutcome)
    ensures
        outcome == if converted {
            JobOutcome::Downloaded(id)
        } else {
            JobOutcome::Failed(JobManagerError::Conversion(id))
        },
{
    if converted {
        JobOutcome::Downloaded(id)
    } else {
        JobOutcome::Failed(JobManagerError::Conversion(id))
    }
}

} // verus!
