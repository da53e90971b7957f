use std::collections::HashSet;
use vstd::prelude::*;

verus! {

broadcast use vstd::std_specs::hash::group_hash_axioms;

/// How many conversions may run at once.
pub const MAX_CONVERT_JOBS: usize = 4;

/// How many transcriptions may run at once: there is one inference instance.
pub const MAX_TRANSCRIBE_JOBS: usize = 1;

/// How many downloads may run at once.
pub const MAX_DOWNLOAD_JOBS: usize = 4;

/// A stage of the acquisition pipeline.
#[derive(Clone, Copy, PartialEq, Eq, Structural, Debug)]
pub enum Stage {
    Download,
    Transcribe,
    Convert,
}

impl Stage {
    /// How many jobs of this stage may run at once.
    pub open spec fn spec_capacity(self) -> usize {
        match self {
            Stage::Download => MAX_DOWNLOAD_JOBS,
            Stage::Transcribe => MAX_TRANSCRIBE_JOBS,
            Stage::Convert => MAX_CONVERT_JOBS,
        }
    }

    #[verifier::when_used_as_spec(spec_capacity)]
    pub fn capacity(self) -> (n: usize)
        ensures
            n == self.spec_capacity(),
    {
        match self {
            Stage::Download => MAX_DOWNLOAD_JOBS,
            Stage::Transcribe => MAX_TRANSCRIBE_JOBS,
            Stage::Convert => MAX_CONVERT_JOBS,
        }
    }

    /// The stage that an episode goes to when this one has succeeded; none after the last.
    pub open spec fn spec_next(self) -> Option<Stage> {
        match self {
            Stage::Download => Some(Stage::Transcribe),
            Stage::Transcribe => Some(Stage::Convert),
            Stage::Convert => None,
        }
    }

    #[verifier::when_used_as_spec(spec_next)]
    pub fn next(self) -> (stage: Option<Stage>)
        ensures
            stage == self.spec_next(),
    {
        match self {
            Stage::Download => Some(Stage::Transcribe),
            Stage::Transcribe => Some(Stage::Convert),
            Stage::Convert => None,
        }
    }
}

/// The stage at which an episode without a transcript starts: with its raw segments
/// cached, at the conversion; else, without its converted audio, at the download; else at
/// the transcription.
pub open spec fn spec_first_stage(has_cached_segments: bool, has_audio: bool) -> Stage {
    if has_cached_segments {
        Stage::Convert
    } else if !has_audio {
        Stage::Download
    } else {
        Stage::Transcribe
    }
}

#[verifier::when_used_as_spec(spec_first_stage)]
pub fn first_stage(has_cached_segments: bool, has_audio: bool) -> (stage: Stage)
    ensures
        stage == spec_first_stage(has_cached_segments, has_audio),
{
    if has_cached_segments {
        Stage::Convert
    } else if !has_audio {
        Stage::Download
    } else {
        Stage::Transcribe
    }
}

/// The episodes that want work, by the stage at which each starts.
#[derive(Debug)]
pub struct Plan {
    pub to_download: Vec<u32>,
    pub to_transcribe: Vec<u32>,
    pub to_convert: Vec<u32>,
}

/// Whether episode `id` starts at `stage`: it has no transcript yet, and `stage` is where
/// what exists of it lets it start.
pub open spec fn starts_at(
    id: u32,
    stage: Stage,
    transcribed: Set<u32>,
    cached: Set<u32>,
    audio: Set<u32>,
) -> bool {
    !transcribed.contains(id) && first_stage(cached.contains(id), audio.contains(id)) == stage
}

/// Those of the episodes that start at `stage`, in the order of `episodes`.
pub open spec fn starting_at(
    episodes: Seq<u32>,
    stage: Stage,
    transcribed: Set<u32>,
    cached: Set<u32>,
    audio: Set<u32>,
) -> Seq<u32> {
    episodes.filter(|id: u32| starts_at(id, stage, transcribed, cached, audio))
}

/// Sorts the episodes that have no transcript yet by the stage at which each starts.
/// `transcribed` are the episodes that have a transcript, `cached` those whose raw segments
/// are cached, `audio` those whose converted audio exists.
pub fn plan(
    episodes: &Vec<u32>,
    transcribed: &HashSet<u32>,
    cached: &HashSet<u32>,
    audio: &HashSet<u32>,
) -> (p: Plan)
    ensures
        p.to_download@ == starting_at(episodes@, Stage::Download, transcribed@, cached@, audio@),
        p.to_transcribe@ == starting_at(
            episodes@,
            Stage::Transcribe,
            transcribed@,
            cached@,
            audio@,
        ),
        p.to_convert@ == starting_at(episodes@, Stage::Convert, transcribed@, cached@, audio@),
{
    let mut to_download: Vec<u32> = Vec::new();
    let mut to_transcribe: Vec<u32> = Vec::new();
    let mut to_convert: Vec<u32> = Vec::new();
    let mut i: usize = 0;
    while i < episodes.len()
        invariant
            i <= episodes.len(),
            to_download@ == starting_at(
                episodes@.take(i as int),
                Stage::Download,
                transcribed@,
                cached@,
                audio@,
            ),
            to_transcribe@ == starting_at(
                episodes@.take(i as int),
                Stage::Transcribe,
                transcribed@,
                cached@,
                audio@,
            ),
            to_convert@ == starting_at(
                episodes@.take(i as int),
                Stage::Convert,
                transcribed@,
                cached@,
                audio@,
            ),
        decreases episodes.len() - i,
    {
        let id = episodes[i];
        proof {
            lemma_starting_at_step(
                episodes@,
                i as int,
                Stage::Download,
                transcribed@,
                cached@,
                audio@,
            );
            lemma_starting_at_step(
                episodes@,
                i as int,
                Stage::Transcribe,
                transcribed@,
                cached@,
                audio@,
            );
            lemma_starting_at_step(
                episodes@,
                i as int,
                Stage::Convert,
                transcribed@,
                cached@,
                audio@,
            );
        }
        if !transcribed.contains(&id) {
            match first_stage(cached.contains(&id), audio.contains(&id)) {
                Stage::Download => to_download.push(id),
                Stage::Transcribe => to_transcribe.push(id),
                Stage::Convert => to_convert.push(id),
            }
        }
        i += 1;
    }
    assert(episodes@.take(episodes@.len() as int) == episodes@);
    Plan { to_download, to_transcribe, to_convert }
}

/// Taking one more episode into account adds it to the episodes that start at `stage` if
/// it starts there, and changes nothing else.
proof fn lemma_starting_at_step(
    episodes: Seq<u32>,
    i: int,
    stage: Stage,
    transcribed: Set<u32>,
    cached: Set<u32>,
    audio: Set<u32>,
)
    requires
        0 <= i < episodes.len(),
    ensures
        starting_at(episodes.take(i + 1), stage, transcribed, cached, audio) == if starts_at(
            episodes[i],
            stage,
            transcribed,
            cached,
            audio,
        ) {
            starting_at(episodes.take(i), stage, transcribed, cached, audio).push(episodes[i])
        } else {
            starting_at(episodes.take(i), stage, transcribed, cached, audio)
        },
{
    reveal(Seq::filter);
    assert(episodes.take(i + 1).drop_last() == episodes.take(i));
}

/// Counts, for each stage, the jobs that run, and admits no more than the stage's
/// capacity.
pub struct Admission {
    downloads: usize,
    transcriptions: usize,
    conversions: usize,
}

impl Admission {
    #[verifier::type_invariant]
    spec fn within_capacity(self) -> bool {
        &&& self.downloads <= Stage::Download.capacity()
        &&& self.transcriptions <= Stage::Transcribe.capacity()
        &&& self.conversions <= Stage::Convert.capacity()
    }

    /// How many jobs of `stage` have been admitted and have not ended.
    pub closed spec fn spec_running(&self, stage: Stage) -> usize {
        match stage {
            Stage::Download => self.downloads,
            Stage::Transcribe => self.transcriptions,
            Stage::Convert => self.conversions,
        }
    }

    /// With no job running.
    pub fn new() -> (admission: Self)
        ensures
            forall|stage: Stage| admission.running(stage) == 0,
    {
        Admission { downloads: 0, transcriptions: 0, conversions: 0 }
    }

    /// How many jobs of `stage` run: never more than the stage's capacity.
    #[verifier::when_used_as_spec(spec_running)]
    pub fn running(&self, stage: Stage) -> (n: usize)
        ensures
            n == self.spec_running(stage),
            n <= stage.capacity(),
    {
        proof {
            use_type_invariant(self);
        }
        match stage {
            Stage::Download => self.downloads,
            Stage::Transcribe => self.transcriptions,
            Stage::Convert => self.conversions,
        }
    }

    /// Admits one more job of `stage` if fewer run than its capacity allows, and says
    /// whether it did.
    pub fn try_acquire(&mut self, stage: Stage) -> (admitted: bool)
        ensures
            admitted == (old(self).running(stage) < stage.capacity()),
            final(self).running(stage) == if admitted {
                old(self).running(stage) + 1
            } else {
                old(self).running(stage) as int
            },
            final(self).running(stage) <= stage.capacity(),
            forall|other: Stage|
                other != stage ==> final(self).running(other) == old(self).running(other),
    {
        proof {
            use_type_invariant(&*self);
        }
        match stage {
            Stage::Download => {
                if self.downloads < MAX_DOWNLOAD_JOBS {
                    self.downloads += 1;
                    true
                } else {
                    false
                }
            },
            Stage::Transcribe => {
                if self.transcriptions < MAX_TRANSCRIBE_JOBS {
                    self.transcriptions += 1;
                    true
                } else {
                    false
                }
            },
            Stage::Convert => {
                if self.conversions < MAX_CONVERT_JOBS {
                    self.conversions += 1;
                    true
                } else {
                    false
                }
            },
        }
    }

    /// Takes in that a job of `stage` has ended; with none running, nothing changes.
    pub fn release(&mut self, stage: Stage)
        ensures
            final(self).running(stage) == if old(self).running(stage) > 0 {
                old(self).running(stage) - 1
            } else {
                0
            },
            forall|other: Stage|
                other != stage ==> final(self).running(other) == old(self).running(other),
    {
        proof {
            use_type_invariant(&*self);
        }
        match stage {
            Stage::Download => {
                if self.downloads > 0 {
                    self.downloads -= 1;
                }
            },
            Stage::Transcribe => {
                if self.transcriptions > 0 {
                    self.transcriptions -= 1;
                }
            },
            Stage::Convert => {
                if self.conversions > 0 {
                    self.conversions -= 1;
                }
            },
        }
    }
}

} // verus!
