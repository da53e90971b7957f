use std::collections::VecDeque;
use vstd::prelude::*;

use super::data::{EpisodeTranscript, Transcript};
use super::error::JobManagerError;
use super::stage::{Admission, Stage};

verus! {

/// The jobs of a batch, as contracts see them: for each stage the episodes whose job of that
/// stage has been started and whose result has not been taken yet, in the order in which
/// the jobs were started, and the transcripts gathered so far.
pub struct Jobs {
    pub down: Seq<u32>,
    pub tran: Seq<u32>,
    pub conv: Seq<u32>,
    pub finished: Seq<EpisodeTranscript>,
}

/// A job has succeeded, and with what.
pub enum JobSuccess {
    Downloaded(u32),
    Transcribed(u32),
    Converted(EpisodeTranscript),
}

impl JobSuccess {
    /// The stage of the job that succeeded.
    pub open spec fn stage(self) -> Stage {
        match self {
            JobSuccess::Downloaded(_) => Stage::Download,
            JobSuccess::Transcribed(_) => Stage::Transcribe,
            JobSuccess::Converted(_) => Stage::Convert,
        }
    }
}

impl Jobs {
    /// No job has been started.
    pub open spec fn none() -> Jobs {
        Jobs { down: Seq::empty(), tran: Seq::empty(), conv: Seq::empty(), finished: Seq::empty() }
    }

    /// The jobs after one more has been started at `stage` for episode `id`.
    pub open spec fn started(self, stage: Stage, id: u32) -> Jobs {
        match stage {
            Stage::Download => Jobs { down: self.down.push(id), ..self },
            Stage::Transcribe => Jobs { tran: self.tran.push(id), ..self },
            Stage::Convert => Jobs { conv: self.conv.push(id), ..self },
        }
    }

    /// The job whose result is taken next: the oldest download, then, once no download is
    /// left, the oldest transcription, then the oldest conversion.
    pub open spec fn awaited(self) -> Option<(Stage, u32)> {
        if self.down.len() > 0 {
            Some((Stage::Download, self.down[0]))
        } else if self.tran.len() > 0 {
            Some((Stage::Transcribe, self.tran[0]))
        } else if self.conv.len() > 0 {
            Some((Stage::Convert, self.conv[0]))
        } else {
            None
        }
    }

    /// The success is that of a job of the stage whose result is taken next.
    pub open spec fn expects(self, success: JobSuccess) -> bool {
        self.awaited() matches Some((stage, _)) && stage == success.stage()
    }

    /// The jobs after the awaited job has succeeded: it leaves its stage, and the episode
    /// goes on to the next stage, or its transcript is gathered.
    pub open spec fn succeeded(self, success: JobSuccess) -> Jobs {
        match success {
            JobSuccess::Downloaded(id) => Jobs {
                down: self.down.drop_first(),
                tran: self.tran.push(id),
                ..self
            },
            JobSuccess::Transcribed(id) => Jobs {
                tran: self.tran.drop_first(),
                conv: self.conv.push(id),
                ..self
            },
            JobSuccess::Converted(transcript) => Jobs {
                conv: self.conv.drop_first(),
                finished: self.finished.push(transcript),
                ..self
            },
        }
    }

    /// How many jobs' results are still to be taken at this stage or an earlier one of the
    /// same episodes, plus how many transcripts have been gathered: one for each episode of
    /// the batch.
    pub open spec fn episodes(self) -> nat {
        self.down.len() + self.tran.len() + self.conv.len() + self.finished.len()
    }

    /// Each success is that of the job awaited when it comes.
    pub open spec fn expects_all(self, successes: Seq<JobSuccess>) -> bool
        decreases successes.len(),
    {
        successes.len() > 0 ==> self.expects_all(successes.drop_last()) && self.succeeded_all(
            successes.drop_last(),
        ).expects(successes.last())
    }

    /// The jobs after the successes, in their order.
    pub open spec fn succeeded_all(self, successes: Seq<JobSuccess>) -> Jobs
        decreases successes.len(),
    {
        if successes.len() == 0 {
            self
        } else {
            self.succeeded_all(successes.drop_last()).succeeded(successes.last())
        }
    }
}

/// However the results come in: as long as every job succeeds, no episode of the batch is
/// lost. Each is at one stage or has given its transcript.
pub proof fn lemma_no_episode_is_lost(jobs: Jobs, successes: Seq<JobSuccess>)
    requires
        jobs.expects_all(successes),
    ensures
        jobs.succeeded_all(successes).episodes() == jobs.episodes(),
    decreases successes.len(),
{
    if successes.len() > 0 {
        lemma_no_episode_is_lost(jobs, successes.drop_last());
    }
}

/// When every job of a batch has succeeded and no result is left to take, there are as many
/// transcripts as the batch has episodes: a batch of N downloads, and nothing else, gives
/// N transcripts.
pub proof fn lemma_wait_gathers_every_episode(jobs: Jobs, successes: Seq<JobSuccess>)
    requires
        jobs.expects_all(successes),
        jobs.succeeded_all(successes).awaited() is None,
    ensures
        jobs.succeeded_all(successes).finished.len() == jobs.episodes(),
        jobs.finished.len() == 0 && jobs.tran.len() == 0 && jobs.conv.len() == 0
            ==> jobs.succeeded_all(successes).finished.len() == jobs.down.len(),
{
    lemma_no_episode_is_lost(jobs, successes);
}

/// An episode's job comes to the transcription only by its download's success or by being
/// started there, and to the conversion only by its transcription's success or by being
/// started there: a success moves the episode one stage on and no further.
pub proof fn lemma_success_moves_one_stage(jobs: Jobs, success: JobSuccess)
    requires
        jobs.expects(success),
    ensures
        match success {
            JobSuccess::Downloaded(id) => jobs.succeeded(success) == Jobs {
                down: jobs.down.drop_first(),
                ..jobs.started(Stage::Transcribe, id)
            },
            JobSuccess::Transcribed(id) => jobs.succeeded(success) == Jobs {
                tran: jobs.tran.drop_first(),
                ..jobs.started(Stage::Convert, id)
            },
            JobSuccess::Converted(transcript) => jobs.succeeded(success).down == jobs.down
                && jobs.succeeded(success).tran == jobs.tran,
        },
{
}

/// How a job ended.
#[derive(Debug)]
pub enum JobOutcome {
    /// The audio of this episode has been fetched and converted.
    Downloaded(u32),
    /// The inference service has given the raw segments of this episode.
    Transcribed(u32, Transcript),
    /// The segments have been normalized.
    Converted(EpisodeTranscript),
    /// The job failed.
    Failed(JobManagerError),
}

/// What follows when the awaited job has ended.
#[derive(Debug)]
pub enum WaitStep {
    /// Start the transcription of this episode.
    Transcribe(u32),
    /// Start the conversion of this episode's segments.
    Convert(u32, Transcript),
    /// A transcript has been gathered.
    Collected,
    /// The batch has failed: stop waiting and report the error.
    Abort(JobManagerError),
}

/// Keeps the books of a batch of jobs: which jobs run at each stage and in which order
/// their results are taken, how many may run at once, and the transcripts that came out.
pub struct JobManager {
    admission: Admission,
    conv_jobs: VecDeque<u32>,
    tran_jobs: VecDeque<u32>,
    down_jobs: VecDeque<u32>,
    finished: Vec<EpisodeTranscript>,
}

impl View for JobManager {
    type V = Jobs;

    closed spec fn view(&self) -> Jobs {
        Jobs {
            down: self.down_jobs@,
            tran: self.tran_jobs@,
            conv: self.conv_jobs@,
            finished: self.finished@,
        }
    }
}

impl JobManager {
    /// How many jobs of `stage` have been admitted and have not ended.
    pub closed spec fn spec_running(&self, stage: Stage) -> usize {
        self.admission.running(stage)
    }

    /// A manager with no job started and none running.
    pub fn new() -> (manager: Self)
        ensures
            manager@ == Jobs::none(),
            forall|stage: Stage| manager.running(stage) == 0,
    {
        JobManager {
            admission: Admission::new(),
            conv_jobs: VecDeque::new(),
            tran_jobs: VecDeque::new(),
            down_jobs: VecDeque::new(),
            finished: Vec::new(),
        }
    }

    /// Takes in that the conversion of episode `id` has been started.
    pub fn run_convert(&mut self, id: u32)
        ensures
            final(self)@ == old(self)@.started(Stage::Convert, id),
            forall|stage: Stage| final(self).running(stage) == old(self).running(stage),
    {
        self.conv_jobs.push_back(id);
    }

    /// Takes in that the transcription of episode `id` has been started.
    pub fn run_transcribe(&mut self, id: u32)
        ensures
            final(self)@ == old(self)@.started(Stage::Transcribe, id),
            forall|stage: Stage| final(self).running(stage) == old(self).running(stage),
    {
        self.tran_jobs.push_back(id);
    }

    /// Takes in that the download of episode `id` has been started.
    pub fn run_download(&mut self, id: u32)
        ensures
            final(self)@ == old(self)@.started(Stage::Download, id),
            forall|stage: Stage| final(self).running(stage) == old(self).running(stage),
    {
        self.down_jobs.push_back(id);
    }

    /// How many jobs of `stage` run: never more than the stage's capacity.
    #[verifier::when_used_as_spec(spec_running)]
    pub fn running(&self, stage: Stage) -> (n: usize)
        ensures
            n == self.spec_running(stage),
            n <= stage.capacity(),
    {
        self.admission.running(stage)
    }

    /// Admits one more job of `stage` if fewer run than its capacity allows, and says
    /// whether it did. A job that is not admitted waits and asks again.
    pub fn try_acquire(&mut self, stage: Stage) -> (admitted: bool)
        ensures
            admitted == (old(self).running(stage) < stage.capacity()),
            final(self)@ == old(self)@,
            final(self).running(stage) == if admitted {
                old(self).running(stage) + 1
            } else {
                old(self).running(stage) as int
            },
            final(self).running(stage) <= stage.capacity(),
            forall|other: Stage|
                other != stage ==> final(self).running(other) == old(self).running(other),
    {
        self.admission.try_acquire(stage)
    }

    /// Takes in that a job of `stage` that had been admitted has ended.
    pub fn release(&mut self, stage: Stage)
        ensures
            final(self)@ == old(self)@,
            final(self).running(stage) == if old(self).running(stage) > 0 {
                old(self).running(stage) - 1
            } else {
                0
            },
            forall|other: Stage|
                other != stage ==> final(self).running(other) == old(self).running(other),
    {
        self.admission.release(stage)
    }

    /// The job whose result is to be taken next, if any is left: downloads first, then
    /// transcriptions, then conversions, each stage in the order in which its jobs were
    /// started.
    pub fn awaited(&self) -> (job: Option<(Stage, u32)>)
        ensures
            job == self@.awaited(),
    {
        if self.down_jobs.len() > 0 {
            Some((Stage::Download, self.down_jobs[0]))
        } else if self.tran_jobs.len() > 0 {
            Some((Stage::Transcribe, self.tran_jobs[0]))
        } else if self.conv_jobs.len() > 0 {
            Some((Stage::Convert, self.conv_jobs[0]))
        } else {
            None
        }
    }

    /// Takes the result of the awaited job and says what follows. A download that succeeded
    /// is followed by the episode's transcription, a transcription by the conversion of its
    /// segments, and a conversion leaves its transcript with those gathered. A failure
    /// ends the batch: nothing changes, and the error is handed on. An outcome that is not
    /// of the awaited stage changes nothing either, and nothing follows from it.
    pub fn job_finished(&mut self, outcome: JobOutcome) -> (step: Option<WaitStep>)
        ensures
            match outcome {
                JobOutcome::Downloaded(id) => if old(self)@.expects(JobSuccess::Downloaded(id)) {
                    final(self)@ == old(self)@.succeeded(JobSuccess::Downloaded(id)) && step
                        == Some(WaitStep::Transcribe(id))
                } else {
                    final(self)@ == old(self)@ && step is None
                },
                JobOutcome::Transcribed(id, transcript) => if old(self)@.expects(
                    JobSuccess::Transcribed(id),
                ) {
                    final(self)@ == old(self)@.succeeded(JobSuccess::Transcribed(id)) && step
                        == Some(WaitStep::Convert(id, transcript))
                } else {
                    final(self)@ == old(self)@ && step is None
                },
                JobOutcome::Converted(transcript) => if old(self)@.expects(
                    JobSuccess::Converted(transcript),
                ) {
                    final(self)@ == old(self)@.succeeded(JobSuccess::Converted(transcript)) && step
                        == Some(WaitStep::Collected)
                } else {
                    final(self)@ == old(self)@ && step is None
                },
                JobOutcome::Failed(error) => final(self)@ == old(self)@ && step == Some(
                    WaitStep::Abort(error),
                ),
            },
            forall|stage: Stage| final(self).running(stage) == old(self).running(stage),
    {
        match outcome {
            JobOutcome::Downloaded(id) => {
                if self.down_jobs.len() > 0 {
                    let _ = self.down_jobs.pop_front();
                    self.tran_jobs.push_back(id);
                    Some(WaitStep::Transcribe(id))
                } else {
                    None
                }
            },
            JobOutcome::Transcribed(id, transcript) => {
                if self.down_jobs.len() == 0 && self.tran_jobs.len() > 0 {
                    let _ = self.tran_jobs.pop_front();
                    self.conv_jobs.push_back(id);
                    Some(WaitStep::Convert(id, transcript))
                } else {
                    None
                }
            },
            JobOutcome::Converted(transcript) => {
                if self.down_jobs.len() == 0 && self.tran_jobs.len() == 0 && self.conv_jobs.len()
                    > 0 {
                    let _ = self.conv_jobs.pop_front();
                    self.finished.push(transcript);
                    Some(WaitStep::Collected)
                } else {
                    None
                }
            },
            JobOutcome::Failed(error) => Some(WaitStep::Abort(error)),
        }
    }

    /// The transcripts of the batch, in the order in which they came, once no result is
    /// left to take; `None` while one is.
    pub fn wait(self) -> (transcripts: Option<Vec<EpisodeTranscript>>)
        ensures
            match transcripts {
                Some(all) => self@.awaited() is None && all@ == self@.finished,
                None => self@.awaited() is Some,
            },
    {
        if self.down_jobs.len() == 0 && self.tran_jobs.len() == 0 && self.conv_jobs.len() == 0 {
            Some(self.finished)
        } else {
            None
        }
    }
}

} // verus!
