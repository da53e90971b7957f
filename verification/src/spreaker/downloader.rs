use std::collections::VecDeque;
use vstd::prelude::*;
use vstd::string::*;

use super::simple_episode::SimpleEpisode;
use crate::decimal::{decimal_digits, u32_to_string};

verus! {

/// What the manager of the downloads does next.
#[derive(Debug)]
pub enum ManagerStep {
    /// Start a worker that fetches this episode's audio.
    Start(SimpleEpisode),
    /// As many workers run as may: wait until one has ended.
    AwaitWorker,
    /// Nothing waits to be fetched: wait for an episode, or for the end.
    AwaitEpisode,
    /// Nothing waits, nothing runs, and no more will come.
    Done,
}

/// The state of the downloads, as contracts see it.
pub struct Downloads {
    /// The episodes that wait for a worker, oldest first.
    pub queue: Seq<SimpleEpisode>,
    /// How many workers may run at once.
    pub jobs: nat,
    /// How many workers run.
    pub running: nat,
    /// Whether the end has been asked for: no more episodes will come.
    pub closing: bool,
}

impl Downloads {
    /// What the manager does next in this state.
    pub open spec fn step(self) -> ManagerStep {
        if self.running < self.jobs && self.queue.len() > 0 {
            ManagerStep::Start(self.queue[0])
        } else if self.running < self.jobs && !self.closing {
            ManagerStep::AwaitEpisode
        } else if self.running == 0 && self.queue.len() == 0 && self.closing {
            ManagerStep::Done
        } else {
            ManagerStep::AwaitWorker
        }
    }

    /// The state after the manager has taken its next step.
    pub open spec fn stepped(self) -> Downloads {
        if self.running < self.jobs && self.queue.len() > 0 {
            Downloads { queue: self.queue.drop_first(), running: self.running + 1, ..self }
        } else {
            self
        }
    }
}

/// Counts the workers of a pool that run, and lets no more run than the pool holds.
pub struct Workers {
    jobs: usize,
    running: usize,
}

impl Workers {
    #[verifier::type_invariant]
    spec fn within_jobs(self) -> bool {
        self.running <= self.jobs
    }

    /// How many workers the pool holds.
    pub closed spec fn spec_jobs(&self) -> usize {
        self.jobs
    }

    /// How many workers run.
    pub closed spec fn spec_running(&self) -> usize {
        self.running
    }

    /// A pool of `jobs` workers, none of which runs.
    pub fn new(jobs: usize) -> (workers: Self)
        ensures
            workers.jobs() == jobs,
            workers.running() == 0,
    {
        Workers { jobs, running: 0 }
    }

    #[verifier::when_used_as_spec(spec_jobs)]
    pub fn jobs(&self) -> (n: usize)
        ensures
            n == self.spec_jobs(),
    {
        self.jobs
    }

    /// How many workers run: never more than the pool holds.
    #[verifier::when_used_as_spec(spec_running)]
    pub fn running(&self) -> (n: usize)
        ensures
            n == self.spec_running(),
            n <= self.jobs(),
    {
        proof {
            use_type_invariant(self);
        }
        self.running
    }

    /// Lets one more worker run if the pool has one free, and says whether it did.
    pub fn try_start(&mut self) -> (started: bool)
        ensures
            started == (old(self).running() < old(self).jobs()),
            final(self).jobs() == old(self).jobs(),
            final(self).running() == if started {
                old(self).running() + 1
            } else {
                old(self).running() as int
            },
    {
        proof {
            use_type_invariant(&*self);
        }
        if self.running < self.jobs {
            self.running += 1;
            true
        } else {
            false
        }
    }

    /// Takes in that a worker has ended; with none running, nothing changes.
    pub fn finished(&mut self)
        ensures
            final(self).jobs() == old(self).jobs(),
            final(self).running() == if old(self).running() > 0 {
                old(self).running() - 1
            } else {
                0
            },
    {
        proof {
            use_type_invariant(&*self);
        }
        if self.running > 0 {
            self.running -= 1;
        }
    }
}

/// Keeps the books of a pool of workers that fetch the audio of episodes: which episodes
/// wait, and how many workers run.
pub struct SpreakerDownloader {
    queue: VecDeque<SimpleEpisode>,
    workers: Workers,
    closing: bool,
}

impl View for SpreakerDownloader {
    type V = Downloads;

    closed spec fn view(&self) -> Downloads {
        Downloads {
            queue: self.queue@,
            jobs: self.workers.jobs() as nat,
            running: self.workers.running() as nat,
            closing: self.closing,
        }
    }
}

impl SpreakerDownloader {
    /// A pool of `jobs` workers, with nothing to fetch yet.
    pub fn new(jobs: usize) -> (downloader: Self)
        ensures
            downloader@ == (Downloads {
                queue: Seq::empty(),
                jobs: jobs as nat,
                running: 0,
                closing: false,
            }),
    {
        SpreakerDownloader { queue: VecDeque::new(), workers: Workers::new(jobs), closing: false }
    }

    /// Has the episode wait for a worker, behind those that wait already.
    pub fn download(&mut self, ep: SimpleEpisode)
        ensures
            final(self)@ == (Downloads { queue: old(self)@.queue.push(ep), ..old(self)@ }),
    {
        self.queue.push_back(ep);
    }

    /// Takes in that no more episodes will come.
    pub fn join(&mut self)
        ensures
            final(self)@ == (Downloads { closing: true, ..old(self)@ }),
    {
        self.closing = true;
    }

    /// Takes in that a worker has ended; with none running, nothing changes.
    pub fn worker_finished(&mut self)
        ensures
            final(self)@ == (Downloads {
                running: if old(self)@.running > 0 {
                    (old(self)@.running - 1) as nat
                } else {
                    0
                },
                ..old(self)@
            }),
    {
        self.workers.finished();
    }

    /// How many workers run: never more than the pool holds.
    pub fn running(&self) -> (n: usize)
        ensures
            n == self@.running,
            n <= self@.jobs,
    {
        self.workers.running()
    }

    /// Says what the manager does next, and takes the episode off the queue where that is
    /// to start a worker for it.
    pub fn next(&mut self) -> (step: ManagerStep)
        ensures
            step == old(self)@.step(),
            final(self)@ == old(self)@.stepped(),
    {
        let free = self.workers.running() < self.workers.jobs();
        if free && self.queue.len() > 0 {
            let _ = self.workers.try_start();
            match self.queue.pop_front() {
                Some(ep) => ManagerStep::Start(ep),
                None => ManagerStep::AwaitWorker,
            }
        } else if free && !self.closing {
            ManagerStep::AwaitEpisode
        } else if self.workers.running() == 0 && self.queue.len() == 0 && self.closing {
            ManagerStep::Done
        } else {
            ManagerStep::AwaitWorker
        }
    }
}

/// The name of the file that holds the audio of an episode: its id, its title, and the
/// extension.
pub fn audio_file_name(ep: &SimpleEpisode) -> (name: String)
    ensures
        name@ == decimal_digits(ep.id as nat) + " - "@ + ep.title@ + ".mp3"@,
{
    let mut name = u32_to_string(ep.id);
    name.append(" - ");
    name.append(ep.title.as_str());
    name.append(".mp3");
    name
}

/// Whether the audio is there already: a file of as many bytes as the answer announces.
pub fn already_downloaded(on_disk: Option<u64>, announced: Option<u64>) -> (there: bool)
    ensures
        there == (on_disk is Some && on_disk == announced),
{
    match (on_disk, announced) {
        (Some(have), Some(want)) => have == want,
        _ => false,
    }
}

} // verus!
