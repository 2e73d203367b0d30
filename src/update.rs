use vstd::prelude::*;
use vstd::string::StringExecFns;
use crate::release::{
    artifact_name_of, feed_url, feed_url_of, find_artifact, first_named, has_named, strategy_of,
    Artifact, Platform, Release,
};
use crate::swap::{advance_swap, begin_swap, next_phase, step_of, swap_start, Outcome, SwapPhase, SwapStep};
use crate::version::{is_newer, seq_greater, version_of};

verus! {

/// Where an update cycle stands.
#[derive(Clone, Copy, Debug, PartialEq, Eq, Structural)]
pub enum CyclePhase {
    /// Nothing done yet.
    Idle,
    /// The release feed has been asked for the latest release.
    AwaitingFeed,
    /// The artifact is being downloaded next to the executable.
    AwaitingDownload,
    /// The swap is under way.
    Swapping(SwapPhase),
    /// The cycle is over.
    Done(Outcome),
}

/// Why a cycle kept the running version, or what went wrong on the way.
#[derive(Clone, Copy, Debug, PartialEq, Eq, Structural)]
pub enum UpdateError {
    /// The feed or the artifact could not be fetched.
    Network,
    /// The feed's answer is no release.
    FeedFormat,
    /// The newer release has no artifact for this platform.
    ArtifactNotFound,
    /// A step of the swap failed on the file system.
    Filesystem,
}

/// What the caller reports back: the result of the last action.
#[derive(Clone, Debug)]
pub enum Event {
    /// Begin a cycle.
    Start,
    /// The feed answered with this release.
    FeedArrived(Release),
    /// The feed could not be reached.
    FeedFailed,
    /// The feed's answer could not be read as a release.
    FeedMalformed,
    /// The artifact was written next to the executable.
    Downloaded,
    /// The download failed.
    DownloadFailed,
    /// The swap step succeeded.
    StepSucceeded,
    /// The swap step failed.
    StepFailed,
}

/// What the caller does next.
#[derive(Clone, Debug)]
pub enum Action {
    /// Ask the feed at this address for the latest release.
    FetchFeed(String),
    /// Download this address next to the executable and make it executable.
    Download(String),
    /// Perform this swap step.
    Perform(SwapStep),
    /// The cycle is over with this outcome.
    Finish(Outcome),
}

/// An action with its addresses as character sequences.
pub enum ActionView {
    FetchFeed(Seq<char>),
    Download(Seq<char>),
    Perform(SwapStep),
    Finish(Outcome),
}

impl View for Action {
    type V = ActionView;

    open spec fn view(&self) -> ActionView {
        match self {
            Action::FetchFeed(u) => ActionView::FetchFeed(u@),
            Action::Download(u) => ActionView::Download(u@),
            Action::Perform(s) => ActionView::Perform(*s),
            Action::Finish(o) => ActionView::Finish(*o),
        }
    }
}

/// The check and download phases and the swap of the running executable,
/// driven one event at a time. The feed's owner and repository are fixed here.
pub struct Updater {
    pub owner: String,
    pub repo: String,
    /// The running version.
    pub current: String,
    pub platform: Platform,
    pub phase: CyclePhase,
    /// The last failure that the cycle met, if any.
    pub error: Option<UpdateError>,
}

/// The failure that an event reports, if any.
pub open spec fn failure_of(e: Event) -> Option<UpdateError> {
    match e {
        Event::FeedFailed | Event::DownloadFailed => Some(UpdateError::Network),
        Event::FeedMalformed => Some(UpdateError::FeedFormat),
        Event::StepFailed => Some(UpdateError::Filesystem),
        _ => None,
    }
}

/// Whether an event reports success.
pub open spec fn event_ok(e: Event) -> bool {
    failure_of(e) is None
}

/// The release is newer than `local` but has no artifact for the platform.
pub open spec fn artifact_missing(rel: Release, local: Seq<char>, p: Platform) -> bool {
    seq_greater(version_of(rel.tag@), version_of(local)) && !has_named(
        rel.artifacts@,
        artifact_name_of(p.windows),
    )
}

/// The failure on record once `e` has come to `u`: the one that `e` reports,
/// or a missing artifact, else the one before.
pub open spec fn next_error(u: Updater, e: Event) -> Option<UpdateError> {
    match u.phase {
        CyclePhase::Idle | CyclePhase::Done(_) => u.error,
        _ => match failure_of(e) {
            Some(f) => Some(f),
            None => match e {
                Event::FeedArrived(rel) => if u.phase == CyclePhase::AwaitingFeed && artifact_missing(
                    rel,
                    u.current@,
                    u.platform,
                ) {
                    Some(UpdateError::ArtifactNotFound)
                } else {
                    u.error
                },
                _ => u.error,
            },
        },
    }
}

/// The end of a cycle that leaves the running version in place.
pub open spec fn keep_running() -> (CyclePhase, ActionView) {
    (
        CyclePhase::Done(Outcome::ContinuedOldVersion),
        ActionView::Finish(Outcome::ContinuedOldVersion),
    )
}

/// What follows the feed's answer: a download of the platform's artifact
/// where the release is newer than `local` and has one, else the end.
pub open spec fn decide_spec(rel: Release, local: Seq<char>, p: Platform) -> (CyclePhase, ActionView) {
    if seq_greater(version_of(rel.tag@), version_of(local)) && has_named(
        rel.artifacts@,
        artifact_name_of(p.windows),
    ) {
        let k = choose|k: int| first_named(rel.artifacts@, artifact_name_of(p.windows), k);
        (CyclePhase::AwaitingDownload, ActionView::Download(rel.artifacts@[k].download_url@))
    } else {
        keep_running()
    }
}

/// The cycle's view of a swap phase.
pub open spec fn from_swap(p: SwapPhase) -> (CyclePhase, ActionView) {
    match p {
        SwapPhase::Finished(o) => (CyclePhase::Done(o), ActionView::Finish(o)),
        _ => (CyclePhase::Swapping(p), ActionView::Perform(step_of(p))),
    }
}

/// The next phase of `u` and the action it asks for, once `e` has come.
/// Any failure before the swap ends the cycle with the running version kept.
pub open spec fn cycle_next(u: Updater, e: Event) -> (CyclePhase, ActionView) {
    match u.phase {
        CyclePhase::Idle => (
            CyclePhase::AwaitingFeed,
            ActionView::FetchFeed(feed_url_of(u.owner@, u.repo@)),
        ),
        CyclePhase::AwaitingFeed => match e {
            Event::FeedArrived(rel) => decide_spec(rel, u.current@, u.platform),
            _ => keep_running(),
        },
        CyclePhase::AwaitingDownload => if event_ok(e) {
            from_swap(swap_start())
        } else {
            keep_running()
        },
        CyclePhase::Swapping(p) => from_swap(next_phase(strategy_of(u.platform), p, event_ok(e))),
        CyclePhase::Done(o) => (CyclePhase::Done(o), ActionView::Finish(o)),
    }
}

proof fn lemma_first_named_unique(arts: Seq<Artifact>, name: Seq<char>, k1: int, k2: int)
    requires
        first_named(arts, name, k1),
        first_named(arts, name, k2),
    ensures
        k1 == k2,
{
    if k1 < k2 {
        assert(arts[k1].name@ != name);
    } else if k2 < k1 {
        assert(arts[k2].name@ != name);
    }
}

fn swap_to_cycle(p: SwapPhase, st: SwapStep) -> (r: (CyclePhase, Action))
    requires
        st == step_of(p),
    ensures
        (r.0, r.1@) == from_swap(p),
{
    match p {
        SwapPhase::Finished(o) => (CyclePhase::Done(o), Action::Finish(o)),
        _ => (CyclePhase::Swapping(p), Action::Perform(st)),
    }
}

impl Updater {
    /// An idle updater for the running version `current` on `platform`.
    pub fn new(current: &str, platform: Platform) -> (r: Updater)
        ensures
            r.owner@ == "SHERCAN"@,
            r.repo@ == "AUTOMATIZACION-PRUEBAS"@,
            r.current@ == current@,
            r.platform == platform,
            r.phase == CyclePhase::Idle,
            r.error == None::<UpdateError>,
    {
        let mut owner = String::new();
        owner.append("SHERCAN");
        let mut repo = String::new();
        repo.append("AUTOMATIZACION-PRUEBAS");
        let mut cur = String::new();
        cur.append(current);
        Updater { owner, repo, current: cur, platform, phase: CyclePhase::Idle, error: None }
    }

    /// The address of the feed's latest release.
    pub fn feed_url(&self) -> (r: String)
        ensures
            r@ == feed_url_of(self.owner@, self.repo@),
    {
        feed_url(self.owner.as_str(), self.repo.as_str())
    }

    /// What follows the feed's answer `rel`: a download of the platform's
    /// artifact where `rel` is newer than the running version and has one;
    /// else the end of the cycle, the running version kept.
    pub fn decide(&self, rel: &Release) -> (r: (CyclePhase, Action))
        ensures
            (r.0, r.1@) == decide_spec(*rel, self.current@, self.platform),
    {
        if is_newer(rel.tag.as_str(), self.current.as_str()) {
            match find_artifact(rel, self.platform.artifact_name()) {
                Some(k) => {
                    proof {
                        let name = artifact_name_of(self.platform.windows);
                        let c = choose|c: int| first_named(rel.artifacts@, name, c);
                        lemma_first_named_unique(rel.artifacts@, name, k as int, c);
                    }
                    (CyclePhase::AwaitingDownload, Action::Download(rel.artifacts[k].download_url.clone()))
                },
                None => (
                    CyclePhase::Done(Outcome::ContinuedOldVersion),
                    Action::Finish(Outcome::ContinuedOldVersion),
                ),
            }
        } else {
            (CyclePhase::Done(Outcome::ContinuedOldVersion), Action::Finish(Outcome::ContinuedOldVersion))
        }
    }

    /// Takes in the result of the last action and gives the next one. An idle
    /// updater asks for the feed whatever the event; a finished one repeats
    /// its outcome.
    pub fn step(&mut self, event: Event) -> (action: Action)
        ensures
            final(self).owner == old(self).owner,
            final(self).repo == old(self).repo,
            final(self).current == old(self).current,
            final(self).platform == old(self).platform,
            (final(self).phase, action@) == cycle_next(*old(self), event),
            final(self).error == next_error(*old(self), event),
    {
        let failure = match event {
            Event::FeedFailed | Event::DownloadFailed => Some(UpdateError::Network),
            Event::FeedMalformed => Some(UpdateError::FeedFormat),
            Event::StepFailed => Some(UpdateError::Filesystem),
            _ => None,
        };
        let ok = failure.is_none();
        let mut missing = false;
        let (phase, action) = match self.phase {
            CyclePhase::Idle => (CyclePhase::AwaitingFeed, Action::FetchFeed(self.feed_url())),
            CyclePhase::AwaitingFeed => match event {
                Event::FeedArrived(rel) => {
                    let d = self.decide(&rel);
                    missing = d.0 != CyclePhase::AwaitingDownload && is_newer(
                        rel.tag.as_str(),
                        self.current.as_str(),
                    );
                    d
                },
                _ => (
                    CyclePhase::Done(Outcome::ContinuedOldVersion),
                    Action::Finish(Outcome::ContinuedOldVersion),
                ),
            },
            CyclePhase::AwaitingDownload => if ok {
                let (p, st) = begin_swap();
                swap_to_cycle(p, st)
            } else {
                (
                    CyclePhase::Done(Outcome::ContinuedOldVersion),
                    Action::Finish(Outcome::ContinuedOldVersion),
                )
            },
            CyclePhase::Swapping(p) => {
                let (np, st) = advance_swap(self.platform.strategy(), p, ok);
                swap_to_cycle(np, st)
            },
            CyclePhase::Done(o) => (CyclePhase::Done(o), Action::Finish(o)),
        };
        match self.phase {
            CyclePhase::Idle | CyclePhase::Done(_) => {},
            _ => {
                if failure.is_some() {
                    self.error = failure;
                } else if missing {
                    self.error = Some(UpdateError::ArtifactNotFound);
                }
            },
        }
        self.phase = phase;
        action
    }
}

} // verus!
