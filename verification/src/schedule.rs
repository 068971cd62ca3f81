//! What has to be done for each job of a batch.
//!
//! The scheduler touches no file. A [`JobRun`] asks for one thing at a time:
//! a fact about the job's files, a rendering, a removal. The caller carries
//! the request out, on whatever worker it likes, and reports back what came
//! of it. Runs of different jobs share nothing, so the failure of one job
//! cannot reach another.

use crate::error::Failure;
use crate::job::{classify, needs_build, OutputStatus, Readings, TemplateDef};
use crate::probe::{reply, Answer, Probe, Progress, Question};
use crate::text::same_text;
use vstd::prelude::*;

verus! {

/// What a batch is run for.
#[derive(Clone, Copy, Debug, PartialEq, Eq, Structural)]
pub enum Action {
    /// Render every job that needs it and write its output.
    Generate,
    /// Remove the output of every job.
    Delete,
    /// Tell which jobs `Generate` would render.
    ReportGenerate,
    /// Tell which outputs `Delete` would find.
    ReportDelete,
    /// Tell how many jobs the batch has.
    Count,
}

/// The action behind a mode of the `report` command: `clean` previews
/// `Delete`, `multigen` previews `Generate` and `count` counts. No other mode
/// exists.
pub open spec fn report_action(mode: Seq<char>) -> Option<Action> {
    if mode == "clean"@ {
        Some(Action::ReportDelete)
    } else if mode == "multigen"@ {
        Some(Action::ReportGenerate)
    } else if mode == "count"@ {
        Some(Action::Count)
    } else {
        None
    }
}

impl Action {
    /// The action runs job by job without changing any file, or looks at no
    /// job at all.
    pub open spec fn is_report(self) -> bool {
        self is ReportGenerate || self is ReportDelete || self is Count
    }

    /// The action that a mode of the `report` command asks for.
    pub fn for_report(mode: &str) -> (action: Option<Action>)
        ensures
            action == report_action(mode@),
            action matches Some(a) ==> a.is_report(),
    {
        if same_text(mode, "clean") {
            Some(Action::ReportDelete)
        } else if same_text(mode, "multigen") {
            Some(Action::ReportGenerate)
        } else if same_text(mode, "count") {
            Some(Action::Count)
        } else {
            None
        }
    }
}

/// What a report action found for one job.
#[derive(Clone, Copy, Debug, PartialEq, Eq, Structural)]
pub enum Preview {
    WouldBuild,
    WouldSkip,
    WouldRemove,
    /// The output is not there, so nothing would be removed.
    NothingToRemove,
}

/// How one job ended.
#[derive(Debug)]
pub enum Outcome {
    /// The output was rendered and written.
    Success,
    /// The output is current and was left alone.
    Skipped,
    /// Rendering or writing failed.
    Failed(Failure),
    /// The output was removed.
    Removed,
    /// The output could not be removed.
    RemoveFailed(std::io::Error),
    /// Nothing was touched; this is what would have happened.
    Reported(Preview),
}

/// What the caller is asked to do next for a job.
#[derive(Clone, Copy, Debug, PartialEq, Eq, Structural)]
pub enum Request {
    /// Read one fact about the job's files.
    Ask(Question),
    /// Render the job and write the result to its output path, creating
    /// missing parent directories first.
    Render,
    /// Remove the file at the job's output path.
    Remove,
    /// Nothing: the job has its outcome.
    Finish,
}

/// What came of a request.
#[derive(Debug)]
pub enum Event {
    Answered(Answer),
    Rendered(Result<(), Failure>),
    Removed(Result<(), std::io::Error>),
}

/// The state of one job within a batch.
#[derive(Debug)]
pub enum JobRun {
    /// The status of the output is being read. With `dry_run` the job is
    /// only reported on.
    Classifying { probe: Probe, dry_run: bool },
    /// A report on removal waits to hear whether the output exists.
    Locating,
    /// The renderer has been asked for.
    Rendering,
    /// The removal has been asked for.
    Removing,
    /// The job is done.
    Finished(Outcome),
}

/// A job is eligible for generation when building is forced or its status
/// calls for a build.
pub open spec fn eligible(force: bool, status: OutputStatus) -> bool {
    force || needs_build(status)
}

/// The state of a job whose status has just been settled.
pub open spec fn decided(dry_run: bool, status: OutputStatus) -> JobRun {
    if needs_build(status) {
        if dry_run {
            JobRun::Finished(Outcome::Reported(Preview::WouldBuild))
        } else {
            JobRun::Rendering
        }
    } else {
        if dry_run {
            JobRun::Finished(Outcome::Reported(Preview::WouldSkip))
        } else {
            JobRun::Finished(Outcome::Skipped)
        }
    }
}

/// The state in which a job enters a batch, for the actions that work job by
/// job. `Count` looks at no job.
pub open spec fn initial(action: Action, force: bool) -> Option<JobRun> {
    match action {
        Action::Generate => Some(
            if force {
                JobRun::Rendering
            } else {
                JobRun::Classifying { probe: Probe::Presence, dry_run: false }
            },
        ),
        Action::ReportGenerate => Some(
            if force {
                JobRun::Finished(Outcome::Reported(Preview::WouldBuild))
            } else {
                JobRun::Classifying { probe: Probe::Presence, dry_run: true }
            },
        ),
        Action::Delete => Some(JobRun::Removing),
        Action::ReportDelete => Some(JobRun::Locating),
        Action::Count => None,
    }
}

impl Request {
    /// The request changes the file system.
    pub open spec fn mutates(self) -> bool {
        self is Render || self is Remove
    }
}

impl JobRun {
    /// What the run asks for in this state.
    pub open spec fn wants(self) -> Request {
        match self {
            JobRun::Classifying { probe, .. } => Request::Ask(probe.asks()),
            JobRun::Locating => Request::Ask(Question::OutputExists),
            JobRun::Rendering => Request::Render,
            JobRun::Removing => Request::Remove,
            JobRun::Finished(_) => Request::Finish,
        }
    }

    /// The state after `event`.
    ///
    /// An event that does not answer the pending request changes nothing.
    pub open spec fn after(self, event: Event) -> JobRun {
        match (self, event) {
            (JobRun::Classifying { probe, dry_run }, Event::Answered(answer)) => match probe.after(
                answer,
            ) {
                Progress::More(next) => JobRun::Classifying { probe: next, dry_run },
                Progress::Settled(status) => decided(dry_run, status),
            },
            (JobRun::Locating, Event::Answered(Answer::Exists(found))) => JobRun::Finished(
                Outcome::Reported(
                    if found {
                        Preview::WouldRemove
                    } else {
                        Preview::NothingToRemove
                    },
                ),
            ),
            (JobRun::Rendering, Event::Rendered(Ok(_))) => JobRun::Finished(Outcome::Success),
            (JobRun::Rendering, Event::Rendered(Err(failure))) => JobRun::Finished(
                Outcome::Failed(failure),
            ),
            (JobRun::Removing, Event::Removed(Ok(_))) => JobRun::Finished(Outcome::Removed),
            (JobRun::Removing, Event::Removed(Err(e))) => JobRun::Finished(
                Outcome::RemoveFailed(e),
            ),
            _ => self,
        }
    }

    /// The outcome, once the run has one.
    pub open spec fn result(self) -> Option<Outcome> {
        match self {
            JobRun::Finished(outcome) => Some(outcome),
            _ => None,
        }
    }

    /// Enters a job into a batch run for `action`. `Count` has no work per
    /// job and yields `None`.
    ///
    /// A forced generation goes straight to rendering: no status is read and
    /// none can hold it back.
    pub fn start(action: Action, force: bool) -> (run: Option<JobRun>)
        ensures
            run == initial(action, force),
            run is None <==> action is Count,
            action is Generate && force ==> run == Some(JobRun::Rendering),
            action is Delete ==> run == Some(JobRun::Removing),
    {
        match action {
            Action::Generate => if force {
                Some(JobRun::Rendering)
            } else {
                Some(JobRun::Classifying { probe: Probe::begin(), dry_run: false })
            },
            Action::ReportGenerate => if force {
                Some(JobRun::Finished(Outcome::Reported(Preview::WouldBuild)))
            } else {
                Some(JobRun::Classifying { probe: Probe::begin(), dry_run: true })
            },
            Action::Delete => Some(JobRun::Removing),
            Action::ReportDelete => Some(JobRun::Locating),
            Action::Count => None,
        }
    }

    /// What to do next for the job.
    pub fn request(&self) -> (request: Request)
        ensures
            request == self.wants(),
    {
        match self {
            JobRun::Classifying { probe, .. } => Request::Ask(probe.question()),
            JobRun::Locating => Request::Ask(Question::OutputExists),
            JobRun::Rendering => Request::Render,
            JobRun::Removing => Request::Remove,
            JobRun::Finished(_) => Request::Finish,
        }
    }

    /// Takes in what came of the last request.
    pub fn advance(self, event: Event) -> (next: JobRun)
        ensures
            next == self.after(event),
    {
        match self {
            JobRun::Classifying { probe, dry_run } => match event {
                Event::Answered(answer) => match probe.answer(answer) {
                    Progress::More(next) => JobRun::Classifying { probe: next, dry_run },
                    Progress::Settled(status) => decide(dry_run, &status),
                },
                _ => JobRun::Classifying { probe, dry_run },
            },
            JobRun::Locating => match event {
                Event::Answered(Answer::Exists(found)) => if found {
                    JobRun::Finished(Outcome::Reported(Preview::WouldRemove))
                } else {
                    JobRun::Finished(Outcome::Reported(Preview::NothingToRemove))
                },
                _ => JobRun::Locating,
            },
            JobRun::Rendering => match event {
                Event::Rendered(Ok(_)) => JobRun::Finished(Outcome::Success),
                Event::Rendered(Err(failure)) => JobRun::Finished(Outcome::Failed(failure)),
                _ => JobRun::Rendering,
            },
            JobRun::Removing => match event {
                Event::Removed(Ok(_)) => JobRun::Finished(Outcome::Removed),
                Event::Removed(Err(e)) => JobRun::Finished(Outcome::RemoveFailed(e)),
                _ => JobRun::Removing,
            },
            JobRun::Finished(outcome) => JobRun::Finished(outcome),
        }
    }

    /// Hands out the outcome of a finished run, `None` while work is pending.
    pub fn outcome(self) -> (outcome: Option<Outcome>)
        ensures
            outcome == self.result(),
    {
        match self {
            JobRun::Finished(outcome) => Some(outcome),
            _ => None,
        }
    }
}

/// Tells whether a job with this status is to be generated. Under `force`
/// every job is, whatever its status.
pub fn is_eligible(force: bool, status: &OutputStatus) -> (yes: bool)
    ensures
        yes == eligible(force, *status),
        force ==> yes,
{
    force || !matches!(status, OutputStatus::UpToDate)
}

/// Turns a settled status into the next state of the job.
pub fn decide(dry_run: bool, status: &OutputStatus) -> (next: JobRun)
    ensures
        next == decided(dry_run, *status),
{
    if is_eligible(false, status) {
        if dry_run {
            JobRun::Finished(Outcome::Reported(Preview::WouldBuild))
        } else {
            JobRun::Rendering
        }
    } else {
        if dry_run {
            JobRun::Finished(Outcome::Reported(Preview::WouldSkip))
        } else {
            JobRun::Finished(Outcome::Skipped)
        }
    }
}

/// The work of a whole batch.
#[derive(Debug)]
pub enum Plan {
    /// The number of jobs, for `Count`.
    Total(usize),
    /// One run per job, in the order of the batch.
    Runs(Vec<JobRun>),
}

/// Lays out the work for a batch: the number of jobs for `Count`, and for
/// every other action one run per job, each in its initial state.
///
/// No file is looked at, so the count is that of the batch whatever state
/// its jobs are in, and a batch to delete asks for the removal of every one
/// of its outputs.
pub fn plan(jobs: &[TemplateDef], action: Action, force: bool) -> (plan: Plan)
    ensures
        action is Count ==> plan == Plan::Total(jobs.len()),
        action is Delete ==> (plan matches Plan::Runs(runs) && forall|i: int|
            0 <= i < runs@.len() ==> (#[trigger] runs@[i]).wants() == Request::Remove),
        match plan {
            Plan::Total(total) => action is Count && total == jobs@.len(),
            Plan::Runs(runs) => {
                &&& !(action is Count)
                &&& runs@.len() == jobs@.len()
                &&& forall|i: int|
                    0 <= i < runs@.len() ==> Some(#[trigger] runs@[i]) == initial(action, force)
            },
        },
{
    let n = jobs.len();
    if let Action::Count = action {
        return Plan::Total(n);
    }
    let mut runs: Vec<JobRun> = Vec::new();
    let mut i: usize = 0;
    while i < n
        invariant
            i <= n,
            !(action is Count),
            runs@.len() == i,
            forall|k: int|
                0 <= k < runs@.len() ==> Some(#[trigger] runs@[k]) == initial(action, force),
        decreases n - i,
    {
        if let Some(run) = JobRun::start(action, force) {
            runs.push(run);
        }
        i = i + 1;
    }
    Plan::Runs(runs)
}

/// The runs of a batch after `event` came in for the job at index `job`:
/// that run moves on and every other stays as it is. An index beyond the
/// batch changes nothing.
pub open spec fn recorded(runs: Seq<JobRun>, job: int, event: Event) -> Seq<JobRun> {
    if 0 <= job < runs.len() {
        runs.update(job, runs[job].after(event))
    } else {
        runs
    }
}

/// Takes in what came of the last request of one job of a batch.
///
/// No other job is touched, so a job that fails holds up none of the others.
pub fn record(runs: &mut Vec<JobRun>, job: usize, event: Event)
    ensures
        final(runs)@ == recorded(old(runs)@, job as int, event),
        final(runs)@.len() == old(runs)@.len(),
        forall|other: int|
            0 <= other < old(runs)@.len() && other != job ==> #[trigger] final(runs)@[other] == old(
                runs,
            )@[other],
{
    if job < runs.len() {
        let mut run = JobRun::Locating;
        core::mem::swap(&mut runs[job], &mut run);
        runs[job] = run.advance(event);
        assert(runs@ =~= recorded(old(runs)@, job as int, event));
    }
}

/// The state of a run after a sequence of events, taken in order.
pub open spec fn after_all(run: JobRun, events: Seq<Event>) -> JobRun
    decreases events.len(),
{
    if events.len() == 0 {
        run
    } else {
        after_all(run, events.drop_last()).after(events.last())
    }
}

/// The state of a run whose questions are answered from `files`, at most
/// `rounds` of them, up to its first request that is no question.
pub open spec fn answered_from(run: JobRun, files: Readings, rounds: nat) -> JobRun
    decreases rounds,
{
    if rounds == 0 {
        run
    } else {
        match run.wants() {
            Request::Ask(question) => answered_from(
                run.after(Event::Answered(reply(question, files))),
                files,
                (rounds - 1) as nat,
            ),
            _ => run,
        }
    }
}

/// `event` is what comes of carrying out `request`.
pub open spec fn answers(event: Event, request: Request) -> bool {
    match (request, event) {
        (Request::Ask(Question::OutputExists), Event::Answered(Answer::Exists(_))) => true,
        (Request::Ask(Question::Modified(_)), Event::Answered(Answer::Modified(_))) => true,
        (Request::Render, Event::Rendered(_)) => true,
        (Request::Remove, Event::Removed(_)) => true,
        _ => false,
    }
}

/// Every event of `events` carries out what the run asks for when it comes
/// in; once the run is finished anything may follow.
pub open spec fn served(run: JobRun, events: Seq<Event>) -> bool
    decreases events.len(),
{
    events.len() == 0 || {
        let before = after_all(run, events.drop_last());
        &&& served(run, events.drop_last())
        &&& (before is Finished || answers(events.last(), before.wants()))
    }
}

/// The most requests that a run still has to make.
pub open spec fn requests_left(run: JobRun) -> nat {
    match run {
        JobRun::Classifying { probe: Probe::Presence, .. } => 5,
        JobRun::Classifying { probe: Probe::OutputTime, .. } => 4,
        JobRun::Classifying { probe: Probe::DataTime { .. }, .. } => 3,
        JobRun::Classifying { probe: Probe::TemplateTime { .. }, .. } => 2,
        JobRun::Locating => 1,
        JobRun::Rendering => 1,
        JobRun::Removing => 1,
        JobRun::Finished(_) => 0,
    }
}

/// The run only looks: it is a preview under way or a preview made.
pub open spec fn previewing(run: JobRun) -> bool {
    match run {
        JobRun::Classifying { dry_run, .. } => dry_run,
        JobRun::Locating => true,
        JobRun::Finished(Outcome::Reported(_)) => true,
        _ => false,
    }
}

/// A generation asks at most four questions and then renders the job exactly
/// if it is eligible: if building is forced or the status of its files calls
/// for it. Otherwise the job is skipped.
pub proof fn lemma_generate_follows_status(force: bool, files: Readings)
    ensures
        answered_from(initial(Action::Generate, force)->Some_0, files, 4) == (if eligible(
            force,
            classify(files),
        ) {
            JobRun::Rendering
        } else {
            JobRun::Finished(Outcome::Skipped)
        }),
{
    reveal_with_fuel(answered_from, 5);
}

/// A report on generation previews it faithfully: on the same files it says
/// "would build" exactly where the generation renders, and "would skip"
/// exactly where the generation skips.
pub proof fn lemma_report_previews_generate(force: bool, files: Readings)
    ensures
        answered_from(initial(Action::ReportGenerate, force)->Some_0, files, 4)
            == JobRun::Finished(
            Outcome::Reported(
                if answered_from(initial(Action::Generate, force)->Some_0, files, 4)
                    is Rendering {
                    Preview::WouldBuild
                } else {
                    Preview::WouldSkip
                },
            ),
        ),
        answered_from(initial(Action::Generate, force)->Some_0, files, 4) is Rendering
            || answered_from(initial(Action::Generate, force)->Some_0, files, 4)
            == JobRun::Finished(Outcome::Skipped),
{
    reveal_with_fuel(answered_from, 5);
}

/// A report on removal asks one question and says "would remove" exactly if
/// the output exists.
pub proof fn lemma_report_previews_delete(force: bool, files: Readings)
    ensures
        answered_from(initial(Action::ReportDelete, force)->Some_0, files, 1)
            == JobRun::Finished(
            Outcome::Reported(
                if files.output_exists {
                    Preview::WouldRemove
                } else {
                    Preview::NothingToRemove
                },
            ),
        ),
{
    reveal_with_fuel(answered_from, 2);
}

/// A run that only looks keeps only looking, whatever comes in.
pub proof fn lemma_preview_is_kept(run: JobRun, events: Seq<Event>)
    requires
        previewing(run),
    ensures
        previewing(after_all(run, events)),
    decreases events.len(),
{
    if events.len() > 0 {
        lemma_preview_is_kept(run, events.drop_last());
    }
}

/// A report never asks for anything that changes the file system: whatever
/// events come in, and in whatever order, the run of a job under a report
/// action requests neither a rendering nor a removal.
pub proof fn lemma_report_changes_nothing(action: Action, force: bool, events: Seq<Event>)
    requires
        action.is_report(),
    ensures
        initial(action, force) matches Some(run) ==> !after_all(run, events).wants().mutates(),
{
    if !(action is Count) {
        lemma_preview_is_kept(initial(action, force)->Some_0, events);
    }
}

/// Each request that is carried out brings a run closer to its outcome.
pub proof fn lemma_served_events_use_up_requests(run: JobRun, events: Seq<Event>)
    requires
        served(run, events),
    ensures
        requests_left(after_all(run, events)) + events.len() <= requests_left(run)
            || after_all(run, events) is Finished,
    decreases events.len(),
{
    if events.len() > 0 {
        lemma_served_events_use_up_requests(run, events.drop_last());
    }
}

/// Every job gets its outcome: a run whose requests are carried out one
/// after the other is finished after five of them at the latest.
pub proof fn lemma_every_job_gets_an_outcome(run: JobRun, events: Seq<Event>)
    requires
        served(run, events),
        events.len() >= 5,
    ensures
        after_all(run, events).result() is Some,
{
    lemma_served_events_use_up_requests(run, events);
}

/// A job has one outcome only: nothing that comes in after a run has
/// finished changes it.
pub proof fn lemma_outcome_is_final(run: JobRun, events: Seq<Event>)
    requires
        run is Finished,
    ensures
        after_all(run, events) == run,
    decreases events.len(),
{
    if events.len() > 0 {
        lemma_outcome_is_final(run, events.drop_last());
    }
}

/// In a batch to delete, every job is asked to be removed, whatever state its
/// files are in, and what comes of one job, a failure included, leaves the
/// request for every other job standing.
pub proof fn lemma_delete_reaches_every_job(
    runs: Seq<JobRun>,
    force: bool,
    job: int,
    event: Event,
    other: int,
)
    requires
        forall|i: int| 0 <= i < runs.len() ==> Some(#[trigger] runs[i]) == initial(
            Action::Delete,
            force,
        ),
        0 <= other < runs.len(),
        other != job,
    ensures
        runs[other].wants() == Request::Remove,
        recorded(runs, job, event).len() == runs.len(),
        recorded(runs, job, event)[other].wants() == Request::Remove,
{
}

} // verus!
