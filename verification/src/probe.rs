//! Reading the state of a job's files one question at a time.
//!
//! A [`Probe`] says which single fact is needed next and takes the answer.
//! It stops asking as soon as the status is settled, so a caller that follows
//! it reads no more from the file system than the status depends on.

use crate::job::{classify, FileRole, OutputStatus, Readings, Timestamp};
use vstd::prelude::*;

verus! {

/// A single fact about a job's files.
#[derive(Clone, Copy, Debug, PartialEq, Eq, Structural)]
pub enum Question {
    /// Does the output file exist?
    OutputExists,
    /// When was the file in this role last modified?
    Modified(FileRole),
}

/// What the file system said to a question.
#[derive(Debug)]
pub enum Answer {
    Exists(bool),
    Modified(Result<Timestamp, std::io::Error>),
}

/// How far the reading for one job has come: what is known and, with it,
/// what is asked next.
#[derive(Clone, Copy, Debug, PartialEq, Eq, Structural)]
pub enum Probe {
    /// Nothing is known.
    Presence,
    /// The output exists.
    OutputTime,
    /// The output exists and its time is known.
    DataTime { output: Timestamp },
    /// The times of output and data are known.
    TemplateTime { output: Timestamp, data: Timestamp },
}

/// The result of handing an answer to a probe.
#[derive(Debug)]
pub enum Progress {
    /// Another fact is needed.
    More(Probe),
    /// The status is decided.
    Settled(OutputStatus),
}

/// The answer that a set of readings gives to a question.
pub open spec fn reply(question: Question, files: Readings) -> Answer {
    match question {
        Question::OutputExists => Answer::Exists(files.output_exists),
        Question::Modified(FileRole::Output) => Answer::Modified(files.output_modified),
        Question::Modified(FileRole::Data) => Answer::Modified(files.data_modified),
        Question::Modified(FileRole::Template) => Answer::Modified(files.template_modified),
    }
}

/// Answers the questions of `progress` from `files`, at most `rounds` of them.
pub open spec fn read_through(progress: Progress, files: Readings, rounds: nat) -> Progress
    decreases rounds,
{
    if rounds == 0 {
        progress
    } else {
        match progress {
            Progress::Settled(_) => progress,
            Progress::More(probe) => read_through(
                probe.after(reply(probe.asks(), files)),
                files,
                (rounds - 1) as nat,
            ),
        }
    }
}

impl Probe {
    /// The fact that is needed next.
    pub open spec fn asks(self) -> Question {
        match self {
            Probe::Presence => Question::OutputExists,
            Probe::OutputTime => Question::Modified(FileRole::Output),
            Probe::DataTime { .. } => Question::Modified(FileRole::Data),
            Probe::TemplateTime { .. } => Question::Modified(FileRole::Template),
        }
    }

    /// Where the reading stands once `answer` has come in.
    ///
    /// An answer to another kind of question than the one asked changes
    /// nothing.
    pub open spec fn after(self, answer: Answer) -> Progress {
        match (self, answer) {
            (Probe::Presence, Answer::Exists(false)) => Progress::Settled(
                OutputStatus::FileMissing,
            ),
            (Probe::Presence, Answer::Exists(true)) => Progress::More(Probe::OutputTime),
            (Probe::OutputTime, Answer::Modified(Ok(output))) => Progress::More(
                Probe::DataTime { output },
            ),
            (Probe::DataTime { output }, Answer::Modified(Ok(data))) => Progress::More(
                Probe::TemplateTime { output, data },
            ),
            (Probe::TemplateTime { output, data }, Answer::Modified(Ok(template))) => {
                if output.before(template) || output.before(data) {
                    Progress::Settled(OutputStatus::OutOfDate)
                } else {
                    Progress::Settled(OutputStatus::UpToDate)
                }
            },
            (Probe::Presence, Answer::Modified(_)) => Progress::More(self),
            (_, Answer::Exists(_)) => Progress::More(self),
            (_, Answer::Modified(Err(e))) => Progress::Settled(OutputStatus::CannotDetermine(e)),
        }
    }

    /// A probe that knows nothing yet.
    pub fn begin() -> (probe: Probe)
        ensures
            probe == Probe::Presence,
    {
        Probe::Presence
    }

    /// The fact to read next.
    pub fn question(&self) -> (question: Question)
        ensures
            question == self.asks(),
    {
        match self {
            Probe::Presence => Question::OutputExists,
            Probe::OutputTime => Question::Modified(FileRole::Output),
            Probe::DataTime { .. } => Question::Modified(FileRole::Data),
            Probe::TemplateTime { .. } => Question::Modified(FileRole::Template),
        }
    }

    /// Takes the answer to the question last asked.
    pub fn answer(self, answer: Answer) -> (progress: Progress)
        ensures
            progress == self.after(answer),
    {
        match answer {
            Answer::Exists(found) => match self {
                Probe::Presence => if found {
                    Progress::More(Probe::OutputTime)
                } else {
                    Progress::Settled(OutputStatus::FileMissing)
                },
                _ => Progress::More(self),
            },
            Answer::Modified(read) => match self {
                Probe::Presence => Progress::More(self),
                Probe::OutputTime => match read {
                    Ok(output) => Progress::More(Probe::DataTime { output }),
                    Err(e) => Progress::Settled(OutputStatus::CannotDetermine(e)),
                },
                Probe::DataTime { output } => match read {
                    Ok(data) => Progress::More(Probe::TemplateTime { output, data }),
                    Err(e) => Progress::Settled(OutputStatus::CannotDetermine(e)),
                },
                Probe::TemplateTime { output, data } => match read {
                    Ok(template) => if output.is_before(&template) || output.is_before(&data) {
                        Progress::Settled(OutputStatus::OutOfDate)
                    } else {
                        Progress::Settled(OutputStatus::UpToDate)
                    },
                    Err(e) => Progress::Settled(OutputStatus::CannotDetermine(e)),
                },
            },
        }
    }
}

/// A probe whose questions are answered from a set of readings settles, after
/// at most four answers, on the status that the readings have as a whole.
pub proof fn lemma_probe_agrees_with_classify(files: Readings)
    ensures
        read_through(Progress::More(Probe::Presence), files, 4) == Progress::Settled(
            classify(files),
        ),
{
    reveal_with_fuel(read_through, 5);
}

} // verus!
