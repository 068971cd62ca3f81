//! The lines that tell how the jobs of a batch ended.
//!
//! Every line names its job or its output and stands on its own, so lines may
//! be written in whatever order the jobs finish.

use crate::job::{JobView, TemplateDef};
use crate::schedule::{Outcome, Preview};
use vstd::prelude::*;
use vstd::string::*;

verus! {

/// Where a line is written.
#[derive(Clone, Copy, Debug, PartialEq, Eq, Structural)]
pub enum Stream {
    Stdout,
    Stderr,
}

/// One line of the report, without its line end.
#[derive(Debug)]
pub struct Line {
    pub stream: Stream,
    pub text: String,
}

/// The mathematical content of a line.
pub struct LineView {
    pub stream: Stream,
    pub text: Seq<char>,
}

impl View for Line {
    type V = LineView;

    open spec fn view(&self) -> LineView {
        LineView { stream: self.stream, text: self.text@ }
    }
}

/// The character of a decimal digit.
pub open spec fn digit(d: nat) -> char
    recommends
        d < 10,
{
    "0123456789"@[d as int]
}

/// A number in decimal notation, without sign or leading zeros.
pub open spec fn decimal(n: nat) -> Seq<char>
    decreases n,
{
    if n < 10 {
        seq![digit(n)]
    } else {
        decimal(n / 10) + seq![digit(n % 10)]
    }
}

/// The line for a job that failed to render, given the text of the cause.
pub open spec fn failure_line(name: Seq<char>, cause: Seq<char>) -> LineView {
    LineView { stream: Stream::Stderr, text: "error: "@ + name + ": "@ + cause }
}

/// The line for an output that could not be removed, given the text of the
/// cause.
pub open spec fn remove_failure_line(output: Seq<char>, cause: Seq<char>) -> LineView {
    LineView { stream: Stream::Stderr, text: "failed to remove: "@ + output + ": error: "@ + cause }
}

/// The line for an outcome that carries no cause. Jobs that succeed or are
/// skipped go by their name, everything about removal and every preview by
/// the output path. An output that is absent when removal is previewed gets
/// no line. The two failures are told with their cause and have no line
/// here.
pub open spec fn plain_line(job: JobView, outcome: Outcome) -> Option<LineView> {
    match outcome {
        Outcome::Success => Some(
            LineView { stream: Stream::Stdout, text: "success: "@ + job.name },
        ),
        Outcome::Skipped => Some(
            LineView { stream: Stream::Stdout, text: "skipped: "@ + job.name },
        ),
        Outcome::Removed => Some(
            LineView { stream: Stream::Stdout, text: "removed: "@ + job.output },
        ),
        Outcome::Reported(Preview::WouldBuild) => Some(
            LineView { stream: Stream::Stdout, text: "Would build: "@ + job.output },
        ),
        Outcome::Reported(Preview::WouldSkip) => Some(
            LineView { stream: Stream::Stdout, text: "Would skip: "@ + job.output },
        ),
        Outcome::Reported(Preview::WouldRemove) => Some(
            LineView { stream: Stream::Stdout, text: "Would remove: "@ + job.output },
        ),
        Outcome::Reported(Preview::NothingToRemove) => None,
        Outcome::Failed(_) => None,
        Outcome::RemoveFailed(_) => None,
    }
}

/// The content of a line that may be absent.
pub open spec fn content(line: Option<Line>) -> Option<LineView> {
    match line {
        Some(l) => Some(l@),
        None => None,
    }
}

/// The string of one decimal digit.
fn digit_str(d: usize) -> (s: &'static str)
    requires
        d < 10,
    ensures
        s@ == seq![digit(d as nat)],
{
    let digits = "0123456789";
    proof {
        reveal_strlit("0123456789");
    }
    let s = digits.substring_ascii(d, d + 1);
    assert(s@ =~= seq![digit(d as nat)]);
    s
}

/// Writes a number in decimal notation.
pub fn decimal_string(n: usize) -> (text: String)
    ensures
        text@ == decimal(n as nat),
    decreases n,
{
    if n < 10 {
        String::from_str(digit_str(n))
    } else {
        let mut text = decimal_string(n / 10);
        text.append(digit_str(n % 10));
        text
    }
}

/// Puts a label in front of a text.
fn labelled(label: &str, text: &str) -> (joined: String)
    ensures
        joined@ == label@ + text@,
{
    let mut joined = String::from_str(label);
    joined.append(text);
    joined
}

/// The line that tells the number of jobs in a batch.
pub fn total(jobs: usize) -> (line: Line)
    ensures
        line@ == (LineView { stream: Stream::Stdout, text: decimal(jobs as nat) }),
{
    Line { stream: Stream::Stdout, text: decimal_string(jobs) }
}

/// The line for a job that failed to render.
pub fn render_failure(name: &str, cause: &str) -> (line: Line)
    ensures
        line@ == failure_line(name@, cause@),
{
    let mut text = labelled("error: ", name);
    text.append(": ");
    text.append(cause);
    Line { stream: Stream::Stderr, text }
}

/// The line for an output that could not be removed.
pub fn remove_failure(output: &str, cause: &str) -> (line: Line)
    ensures
        line@ == remove_failure_line(output@, cause@),
{
    let mut text = labelled("failed to remove: ", output);
    text.append(": error: ");
    text.append(cause);
    Line { stream: Stream::Stderr, text }
}

/// The line that reports how a job ended, if the outcome has one.
///
/// A failure is reported with the text of its cause, whatever that text is.
pub fn outcome_line(job: &TemplateDef, outcome: &Outcome) -> (line: Option<Line>)
    ensures
        match *outcome {
            Outcome::Failed(failure) => exists|cause: String|
                failure.shown_as(cause) && content(line) == Some(
                    failure_line(job@.name, cause@),
                ),
            Outcome::RemoveFailed(e) => exists|cause: String|
                to_string_from_display_ensures::<std::io::Error>(&e, cause) && content(line)
                    == Some(remove_failure_line(job@.output, cause@)),
            _ => content(line) == plain_line(job@, *outcome),
        },
{
    match outcome {
        Outcome::Success => Some(
            Line { stream: Stream::Stdout, text: labelled("success: ", job.name.as_str()) },
        ),
        Outcome::Skipped => Some(
            Line { stream: Stream::Stdout, text: labelled("skipped: ", job.name.as_str()) },
        ),
        Outcome::Failed(failure) => {
            let cause = failure.to_string();
            Some(render_failure(job.name.as_str(), cause.as_str()))
        },
        Outcome::Removed => Some(
            Line { stream: Stream::Stdout, text: labelled("removed: ", job.output.as_str()) },
        ),
        Outcome::RemoveFailed(e) => {
            let cause = e.to_string();
            Some(remove_failure(job.output.as_str(), cause.as_str()))
        },
        Outcome::Reported(Preview::WouldBuild) => Some(
            Line { stream: Stream::Stdout, text: labelled("Would build: ", job.output.as_str()) },
        ),
        Outcome::Reported(Preview::WouldSkip) => Some(
            Line { stream: Stream::Stdout, text: labelled("Would skip: ", job.output.as_str()) },
        ),
        Outcome::Reported(Preview::WouldRemove) => Some(
            Line { stream: Stream::Stdout, text: labelled("Would remove: ", job.output.as_str()) },
        ),
        Outcome::Reported(Preview::NothingToRemove) => None,
    }
}

} // verus!
