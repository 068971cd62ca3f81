use std::io::{Error as IoError, ErrorKind};

use ttgen::error::{Failure, Missing};
use ttgen::job::{FileRole, OutputStatus, TemplateDef, Timestamp};
use ttgen::probe::{Answer, Question};
use ttgen::report::outcome_line;
use ttgen::schedule::{
    decide, is_eligible, plan, record, Action, Event, JobRun, Outcome, Plan, Preview, Request,
};

/// The files of one job as a test sets them up: no time means no file.
#[derive(Clone, Copy)]
struct Files {
    output: Option<i128>,
    data: Option<i128>,
    template: Option<i128>,
}

impl Files {
    fn answer(&self, question: Question) -> Answer {
        let read = |time: Option<i128>, what: &str| match time {
            Some(nanos) => Ok(Timestamp { nanos }),
            None => Err(IoError::new(ErrorKind::NotFound, what.to_string())),
        };
        match question {
            Question::OutputExists => Answer::Exists(self.output.is_some()),
            Question::Modified(FileRole::Output) => Answer::Modified(read(self.output, "output")),
            Question::Modified(FileRole::Data) => Answer::Modified(read(self.data, "data")),
            Question::Modified(FileRole::Template) => {
                Answer::Modified(read(self.template, "template"))
            }
        }
    }
}

/// Answers the questions of a run from `files` and returns the run at its
/// first request that is no question, with the questions it asked.
fn look(mut run: JobRun, files: &Files) -> (JobRun, Vec<Question>) {
    let mut asked = Vec::new();
    loop {
        match run.request() {
            Request::Ask(question) => {
                asked.push(question);
                run = run.advance(Event::Answered(files.answer(question)));
            }
            _ => return (run, asked),
        }
    }
}

fn start(action: Action, force: bool) -> JobRun {
    JobRun::start(action, force).unwrap()
}

fn jobs(n: usize) -> Vec<TemplateDef> {
    (0..n)
        .map(|i| {
            TemplateDef::new_unchecked(
                format!("job{}", i),
                format!("{}.json", i),
                format!("{}.hbs", i),
                format!("{}.rst", i),
            )
        })
        .collect()
}

const MISSING_OUTPUT: Files = Files { output: None, data: Some(10), template: Some(10) };
const CURRENT: Files = Files { output: Some(30), data: Some(10), template: Some(20) };
const STALE: Files = Files { output: Some(15), data: Some(10), template: Some(20) };

#[test]
fn count_has_no_run_per_job() {
    assert!(JobRun::start(Action::Count, false).is_none());
    assert!(JobRun::start(Action::Count, true).is_none());
}

#[test]
fn generate_reads_the_status_first() {
    let run = start(Action::Generate, false);
    assert_eq!(run.request(), Request::Ask(Question::OutputExists));
}

#[test]
fn generate_renders_a_missing_output_after_one_question() {
    let (run, asked) = look(start(Action::Generate, false), &MISSING_OUTPUT);
    assert_eq!(run.request(), Request::Render);
    assert_eq!(asked, vec![Question::OutputExists]);
}

#[test]
fn generate_renders_a_stale_output() {
    let (run, asked) = look(start(Action::Generate, false), &STALE);
    assert_eq!(run.request(), Request::Render);
    assert_eq!(
        asked,
        vec![
            Question::OutputExists,
            Question::Modified(FileRole::Output),
            Question::Modified(FileRole::Data),
            Question::Modified(FileRole::Template),
        ]
    );
}

#[test]
fn generate_skips_a_current_output() {
    let (run, _) = look(start(Action::Generate, false), &CURRENT);
    assert_eq!(run.request(), Request::Finish);
    assert!(matches!(run.outcome(), Some(Outcome::Skipped)));
}

#[test]
fn generate_renders_when_a_time_cannot_be_read() {
    let files = Files { output: Some(30), data: None, template: Some(20) };
    let (run, asked) = look(start(Action::Generate, false), &files);
    assert_eq!(run.request(), Request::Render);
    assert_eq!(asked.len(), 3);
}

#[test]
fn force_renders_without_reading() {
    let run = start(Action::Generate, true);
    assert_eq!(run.request(), Request::Render);
    let (run, asked) = look(run, &CURRENT);
    assert_eq!(run.request(), Request::Render);
    assert!(asked.is_empty());
}

#[test]
fn force_makes_every_status_eligible() {
    assert!(is_eligible(true, &OutputStatus::UpToDate));
    assert!(is_eligible(true, &OutputStatus::FileMissing));
    assert!(is_eligible(true, &OutputStatus::OutOfDate));
    let undetermined = OutputStatus::CannotDetermine(IoError::new(ErrorKind::Other, "x"));
    assert!(is_eligible(true, &undetermined));
}

#[test]
fn without_force_only_a_current_output_is_left_alone() {
    assert!(!is_eligible(false, &OutputStatus::UpToDate));
    assert!(is_eligible(false, &OutputStatus::FileMissing));
    assert!(is_eligible(false, &OutputStatus::OutOfDate));
    let undetermined = OutputStatus::CannotDetermine(IoError::new(ErrorKind::Other, "x"));
    assert!(is_eligible(false, &undetermined));
}

#[test]
fn decide_tells_real_runs_from_dry_runs() {
    assert!(matches!(decide(false, &OutputStatus::OutOfDate), JobRun::Rendering));
    assert!(matches!(
        decide(false, &OutputStatus::UpToDate),
        JobRun::Finished(Outcome::Skipped)
    ));
    assert!(matches!(
        decide(true, &OutputStatus::FileMissing),
        JobRun::Finished(Outcome::Reported(Preview::WouldBuild))
    ));
    assert!(matches!(
        decide(true, &OutputStatus::UpToDate),
        JobRun::Finished(Outcome::Reported(Preview::WouldSkip))
    ));
}

#[test]
fn rendering_ends_in_success() {
    let run = start(Action::Generate, true).advance(Event::Rendered(Ok(())));
    assert_eq!(run.request(), Request::Finish);
    assert!(matches!(run.outcome(), Some(Outcome::Success)));
}

#[test]
fn rendering_failure_is_the_outcome_of_the_job() {
    let cause = Failure::from(IoError::new(ErrorKind::PermissionDenied, "cannot write"));
    let run = start(Action::Generate, true).advance(Event::Rendered(Err(cause)));
    match run.outcome() {
        Some(Outcome::Failed(Failure::Io(e))) => assert_eq!(e.to_string(), "cannot write"),
        other => panic!("unexpected outcome {:?}", other),
    }
}

#[test]
fn rendering_failure_keeps_missing_inputs() {
    let cause = Failure::from(Missing::from(vec!["data file: d.json".to_string()]));
    let run = start(Action::Generate, true).advance(Event::Rendered(Err(cause)));
    match run.outcome() {
        Some(Outcome::Failed(Failure::Missing(m))) => {
            assert_eq!(m.0, vec!["data file: d.json".to_string()])
        }
        other => panic!("unexpected outcome {:?}", other),
    }
}

#[test]
fn delete_removes_without_reading() {
    for force in [false, true] {
        let (run, asked) = look(start(Action::Delete, force), &CURRENT);
        assert_eq!(run.request(), Request::Remove);
        assert!(asked.is_empty());
    }
}

#[test]
fn removal_ends_in_removed() {
    let run = start(Action::Delete, false).advance(Event::Removed(Ok(())));
    assert!(matches!(run.outcome(), Some(Outcome::Removed)));
}

#[test]
fn removal_failure_is_the_outcome_of_the_job() {
    let e = IoError::new(ErrorKind::NotFound, "gone");
    let run = start(Action::Delete, false).advance(Event::Removed(Err(e)));
    match run.outcome() {
        Some(Outcome::RemoveFailed(e)) => assert_eq!(e.kind(), ErrorKind::NotFound),
        other => panic!("unexpected outcome {:?}", other),
    }
}

#[test]
fn report_generate_previews_without_touching() {
    let (run, _) = look(start(Action::ReportGenerate, false), &MISSING_OUTPUT);
    assert!(matches!(run.outcome(), Some(Outcome::Reported(Preview::WouldBuild))));
    let (run, _) = look(start(Action::ReportGenerate, false), &CURRENT);
    assert!(matches!(run.outcome(), Some(Outcome::Reported(Preview::WouldSkip))));
    let (run, _) = look(start(Action::ReportGenerate, false), &STALE);
    assert!(matches!(run.outcome(), Some(Outcome::Reported(Preview::WouldBuild))));
}

#[test]
fn forced_report_would_build_everything() {
    let (run, asked) = look(start(Action::ReportGenerate, true), &CURRENT);
    assert!(asked.is_empty());
    assert!(matches!(run.outcome(), Some(Outcome::Reported(Preview::WouldBuild))));
}

#[test]
fn report_delete_asks_only_for_the_output() {
    let (run, asked) = look(start(Action::ReportDelete, false), &CURRENT);
    assert_eq!(asked, vec![Question::OutputExists]);
    assert!(matches!(run.outcome(), Some(Outcome::Reported(Preview::WouldRemove))));
    let (run, asked) = look(start(Action::ReportDelete, false), &MISSING_OUTPUT);
    assert_eq!(asked, vec![Question::OutputExists]);
    assert!(matches!(run.outcome(), Some(Outcome::Reported(Preview::NothingToRemove))));
}

#[test]
fn report_never_asks_for_a_change() {
    let events = || {
        vec![
            Event::Rendered(Ok(())),
            Event::Removed(Ok(())),
            Event::Answered(Answer::Exists(true)),
            Event::Removed(Err(IoError::new(ErrorKind::Other, "x"))),
            Event::Answered(Answer::Modified(Ok(Timestamp { nanos: 1 }))),
            Event::Rendered(Err(Failure::from(IoError::new(ErrorKind::Other, "y")))),
            Event::Answered(Answer::Modified(Ok(Timestamp { nanos: 2 }))),
            Event::Answered(Answer::Modified(Ok(Timestamp { nanos: 3 }))),
        ]
    };
    for action in [Action::ReportGenerate, Action::ReportDelete] {
        for force in [false, true] {
            let mut run = start(action, force);
            for event in events() {
                assert!(!matches!(run.request(), Request::Render | Request::Remove));
                run = run.advance(event);
            }
            assert!(!matches!(run.request(), Request::Render | Request::Remove));
        }
    }
}

#[test]
fn report_then_generate_is_generate_alone() {
    for files in [MISSING_OUTPUT, CURRENT, STALE] {
        for force in [false, true] {
            let (alone, _) = look(start(Action::Generate, force), &files);
            let (previewed, _) = look(start(Action::ReportGenerate, force), &files);
            let (after_report, _) = look(start(Action::Generate, force), &files);
            assert_eq!(alone.request(), after_report.request());
            let builds = alone.request() == Request::Render;
            let expected = if builds { Preview::WouldBuild } else { Preview::WouldSkip };
            match previewed.outcome() {
                Some(Outcome::Reported(preview)) => assert_eq!(preview, expected),
                other => panic!("unexpected outcome {:?}", other),
            }
        }
    }
}

#[test]
fn stray_events_change_nothing() {
    let run = start(Action::Delete, false).advance(Event::Rendered(Ok(())));
    assert_eq!(run.request(), Request::Remove);
    let run = start(Action::Generate, true).advance(Event::Removed(Ok(())));
    assert_eq!(run.request(), Request::Render);
    let run = start(Action::Generate, false).advance(Event::Rendered(Ok(())));
    assert_eq!(run.request(), Request::Ask(Question::OutputExists));
    let run = start(Action::ReportDelete, false)
        .advance(Event::Answered(Answer::Modified(Ok(Timestamp { nanos: 1 }))));
    assert_eq!(run.request(), Request::Ask(Question::OutputExists));
    let done = start(Action::Delete, false).advance(Event::Removed(Ok(())));
    let done = done.advance(Event::Removed(Err(IoError::new(ErrorKind::Other, "late"))));
    assert!(matches!(done.outcome(), Some(Outcome::Removed)));
}

#[test]
fn outcome_is_absent_while_work_is_pending() {
    assert!(start(Action::Generate, false).outcome().is_none());
    assert!(start(Action::Generate, true).outcome().is_none());
    assert!(start(Action::Delete, false).outcome().is_none());
    assert!(start(Action::ReportDelete, false).outcome().is_none());
}

#[test]
fn count_returns_the_batch_size() {
    for n in [0usize, 1, 3, 10] {
        for force in [false, true] {
            match plan(&jobs(n), Action::Count, force) {
                Plan::Total(total) => assert_eq!(total, n),
                Plan::Runs(_) => panic!("count made runs"),
            }
        }
    }
}

#[test]
fn plan_has_one_run_per_job() {
    for action in [Action::Generate, Action::Delete, Action::ReportGenerate, Action::ReportDelete]
    {
        match plan(&jobs(4), action, false) {
            Plan::Runs(runs) => {
                assert_eq!(runs.len(), 4);
                let first = start(action, false).request();
                assert!(runs.iter().all(|run| run.request() == first));
            }
            Plan::Total(_) => panic!("no runs for {:?}", action),
        }
    }
}

#[test]
fn plan_of_an_empty_batch_is_empty() {
    match plan(&jobs(0), Action::Generate, false) {
        Plan::Runs(runs) => assert!(runs.is_empty()),
        Plan::Total(_) => panic!("no runs"),
    }
}

#[test]
fn delete_failure_does_not_stop_the_other_jobs() {
    let mut runs = match plan(&jobs(3), Action::Delete, false) {
        Plan::Runs(runs) => runs,
        Plan::Total(_) => panic!("no runs"),
    };
    assert!(runs.iter().all(|run| run.request() == Request::Remove));
    record(&mut runs, 0, Event::Removed(Err(IoError::new(ErrorKind::NotFound, "gone"))));
    assert_eq!(runs.len(), 3);
    assert_eq!(runs[0].request(), Request::Finish);
    assert_eq!(runs[1].request(), Request::Remove);
    assert_eq!(runs[2].request(), Request::Remove);
    record(&mut runs, 1, Event::Removed(Ok(())));
    record(&mut runs, 2, Event::Removed(Ok(())));
    let outcomes: Vec<Outcome> = runs.into_iter().map(|run| run.outcome().unwrap()).collect();
    assert!(matches!(outcomes[0], Outcome::RemoveFailed(_)));
    assert!(matches!(outcomes[1], Outcome::Removed));
    assert!(matches!(outcomes[2], Outcome::Removed));
}

#[test]
fn record_beyond_the_batch_changes_nothing() {
    let mut runs = match plan(&jobs(2), Action::Delete, false) {
        Plan::Runs(runs) => runs,
        Plan::Total(_) => panic!("no runs"),
    };
    record(&mut runs, 2, Event::Removed(Ok(())));
    assert_eq!(runs.len(), 2);
    assert!(runs.iter().all(|run| run.request() == Request::Remove));
}

#[test]
fn multigen_builds_missing_and_stale_and_skips_current() {
    let files = [MISSING_OUTPUT, CURRENT, STALE];
    let runs = match plan(&jobs(3), Action::Generate, false) {
        Plan::Runs(runs) => runs,
        Plan::Total(_) => panic!("no runs"),
    };
    let mut rendered = Vec::new();
    let mut outcomes = Vec::new();
    for (i, run) in runs.into_iter().enumerate() {
        let (mut run, _) = look(run, &files[i]);
        if run.request() == Request::Render {
            rendered.push(i);
            run = run.advance(Event::Rendered(Ok(())));
        }
        outcomes.push(run.outcome().unwrap());
    }
    assert_eq!(rendered, vec![0, 2]);
    assert!(matches!(outcomes[0], Outcome::Success));
    assert!(matches!(outcomes[1], Outcome::Skipped));
    assert!(matches!(outcomes[2], Outcome::Success));
}

#[test]
fn report_of_the_same_batch_changes_no_file() {
    let files = [MISSING_OUTPUT, CURRENT, STALE];
    let runs = match plan(&jobs(3), Action::ReportGenerate, false) {
        Plan::Runs(runs) => runs,
        Plan::Total(_) => panic!("no runs"),
    };
    let batch = jobs(3);
    let mut previews = Vec::new();
    let mut lines = Vec::new();
    for (i, run) in runs.into_iter().enumerate() {
        let (run, _) = look(run, &files[i]);
        assert_eq!(run.request(), Request::Finish);
        let outcome = run.outcome().unwrap();
        lines.push(outcome_line(&batch[i], &outcome).unwrap().text);
        match outcome {
            Outcome::Reported(preview) => previews.push(preview),
            other => panic!("unexpected outcome {:?}", other),
        }
    }
    assert_eq!(previews, vec![Preview::WouldBuild, Preview::WouldSkip, Preview::WouldBuild]);
    assert_eq!(lines, vec!["Would build: 0.rst", "Would skip: 1.rst", "Would build: 2.rst"]);
}

#[test]
fn report_modes_go_by_name() {
    assert_eq!(Action::for_report("clean"), Some(Action::ReportDelete));
    assert_eq!(Action::for_report("multigen"), Some(Action::ReportGenerate));
    assert_eq!(Action::for_report("count"), Some(Action::Count));
}

#[test]
fn unknown_report_modes_have_no_action() {
    for mode in ["", "Clean", "clean ", "generate", "delete", "counts", "multi"] {
        assert_eq!(Action::for_report(mode), None, "{:?}", mode);
    }
}
