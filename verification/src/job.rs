//! Job descriptors and the staleness rule.

use crate::error::Missing;
use vstd::prelude::*;
use vstd::string::*;

verus! {

/// A modification time, in nanoseconds relative to the Unix epoch.
#[derive(Clone, Copy, Debug, PartialEq, Eq, Structural)]
pub struct Timestamp {
    pub nanos: i128,
}

impl Timestamp {
    /// `self` lies strictly before `other`.
    pub open spec fn before(self, other: Timestamp) -> bool {
        self.nanos < other.nanos
    }

    /// Tells whether `self` lies strictly before `other`.
    pub fn is_before(&self, other: &Timestamp) -> (earlier: bool)
        ensures
            earlier == self.before(*other),
    {
        self.nanos < other.nanos
    }
}

/// Whether the output of a job is current.
#[derive(Debug)]
pub enum OutputStatus {
    /// The output exists and is not older than either input.
    UpToDate,
    /// The output does not exist.
    FileMissing,
    /// The output exists and is strictly older than the template or the data.
    OutOfDate,
    /// A modification time could not be read; the failure is carried along.
    CannotDetermine(std::io::Error),
}

/// What the file system reported about the three files of one job.
///
/// Each modification time is the result of one read and stands on its own:
/// a time may be present for a file that `output_exists` calls absent.
#[derive(Debug)]
pub struct Readings {
    pub output_exists: bool,
    pub output_modified: Result<Timestamp, std::io::Error>,
    pub data_modified: Result<Timestamp, std::io::Error>,
    pub template_modified: Result<Timestamp, std::io::Error>,
}

/// The status that follows from a set of readings.
///
/// A missing output is reported before any time is looked at. The times are
/// looked at in the order output, data, template, and the first failed read
/// decides. With all three times known the output is out of date exactly if it
/// is strictly older than the template or strictly older than the data.
pub open spec fn classify(files: Readings) -> OutputStatus {
    if !files.output_exists {
        OutputStatus::FileMissing
    } else {
        match (files.output_modified, files.data_modified, files.template_modified) {
            (Err(e), _, _) => OutputStatus::CannotDetermine(e),
            (Ok(_), Err(e), _) => OutputStatus::CannotDetermine(e),
            (Ok(_), Ok(_), Err(e)) => OutputStatus::CannotDetermine(e),
            (Ok(output), Ok(data), Ok(template)) => if output.before(template) || output.before(
                data,
            ) {
                OutputStatus::OutOfDate
            } else {
                OutputStatus::UpToDate
            },
        }
    }
}

/// A job needs building unless its output is known to be current.
pub open spec fn needs_build(status: OutputStatus) -> bool {
    !(status is UpToDate)
}

/// The part a file plays in a job.
#[derive(Clone, Copy, Debug, PartialEq, Eq, Structural)]
pub enum FileRole {
    Output,
    Data,
    Template,
}

/// One generation unit: a label and the paths of its data, template and output.
#[derive(Clone, Debug, PartialEq, Eq)]
pub struct TemplateDef {
    pub name: String,
    pub data: String,
    pub template: String,
    pub output: String,
}

/// The mathematical content of a job descriptor.
pub struct JobView {
    pub name: Seq<char>,
    pub data: Seq<char>,
    pub template: Seq<char>,
    pub output: Seq<char>,
}

impl View for TemplateDef {
    type V = JobView;

    open spec fn view(&self) -> JobView {
        JobView { name: self.name@, data: self.data@, template: self.template@, output: self.output@ }
    }
}

/// The entries that name the absent inputs of a job: the template first, then
/// the data.
pub open spec fn missing_inputs(job: JobView, data_exists: bool, template_exists: bool) -> Seq<
    Seq<char>,
> {
    let template: Seq<Seq<char>> = if template_exists {
        seq![]
    } else {
        seq!["template file: "@ + job.template]
    };
    let data: Seq<Seq<char>> = if data_exists {
        seq![]
    } else {
        seq!["data file: "@ + job.data]
    };
    template + data
}

impl JobView {
    /// The path of the file that plays `role`.
    pub open spec fn path(self, role: FileRole) -> Seq<char> {
        match role {
            FileRole::Output => self.output,
            FileRole::Data => self.data,
            FileRole::Template => self.template,
        }
    }
}

impl TemplateDef {
    /// The path of the file that plays `role` in this job.
    pub fn path(&self, role: FileRole) -> (path: &String)
        ensures
            path@ == self@.path(role),
    {
        match role {
            FileRole::Output => &self.output,
            FileRole::Data => &self.data,
            FileRole::Template => &self.template,
        }
    }

    /// Builds a job after checking that its inputs were found.
    ///
    /// `data_exists` and `template_exists` say whether the file at `data` and
    /// the file at `template` exist.
    pub fn new(
        name: String,
        data: String,
        template: String,
        output: String,
        data_exists: bool,
        template_exists: bool,
    ) -> (made: Result<Self, Missing>)
        ensures
            made is Ok <==> data_exists && template_exists,
            made matches Ok(job) ==> job@ == (JobView {
                name: name@,
                data: data@,
                template: template@,
                output: output@,
            }),
            made matches Err(missing) ==> missing@ == missing_inputs(
                JobView { name: name@, data: data@, template: template@, output: output@ },
                data_exists,
                template_exists,
            ),
    {
        let job = Self::new_unchecked(name, data, template, output);
        match job.validate_files(data_exists, template_exists) {
            Ok(()) => Ok(job),
            Err(missing) => Err(missing),
        }
    }

    /// Builds a job without looking at its files.
    pub fn new_unchecked(name: String, data: String, template: String, output: String) -> (job:
        Self)
        ensures
            job.name == name,
            job.data == data,
            job.template == template,
            job.output == output,
    {
        Self { name, data, template, output }
    }

    /// Checks that both inputs were found and names every one that was not.
    ///
    /// The output is not looked at: it is expected to be absent or stale.
    pub fn validate_files(&self, data_exists: bool, template_exists: bool) -> (checked: Result<
        (),
        Missing,
    >)
        ensures
            checked is Ok <==> data_exists && template_exists,
            checked matches Err(missing) ==> missing@ == missing_inputs(
                self@,
                data_exists,
                template_exists,
            ),
    {
        if data_exists && template_exists {
            return Ok(());
        }
        let mut missing: Vec<String> = Vec::new();
        if !template_exists {
            let mut entry = String::from_str("template file: ");
            entry.append(self.template.as_str());
            missing.push(entry);
        }
        if !data_exists {
            let mut entry = String::from_str("data file: ");
            entry.append(self.data.as_str());
            missing.push(entry);
        }
        let missing = Missing(missing);
        proof {
            assert(missing@ =~= missing_inputs(self@, data_exists, template_exists));
        }
        Err(missing)
    }

    /// Tells whether the job has to be built: always, unless its output is
    /// known to be current.
    ///
    /// A missing output is always built. With all three times read, the job is
    /// built exactly if the output is strictly older than the template or
    /// strictly older than the data. A time that cannot be read calls for a
    /// build as well.
    pub fn should_build(&self, files: Readings) -> (build: bool)
        ensures
            build == needs_build(classify(files)),
            match (
                files.output_exists,
                files.output_modified,
                files.data_modified,
                files.template_modified,
            ) {
                (false, _, _, _) => build,
                (true, Ok(output), Ok(data), Ok(template)) => build <==> output.before(template)
                    || output.before(data),
                _ => build,
            },
    {
        match self.up_to_date(files) {
            OutputStatus::UpToDate => false,
            _ => true,
        }
    }

    /// Classifies the output of the job from what was read about its files.
    pub fn up_to_date(&self, files: Readings) -> (status: OutputStatus)
        ensures
            status == classify(files),
            !files.output_exists ==> status is FileMissing,
    {
        if !files.output_exists {
            return OutputStatus::FileMissing;
        }
        let output = match files.output_modified {
            Ok(t) => t,
            Err(e) => {
                return OutputStatus::CannotDetermine(e);
            },
        };
        let data = match files.data_modified {
            Ok(t) => t,
            Err(e) => {
                return OutputStatus::CannotDetermine(e);
            },
        };
        let template = match files.template_modified {
            Ok(t) => t,
            Err(e) => {
                return OutputStatus::CannotDetermine(e);
            },
        };
        if output.is_before(&template) || output.is_before(&data) {
            OutputStatus::OutOfDate
        } else {
            OutputStatus::UpToDate
        }
    }
}

} // verus!
