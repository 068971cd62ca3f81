//! Errors of the build engine.

use vstd::prelude::*;
use vstd::std_specs::convert::FromSpecImpl;
use vstd::string::*;

verus! {

/// The input files a job needs and does not find, all of them at once.
///
/// Every entry names one file: its role, a colon and its path.
#[derive(Debug)]
pub struct Missing(pub Vec<String>);

impl View for Missing {
    type V = Seq<Seq<char>>;

    open spec fn view(&self) -> Seq<Seq<char>> {
        self.0.deep_view()
    }
}

/// The report of a list of missing files: one line per entry, each ended by a
/// line feed.
pub open spec fn missing_text(entries: Seq<Seq<char>>) -> Seq<char>
    decreases entries.len(),
{
    if entries.len() == 0 {
        Seq::empty()
    } else {
        missing_text(entries.drop_last()) + "missing file: "@ + entries.last() + "\n"@
    }
}

impl From<Vec<String>> for Missing {
    fn from(v: Vec<String>) -> (missing: Self) {
        Missing(v)
    }
}

impl FromSpecImpl<Vec<String>> for Missing {
    open spec fn obeys_from_spec() -> bool {
        true
    }

    open spec fn from_spec(v: Vec<String>) -> Self {
        Missing(v)
    }
}

impl Missing {
    /// The number of missing files.
    pub fn len(&self) -> (n: usize)
        ensures
            n == self@.len(),
    {
        proof {
            assert(self.0.deep_view().len() == self.0@.len());
        }
        self.0.len()
    }

    /// The text shown for this error.
    pub fn to_string(&self) -> (text: String)
        ensures
            text@ == missing_text(self@),
    {
        let mut text = String::new();
        let n = self.0.len();
        let mut i: usize = 0;
        while i < n
            invariant
                n == self.0@.len(),
                i <= n,
                text@ == missing_text(self@.take(i as int)),
            decreases n - i,
        {
            text.append("missing file: ");
            text.append(self.0[i].as_str());
            text.append("\n");
            proof {
                let upto = self@.take(i + 1);
                assert(upto.drop_last() == self@.take(i as int));
                assert(upto.last() == self.0@[i as int]@);
            }
            i = i + 1;
        }
        proof {
            assert(self@.take(n as int) == self@);
        }
        text
    }
}

/// Declares `std::io::Error`, which is carried through and never looked into.
#[verifier::external_type_specification]
#[verifier::external_body]
pub struct ExIoError(std::io::Error);

/// Declares `serde_json::Error`, which is carried through and never looked into.
#[verifier::external_type_specification]
#[verifier::external_body]
pub struct ExJsonError(serde_json::Error);

/// Declares `handlebars::TemplateRenderError`, which is carried through and
/// never looked into.
#[verifier::external_type_specification]
#[verifier::external_body]
pub struct ExTemplateRenderError(handlebars::TemplateRenderError);

/// Why a command or a single job failed.
#[derive(Debug)]
pub enum Failure {
    /// A file could not be read, written or removed.
    Io(std::io::Error),
    /// Input files are absent.
    Missing(Missing),
    /// A JSON document is malformed.
    Parse(serde_json::Error),
    /// The template engine rejected the template or its data.
    Render(handlebars::TemplateRenderError),
}

impl From<std::io::Error> for Failure {
    fn from(e: std::io::Error) -> (failure: Self) {
        Failure::Io(e)
    }
}

impl FromSpecImpl<std::io::Error> for Failure {
    open spec fn obeys_from_spec() -> bool {
        true
    }

    open spec fn from_spec(e: std::io::Error) -> Self {
        Failure::Io(e)
    }
}

impl From<Missing> for Failure {
    fn from(m: Missing) -> (failure: Self) {
        Failure::Missing(m)
    }
}

impl FromSpecImpl<Missing> for Failure {
    open spec fn obeys_from_spec() -> bool {
        true
    }

    open spec fn from_spec(m: Missing) -> Self {
        Failure::Missing(m)
    }
}

impl From<serde_json::Error> for Failure {
    fn from(e: serde_json::Error) -> (failure: Self) {
        Failure::Parse(e)
    }
}

impl FromSpecImpl<serde_json::Error> for Failure {
    open spec fn obeys_from_spec() -> bool {
        true
    }

    open spec fn from_spec(e: serde_json::Error) -> Self {
        Failure::Parse(e)
    }
}

impl From<handlebars::TemplateRenderError> for Failure {
    fn from(e: handlebars::TemplateRenderError) -> (failure: Self) {
        Failure::Render(e)
    }
}

impl FromSpecImpl<handlebars::TemplateRenderError> for Failure {
    open spec fn obeys_from_spec() -> bool {
        true
    }

    open spec fn from_spec(e: handlebars::TemplateRenderError) -> Self {
        Failure::Render(e)
    }
}

impl Failure {
    /// `text` is what the cause of this error shows of itself. For missing
    /// files that is their report; for the other causes it is whatever their
    /// own formatting yields.
    pub open spec fn shown_as(self, text: String) -> bool {
        match self {
            Failure::Io(e) => to_string_from_display_ensures::<std::io::Error>(&e, text),
            Failure::Missing(m) => text@ == missing_text(m@),
            Failure::Parse(e) => to_string_from_display_ensures::<serde_json::Error>(&e, text),
            Failure::Render(e) => to_string_from_display_ensures::<
                handlebars::TemplateRenderError,
            >(&e, text),
        }
    }

    /// The text shown for this error: that of its cause.
    pub fn to_string(&self) -> (text: String)
        ensures
            self.shown_as(text),
    {
        match self {
            Failure::Io(e) => e.to_string(),
            Failure::Missing(m) => m.to_string(),
            Failure::Parse(e) => e.to_string(),
            Failure::Render(e) => e.to_string(),
        }
    }
}

} // verus!
