//! Where a single rendering is written.

use crate::text::same_text;
use vstd::prelude::*;
use vstd::string::*;

verus! {

/// The destination of a rendering.
#[derive(Clone, Debug, PartialEq, Eq)]
pub enum Sink {
    /// The standard output of the process.
    Stdout,
    /// The file at this path, created together with its missing parent
    /// directories.
    File(String),
}

impl Sink {
    /// The destination that an output argument names: a lone `-` is the
    /// standard output, everything else the path of a file.
    pub fn parse(output: &str) -> (sink: Sink)
        ensures
            match sink {
                Sink::Stdout => output@ == "-"@,
                Sink::File(path) => output@ != "-"@ && path@ == output@,
            },
    {
        if same_text(output, "-") {
            Sink::Stdout
        } else {
            Sink::File(String::from_str(output))
        }
    }
}

} // verus!
