//! Configuration surface shared between the engine and the front end:
//! the diagnostics output format and the settings of one apply
//! invocation.

use vstd::prelude::*;

verus! {

/// The format in which the surrounding tool emits its diagnostics.
#[derive(Clone, Copy, Debug, PartialEq, Eq, Structural)]
pub enum OutputFormat {
    Json,
    Logfmt,
    Plain,
    Pretty,
}

impl Default for OutputFormat {
    /// Plain output unless asked otherwise.
    fn default() -> (r: Self)
        ensures
            r == OutputFormat::Plain,
    {
        OutputFormat::Plain
    }
}

/// Settings of one apply invocation.
pub struct ApplyFlags {
    /// The file that holds the manifests to apply; `-` names standard
    /// input.
    pub filename: String,
    /// Name of the manager used to track field ownership.
    pub field_manager: String,
    /// Seconds to wait before giving up; zero waits indefinitely.
    pub timeout: u64,
}

impl ApplyFlags {
    /// Settings for `filename` with the stock field manager identity and
    /// waiting limit.
    pub fn new(filename: String) -> (r: ApplyFlags)
        ensures
            r.filename == filename,
            r.field_manager@ == "deka"@,
            r.timeout == 300,
    {
        ApplyFlags { filename, field_manager: "deka".to_owned(), timeout: 300 }
    }

    /// The bound on the total time spent waiting between retries that the
    /// timeout denotes: none when zero, else the timeout itself, in
    /// seconds.
    pub fn max_elapsed_secs(&self) -> (r: Option<u64>)
        ensures
            self.timeout == 0 ==> r is None,
            self.timeout != 0 ==> r == Some(self.timeout),
    {
        if self.timeout == 0 {
            None
        } else {
            Some(self.timeout)
        }
    }
}

} // verus!
