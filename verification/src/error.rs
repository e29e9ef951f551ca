//! Error taxonomy for the scaffolding command.

use vstd::prelude::*;

verus! {

/// All failures the scaffolding command can report: an I/O failure while
/// creating directories or files, a failure of the external brick tool, or
/// a failure of the external build tool.  Each variant carries the detail
/// text captured at the failure site.
pub enum Error {
    /// An I/O failure, carrying the reported message.
    IO(String),
    /// The external brick tool exited unsuccessfully; carries its stderr text.
    MasonError(String),
    /// The external build tool exited unsuccessfully; carries its stderr text.
    BuildRunnerError(String),
}

impl Error {
    /// The display text of an error: I/O errors show their own message
    /// verbatim, tool failures show a fixed tool label.
    pub fn message(&self) -> (r: String)
        ensures
            r@ == match self {
                Error::IO(m) => m@,
                Error::MasonError(_) => "Mason"@,
                Error::BuildRunnerError(_) => "BuildRunner"@,
            },
    {
        match self {
            Error::IO(m) => m.clone(),
            Error::MasonError(_) => String::from_str("Mason"),
            Error::BuildRunnerError(_) => String::from_str("BuildRunner"),
        }
    }
}

} // verus!
