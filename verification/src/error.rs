//! The failures a generation run can report.

use vstd::prelude::*;

verus! {

/// A failure of the generation flow.
///
/// External subcommand output is carried verbatim as text: its format belongs
/// to the external tool and is never parsed or reinterpreted here.
#[derive(Debug, Clone, PartialEq, Eq)]
pub enum BunCliError {
    /// An underlying filesystem or process failure, carried as its message.
    Io(String),
    /// An external subcommand returned a non-zero status; `message` is the
    /// captured standard-error text, verbatim.
    CommandFailed { command: String, message: String },
    /// The proposed project name was rejected by validation; carries the
    /// offending name.
    InvalidProjectName(String),
    /// The external tool is absent, or could not be recovered by installing
    /// it.
    BunNotInstalled,
    /// The template merge could not be carried out; never fatal.
    TemplateCopyFailed(String),
    /// A single dependency could not be added to the generated project;
    /// never fatal.
    DependencyFailed { dependency: String, message: String },
}

} // verus!
