//! The ways a load ends without a configuration, and what the operator is
//! told about each.

use vstd::prelude::*;
use vstd::string::StringExecFns;

verus! {

/// Why a load handed back no configuration.
///
/// Every variant stops the application before it starts. `Created` is the
/// one that is no fault: it reports that a blank file now waits for the
/// operator.
#[derive(Debug)]
pub enum ConfigError {
    /// No file could be opened at `path`, so a blank one was written there.
    Created { path: String },
    /// No file could be opened at `path`, and none could be created there.
    CreateFailed { path: String, why: String },
    /// The blank record could not be put into text.
    SerializeFailed { why: String },
    /// The blank file was created at `path`, but its text could not be written.
    WriteFailed { path: String, why: String },
    /// The file was opened, but its text is no configuration.
    ParseFailed { why: String },
}

/// The value of a [`ConfigError`] in specifications.
pub enum ConfigErrorView {
    Created { path: Seq<char> },
    CreateFailed { path: Seq<char>, why: Seq<char> },
    SerializeFailed { why: Seq<char> },
    WriteFailed { path: Seq<char>, why: Seq<char> },
    ParseFailed { why: Seq<char> },
}

impl View for ConfigError {
    type V = ConfigErrorView;

    open spec fn view(&self) -> ConfigErrorView {
        match self {
            ConfigError::Created { path } => ConfigErrorView::Created { path: path@ },
            ConfigError::CreateFailed { path, why } => ConfigErrorView::CreateFailed {
                path: path@,
                why: why@,
            },
            ConfigError::SerializeFailed { why } => ConfigErrorView::SerializeFailed { why: why@ },
            ConfigError::WriteFailed { path, why } => ConfigErrorView::WriteFailed {
                path: path@,
                why: why@,
            },
            ConfigError::ParseFailed { why } => ConfigErrorView::ParseFailed { why: why@ },
        }
    }
}

impl ConfigErrorView {
    /// The line shown to the operator.
    pub open spec fn message(self) -> Seq<char> {
        match self {
            ConfigErrorView::Created { path } => "Created empty config file at "@ + path,
            ConfigErrorView::CreateFailed { path, why } => "couldn't create "@ + path + ": "@ + why,
            ConfigErrorView::SerializeFailed { why } => "Serialization failed: "@ + why,
            ConfigErrorView::WriteFailed { path, why } => "couldn't write to "@ + path + ": "@
                + why,
            ConfigErrorView::ParseFailed { why } => "Failed to load config: "@ + why,
        }
    }

    /// Whether the load stopped on a fault, as opposed to having left a
    /// blank file behind.
    pub open spec fn is_fault(self) -> bool {
        !(self is Created)
    }

    /// The path of the file that was to be created or written, where the
    /// load came that far.
    pub open spec fn path(self) -> Option<Seq<char>> {
        match self {
            ConfigErrorView::Created { path } => Some(path),
            ConfigErrorView::CreateFailed { path, .. } => Some(path),
            ConfigErrorView::WriteFailed { path, .. } => Some(path),
            _ => None,
        }
    }

    /// The account of the failure given by whoever met it: the system,
    /// the serializer or the parser.
    pub open spec fn why(self) -> Option<Seq<char>> {
        match self {
            ConfigErrorView::Created { .. } => None,
            ConfigErrorView::CreateFailed { why, .. } => Some(why),
            ConfigErrorView::SerializeFailed { why } => Some(why),
            ConfigErrorView::WriteFailed { why, .. } => Some(why),
            ConfigErrorView::ParseFailed { why } => Some(why),
        }
    }
}

/// Whether `part` stands somewhere in `text`, unbroken.
pub open spec fn occurs_in(part: Seq<char>, text: Seq<char>) -> bool {
    exists|at: int|
        0 <= at && at + part.len() <= text.len() && #[trigger] text.subrange(
            at,
            at + part.len(),
        ) == part
}

/// The line for the operator names the file and gives the cause.
///
/// Where the error holds a path, the line contains it, and where the
/// error holds an account of the failure, the line contains that.
pub proof fn lemma_message_names_path_and_cause(error: ConfigErrorView)
    ensures
        error.path() matches Some(path) ==> occurs_in(path, error.message()),
        error.why() matches Some(why) ==> occurs_in(why, error.message()),
{
    let text = error.message();
    match error {
        ConfigErrorView::Created { path } => {
            let at = "Created empty config file at "@.len() as int;
            assert(text.subrange(at, at + path.len()) == path);
        },
        ConfigErrorView::CreateFailed { path, why } => {
            let at = "couldn't create "@.len() as int;
            assert(text.subrange(at, at + path.len()) == path);
            let at = at + path.len() + ": "@.len();
            assert(text.subrange(at, at + why.len()) == why);
        },
        ConfigErrorView::SerializeFailed { why } => {
            let at = "Serialization failed: "@.len() as int;
            assert(text.subrange(at, at + why.len()) == why);
        },
        ConfigErrorView::WriteFailed { path, why } => {
            let at = "couldn't write to "@.len() as int;
            assert(text.subrange(at, at + path.len()) == path);
            let at = at + path.len() + ": "@.len();
            assert(text.subrange(at, at + why.len()) == why);
        },
        ConfigErrorView::ParseFailed { why } => {
            let at = "Failed to load config: "@.len() as int;
            assert(text.subrange(at, at + why.len()) == why);
        },
    }
}

impl ConfigError {
    /// The line shown to the operator when the application stops.
    pub fn message(&self) -> (text: String)
        ensures
            text@ == self@.message(),
    {
        match self {
            ConfigError::Created { path } => {
                let mut text = String::from_str("Created empty config file at ");
                text.append(path.as_str());
                text
            },
            ConfigError::CreateFailed { path, why } => {
                let mut text = String::from_str("couldn't create ");
                text.append(path.as_str());
                text.append(": ");
                text.append(why.as_str());
                text
            },
            ConfigError::SerializeFailed { why } => {
                let mut text = String::from_str("Serialization failed: ");
                text.append(why.as_str());
                text
            },
            ConfigError::WriteFailed { path, why } => {
                let mut text = String::from_str("couldn't write to ");
                text.append(path.as_str());
                text.append(": ");
                text.append(why.as_str());
                text
            },
            ConfigError::ParseFailed { why } => {
                let mut text = String::from_str("Failed to load config: ");
                text.append(why.as_str());
                text
            },
        }
    }

    /// Whether the load stopped on a fault. `false` only for `Created`,
    /// which asks the operator to fill in the new file and start again.
    pub fn is_fault(&self) -> (fault: bool)
        ensures
            fault == self@.is_fault(),
    {
        match self {
            ConfigError::Created { .. } => false,
            _ => true,
        }
    }
}

} // verus!
