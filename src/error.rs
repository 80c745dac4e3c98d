use vstd::prelude::*;
use vstd::string::StringExecFns;

verus! {

/// Why a command failed.
#[derive(Debug)]
pub enum CommandError {
    /// The listed path does not exist; holds the path.
    NotFound(String),
    /// The listed path is not a directory; holds the path.
    NotADirectory(String),
    /// Reading failed; holds the text shown to the caller.
    ReadFailure(String),
    /// Writing failed; holds the text shown to the caller.
    WriteFailure(String),
}

/// The text shown to the caller for each kind of failure.
pub open spec fn message_of(e: CommandError) -> Seq<char> {
    match e {
        CommandError::NotFound(p) => "Directory does not exist: "@ + p@,
        CommandError::NotADirectory(p) => "Path is not a directory: "@ + p@,
        CommandError::ReadFailure(t) => t@,
        CommandError::WriteFailure(t) => t@,
    }
}

/// `head` followed by `tail`.
fn joined(head: &str, tail: &str) -> (r: String)
    ensures
        r@ == head@ + tail@,
{
    let mut r = head.to_owned();
    r.append(tail);
    r
}

impl CommandError {
    /// The text shown to the caller.
    pub fn message(&self) -> (r: String)
        ensures
            r@ == message_of(*self),
    {
        match self {
            CommandError::NotFound(p) => joined("Directory does not exist: ", p.as_str()),
            CommandError::NotADirectory(p) => joined("Path is not a directory: ", p.as_str()),
            CommandError::ReadFailure(t) => t.clone(),
            CommandError::WriteFailure(t) => t.clone(),
        }
    }
}

/// A directory whose contents could not be enumerated.
pub fn directory_read_failure(cause: &str) -> (r: CommandError)
    ensures
        r matches CommandError::ReadFailure(t) && t@ == "Failed to read directory: "@ + cause@,
{
    CommandError::ReadFailure(joined("Failed to read directory: ", cause))
}

/// A file at `path` that could not be read, for the reason `cause`.
pub fn file_read_failure(path: &str, cause: &str) -> (r: CommandError)
    ensures
        r matches CommandError::ReadFailure(t) && t@ == "Failed to read file "@ + path@ + ": "@
            + cause@,
{
    let head = joined("Failed to read file ", path);
    let head = joined(head.as_str(), ": ");
    CommandError::ReadFailure(joined(head.as_str(), cause))
}

/// A file at `path` that could not be written, for the reason `cause`.
pub fn file_write_failure(path: &str, cause: &str) -> (r: CommandError)
    ensures
        r matches CommandError::WriteFailure(t) && t@ == "Failed to save file "@ + path@ + ": "@
            + cause@,
{
    let head = joined("Failed to save file ", path);
    let head = joined(head.as_str(), ": ");
    CommandError::WriteFailure(joined(head.as_str(), cause))
}

} // verus!
