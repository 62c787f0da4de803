//! What a batch invocation of the runtime binary hands back, and the errors of
//! the orchestrator.
use vstd::prelude::*;
use crate::text::views;

verus! {

/// The runtime binary that every command invokes.
pub const RUNTIME_BINARY: &'static str = "docker";

/// The captured result of a batch invocation that could be launched.
#[derive(Debug)]
pub struct ProcessOutput {
    pub success: bool,
    pub stdout: String,
    pub stderr: String,
}

/// The failures that an operation reports to its caller.
#[derive(Debug)]
pub enum RuntimeError {
    /// The runtime binary could not be launched.
    Spawn(String),
    /// The runtime ran and failed; its error output, verbatim.
    CommandFailed(String),
    /// A listing or statistics query exited with failure.
    QueryFailed(String),
    /// The state store holds no record with this identifier.
    NotFound(String),
    /// A statistics line was not a JSON document.
    Parse,
    /// A build exited with failure.
    BuildFailed,
    /// Reading a streaming command's output failed.
    ReadFailed(String),
}

impl RuntimeError {
    /// The text shown to a user for this error.
    pub fn message(&self) -> (r: String)
        ensures
            self matches RuntimeError::Spawn(m) ==> r@ == m@,
            self matches RuntimeError::CommandFailed(m) ==> r@ == m@,
            self matches RuntimeError::QueryFailed(m) ==> r@ == m@,
            self matches RuntimeError::NotFound(id) ==> r@ == "No such record: "@ + id@,
            self is Parse ==> r@ == "Malformed statistics output"@,
            self is BuildFailed ==> r@ == "Build failed"@,
            self matches RuntimeError::ReadFailed(m) ==> r@ == m@,
    {
        match self {
            RuntimeError::Spawn(m) => m.clone(),
            RuntimeError::CommandFailed(m) => m.clone(),
            RuntimeError::QueryFailed(m) => m.clone(),
            RuntimeError::NotFound(id) => {
                let mut r = "No such record: ".to_owned();
                r.append(id.as_str());
                r
            },
            RuntimeError::Parse => "Malformed statistics output".to_owned(),
            RuntimeError::BuildFailed => "Build failed".to_owned(),
            RuntimeError::ReadFailed(m) => m.clone(),
        }
    }
}

/// The result of a command whose success is its exit status: the given
/// message on success, the runtime's error output otherwise.
pub fn command_outcome(out: &ProcessOutput, done: &str) -> (r: Result<String, RuntimeError>)
    ensures
        out.success ==> (r matches Ok(m) && m@ == done@),
        !out.success ==> (r matches Err(RuntimeError::CommandFailed(e)) && e@ == out.stderr@),
{
    if out.success {
        Ok(done.to_owned())
    } else {
        Err(RuntimeError::CommandFailed(out.stderr.clone()))
    }
}

/// An owned argument vector from its parts.
pub fn argv(parts: &[&str]) -> (r: Vec<String>)
    ensures
        r@.len() == parts@.len(),
        forall|i: int| 0 <= i < parts@.len() ==> #[trigger] r@[i]@ == parts@[i]@,
{
    let mut r: Vec<String> = Vec::new();
    let mut i: usize = 0;
    while i < parts.len()
        invariant
            i <= parts@.len(),
            r@.len() == i,
            forall|k: int| 0 <= k < i ==> #[trigger] r@[k]@ == parts@[k]@,
        decreases parts@.len() - i,
    {
        r.push(parts[i].to_owned());
        i = i + 1;
    }
    r
}

} // verus!
