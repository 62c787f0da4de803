//! Streaming commands (build, exec, logs): their argument vectors and the
//! protocol that forwards each output line to a listener as it arrives.
use vstd::prelude::*;
use crate::invoker::RuntimeError;
use crate::text::views;

verus! {

/// Arguments that build an image tagged `tag` from the context at `path`.
pub fn build_args(path: &str, tag: &str) -> (r: Vec<String>)
    ensures
        views(r@) == seq!["build"@, "-t"@, tag@, path@],
{
    let r = vec!["build".to_owned(), "-t".to_owned(), tag.to_owned(), path.to_owned()];
    assert(views(r@) =~= seq!["build"@, "-t"@, tag@, path@]);
    r
}

/// Arguments that run `command` through a shell inside `container`.
pub fn exec_args(container: &str, command: &str) -> (r: Vec<String>)
    ensures
        views(r@) == seq!["exec"@, "-i"@, container@, "sh"@, "-c"@, command@],
{
    let r = vec![
        "exec".to_owned(),
        "-i".to_owned(),
        container.to_owned(),
        "sh".to_owned(),
        "-c".to_owned(),
        command.to_owned(),
    ];
    assert(views(r@) =~= seq!["exec"@, "-i"@, container@, "sh"@, "-c"@, command@]);
    r
}

/// Arguments that follow the log stream of `container`.
pub fn logs_args(container: &str) -> (r: Vec<String>)
    ensures
        views(r@) == seq!["logs"@, "-f"@, container@],
{
    let r = vec!["logs".to_owned(), "-f".to_owned(), container.to_owned()];
    assert(views(r@) =~= seq!["logs"@, "-f"@, container@]);
    r
}

/// The three streaming commands.
#[derive(Clone, Copy, Debug, PartialEq, Eq, Structural)]
pub enum StreamKind {
    Build,
    Exec,
    Logs,
}

/// The event channel on which a stream's lines are emitted.
pub open spec fn channel_of(kind: StreamKind) -> Seq<char> {
    match kind {
        StreamKind::Build => "build-log"@,
        StreamKind::Exec => "exec-output"@,
        StreamKind::Logs => "container-log"@,
    }
}

impl StreamKind {
    pub fn channel(&self) -> (r: &'static str)
        ensures
            r@ == channel_of(*self),
    {
        match self {
            StreamKind::Build => "build-log",
            StreamKind::Exec => "exec-output",
            StreamKind::Logs => "container-log",
        }
    }
}

/// What happened to a running streaming command.
pub enum StreamEvent {
    /// A complete line of output, without its terminator.
    Line(String),
    /// The output stream closed.
    Closed,
    /// The command exited; whether with success.
    Exited(bool),
    /// Reading the output failed.
    ReadFailed(String),
}

/// What the runner does next.
#[derive(Debug)]
pub enum StreamAction {
    /// Emit `line` on `channel`, ignoring whether any listener took it, and
    /// read on.
    Emit { channel: String, line: String },
    /// Wait for the command's exit status.
    AwaitExit,
    /// Stop with this result.
    Finish(Result<String, RuntimeError>),
}

/// The step of the forwarding protocol for one event: lines are forwarded in
/// the order they arrive; after the stream closes a build waits for its exit
/// status and succeeds only on a zero exit, while exec and logs are done.
pub fn next_action(kind: StreamKind, event: StreamEvent) -> (a: StreamAction)
    ensures
        event matches StreamEvent::Line(l) ==> (a matches StreamAction::Emit { channel, line }
            && channel@ == channel_of(kind) && line@ == l@),
        event is Closed && kind is Build ==> a is AwaitExit,
        event is Closed && !(kind is Build) ==> (a matches StreamAction::Finish(Ok(m)) && m@
            == Seq::<char>::empty()),
        event matches StreamEvent::Exited(ok) ==> (ok ==> (a matches StreamAction::Finish(Ok(m))
            && m@ == "Build completed successfully"@)) && (!ok ==> a matches StreamAction::Finish(
            Err(RuntimeError::BuildFailed),
        )),
        event matches StreamEvent::ReadFailed(e) ==> (a matches StreamAction::Finish(
            Err(RuntimeError::ReadFailed(m)),
        ) && m@ == e@),
{
    match event {
        StreamEvent::Line(line) => StreamAction::Emit { channel: kind.channel().to_owned(), line },
        StreamEvent::Closed => {
            if kind == StreamKind::Build {
                StreamAction::AwaitExit
            } else {
                StreamAction::Finish(Ok(String::new()))
            }
        },
        StreamEvent::Exited(ok) => {
            if ok {
                StreamAction::Finish(Ok("Build completed successfully".to_owned()))
            } else {
                StreamAction::Finish(Err(RuntimeError::BuildFailed))
            }
        },
        StreamEvent::ReadFailed(e) => StreamAction::Finish(Err(RuntimeError::ReadFailed(e))),
    }
}

} // verus!
