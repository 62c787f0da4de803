//! Container commands of the runtime: their argument vectors and how their
//! captured output becomes a result.
use vstd::prelude::*;
use crate::invoker::{argv, command_outcome, ProcessOutput, RuntimeError};
use crate::listing::{listing_record, split_record};
use crate::models::Container;
use crate::text::{lines_of, opt_view, split_lines, views};

verus! {

/// Arguments that list every container, one `ID|Names|Image|Status` line each.
pub fn list_containers_args() -> (r: Vec<String>)
    ensures
        views(r@) == seq![
            "ps"@,
            "-a"@,
            "--format"@,
            "{{.ID}}|{{.Names}}|{{.Image}}|{{.Status}}"@,
        ],
{
    let r = argv(&["ps", "-a", "--format", "{{.ID}}|{{.Names}}|{{.Image}}|{{.Status}}"]);
    assert(views(r@) =~= seq![
        "ps"@,
        "-a"@,
        "--format"@,
        "{{.ID}}|{{.Names}}|{{.Image}}|{{.Status}}"@,
    ]);
    r
}

/// A container from one listing line; missing fields are empty.
pub fn parse_container_line(line: &str) -> (c: Container)
    ensures
        c.field_views() == listing_record(line@),
{
    let (id, name, image, status) = split_record(line);
    let c = Container { id, name, image, status };
    assert(c.field_views() =~= listing_record(line@));
    c
}

/// The containers of a listing, in the runtime's order, or `QueryFailed` when
/// the listing command failed.
pub fn list_containers(out: &ProcessOutput) -> (r: Result<Vec<Container>, RuntimeError>)
    ensures
        !out.success ==> (r matches Err(RuntimeError::QueryFailed(m)) && m@
            == "Failed to fetch containers"@),
        out.success ==> (r matches Ok(cs) && cs@.len() == lines_of(out.stdout@).len() && forall|
            i: int,
        |
            0 <= i < cs@.len() ==> #[trigger] cs@[i].field_views() == listing_record(
                lines_of(out.stdout@)[i],
            )),
{
    if !out.success {
        return Err(RuntimeError::QueryFailed("Failed to fetch containers".to_owned()));
    }
    let lines = split_lines(out.stdout.as_str());
    let ghost ls = lines_of(out.stdout@);
    let mut cs: Vec<Container> = Vec::new();
    let mut i: usize = 0;
    while i < lines.len()
        invariant
            i <= lines.len(),
            views(lines@) == ls,
            cs@.len() == i,
            forall|k: int| 0 <= k < i ==> #[trigger] cs@[k].field_views() == listing_record(ls[k]),
        decreases lines.len() - i,
    {
        assert(ls[i as int] == lines@[i as int]@);
        cs.push(parse_container_line(lines[i].as_str()));
        i = i + 1;
    }
    Ok(cs)
}

/// Arguments that start the named container.
pub fn start_args(name: &str) -> (r: Vec<String>)
    ensures
        views(r@) == seq!["start"@, name@],
{
    let r = vec!["start".to_owned(), name.to_owned()];
    assert(views(r@) =~= seq!["start"@, name@]);
    r
}

/// Arguments that stop the named container.
pub fn stop_args(name: &str) -> (r: Vec<String>)
    ensures
        views(r@) == seq!["stop"@, name@],
{
    let r = vec!["stop".to_owned(), name.to_owned()];
    assert(views(r@) =~= seq!["stop"@, name@]);
    r
}

/// Arguments that remove the named container; a best-effort stop comes first.
pub fn remove_args(name: &str) -> (r: Vec<String>)
    ensures
        views(r@) == seq!["rm"@, name@],
{
    let r = vec!["rm".to_owned(), name.to_owned()];
    assert(views(r@) =~= seq!["rm"@, name@]);
    r
}

/// The result of a `start` invocation.
pub fn start_container(out: &ProcessOutput) -> (r: Result<String, RuntimeError>)
    ensures
        out.success ==> (r matches Ok(m) && m@ == "Container started"@),
        !out.success ==> (r matches Err(RuntimeError::CommandFailed(e)) && e@ == out.stderr@),
{
    command_outcome(out, "Container started")
}

/// The result of a `stop` invocation.
pub fn stop_container(out: &ProcessOutput) -> (r: Result<String, RuntimeError>)
    ensures
        out.success ==> (r matches Ok(m) && m@ == "Container stopped"@),
        !out.success ==> (r matches Err(RuntimeError::CommandFailed(e)) && e@ == out.stderr@),
{
    command_outcome(out, "Container stopped")
}

/// The result of removing a container: only the removal itself counts, the
/// stop before it may fail for a container that is not running.
pub fn remove_container(out: &ProcessOutput) -> (r: Result<String, RuntimeError>)
    ensures
        out.success ==> (r matches Ok(m) && m@ == "Container removed"@),
        !out.success ==> (r matches Err(RuntimeError::CommandFailed(e)) && e@ == out.stderr@),
{
    command_outcome(out, "Container removed")
}

/// The optional text as a sequence of zero or one arguments.
pub open spec fn optional_arg(o: Option<Seq<char>>) -> Seq<Seq<char>> {
    match o {
        Some(v) => seq![v],
        None => Seq::empty(),
    }
}

/// A flag with its value, or nothing when the value is absent.
pub open spec fn optional_flag(flag: Seq<char>, o: Option<Seq<char>>) -> Seq<Seq<char>> {
    match o {
        Some(v) => seq![flag, v],
        None => Seq::empty(),
    }
}

/// The arguments of a detached run: mode flags, name, port mapping, image,
/// command override, each optional part left out when absent.
pub open spec fn run_argv(
    image: Seq<char>,
    name: Option<Seq<char>>,
    ports: Option<Seq<char>>,
    cmd: Option<Seq<char>>,
) -> Seq<Seq<char>> {
    seq!["run"@, "-d"@] + optional_flag("--name"@, name) + optional_flag("-p"@, ports) + seq![image]
        + optional_arg(cmd)
}

/// Arguments that run `image` detached, in the order the runtime expects.
pub fn run_args(image: String, name: Option<String>, ports: Option<String>, cmd: Option<String>) -> (r: Vec<String>)
    ensures
        views(r@) == run_argv(image@, opt_view(name), opt_view(ports), opt_view(cmd)),
{
    let mut args: Vec<String> = vec!["run".to_owned(), "-d".to_owned()];
    let ghost e1 = seq!["run"@, "-d"@];
    assert(views(args@) =~= e1);
    let ghost e2 = e1 + optional_flag("--name"@, opt_view(name));
    match name {
        Some(n) => {
            args.push("--name".to_owned());
            args.push(n);
        },
        None => {},
    }
    assert(views(args@) =~= e2);
    let ghost e3 = e2 + optional_flag("-p"@, opt_view(ports));
    match ports {
        Some(p) => {
            args.push("-p".to_owned());
            args.push(p);
        },
        None => {},
    }
    assert(views(args@) =~= e3);
    let ghost e4 = e3 + seq![image@];
    args.push(image);
    assert(views(args@) =~= e4);
    let ghost e5 = e4 + optional_arg(opt_view(cmd));
    match cmd {
        Some(c) => {
            args.push(c);
        },
        None => {},
    }
    assert(views(args@) =~= e5);
    args
}

/// The result of a detached run.
pub fn run_container(out: &ProcessOutput) -> (r: Result<String, RuntimeError>)
    ensures
        out.success ==> (r matches Ok(m) && m@ == "Container started successfully"@),
        !out.success ==> (r matches Err(RuntimeError::CommandFailed(e)) && e@ == out.stderr@),
{
    command_outcome(out, "Container started successfully")
}

} // verus!
