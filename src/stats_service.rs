//! Per-container statistics: one JSON object per running container.
use vstd::prelude::*;
use crate::invoker::{argv, ProcessOutput, RuntimeError};
use crate::json::{json_string_member, string_member};
use crate::models::ContainerStats;
use crate::text::{lines_of, split_lines, views};

verus! {

/// Arguments that take one snapshot of every running container's usage, as
/// one JSON object per line.
pub fn stats_args() -> (r: Vec<String>)
    ensures
        views(r@) == seq!["stats"@, "--no-stream"@, "--format"@, "{{json .}}"@],
{
    let r = argv(&["stats", "--no-stream", "--format", "{{json .}}"]);
    assert(views(r@) =~= seq!["stats"@, "--no-stream"@, "--format"@, "{{json .}}"@]);
    r
}

/// A string member that may be missing, as text: missing reads as empty.
pub open spec fn member_or_empty(m: Option<Seq<char>>) -> Seq<char> {
    match m {
        Some(t) => t,
        None => Seq::empty(),
    }
}

/// The readings of one statistics line: `None` where the line is not a JSON
/// document, else name, cpu, memory and memory percentage, missing ones empty.
pub open spec fn stats_record(line: Seq<char>) -> Option<Seq<Seq<char>>> {
    let name = json_string_member(line, "Name"@);
    let cpu = json_string_member(line, "CPUPerc"@);
    let mem = json_string_member(line, "MemUsage"@);
    let perc = json_string_member(line, "MemPerc"@);
    if name is None || cpu is None || mem is None || perc is None {
        None
    } else {
        Some(
            seq![
                member_or_empty(name->Some_0),
                member_or_empty(cpu->Some_0),
                member_or_empty(mem->Some_0),
                member_or_empty(perc->Some_0),
            ],
        )
    }
}

/// A member that may be missing, as text.
pub fn or_empty(m: Option<String>) -> (r: String)
    ensures
        m is Some ==> r@ == m->Some_0@,
        m is None ==> r@ == Seq::<char>::empty(),
{
    match m {
        Some(t) => t,
        None => String::new(),
    }
}

/// The member `key` of the JSON document `line`; a malformed line is a
/// `Parse` error.
fn member(line: &str, key: &str) -> (r: Result<String, RuntimeError>)
    ensures
        json_string_member(line@, key@) is None <==> r is Err,
        r is Err ==> r matches Err(RuntimeError::Parse),
        r is Ok ==> r->Ok_0@ == member_or_empty(json_string_member(line@, key@)->Some_0),
{
    match string_member(line, key) {
        Ok(m) => Ok(or_empty(m)),
        Err(_) => Err(RuntimeError::Parse),
    }
}

/// The readings of one statistics line.
pub fn parse_stats_line(line: &str) -> (r: Result<ContainerStats, RuntimeError>)
    ensures
        r is Ok <==> stats_record(line@) is Some,
        r is Ok ==> r->Ok_0.field_views() == stats_record(line@)->Some_0,
        r is Err ==> r matches Err(RuntimeError::Parse),
{
    let name = member(line, "Name")?;
    let cpu = member(line, "CPUPerc")?;
    let memory = member(line, "MemUsage")?;
    let memory_percent = member(line, "MemPerc")?;
    let s = ContainerStats { name, cpu, memory, memory_percent };
    assert(s.field_views() =~= stats_record(line@)->Some_0);
    Ok(s)
}

/// The readings of every line of a statistics snapshot, in order; the whole
/// call fails where the command failed or any line is malformed.
pub fn get_all_container_stats(out: &ProcessOutput) -> (r: Result<Vec<ContainerStats>, RuntimeError>)
    ensures
        !out.success ==> (r matches Err(RuntimeError::QueryFailed(m)) && m@
            == "Failed to execute docker stats"@),
        out.success ==> (r is Err <==> exists|i: int|
            0 <= i < lines_of(out.stdout@).len() && #[trigger] stats_record(
                lines_of(out.stdout@)[i],
            ) is None),
        out.success && r is Err ==> r matches Err(RuntimeError::Parse),
        r is Ok ==> (r->Ok_0@.len() == lines_of(out.stdout@).len() && forall|i: int|
            0 <= i < r->Ok_0@.len() ==> #[trigger] r->Ok_0@[i].field_views() == stats_record(
                lines_of(out.stdout@)[i],
            )->Some_0),
{
    if !out.success {
        return Err(RuntimeError::QueryFailed("Failed to execute docker stats".to_owned()));
    }
    let lines = split_lines(out.stdout.as_str());
    let ghost ls = lines_of(out.stdout@);
    let mut all: Vec<ContainerStats> = Vec::new();
    let mut i: usize = 0;
    while i < lines.len()
        invariant
            i <= lines.len(),
            out.success,
            ls == lines_of(out.stdout@),
            views(lines@) == ls,
            all@.len() == i,
            forall|k: int| 0 <= k < i ==> #[trigger] stats_record(ls[k]) is Some,
            forall|k: int|
                0 <= k < i ==> #[trigger] all@[k].field_views() == stats_record(ls[k])->Some_0,
        decreases lines.len() - i,
    {
        assert(ls[i as int] == lines@[i as int]@);
        match parse_stats_line(lines[i].as_str()) {
            Ok(s) => {
                all.push(s);
            },
            Err(e) => {
                assert(stats_record(ls[i as int]) is None);
                return Err(e);
            },
        }
        i = i + 1;
    }
    Ok(all)
}

} // verus!
