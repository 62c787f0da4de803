//! Aggregate counts queried from the runtime.
use vstd::prelude::*;
use crate::invoker::{argv, ProcessOutput, RuntimeError};
use crate::models::SystemStats;
use crate::text::{lines_of, split_lines, views};

verus! {

/// Arguments that list the identifiers of all containers, one per line.
pub fn all_containers_args() -> (r: Vec<String>)
    ensures
        views(r@) == seq!["ps"@, "-a"@, "-q"@],
{
    let r = argv(&["ps", "-a", "-q"]);
    assert(views(r@) =~= seq!["ps"@, "-a"@, "-q"@]);
    r
}

/// Arguments that list the identifiers of running containers, one per line.
pub fn running_containers_args() -> (r: Vec<String>)
    ensures
        views(r@) == seq!["ps"@, "-q"@],
{
    let r = argv(&["ps", "-q"]);
    assert(views(r@) =~= seq!["ps"@, "-q"@]);
    r
}

/// Arguments that list the identifiers of images, one per line.
pub fn images_args() -> (r: Vec<String>)
    ensures
        views(r@) == seq!["images"@, "-q"@],
{
    let r = argv(&["images", "-q"]);
    assert(views(r@) =~= seq!["images"@, "-q"@]);
    r
}

/// The number of lines of `s`.
pub fn count_lines(s: &str) -> (r: usize)
    ensures
        r == lines_of(s@).len(),
{
    let lines = split_lines(s);
    assert(views(lines@).len() == lines@.len());
    lines.len()
}

/// The counts from three listings: all containers, running containers and
/// images; any failed listing fails the whole aggregation.
pub fn get_stats(
    all: &ProcessOutput,
    running: &ProcessOutput,
    images: &ProcessOutput,
) -> (r: Result<SystemStats, RuntimeError>)
    ensures
        !(all.success && running.success && images.success) ==> (r matches Err(
            RuntimeError::QueryFailed(m),
        ) && m@ == "Failed to fetch Docker stats"@),
        all.success && running.success && images.success ==> (r matches Ok(st)
            && st.total_containers == lines_of(all.stdout@).len() && st.running_containers
            == lines_of(running.stdout@).len() && st.total_images == lines_of(
            images.stdout@,
        ).len()),
{
    if !all.success || !running.success || !images.success {
        return Err(RuntimeError::QueryFailed("Failed to fetch Docker stats".to_owned()));
    }
    Ok(
        SystemStats {
            total_containers: count_lines(all.stdout.as_str()),
            running_containers: count_lines(running.stdout.as_str()),
            total_images: count_lines(images.stdout.as_str()),
        },
    )
}

} // verus!
