//! Image commands of the runtime: their argument vectors and how their
//! captured output becomes a result.
use vstd::prelude::*;
use vstd::string::StringExecFns;
use crate::invoker::{argv, command_outcome, ProcessOutput, RuntimeError};
use crate::listing::{listing_record, split_record};
use crate::models::Image;
use crate::text::{lines_of, split_lines, views};

verus! {

/// Arguments that list every image, one `ID|Repository|Tag|Size` line each.
pub fn list_images_args() -> (r: Vec<String>)
    ensures
        views(r@) == seq!["images"@, "--format"@, "{{.ID}}|{{.Repository}}|{{.Tag}}|{{.Size}}"@],
{
    let r = argv(&["images", "--format", "{{.ID}}|{{.Repository}}|{{.Tag}}|{{.Size}}"]);
    assert(views(r@) =~= seq![
        "images"@,
        "--format"@,
        "{{.ID}}|{{.Repository}}|{{.Tag}}|{{.Size}}"@,
    ]);
    r
}

/// An image from one listing line; missing fields are empty.
pub fn parse_image_line(line: &str) -> (m: Image)
    ensures
        m.field_views() == listing_record(line@),
{
    let (id, name, tag, size) = split_record(line);
    let m = Image { id, name, tag, size };
    assert(m.field_views() =~= listing_record(line@));
    m
}

/// The images of a listing, in the runtime's order, or `QueryFailed` when the
/// listing command failed.
pub fn list_images(out: &ProcessOutput) -> (r: Result<Vec<Image>, RuntimeError>)
    ensures
        !out.success ==> (r matches Err(RuntimeError::QueryFailed(m)) && m@
            == "Failed to fetch images"@),
        out.success ==> (r matches Ok(ms) && ms@.len() == lines_of(out.stdout@).len() && forall|
            i: int,
        |
            0 <= i < ms@.len() ==> #[trigger] ms@[i].field_views() == listing_record(
                lines_of(out.stdout@)[i],
            )),
{
    if !out.success {
        return Err(RuntimeError::QueryFailed("Failed to fetch images".to_owned()));
    }
    let lines = split_lines(out.stdout.as_str());
    let ghost ls = lines_of(out.stdout@);
    let mut ms: Vec<Image> = Vec::new();
    let mut i: usize = 0;
    while i < lines.len()
        invariant
            i <= lines.len(),
            views(lines@) == ls,
            ms@.len() == i,
            forall|k: int| 0 <= k < i ==> #[trigger] ms@[k].field_views() == listing_record(ls[k]),
        decreases lines.len() - i,
    {
        assert(ls[i as int] == lines@[i as int]@);
        ms.push(parse_image_line(lines[i].as_str()));
        i = i + 1;
    }
    Ok(ms)
}

/// The reference `name:tag`.
pub open spec fn image_ref(name: Seq<char>, tag: Seq<char>) -> Seq<char> {
    name + seq![':'] + tag
}

/// Arguments that pull `name:tag`.
pub fn pull_args(name: &str, tag: &str) -> (r: Vec<String>)
    ensures
        views(r@) == seq!["pull"@, image_ref(name@, tag@)],
{
    let mut target = name.to_owned();
    target.append(":");
    target.append(tag);
    proof {
        reveal_strlit(":");
        assert(":"@ =~= seq![':']);
        assert(target@ =~= image_ref(name@, tag@));
    }
    let r = vec!["pull".to_owned(), target];
    assert(views(r@) =~= seq!["pull"@, image_ref(name@, tag@)]);
    r
}

/// The result of a pull.
pub fn pull_image(out: &ProcessOutput) -> (r: Result<String, RuntimeError>)
    ensures
        out.success ==> (r matches Ok(m) && m@ == "Image pulled successfully"@),
        !out.success ==> (r matches Err(RuntimeError::CommandFailed(e)) && e@ == out.stderr@),
{
    command_outcome(out, "Image pulled successfully")
}

/// Arguments that remove the named image.
pub fn remove_image_args(name: &str) -> (r: Vec<String>)
    ensures
        views(r@) == seq!["rmi"@, name@],
{
    let r = vec!["rmi".to_owned(), name.to_owned()];
    assert(views(r@) =~= seq!["rmi"@, name@]);
    r
}

/// The result of removing an image.
pub fn remove_image(out: &ProcessOutput) -> (r: Result<String, RuntimeError>)
    ensures
        out.success ==> (r matches Ok(m) && m@ == "Image removed"@),
        !out.success ==> (r matches Err(RuntimeError::CommandFailed(e)) && e@ == out.stderr@),
{
    command_outcome(out, "Image removed")
}

} // verus!
