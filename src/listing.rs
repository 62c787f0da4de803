//! Delimited listing records: one record per line, fields joined by `|`.
use vstd::prelude::*;
use crate::text::{fields, field_or_empty, free_of, joined, lemma_fields_of_joined, split_fields, views};

verus! {

/// The separator that the listing formats put between fields.
pub const FIELD_SEP: char = '|';

/// The four fields of a listing line, missing ones empty.
pub open spec fn listing_record(line: Seq<char>) -> Seq<Seq<char>> {
    let fs = fields(line, FIELD_SEP);
    seq![
        field_or_empty(fs, 0),
        field_or_empty(fs, 1),
        field_or_empty(fs, 2),
        field_or_empty(fs, 3),
    ]
}

/// The `i`-th field, or an empty string where there are fewer.
pub fn field_at(fs: &Vec<String>, i: usize) -> (r: String)
    ensures
        r@ == field_or_empty(views(fs@), i as int),
{
    if i < fs.len() {
        fs[i].clone()
    } else {
        String::new()
    }
}

/// The four fields of one listing line.
pub fn split_record(line: &str) -> (r: (String, String, String, String))
    ensures
        seq![r.0@, r.1@, r.2@, r.3@] == listing_record(line@),
{
    let fs = split_fields(line, FIELD_SEP);
    (field_at(&fs, 0), field_at(&fs, 1), field_at(&fs, 2), field_at(&fs, 3))
}

/// A listing line of at most four separator-free fields reads back as those
/// fields, and every field beyond the ones given reads as empty.
pub proof fn lemma_listing_record_of_joined(fs: Seq<Seq<char>>)
    requires
        1 <= fs.len() <= 4,
        free_of(fs, FIELD_SEP),
    ensures
        forall|i: int| 0 <= i < 4 ==> #[trigger] listing_record(joined(fs, FIELD_SEP))[i]
            == field_or_empty(fs, i),
{
    lemma_fields_of_joined(fs, FIELD_SEP);
}

} // verus!
