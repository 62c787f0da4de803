//! Splitting runtime output into lines and delimited fields.
use vstd::prelude::*;
use vstd::string::*;

verus! {

/// The fields of `s` between occurrences of `sep`, defined on ever longer
/// prefixes of `s`: every character either extends the last field or, when it
/// is the separator, opens a new empty one.
pub open spec fn fields(s: Seq<char>, sep: char) -> Seq<Seq<char>>
    decreases s.len(),
{
    if s.len() == 0 {
        seq![Seq::<char>::empty()]
    } else {
        let prev = fields(s.drop_last(), sep);
        if s.last() == sep {
            prev.push(Seq::<char>::empty())
        } else {
            prev.update(prev.len() - 1, prev.last().push(s.last()))
        }
    }
}

/// The `i`-th field, or the empty text where fewer fields are present.
pub open spec fn field_or_empty(fs: Seq<Seq<char>>, i: int) -> Seq<char> {
    if 0 <= i < fs.len() {
        fs[i]
    } else {
        Seq::<char>::empty()
    }
}

/// `l` without one trailing carriage return.
pub open spec fn strip_cr(l: Seq<char>) -> Seq<char> {
    if l.len() > 0 && l.last() == '\r' {
        l.drop_last()
    } else {
        l
    }
}

/// The newline-separated lines of `s`: a final terminator opens no extra line,
/// and a carriage return before a newline belongs to the terminator.
pub open spec fn lines_of(s: Seq<char>) -> Seq<Seq<char>> {
    let f = fields(s, '\n');
    let kept = if f.last().len() == 0 {
        f.drop_last()
    } else {
        f
    };
    kept.map_values(|l: Seq<char>| strip_cr(l))
}

/// The views of a vector of strings.
pub open spec fn views(v: Seq<String>) -> Seq<Seq<char>> {
    v.map_values(|x: String| x@)
}

/// The view of an optional string.
pub open spec fn opt_view(o: Option<String>) -> Option<Seq<char>> {
    match o {
        Some(s) => Some(s@),
        None => None,
    }
}

/// Texts without the separator `sep`.
pub open spec fn free_of(fs: Seq<Seq<char>>, sep: char) -> bool {
    forall|i: int, j: int| 0 <= i < fs.len() && 0 <= j < fs[i].len() ==> fs[i][j] != sep
}

/// The texts of `fs` written one after another with `sep` between neighbours.
pub open spec fn joined(fs: Seq<Seq<char>>, sep: char) -> Seq<char>
    decreases fs.len(),
{
    if fs.len() <= 1 {
        if fs.len() == 0 {
            Seq::<char>::empty()
        } else {
            fs[0]
        }
    } else {
        joined(fs.drop_last(), sep).push(sep) + fs.last()
    }
}

pub proof fn lemma_fields_nonempty(s: Seq<char>, sep: char)
    ensures
        fields(s, sep).len() >= 1,
    decreases s.len(),
{
    if s.len() > 0 {
        lemma_fields_nonempty(s.drop_last(), sep);
    }
}

/// Appending text free of the separator extends the last field only.
pub proof fn lemma_fields_extend(p: Seq<char>, q: Seq<char>, sep: char)
    requires
        forall|j: int| 0 <= j < q.len() ==> q[j] != sep,
    ensures
        fields(p + q, sep) == fields(p, sep).update(
            fields(p, sep).len() - 1,
            fields(p, sep).last() + q,
        ),
    decreases q.len(),
{
    lemma_fields_nonempty(p, sep);
    if q.len() == 0 {
        assert(p + q =~= p);
        assert(fields(p, sep).last() + q =~= fields(p, sep).last());
        assert(fields(p, sep).update(fields(p, sep).len() - 1, fields(p, sep).last())
            =~= fields(p, sep));
    } else {
        let q0 = q.drop_last();
        lemma_fields_extend(p, q0, sep);
        assert((p + q).drop_last() =~= p + q0);
        assert((p + q).last() == q.last());
        assert(fields(p, sep).last() + q =~= (fields(p, sep).last() + q0).push(q.last()));
        assert(fields(p + q, sep) =~= fields(p, sep).update(
            fields(p, sep).len() - 1,
            fields(p, sep).last() + q,
        ));
    }
}

/// Splitting a joined sequence of separator-free texts gives the texts back.
pub proof fn lemma_fields_of_joined(fs: Seq<Seq<char>>, sep: char)
    requires
        fs.len() >= 1,
        free_of(fs, sep),
    ensures
        fields(joined(fs, sep), sep) == fs,
    decreases fs.len(),
{
    if fs.len() == 1 {
        lemma_fields_extend(Seq::<char>::empty(), fs[0], sep);
        assert(Seq::<char>::empty() + fs[0] =~= fs[0]);
        assert(fields(Seq::<char>::empty(), sep).last() + fs[0] =~= fs[0]);
        assert(fields(joined(fs, sep), sep) =~= fs);
    } else {
        let init = fs.drop_last();
        assert(free_of(init, sep)) by {
            assert forall|i: int, j: int| 0 <= i < init.len() && 0 <= j < init[i].len() implies
                init[i][j] != sep by {
                assert(init[i] == fs[i]);
            }
        }
        lemma_fields_of_joined(init, sep);
        let p = joined(init, sep).push(sep);
        assert(p.drop_last() =~= joined(init, sep));
        assert(fields(p, sep) == init.push(Seq::<char>::empty()));
        assert forall|j: int| 0 <= j < fs.last().len() implies fs.last()[j] != sep by {
            assert(fs.last() == fs[fs.len() - 1]);
        }
        lemma_fields_extend(p, fs.last(), sep);
        assert(Seq::<char>::empty() + fs.last() =~= fs.last());
        assert(fields(joined(fs, sep), sep) =~= fs);
    }
}

/// The characters of `s`, one by one.
pub fn chars_of(s: &str) -> (r: Vec<char>)
    ensures
        r@ == s@,
{
    let mut r: Vec<char> = Vec::new();
    for c in it: s.chars()
        invariant
            r@ == it.seq().take(it.index() as int),
    {
        r.push(c);
    }
    r
}

/// The fields of `s` separated by `sep`, each as an owned string.
pub fn split_fields(s: &str, sep: char) -> (r: Vec<String>)
    ensures
        views(r@) == fields(s@, sep),
{
    let cs = chars_of(s);
    let n = cs.len();
    let mut out: Vec<String> = Vec::new();
    let mut start: usize = 0;
    let mut i: usize = 0;
    proof {
        assert(s@.take(0) =~= Seq::<char>::empty());
        assert(views(out@).push(s@.subrange(0, 0)) =~= seq![Seq::<char>::empty()]);
    }
    while i < n
        invariant
            cs@ == s@,
            n == cs.len(),
            start <= i <= n,
            views(out@).push(s@.subrange(start as int, i as int)) == fields(s@.take(i as int), sep),
        decreases n - i,
    {
        let c = cs[i];
        proof {
            assert(s@.take(i + 1).drop_last() =~= s@.take(i as int));
            assert(s@.take(i + 1).last() == c);
        }
        if c == sep {
            let piece = s.substring_char(start, i).to_owned();
            proof {
                assert(views(out@.push(piece)) =~= views(out@).push(piece@));
            }
            out.push(piece);
            start = i + 1;
            proof {
                assert(s@.subrange(start as int, (i + 1) as int) =~= Seq::<char>::empty());
            }
        } else {
            proof {
                assert(s@.subrange(start as int, (i + 1) as int) =~= s@.subrange(
                    start as int,
                    i as int,
                ).push(c));
                assert(views(out@).push(s@.subrange(start as int, (i + 1) as int)) =~= views(
                    out@,
                ).push(s@.subrange(start as int, i as int)).update(
                    views(out@).len() as int,
                    s@.subrange(start as int, i as int).push(c),
                ));
            }
        }
        i = i + 1;
    }
    let last = s.substring_char(start, n).to_owned();
    proof {
        assert(s@.take(n as int) =~= s@);
        assert(views(out@.push(last)) =~= views(out@).push(last@));
    }
    out.push(last);
    out
}

/// `l` without one trailing carriage return.
pub fn without_cr(l: &str) -> (r: String)
    ensures
        r@ == strip_cr(l@),
{
    let n = l.unicode_len();
    if n > 0 && l.get_char(n - 1) == '\r' {
        let r = l.substring_char(0, n - 1).to_owned();
        proof {
            assert(r@ =~= l@.drop_last());
        }
        r
    } else {
        l.to_owned()
    }
}

/// The lines of `s`, as the runtime writes one record per line.
pub fn split_lines(s: &str) -> (r: Vec<String>)
    ensures
        views(r@) == lines_of(s@),
{
    let mut fs = split_fields(s, '\n');
    proof {
        lemma_fields_nonempty(s@, '\n');
    }
    let ghost all = views(fs@);
    let nf = fs.len();
    if fs[nf - 1].unicode_len() == 0 {
        fs.pop();
        proof {
            assert(views(fs@) =~= all.drop_last());
        }
    }
    let ghost kept = views(fs@);
    assert(kept == if all.last().len() == 0 { all.drop_last() } else { all });
    let mut out: Vec<String> = Vec::new();
    let mut i: usize = 0;
    while i < fs.len()
        invariant
            i <= fs.len(),
            kept == views(fs@),
            views(out@) == kept.take(i as int).map_values(|l: Seq<char>| strip_cr(l)),
        decreases fs.len() - i,
    {
        let line = without_cr(fs[i].as_str());
        proof {
            assert(kept[i as int] == fs@[i as int]@);
            assert(kept.take(i + 1) =~= kept.take(i as int).push(kept[i as int]));
            assert(line@ == strip_cr(kept[i as int]));
            assert(views(out@.push(line)) =~= views(out@).push(line@));
            assert(kept.take(i + 1).map_values(|l: Seq<char>| strip_cr(l)) =~= kept.take(
                i as int,
            ).map_values(|l: Seq<char>| strip_cr(l)).push(strip_cr(kept[i as int])));
            assert(views(out@.push(line)) =~= kept.take(i + 1).map_values(
                |l: Seq<char>| strip_cr(l),
            ));
        }
        out.push(line);
        i = i + 1;
    }
    proof {
        assert(kept.take(i as int) =~= kept);
    }
    out
}

} // verus!
