//! What the batch paths emit: one row of six forms per requested code for
//! tabular output, and one delimiter-joined line per requested code for the
//! console. A requested code whose cell is absent emits no row and no line.

use vstd::prelude::*;
use crate::text::{join_parts, join_spec};
use crate::verb::{slot_of, Verb};

verus! {

/// The rows one requested code contributes: its six forms when its cell is
/// filled, nothing otherwise.
pub open spec fn row_cell(v: Verb, c: Seq<char>) -> Seq<Seq<Seq<char>>> {
    match slot_of(v, c) {
        Some(fs) => seq![fs],
        None => Seq::empty(),
    }
}

/// The rows a whole request emits, in request order.
pub open spec fn rows_spec(v: Verb, rs: Seq<Seq<char>>) -> Seq<Seq<Seq<char>>>
    decreases rs.len(),
{
    if rs.len() == 0 {
        Seq::empty()
    } else {
        row_cell(v, rs[0]) + rows_spec(v, rs.skip(1))
    }
}

/// The console lines one requested code contributes: its forms joined with
/// `", "` when its cell is filled, nothing otherwise.
pub open spec fn line_cell(v: Verb, c: Seq<char>) -> Seq<Seq<char>> {
    match slot_of(v, c) {
        Some(fs) => seq![join_spec(fs)],
        None => Seq::empty(),
    }
}

/// The console lines a whole request emits, in request order.
pub open spec fn lines_spec(v: Verb, rs: Seq<Seq<char>>) -> Seq<Seq<char>>
    decreases rs.len(),
{
    if rs.len() == 0 {
        Seq::empty()
    } else {
        line_cell(v, rs[0]) + lines_spec(v, rs.skip(1))
    }
}

proof fn lemma_rows_push(v: Verb, rs: Seq<Seq<char>>, c: Seq<char>)
    ensures
        rows_spec(v, rs.push(c)) == rows_spec(v, rs) + row_cell(v, c),
    decreases rs.len(),
{
    if rs.len() == 0 {
        assert(rs.push(c).skip(1) =~= rs);
        assert(rows_spec(v, rs.push(c)) =~= rows_spec(v, rs) + row_cell(v, c));
    } else {
        assert(rs.push(c).skip(1) =~= rs.skip(1).push(c));
        lemma_rows_push(v, rs.skip(1), c);
        assert(rows_spec(v, rs.push(c)) =~= rows_spec(v, rs) + row_cell(v, c));
    }
}

proof fn lemma_lines_push(v: Verb, rs: Seq<Seq<char>>, c: Seq<char>)
    ensures
        lines_spec(v, rs.push(c)) == lines_spec(v, rs) + line_cell(v, c),
    decreases rs.len(),
{
    if rs.len() == 0 {
        assert(rs.push(c).skip(1) =~= rs);
        assert(lines_spec(v, rs.push(c)) =~= lines_spec(v, rs) + line_cell(v, c));
    } else {
        assert(rs.push(c).skip(1) =~= rs.skip(1).push(c));
        lemma_lines_push(v, rs.skip(1), c);
        assert(lines_spec(v, rs.push(c)) =~= lines_spec(v, rs) + line_cell(v, c));
    }
}

/// A fresh copy of one cell's forms.
fn clone_forms(v: &Vec<String>) -> (r: Vec<String>)
    ensures
        r.deep_view() == v.deep_view(),
{
    let mut r: Vec<String> = Vec::new();
    let mut i: usize = 0;
    while i < v.len()
        invariant
            i <= v.len(),
            v.deep_view().len() == v.len(),
            r.deep_view() == v.deep_view().subrange(0, i as int),
        decreases v.len() - i,
    {
        let ghost r_pre = r.deep_view();
        r.push(String::from_str(v[i].as_str()));
        proof {
            assert(r_pre.len() == i as int);
            assert(r.deep_view() =~= v.deep_view().subrange(0, i + 1));
        }
        i += 1;
    }
    proof {
        assert(v.deep_view().subrange(0, v.deep_view().len() as int) =~= v.deep_view());
    }
    r
}

/// The rows to persist for a request: one row of six forms per requested
/// code whose cell is filled, in request order; no row for an absent cell.
pub fn rows_for(vb: &Verb, reqs: &Vec<String>) -> (rows: Vec<Vec<String>>)
    ensures
        rows.deep_view() == rows_spec(*vb, reqs.deep_view()),
{
    let ghost rs = reqs.deep_view();
    let mut rows: Vec<Vec<String>> = Vec::new();
    let mut i: usize = 0;
    while i < reqs.len()
        invariant
            i <= reqs.len(),
            rs == reqs.deep_view(),
            rs.len() == reqs.len(),
            rows.deep_view() == rows_spec(*vb, rs.subrange(0, i as int)),
        decreases reqs.len() - i,
    {
        proof {
            lemma_rows_push(*vb, rs.subrange(0, i as int), rs[i as int]);
            assert(rs.subrange(0, i + 1) =~= rs.subrange(0, i as int).push(rs[i as int]));
        }
        match vb.lookup(reqs[i].as_str()) {
            Some(forms) => {
                let row = clone_forms(forms);
                rows.push(row);
                proof {
                    assert(rows.deep_view() =~= rows_spec(*vb, rs.subrange(0, i + 1)));
                }
            },
            None => {
                proof {
                    assert(rows.deep_view() =~= rows_spec(*vb, rs.subrange(0, i + 1)));
                }
            },
        }
        i += 1;
    }
    proof {
        assert(rs.subrange(0, rs.len() as int) =~= rs);
    }
    rows
}

/// The console lines for a request: one joined line per requested code
/// whose cell is filled, in request order; no line and no placeholder for
/// an absent cell.
pub fn lines_for(vb: &Verb, reqs: &Vec<String>) -> (lines: Vec<String>)
    ensures
        lines.deep_view() == lines_spec(*vb, reqs.deep_view()),
{
    let ghost rs = reqs.deep_view();
    let mut lines: Vec<String> = Vec::new();
    let mut i: usize = 0;
    while i < reqs.len()
        invariant
            i <= reqs.len(),
            rs == reqs.deep_view(),
            rs.len() == reqs.len(),
            lines.deep_view() == lines_spec(*vb, rs.subrange(0, i as int)),
        decreases reqs.len() - i,
    {
        proof {
            lemma_lines_push(*vb, rs.subrange(0, i as int), rs[i as int]);
            assert(rs.subrange(0, i + 1) =~= rs.subrange(0, i as int).push(rs[i as int]));
        }
        match vb.lookup(reqs[i].as_str()) {
            Some(forms) => {
                let line = join_parts(forms);
                lines.push(line);
                proof {
                    assert(lines.deep_view() =~= lines_spec(*vb, rs.subrange(0, i + 1)));
                }
            },
            None => {
                proof {
                    assert(lines.deep_view() =~= lines_spec(*vb, rs.subrange(0, i + 1)));
                }
            },
        }
        i += 1;
    }
    proof {
        assert(rs.subrange(0, rs.len() as int) =~= rs);
    }
    lines
}

} // verus!
