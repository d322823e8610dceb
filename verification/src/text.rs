//! Character-level helpers shared by the classifier, the engine and the
//! formatter: string equality, locating the tag separator, and joining a
//! sequence of forms with a fixed delimiter.

use vstd::prelude::*;

verus! {

/// True exactly when the two string slices hold the same characters.
pub(crate) fn str_eq(a: &str, b: &str) -> (r: bool)
    ensures
        r <==> a@ == b@,
{
    let na = a.unicode_len();
    let nb = b.unicode_len();
    if na != nb {
        return false;
    }
    let mut i: usize = 0;
    while i < na
        invariant
            i <= na,
            na == a@.len(),
            na == b@.len(),
            forall|j: int| 0 <= j < i ==> a@[j] == b@[j],
        decreases na - i,
    {
        if a.get_char(i) != b.get_char(i) {
            return false;
        }
        i += 1;
    }
    proof {
        assert(a@ =~= b@);
    }
    true
}

/// Index of the first `':'` in `s`, or `s.len()` when `s` holds none.
pub open spec fn colon_idx(s: Seq<char>) -> int
    decreases s.len(),
{
    if s.len() == 0 {
        0
    } else if s[0] == ':' {
        0
    } else {
        1 + colon_idx(s.skip(1))
    }
}

proof fn lemma_colon_idx(s: Seq<char>)
    ensures
        0 <= colon_idx(s) <= s.len(),
        colon_idx(s) < s.len() ==> s[colon_idx(s)] == ':',
        forall|j: int| 0 <= j < colon_idx(s) ==> s[j] != ':',
    decreases s.len(),
{
    if s.len() == 0 {
    } else if s[0] == ':' {
    } else {
        lemma_colon_idx(s.skip(1));
        assert forall|j: int| 0 <= j < colon_idx(s) implies s[j] != ':' by {
            if j > 0 {
                assert(s.skip(1)[j - 1] == s[j]);
            }
        }
        if colon_idx(s) < s.len() {
            assert(s.skip(1)[colon_idx(s) - 1] == s[colon_idx(s)]);
        }
    }
}

/// Finds the first `':'` in `s`; returns `s`'s character length when there
/// is none.
pub(crate) fn find_colon(s: &str) -> (i: usize)
    ensures
        i as int == colon_idx(s@),
        i <= s@.len(),
{
    let n = s.unicode_len();
    let mut i: usize = 0;
    while i < n
        invariant
            i <= n,
            n == s@.len(),
            forall|j: int| 0 <= j < i ==> s@[j] != ':',
        decreases n - i,
    {
        if s.get_char(i) == ':' {
            proof {
                lemma_colon_idx(s@);
            }
            return i;
        }
        i += 1;
    }
    proof {
        lemma_colon_idx(s@);
    }
    i
}

/// The forms of one conjugated cell joined by the fixed `", "` delimiter.
pub open spec fn join_spec(fs: Seq<Seq<char>>) -> Seq<char>
    decreases fs.len(),
{
    if fs.len() == 0 {
        Seq::empty()
    } else if fs.len() == 1 {
        fs[0]
    } else {
        fs[0] + ", "@ + join_spec(fs.skip(1))
    }
}

proof fn lemma_join_push(fs: Seq<Seq<char>>, x: Seq<char>)
    ensures
        fs.len() == 0 ==> join_spec(fs.push(x)) == x,
        fs.len() > 0 ==> join_spec(fs.push(x)) == join_spec(fs) + ", "@ + x,
    decreases fs.len(),
{
    if fs.len() == 0 {
        assert(fs.push(x)[0] == x);
    } else if fs.len() == 1 {
        assert(fs.push(x)[0] == fs[0]);
        assert(fs.push(x).skip(1) =~= seq![x]);
        assert(join_spec(fs.push(x).skip(1)) == x);
    } else {
        assert(fs.push(x).skip(1) =~= fs.skip(1).push(x));
        lemma_join_push(fs.skip(1), x);
        assert(fs.push(x)[0] == fs[0]);
        assert(fs[0] + ", "@ + (join_spec(fs.skip(1)) + ", "@ + x) =~= (fs[0] + ", "@
            + join_spec(fs.skip(1))) + ", "@ + x);
    }
}

/// Joins the given forms with `", "`, as one console line shows them.
pub fn join_parts(parts: &Vec<String>) -> (r: String)
    ensures
        r@ == join_spec(parts.deep_view()),
{
    if parts.len() == 0 {
        proof {
            assert(parts.deep_view() =~= Seq::<Seq<char>>::empty());
        }
        return String::new();
    }
    let mut r = String::from_str(parts[0].as_str());
    proof {
        assert(parts.deep_view().subrange(0, 1) =~= seq![parts.deep_view()[0]]);
    }
    let mut i: usize = 1;
    while i < parts.len()
        invariant
            1 <= i <= parts.len(),
            parts.deep_view().len() == parts.len(),
            r@ == join_spec(parts.deep_view().subrange(0, i as int)),
        decreases parts.len() - i,
    {
        r.append(", ");
        r.append(parts[i].as_str());
        proof {
            lemma_join_push(parts.deep_view().subrange(0, i as int), parts.deep_view()[i as int]);
            assert(parts.deep_view().subrange(0, i + 1) =~= parts.deep_view().subrange(
                0,
                i as int,
            ).push(parts.deep_view()[i as int]));
        }
        i += 1;
    }
    proof {
        assert(parts.deep_view().subrange(0, parts.deep_view().len() as int) =~= parts.deep_view());
    }
    r
}

} // verus!
