//! General properties of the engine, stated once and proved for every
//! stem and every code.

use vstd::prelude::*;
use crate::engine::{conjugate_spec, is_known_code};
use crate::output::{lines_spec, rows_spec};
use crate::verb::{slot_of, Verb};

verus! {

/// Every code of the fixed implemented set yields exactly six forms,
/// whatever the stem.
pub proof fn lemma_known_code_six_forms(stem: Seq<char>, code: Seq<char>)
    requires
        is_known_code(code),
    ensures
        conjugate_spec(stem, code) matches Some(fs) && fs.len() == 6,
{
}

/// For every code that takes no augment, each of the six forms begins
/// with the stem text itself, unchanged.
pub proof fn lemma_unaugmented_forms_keep_stem(stem: Seq<char>, code: Seq<char>)
    requires
        is_known_code(code),
        code != "iai"@,
        code != "ipi"@,
    ensures
        forall|i: int|
            0 <= i < conjugate_spec(stem, code).unwrap().len() ==> stem.is_prefix_of(
                #[trigger] conjugate_spec(stem, code).unwrap()[i],
            ),
{
    let fs = conjugate_spec(stem, code).unwrap();
    assert forall|i: int| 0 <= i < fs.len() implies stem.is_prefix_of(fs[i]) by {
        assert(fs[i].subrange(0, stem.len() as int) =~= stem);
    }
}

/// Conjugation is a pure function of the stem text and the code: equal
/// inputs give equal forms, so computing the same pair twice yields the
/// same result, with no hidden state.
pub proof fn lemma_conjugation_is_pure(
    stem1: Seq<char>,
    code1: Seq<char>,
    stem2: Seq<char>,
    code2: Seq<char>,
)
    requires
        stem1 == stem2,
        code1 == code2,
    ensures
        conjugate_spec(stem1, code1) == conjugate_spec(stem2, code2),
{
}

/// A code outside the fixed implemented set yields no forms at all, for
/// any stem; requesting one is not an error, it simply computes nothing.
pub proof fn lemma_unknown_code_yields_nothing(stem: Seq<char>, code: Seq<char>)
    requires
        !is_known_code(code),
    ensures
        conjugate_spec(stem, code) is None,
{
}

/// A request whose codes all have absent cells emits no row and no line:
/// absent results are skipped entirely, with no blank row and no
/// placeholder.
pub proof fn lemma_absent_cells_emit_nothing(v: Verb, rs: Seq<Seq<char>>)
    requires
        forall|j: int| 0 <= j < rs.len() ==> slot_of(v, #[trigger] rs[j]) is None,
    ensures
        rows_spec(v, rs) == Seq::<Seq<Seq<char>>>::empty(),
        lines_spec(v, rs) == Seq::<Seq<char>>::empty(),
    decreases rs.len(),
{
    if rs.len() == 0 {
    } else {
        assert(slot_of(v, rs[0]) is None);
        assert forall|j: int| 0 <= j < rs.skip(1).len() implies slot_of(
            v,
            #[trigger] rs.skip(1)[j],
        ) is None by {
            assert(rs.skip(1)[j] == rs[j + 1]);
        }
        lemma_absent_cells_emit_nothing(v, rs.skip(1));
        assert(rows_spec(v, rs) =~= Seq::<Seq<Seq<char>>>::empty());
        assert(lines_spec(v, rs) =~= Seq::<Seq<char>>::empty());
    }
}

} // verus!
