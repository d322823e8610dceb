//! The conjugation engine: the fixed ending table, the choice of base form
//! (augmented for the imperfect codes, the bare stem otherwise), and the
//! construction of the six person/number forms by literal concatenation.

use vstd::prelude::*;
use crate::augment::{augmented_base, resolve_augment};
use crate::text::str_eq;

verus! {

/// The two tense-voice-mood codes whose base form takes the temporal
/// augment (the imperfect active and passive).
pub open spec fn is_augmented_code(code: Seq<char>) -> bool {
    code == "iai"@ || code == "ipi"@
}

/// The fixed ending table: each implemented tense-voice-mood code maps to
/// its six endings in person/number order (1sg, 2sg, 3sg, 1pl, 2pl, 3pl).
/// A code outside the fixed set has no endings.
pub open spec fn endings_spec(code: Seq<char>) -> Option<Seq<Seq<char>>> {
    if code == "pai"@ || code == "fai"@ {
        Some(seq!["ω"@, "εις"@, "ει"@, "ομεν"@, "ετε"@, "ουσι"@])
    } else if code == "ppi"@ || code == "fmi"@ {
        Some(seq!["ομαι"@, "ῃ"@, "εται"@, "ομεθα"@, "εσθε"@, "ονται"@])
    } else if code == "iai"@ {
        Some(seq!["ον"@, "ες"@, "ε"@, "ομεν"@, "ετε"@, "ον"@])
    } else if code == "ipi"@ {
        Some(seq!["ομην"@, "ου"@, "ετο"@, "ομεθα"@, "εσθε"@, "οντο"@])
    } else if code == "fpi"@ {
        Some(seq!["θησομαι"@, "θησῃ"@, "θησεται"@, "θησομεθα"@, "θησεσθε"@, "θησονται"@])
    } else if code == "aai"@ {
        Some(seq!["α"@, "ας"@, "ε"@, "αμεν"@, "ατε"@, "αν"@])
    } else if code == "ami"@ {
        Some(seq!["αμην"@, "ω"@, "ατο"@, "αμεθα"@, "ασθε"@, "αντο"@])
    } else if code == "api"@ {
        Some(seq!["θην"@, "θης"@, "θη"@, "θημεν"@, "θητε"@, "θησαν"@])
    } else {
        None
    }
}

/// A code of the fixed implemented set: exactly those with an ending row.
pub open spec fn is_known_code(code: Seq<char>) -> bool {
    endings_spec(code) is Some
}

/// The base the endings attach to: the augmented, trimmed stem for the
/// imperfect codes, the stem text unchanged for every other code.
pub open spec fn base_spec(stem: Seq<char>, code: Seq<char>) -> Seq<char> {
    if is_augmented_code(code) {
        augmented_base(stem)
    } else {
        stem
    }
}

/// The six surface forms for a known code: the base followed by each ending
/// in order, by literal concatenation.
pub open spec fn forms_spec(stem: Seq<char>, code: Seq<char>) -> Seq<Seq<char>>
    recommends
        is_known_code(code),
{
    let b = base_spec(stem, code);
    let es = endings_spec(code).unwrap();
    seq![b + es[0], b + es[1], b + es[2], b + es[3], b + es[4], b + es[5]]
}

/// What conjugation yields: the six forms for a known code, nothing for a
/// code outside the fixed set.
pub open spec fn conjugate_spec(stem: Seq<char>, code: Seq<char>) -> Option<Seq<Seq<char>>> {
    if is_known_code(code) {
        Some(forms_spec(stem, code))
    } else {
        None
    }
}

/// One surface form: the base followed by one ending.
fn form(base: &str, ending: &str) -> (r: String)
    ensures
        r@ == base@ + ending@,
{
    String::from_str(base).concat(ending)
}

/// The six forms built from one base and six endings, in order.
fn forms6(base: &str, e0: &str, e1: &str, e2: &str, e3: &str, e4: &str, e5: &str) -> (v: Vec<
    String,
>)
    ensures
        v.deep_view() == seq![
            base@ + e0@,
            base@ + e1@,
            base@ + e2@,
            base@ + e3@,
            base@ + e4@,
            base@ + e5@,
        ],
{
    let mut v: Vec<String> = Vec::new();
    v.push(form(base, e0));
    v.push(form(base, e1));
    v.push(form(base, e2));
    v.push(form(base, e3));
    v.push(form(base, e4));
    v.push(form(base, e5));
    proof {
        assert(v.deep_view() =~= seq![
            base@ + e0@,
            base@ + e1@,
            base@ + e2@,
            base@ + e3@,
            base@ + e4@,
            base@ + e5@,
        ]);
    }
    v
}

/// Conjugates a bare stem text for one tense-voice-mood code: the six forms
/// for a code of the fixed set, nothing for any other code.
pub fn conjugate(stem: &str, code: &str) -> (r: Option<Vec<String>>)
    ensures
        match r {
            Some(v) => conjugate_spec(stem@, code@) == Some(v.deep_view()),
            None => conjugate_spec(stem@, code@) is None,
        },
{
    let augmented = str_eq(code, "iai") || str_eq(code, "ipi");
    let base: String = if augmented {
        let (aug, trimmed) = resolve_augment(stem);
        aug.concat(trimmed.as_str())
    } else {
        String::from_str(stem)
    };
    proof {
        assert(base@ == base_spec(stem@, code@));
    }
    let b = base.as_str();
    if str_eq(code, "pai") || str_eq(code, "fai") {
        let v = forms6(b, "ω", "εις", "ει", "ομεν", "ετε", "ουσι");
        proof {
            assert(v.deep_view() =~= forms_spec(stem@, code@));
        }
        Some(v)
    } else if str_eq(code, "ppi") || str_eq(code, "fmi") {
        let v = forms6(b, "ομαι", "ῃ", "εται", "ομεθα", "εσθε", "ονται");
        proof {
            assert(v.deep_view() =~= forms_spec(stem@, code@));
        }
        Some(v)
    } else if str_eq(code, "iai") {
        let v = forms6(b, "ον", "ες", "ε", "ομεν", "ετε", "ον");
        proof {
            assert(v.deep_view() =~= forms_spec(stem@, code@));
        }
        Some(v)
    } else if str_eq(code, "ipi") {
        let v = forms6(b, "ομην", "ου", "ετο", "ομεθα", "εσθε", "οντο");
        proof {
            assert(v.deep_view() =~= forms_spec(stem@, code@));
        }
        Some(v)
    } else if str_eq(code, "fpi") {
        let v = forms6(b, "θησομαι", "θησῃ", "θησεται", "θησομεθα", "θησεσθε", "θησονται");
        proof {
            assert(v.deep_view() =~= forms_spec(stem@, code@));
        }
        Some(v)
    } else if str_eq(code, "aai") {
        let v = forms6(b, "α", "ας", "ε", "αμεν", "ατε", "αν");
        proof {
            assert(v.deep_view() =~= forms_spec(stem@, code@));
        }
        Some(v)
    } else if str_eq(code, "ami") {
        let v = forms6(b, "αμην", "ω", "ατο", "αμεθα", "ασθε", "αντο");
        proof {
            assert(v.deep_view() =~= forms_spec(stem@, code@));
        }
        Some(v)
    } else if str_eq(code, "api") {
        let v = forms6(b, "θην", "θης", "θη", "θημεν", "θητε", "θησαν");
        proof {
            assert(v.deep_view() =~= forms_spec(stem@, code@));
        }
        Some(v)
    } else {
        None
    }
}

} // verus!
