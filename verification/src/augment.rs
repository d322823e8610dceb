//! The temporal augment used by secondary tenses: a fixed table of leading
//! vowels and diphthongs, each with its lengthened replacement and the
//! number of leading characters it consumes. A stem that starts with none of
//! them keeps its full text and receives the default augment `ἐ`.

use vstd::prelude::*;

verus! {

/// The stem starts with an alpha bearing a smooth breathing (with or
/// without an accent); the augment replaces one character with `ἠ`.
pub open spec fn starts_smooth_alpha(s: Seq<char>) -> bool {
    s.len() >= 1 && (s[0] == 'ἀ' || s[0] == 'ἂ' || s[0] == 'ἆ')
}

/// The stem starts with an alpha bearing a rough breathing (with or
/// without an accent); the augment replaces one character with `ἡ`.
pub open spec fn starts_rough_alpha(s: Seq<char>) -> bool {
    s.len() >= 1 && (s[0] == 'ἁ' || s[0] == 'ἅ' || s[0] == 'ἇ')
}

/// The stem starts with the diphthong alpha-iota with a smooth breathing on
/// the iota; the augment replaces both characters with `ᾐ`.
pub open spec fn starts_smooth_diphthong(s: Seq<char>) -> bool {
    s.len() >= 2 && s[0] == 'α' && (s[1] == 'ἰ' || s[1] == 'ἴ' || s[1] == 'ἶ')
}

/// The stem starts with the diphthong alpha-iota with a rough breathing on
/// the iota; the augment replaces both characters with `ᾑ`.
pub open spec fn starts_rough_diphthong(s: Seq<char>) -> bool {
    s.len() >= 2 && s[0] == 'α' && (s[1] == 'ἱ' || s[1] == 'ἵ' || s[1] == 'ἷ')
}

/// The augment prefix a stem receives in an augmented tense.
pub open spec fn aug_spec(s: Seq<char>) -> Seq<char> {
    if starts_smooth_diphthong(s) {
        "ᾐ"@
    } else if starts_rough_diphthong(s) {
        "ᾑ"@
    } else if starts_smooth_alpha(s) {
        "ἠ"@
    } else if starts_rough_alpha(s) {
        "ἡ"@
    } else {
        "ἐ"@
    }
}

/// The stem text left after the matched leading vowel (if any) is consumed.
pub open spec fn trim_spec(s: Seq<char>) -> Seq<char> {
    if starts_smooth_diphthong(s) || starts_rough_diphthong(s) {
        s.subrange(2, s.len() as int)
    } else if starts_smooth_alpha(s) || starts_rough_alpha(s) {
        s.subrange(1, s.len() as int)
    } else {
        s
    }
}

/// The base of an augmented form: the augment prefix followed by the
/// trimmed stem.
pub open spec fn augmented_base(s: Seq<char>) -> Seq<char> {
    aug_spec(s) + trim_spec(s)
}

/// Resolves the augment for a raw stem: returns the augment prefix and the
/// stem text that remains once the matched leading vowel is stripped. The
/// two-character diphthongs are tried before the single vowels, so a
/// diphthong can never be half-matched.
pub(crate) fn resolve_augment(stem: &str) -> (r: (String, String))
    ensures
        r.0@ == aug_spec(stem@),
        r.1@ == trim_spec(stem@),
{
    let n = stem.unicode_len();
    if n >= 2 && stem.get_char(0) == 'α' {
        let c1 = stem.get_char(1);
        if c1 == 'ἰ' || c1 == 'ἴ' || c1 == 'ἶ' {
            return (String::from_str("ᾐ"), String::from_str(stem.substring_char(2, n)));
        }
        if c1 == 'ἱ' || c1 == 'ἵ' || c1 == 'ἷ' {
            return (String::from_str("ᾑ"), String::from_str(stem.substring_char(2, n)));
        }
    }
    if n >= 1 {
        let c0 = stem.get_char(0);
        if c0 == 'ἀ' || c0 == 'ἂ' || c0 == 'ἆ' {
            return (String::from_str("ἠ"), String::from_str(stem.substring_char(1, n)));
        }
        if c0 == 'ἁ' || c0 == 'ἅ' || c0 == 'ἇ' {
            return (String::from_str("ἡ"), String::from_str(stem.substring_char(1, n)));
        }
    }
    proof {
        assert(stem@.subrange(0, stem@.len() as int) =~= stem@);
    }
    (String::from_str("ἐ"), String::from_str(stem))
}

} // verus!
