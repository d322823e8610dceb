//! Stem classification: a raw input such as `pres:παυ` is split at the first
//! `':'` into a tense tag and a stem body, and the tag picks the tense family.
//! An unrecognized or absent tag falls back, silently, to a present stem that
//! carries the whole original input unmodified.

use vstd::prelude::*;
use crate::text::{colon_idx, find_colon, str_eq};

verus! {

/// The four tense families a stem can be tagged with.
pub enum StemKind {
    Pres,
    Fut,
    Aor,
    Perf,
}

/// A tense-tagged verb stem: the tag names the tense family, the payload is
/// the bare stem text (kept as given, no normalization).
pub enum Stem {
    Pres(String),
    Fut(String),
    Aor(String),
    Perf(String),
}

impl Stem {
    /// The tense family of this stem.
    pub open spec fn kind(&self) -> StemKind {
        match self {
            Stem::Pres(_) => StemKind::Pres,
            Stem::Fut(_) => StemKind::Fut,
            Stem::Aor(_) => StemKind::Aor,
            Stem::Perf(_) => StemKind::Perf,
        }
    }

    /// The bare stem text this stem carries.
    pub open spec fn text(&self) -> Seq<char> {
        match self {
            Stem::Pres(t) => t@,
            Stem::Fut(t) => t@,
            Stem::Aor(t) => t@,
            Stem::Perf(t) => t@,
        }
    }

    /// The carried stem text, as a borrowed slice.
    pub fn as_text(&self) -> (r: &str)
        ensures
            r@ == self.text(),
    {
        match self {
            Stem::Pres(t) => t.as_str(),
            Stem::Fut(t) => t.as_str(),
            Stem::Aor(t) => t.as_str(),
            Stem::Perf(t) => t.as_str(),
        }
    }
}

/// What classification returns for a raw input: the tense family together
/// with the stem text the classified stem carries. When the input has a
/// separator and a recognized tag, the body is the segment between the first
/// separator and the next one (or the end); otherwise the whole input is
/// kept as a present stem.
pub open spec fn classify_spec(s: Seq<char>) -> (StemKind, Seq<char>) {
    let ci = colon_idx(s);
    if ci < s.len() {
        let tag = s.subrange(0, ci);
        let rest = s.subrange(ci + 1, s.len() as int);
        let body = rest.subrange(0, colon_idx(rest));
        if tag == "pres"@ {
            (StemKind::Pres, body)
        } else if tag == "fut"@ {
            (StemKind::Fut, body)
        } else if tag == "aor"@ {
            (StemKind::Aor, body)
        } else if tag == "perf"@ {
            (StemKind::Perf, body)
        } else {
            (StemKind::Pres, s)
        }
    } else {
        (StemKind::Pres, s)
    }
}

/// Classifies a raw stem string as `classify_spec` describes.
pub(crate) fn classify(s: &str) -> (st: Stem)
    ensures
        st.kind() == classify_spec(s@).0,
        st.text() == classify_spec(s@).1,
{
    let n = s.unicode_len();
    let ci = find_colon(s);
    if ci < n {
        let tag = s.substring_char(0, ci);
        let rest = s.substring_char(ci + 1, n);
        let cj = find_colon(rest);
        let body = rest.substring_char(0, cj);
        if str_eq(tag, "pres") {
            Stem::Pres(String::from_str(body))
        } else if str_eq(tag, "fut") {
            Stem::Fut(String::from_str(body))
        } else if str_eq(tag, "aor") {
            Stem::Aor(String::from_str(body))
        } else if str_eq(tag, "perf") {
            Stem::Perf(String::from_str(body))
        } else {
            Stem::Pres(String::from_str(s))
        }
    } else {
        Stem::Pres(String::from_str(s))
    }
}

} // verus!
