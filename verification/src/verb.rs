//! A verb under conjugation: its classified stem and one result cell per
//! tense-voice-mood code of the fixed set. Cells start absent, are filled on
//! demand, and are read back for console or tabular output; a cell for a
//! code outside the fixed set never exists, so such a request yields no
//! output and no error.

use vstd::prelude::*;
use crate::augment::{aug_spec, resolve_augment, trim_spec};
use crate::engine::{conjugate, forms_spec, is_known_code};
use crate::stem::{classify, classify_spec, Stem, StemKind};
use crate::text::{join_parts, join_spec, str_eq};

verus! {

/// One result cell: absent until computed, then the six surface forms in
/// person/number order.
pub enum Conjugated {
    Absent,
    Forms(Vec<String>),
}

impl View for Conjugated {
    type V = Option<Seq<Seq<char>>>;

    open spec fn view(&self) -> Option<Seq<Seq<char>>> {
        match self {
            Conjugated::Absent => None,
            Conjugated::Forms(v) => Some(v.deep_view()),
        }
    }
}

impl Conjugated {
    /// The computed forms, when the cell holds any.
    pub fn forms_ref(&self) -> (r: Option<&Vec<String>>)
        ensures
            match r {
                Some(v) => self@ == Some(v.deep_view()),
                None => self@ is None,
            },
    {
        match self {
            Conjugated::Forms(v) => Some(v),
            Conjugated::Absent => None,
        }
    }

    /// The forms joined with `", "` for console display, or nothing when
    /// the cell is absent.
    pub fn joined(&self) -> (r: Option<String>)
        ensures
            match r {
                Some(line) => self@ matches Some(fs) && line@ == join_spec(fs),
                None => self@ is None,
            },
    {
        match self {
            Conjugated::Forms(v) => Some(join_parts(v)),
            Conjugated::Absent => None,
        }
    }
}

/// A verb: its classified stem and a result cell for each code of the
/// fixed set.
pub struct Verb {
    pub stem: Stem,
    pub pai: Conjugated,
    pub ppi: Conjugated,
    pub iai: Conjugated,
    pub ipi: Conjugated,
    pub fai: Conjugated,
    pub fmi: Conjugated,
    pub fpi: Conjugated,
    pub aai: Conjugated,
    pub ami: Conjugated,
    pub api: Conjugated,
}

/// The cell of `v` for `code`, seen abstractly; a code outside the fixed
/// set has no cell.
pub open spec fn slot_of(v: Verb, code: Seq<char>) -> Option<Seq<Seq<char>>> {
    if code == "pai"@ {
        v.pai@
    } else if code == "ppi"@ {
        v.ppi@
    } else if code == "iai"@ {
        v.iai@
    } else if code == "ipi"@ {
        v.ipi@
    } else if code == "fai"@ {
        v.fai@
    } else if code == "fmi"@ {
        v.fmi@
    } else if code == "fpi"@ {
        v.fpi@
    } else if code == "aai"@ {
        v.aai@
    } else if code == "ami"@ {
        v.ami@
    } else if code == "api"@ {
        v.api@
    } else {
        None
    }
}

impl Verb {
    /// Classifies the raw stem string and starts with every cell absent.
    pub fn new(s: &str) -> (v: Verb)
        ensures
            v.stem.kind() == classify_spec(s@).0,
            v.stem.text() == classify_spec(s@).1,
            v.pai@ is None,
            v.ppi@ is None,
            v.iai@ is None,
            v.ipi@ is None,
            v.fai@ is None,
            v.fmi@ is None,
            v.fpi@ is None,
            v.aai@ is None,
            v.ami@ is None,
            v.api@ is None,
    {
        let stm = Verb::get_stem_type(s);
        Verb {
            stem: stm,
            pai: Conjugated::Absent,
            ppi: Conjugated::Absent,
            iai: Conjugated::Absent,
            ipi: Conjugated::Absent,
            fai: Conjugated::Absent,
            fmi: Conjugated::Absent,
            fpi: Conjugated::Absent,
            aai: Conjugated::Absent,
            ami: Conjugated::Absent,
            api: Conjugated::Absent,
        }
    }

    /// Maps a raw stem string to its tagged stem, as `classify_spec`
    /// describes; an unrecognized or absent tag falls back to a present
    /// stem carrying the whole input.
    pub fn get_stem_type(s: &str) -> (st: Stem)
        ensures
            st.kind() == classify_spec(s@).0,
            st.text() == classify_spec(s@).1,
    {
        classify(s)
    }

    /// Resolves the temporal augment for a raw stem text: the augment
    /// prefix together with the stem text left after the matched leading
    /// vowel is stripped.
    pub fn aug_and_stem(stem: &str) -> (r: (String, String))
        ensures
            r.0@ == aug_spec(stem@),
            r.1@ == trim_spec(stem@),
    {
        resolve_augment(stem)
    }

    /// Fills the present-active-indicative cell.
    pub fn conj_pai(&mut self)
        ensures
            final(self).pai@ == Some(forms_spec(old(self).stem.text(), "pai"@)),
            final(self).stem == old(self).stem,
            final(self).ppi == old(self).ppi,
            final(self).iai == old(self).iai,
            final(self).ipi == old(self).ipi,
            final(self).fai == old(self).fai,
            final(self).fmi == old(self).fmi,
            final(self).fpi == old(self).fpi,
            final(self).aai == old(self).aai,
            final(self).ami == old(self).ami,
            final(self).api == old(self).api,
    {
        let v = conjugate(self.stem.as_text(), "pai").unwrap();
        self.pai = Conjugated::Forms(v);
    }

    /// Fills the present-passive-indicative cell.
    pub fn conj_ppi(&mut self)
        ensures
            final(self).ppi@ == Some(forms_spec(old(self).stem.text(), "ppi"@)),
            final(self).stem == old(self).stem,
            final(self).pai == old(self).pai,
            final(self).iai == old(self).iai,
            final(self).ipi == old(self).ipi,
            final(self).fai == old(self).fai,
            final(self).fmi == old(self).fmi,
            final(self).fpi == old(self).fpi,
            final(self).aai == old(self).aai,
            final(self).ami == old(self).ami,
            final(self).api == old(self).api,
    {
        let v = conjugate(self.stem.as_text(), "ppi").unwrap();
        self.ppi = Conjugated::Forms(v);
    }

    /// Fills the imperfect-active-indicative cell; its base takes the
    /// temporal augment.
    pub fn conj_iai(&mut self)
        ensures
            final(self).iai@ == Some(forms_spec(old(self).stem.text(), "iai"@)),
            final(self).stem == old(self).stem,
            final(self).pai == old(self).pai,
            final(self).ppi == old(self).ppi,
            final(self).ipi == old(self).ipi,
            final(self).fai == old(self).fai,
            final(self).fmi == old(self).fmi,
            final(self).fpi == old(self).fpi,
            final(self).aai == old(self).aai,
            final(self).ami == old(self).ami,
            final(self).api == old(self).api,
    {
        let v = conjugate(self.stem.as_text(), "iai").unwrap();
        self.iai = Conjugated::Forms(v);
    }

    /// Fills the imperfect-passive-indicative cell; its base takes the
    /// temporal augment.
    pub fn conj_ipi(&mut self)
        ensures
            final(self).ipi@ == Some(forms_spec(old(self).stem.text(), "ipi"@)),
            final(self).stem == old(self).stem,
            final(self).pai == old(self).pai,
            final(self).ppi == old(self).ppi,
            final(self).iai == old(self).iai,
            final(self).fai == old(self).fai,
            final(self).fmi == old(self).fmi,
            final(self).fpi == old(self).fpi,
            final(self).aai == old(self).aai,
            final(self).ami == old(self).ami,
            final(self).api == old(self).api,
    {
        let v = conjugate(self.stem.as_text(), "ipi").unwrap();
        self.ipi = Conjugated::Forms(v);
    }

    /// Fills the future-active-indicative cell.
    pub fn conj_fai(&mut self)
        ensures
            final(self).fai@ == Some(forms_spec(old(self).stem.text(), "fai"@)),
            final(self).stem == old(self).stem,
            final(self).pai == old(self).pai,
            final(self).ppi == old(self).ppi,
            final(self).iai == old(self).iai,
            final(self).ipi == old(self).ipi,
            final(self).fmi == old(self).fmi,
            final(self).fpi == old(self).fpi,
            final(self).aai == old(self).aai,
            final(self).ami == old(self).ami,
            final(self).api == old(self).api,
    {
        let v = conjugate(self.stem.as_text(), "fai").unwrap();
        self.fai = Conjugated::Forms(v);
    }

    /// Fills the future-middle-indicative cell.
    pub fn conj_fmi(&mut self)
        ensures
            final(self).fmi@ == Some(forms_spec(old(self).stem.text(), "fmi"@)),
            final(self).stem == old(self).stem,
            final(self).pai == old(self).pai,
            final(self).ppi == old(self).ppi,
            final(self).iai == old(self).iai,
            final(self).ipi == old(self).ipi,
            final(self).fai == old(self).fai,
            final(self).fpi == old(self).fpi,
            final(self).aai == old(self).aai,
            final(self).ami == old(self).ami,
            final(self).api == old(self).api,
    {
        let v = conjugate(self.stem.as_text(), "fmi").unwrap();
        self.fmi = Conjugated::Forms(v);
    }

    /// Fills the future-passive-indicative cell.
    pub fn conj_fpi(&mut self)
        ensures
            final(self).fpi@ == Some(forms_spec(old(self).stem.text(), "fpi"@)),
            final(self).stem == old(self).stem,
            final(self).pai == old(self).pai,
            final(self).ppi == old(self).ppi,
            final(self).iai == old(self).iai,
            final(self).ipi == old(self).ipi,
            final(self).fai == old(self).fai,
            final(self).fmi == old(self).fmi,
            final(self).aai == old(self).aai,
            final(self).ami == old(self).ami,
            final(self).api == old(self).api,
    {
        let v = conjugate(self.stem.as_text(), "fpi").unwrap();
        self.fpi = Conjugated::Forms(v);
    }

    /// Fills the aorist-active-indicative cell; the engine applies no
    /// augment to aorist codes.
    pub fn conj_aai(&mut self)
        ensures
            final(self).aai@ == Some(forms_spec(old(self).stem.text(), "aai"@)),
            final(self).stem == old(self).stem,
            final(self).pai == old(self).pai,
            final(self).ppi == old(self).ppi,
            final(self).iai == old(self).iai,
            final(self).ipi == old(self).ipi,
            final(self).fai == old(self).fai,
            final(self).fmi == old(self).fmi,
            final(self).fpi == old(self).fpi,
            final(self).ami == old(self).ami,
            final(self).api == old(self).api,
    {
        let v = conjugate(self.stem.as_text(), "aai").unwrap();
        self.aai = Conjugated::Forms(v);
    }

    /// Fills the aorist-middle-indicative cell.
    pub fn conj_ami(&mut self)
        ensures
            final(self).ami@ == Some(forms_spec(old(self).stem.text(), "ami"@)),
            final(self).stem == old(self).stem,
            final(self).pai == old(self).pai,
            final(self).ppi == old(self).ppi,
            final(self).iai == old(self).iai,
            final(self).ipi == old(self).ipi,
            final(self).fai == old(self).fai,
            final(self).fmi == old(self).fmi,
            final(self).fpi == old(self).fpi,
            final(self).aai == old(self).aai,
            final(self).api == old(self).api,
    {
        let v = conjugate(self.stem.as_text(), "ami").unwrap();
        self.ami = Conjugated::Forms(v);
    }

    /// Fills the aorist-passive-indicative cell.
    pub fn conj_api(&mut self)
        ensures
            final(self).api@ == Some(forms_spec(old(self).stem.text(), "api"@)),
            final(self).stem == old(self).stem,
            final(self).pai == old(self).pai,
            final(self).ppi == old(self).ppi,
            final(self).iai == old(self).iai,
            final(self).ipi == old(self).ipi,
            final(self).fai == old(self).fai,
            final(self).fmi == old(self).fmi,
            final(self).fpi == old(self).fpi,
            final(self).aai == old(self).aai,
            final(self).ami == old(self).ami,
    {
        let v = conjugate(self.stem.as_text(), "api").unwrap();
        self.api = Conjugated::Forms(v);
    }

    /// The cell for `code`, when it holds computed forms. A known code
    /// whose cell is still absent, like a code outside the fixed set,
    /// yields nothing.
    pub fn lookup(&self, code: &str) -> (r: Option<&Vec<String>>)
        ensures
            match r {
                Some(v) => slot_of(*self, code@) == Some(v.deep_view()),
                None => slot_of(*self, code@) is None,
            },
    {
        if str_eq(code, "pai") {
            self.pai.forms_ref()
        } else if str_eq(code, "ppi") {
            self.ppi.forms_ref()
        } else if str_eq(code, "iai") {
            self.iai.forms_ref()
        } else if str_eq(code, "ipi") {
            self.ipi.forms_ref()
        } else if str_eq(code, "fai") {
            self.fai.forms_ref()
        } else if str_eq(code, "fmi") {
            self.fmi.forms_ref()
        } else if str_eq(code, "fpi") {
            self.fpi.forms_ref()
        } else if str_eq(code, "aai") {
            self.aai.forms_ref()
        } else if str_eq(code, "ami") {
            self.ami.forms_ref()
        } else if str_eq(code, "api") {
            self.api.forms_ref()
        } else {
            None
        }
    }

    /// The default code list for this verb's tense family, used when the
    /// caller names no codes. The perfect family's defaults lie outside
    /// the ending table, so requesting them computes nothing.
    pub fn default_reqs(&self) -> (r: Vec<String>)
        ensures
            r.deep_view() == default_codes_spec(self.stem.kind()),
    {
        match &self.stem {
            Stem::Pres(_) => {
                let mut r: Vec<String> = Vec::new();
                r.push(String::from_str("pai"));
                r.push(String::from_str("ppi"));
                r.push(String::from_str("iai"));
                r.push(String::from_str("ipi"));
                proof {
                    assert(r.deep_view() =~= default_codes_spec(self.stem.kind()));
                }
                r
            },
            Stem::Fut(_) => {
                let mut r: Vec<String> = Vec::new();
                r.push(String::from_str("fai"));
                r.push(String::from_str("fmi"));
                r.push(String::from_str("fpi"));
                proof {
                    assert(r.deep_view() =~= default_codes_spec(self.stem.kind()));
                }
                r
            },
            Stem::Aor(_) => {
                let mut r: Vec<String> = Vec::new();
                r.push(String::from_str("aai"));
                r.push(String::from_str("ami"));
                r.push(String::from_str("api"));
                proof {
                    assert(r.deep_view() =~= default_codes_spec(self.stem.kind()));
                }
                r
            },
            Stem::Perf(_) => {
                let mut r: Vec<String> = Vec::new();
                r.push(String::from_str("pfai"));
                r.push(String::from_str("pfpi"));
                r.push(String::from_str("plai"));
                r.push(String::from_str("plpi"));
                proof {
                    assert(r.deep_view() =~= default_codes_spec(self.stem.kind()));
                }
                r
            },
        }
    }
}

/// The default code list of each tense family.
pub open spec fn default_codes_spec(k: StemKind) -> Seq<Seq<char>> {
    match k {
        StemKind::Pres => seq!["pai"@, "ppi"@, "iai"@, "ipi"@],
        StemKind::Fut => seq!["fai"@, "fmi"@, "fpi"@],
        StemKind::Aor => seq!["aai"@, "ami"@, "api"@],
        StemKind::Perf => seq!["pfai"@, "pfpi"@, "plai"@, "plpi"@],
    }
}

/// True when `code` is implemented, that is, when the ending table has a
/// row for it.
pub fn known_code(code: &str) -> (b: bool)
    ensures
        b == is_known_code(code@),
{
    str_eq(code, "pai") || str_eq(code, "fai") || str_eq(code, "ppi") || str_eq(code, "fmi")
        || str_eq(code, "iai") || str_eq(code, "ipi") || str_eq(code, "fpi") || str_eq(code, "aai")
        || str_eq(code, "ami") || str_eq(code, "api")
}

/// The ten code literals denote ten distinct character sequences; the
/// batch loop needs this to leave the other cells untouched when it fills
/// one.
proof fn lemma_code_literals_distinct()
    ensures
        "pai"@ != "ppi"@ && "pai"@ != "iai"@ && "pai"@ != "ipi"@ && "pai"@ != "fai"@ && "pai"@
            != "fmi"@ && "pai"@ != "fpi"@ && "pai"@ != "aai"@ && "pai"@ != "ami"@ && "pai"@
            != "api"@,
        "ppi"@ != "iai"@ && "ppi"@ != "ipi"@ && "ppi"@ != "fai"@ && "ppi"@ != "fmi"@ && "ppi"@
            != "fpi"@ && "ppi"@ != "aai"@ && "ppi"@ != "ami"@ && "ppi"@ != "api"@,
        "iai"@ != "ipi"@ && "iai"@ != "fai"@ && "iai"@ != "fmi"@ && "iai"@ != "fpi"@ && "iai"@
            != "aai"@ && "iai"@ != "ami"@ && "iai"@ != "api"@,
        "ipi"@ != "fai"@ && "ipi"@ != "fmi"@ && "ipi"@ != "fpi"@ && "ipi"@ != "aai"@ && "ipi"@
            != "ami"@ && "ipi"@ != "api"@,
        "fai"@ != "fmi"@ && "fai"@ != "fpi"@ && "fai"@ != "aai"@ && "fai"@ != "ami"@ && "fai"@
            != "api"@,
        "fmi"@ != "fpi"@ && "fmi"@ != "aai"@ && "fmi"@ != "ami"@ && "fmi"@ != "api"@,
        "fpi"@ != "aai"@ && "fpi"@ != "ami"@ && "fpi"@ != "api"@,
        "aai"@ != "ami"@ && "aai"@ != "api"@,
        "ami"@ != "api"@,
{
    reveal_strlit("pai");
    reveal_strlit("ppi");
    reveal_strlit("iai");
    reveal_strlit("ipi");
    reveal_strlit("fai");
    reveal_strlit("fmi");
    reveal_strlit("fpi");
    reveal_strlit("aai");
    reveal_strlit("ami");
    reveal_strlit("api");
    assert("pai"@[0] == 'p' && "pai"@[1] == 'a' && "pai"@[2] == 'i');
    assert("ppi"@[0] == 'p' && "ppi"@[1] == 'p' && "ppi"@[2] == 'i');
    assert("iai"@[0] == 'i' && "iai"@[1] == 'a' && "iai"@[2] == 'i');
    assert("ipi"@[0] == 'i' && "ipi"@[1] == 'p' && "ipi"@[2] == 'i');
    assert("fai"@[0] == 'f' && "fai"@[1] == 'a' && "fai"@[2] == 'i');
    assert("fmi"@[0] == 'f' && "fmi"@[1] == 'm' && "fmi"@[2] == 'i');
    assert("fpi"@[0] == 'f' && "fpi"@[1] == 'p' && "fpi"@[2] == 'i');
    assert("aai"@[0] == 'a' && "aai"@[1] == 'a' && "aai"@[2] == 'i');
    assert("ami"@[0] == 'a' && "ami"@[1] == 'm' && "ami"@[2] == 'i');
    assert("api"@[0] == 'a' && "api"@[1] == 'p' && "api"@[2] == 'i');
}

/// `c` occurs among the first `n` requested codes.
pub open spec fn code_among(rs: Seq<Seq<char>>, c: Seq<char>, n: int) -> bool {
    exists|j: int| 0 <= j < n && rs[j] == c
}

/// The cell `v` holds for code `c` after a batch request `rs` starting
/// from state `v0`: freshly computed forms when `rs` names `c`, the old
/// cell otherwise.
pub open spec fn slot_after(v0: Verb, rs: Seq<Seq<char>>, c: Seq<char>, n: int) -> Option<
    Seq<Seq<char>>,
> {
    if code_among(rs, c, n) {
        Some(forms_spec(v0.stem.text(), c))
    } else {
        slot_of(v0, c)
    }
}

/// Conjugates every requested code of the fixed set, in request order; a
/// code outside the set is skipped silently and changes nothing.
pub fn conj_reqs(vb: &mut Verb, reqs: &Vec<String>)
    ensures
        final(vb).stem == old(vb).stem,
        final(vb).pai@ == slot_after(*old(vb), reqs.deep_view(), "pai"@, reqs.deep_view().len() as int),
        final(vb).ppi@ == slot_after(*old(vb), reqs.deep_view(), "ppi"@, reqs.deep_view().len() as int),
        final(vb).iai@ == slot_after(*old(vb), reqs.deep_view(), "iai"@, reqs.deep_view().len() as int),
        final(vb).ipi@ == slot_after(*old(vb), reqs.deep_view(), "ipi"@, reqs.deep_view().len() as int),
        final(vb).fai@ == slot_after(*old(vb), reqs.deep_view(), "fai"@, reqs.deep_view().len() as int),
        final(vb).fmi@ == slot_after(*old(vb), reqs.deep_view(), "fmi"@, reqs.deep_view().len() as int),
        final(vb).fpi@ == slot_after(*old(vb), reqs.deep_view(), "fpi"@, reqs.deep_view().len() as int),
        final(vb).aai@ == slot_after(*old(vb), reqs.deep_view(), "aai"@, reqs.deep_view().len() as int),
        final(vb).ami@ == slot_after(*old(vb), reqs.deep_view(), "ami"@, reqs.deep_view().len() as int),
        final(vb).api@ == slot_after(*old(vb), reqs.deep_view(), "api"@, reqs.deep_view().len() as int),
{
    proof {
        lemma_code_literals_distinct();
    }
    let ghost vb0 = *vb;
    let ghost rs = reqs.deep_view();
    let mut i: usize = 0;
    while i < reqs.len()
        invariant
            i <= reqs.len(),
            rs == reqs.deep_view(),
            rs.len() == reqs.len(),
            vb.stem == vb0.stem,
            vb.pai@ == slot_after(vb0, rs, "pai"@, i as int),
            vb.ppi@ == slot_after(vb0, rs, "ppi"@, i as int),
            vb.iai@ == slot_after(vb0, rs, "iai"@, i as int),
            vb.ipi@ == slot_after(vb0, rs, "ipi"@, i as int),
            vb.fai@ == slot_after(vb0, rs, "fai"@, i as int),
            vb.fmi@ == slot_after(vb0, rs, "fmi"@, i as int),
            vb.fpi@ == slot_after(vb0, rs, "fpi"@, i as int),
            vb.aai@ == slot_after(vb0, rs, "aai"@, i as int),
            vb.ami@ == slot_after(vb0, rs, "ami"@, i as int),
            vb.api@ == slot_after(vb0, rs, "api"@, i as int),
        decreases reqs.len() - i,
    {
        let req = reqs[i].as_str();
        proof {
            lemma_code_literals_distinct();
            assert(rs[i as int] == req@);
        }
        if str_eq(req, "pai") {
            vb.conj_pai();
        } else if str_eq(req, "ppi") {
            vb.conj_ppi();
        } else if str_eq(req, "iai") {
            vb.conj_iai();
        } else if str_eq(req, "ipi") {
            vb.conj_ipi();
        } else if str_eq(req, "fai") {
            vb.conj_fai();
        } else if str_eq(req, "fmi") {
            vb.conj_fmi();
        } else if str_eq(req, "fpi") {
            vb.conj_fpi();
        } else if str_eq(req, "aai") {
            vb.conj_aai();
        } else if str_eq(req, "ami") {
            vb.conj_ami();
        } else if str_eq(req, "api") {
            vb.conj_api();
        }
        i += 1;
    }
}

} // verus!
