use gkverb::output::{lines_for, rows_for};
use gkverb::stem::Stem;
use gkverb::text::join_parts;
use gkverb::verb::{conj_reqs, known_code, Conjugated, Verb};

fn codes(parts: &[&str]) -> Vec<String> {
    parts.iter().map(|s| s.to_string()).collect()
}

#[test]
fn classify_present_tag() {
    match Verb::get_stem_type("pres:παυ") {
        Stem::Pres(t) => assert_eq!(t, "παυ"),
        _ => panic!("expected a present stem"),
    }
}

#[test]
fn classify_future_tag() {
    match Verb::get_stem_type("fut:παυσ") {
        Stem::Fut(t) => assert_eq!(t, "παυσ"),
        _ => panic!("expected a future stem"),
    }
}

#[test]
fn classify_aorist_tag() {
    match Verb::get_stem_type("aor:παυσ") {
        Stem::Aor(t) => assert_eq!(t, "παυσ"),
        _ => panic!("expected an aorist stem"),
    }
}

#[test]
fn classify_perfect_tag() {
    match Verb::get_stem_type("perf:πεπαυκ") {
        Stem::Perf(t) => assert_eq!(t, "πεπαυκ"),
        _ => panic!("expected a perfect stem"),
    }
}

#[test]
fn classify_unknown_tag_keeps_whole_input() {
    match Verb::get_stem_type("xyz:foo") {
        Stem::Pres(t) => assert_eq!(t, "xyz:foo"),
        _ => panic!("expected the present fallback"),
    }
}

#[test]
fn classify_without_separator_keeps_whole_input() {
    match Verb::get_stem_type("παυ") {
        Stem::Pres(t) => assert_eq!(t, "παυ"),
        _ => panic!("expected the present fallback"),
    }
}

#[test]
fn classify_bare_tag_without_separator_is_fallback() {
    match Verb::get_stem_type("pres") {
        Stem::Pres(t) => assert_eq!(t, "pres"),
        _ => panic!("expected the present fallback"),
    }
}

#[test]
fn classify_body_stops_at_second_separator() {
    match Verb::get_stem_type("pres:παυ:rest") {
        Stem::Pres(t) => assert_eq!(t, "παυ"),
        _ => panic!("expected a present stem"),
    }
}

#[test]
fn classify_empty_body_is_accepted() {
    match Verb::get_stem_type("pres:") {
        Stem::Pres(t) => assert_eq!(t, ""),
        _ => panic!("expected a present stem"),
    }
}

#[test]
fn new_verb_has_absent_cells() {
    let vb = Verb::new("pres:παυ");
    assert!(matches!(vb.pai, Conjugated::Absent));
    assert!(matches!(vb.ipi, Conjugated::Absent));
    assert!(matches!(vb.api, Conjugated::Absent));
}

#[test]
fn conj_methods_fill_their_cell() {
    let mut vb = Verb::new("pres:παυ");
    vb.conj_pai();
    match &vb.pai {
        Conjugated::Forms(v) => assert_eq!(v[0], "παυω"),
        Conjugated::Absent => panic!("expected computed forms"),
    }
    assert!(matches!(vb.ppi, Conjugated::Absent));
}

#[test]
fn conj_reqs_fills_requested_cells_only() {
    let mut vb = Verb::new("pres:παυ");
    conj_reqs(&mut vb, &codes(&["pai", "iai"]));
    assert!(matches!(vb.pai, Conjugated::Forms(_)));
    assert!(matches!(vb.iai, Conjugated::Forms(_)));
    assert!(matches!(vb.ppi, Conjugated::Absent));
    assert!(matches!(vb.ipi, Conjugated::Absent));
}

#[test]
fn conj_reqs_skips_unknown_codes_silently() {
    let mut vb = Verb::new("pres:παυ");
    conj_reqs(&mut vb, &codes(&["pfai", "nonsense"]));
    assert!(matches!(vb.pai, Conjugated::Absent));
    assert!(matches!(vb.ppi, Conjugated::Absent));
    assert!(matches!(vb.iai, Conjugated::Absent));
    assert!(matches!(vb.ipi, Conjugated::Absent));
    assert!(lines_for(&vb, &codes(&["pfai", "nonsense"])).is_empty());
    assert!(rows_for(&vb, &codes(&["pfai", "nonsense"])).is_empty());
}

#[test]
fn perfect_defaults_compute_nothing() {
    let mut vb = Verb::new("perf:πεπαυκ");
    let reqs = vb.default_reqs();
    assert_eq!(reqs, codes(&["pfai", "pfpi", "plai", "plpi"]));
    conj_reqs(&mut vb, &reqs);
    assert!(lines_for(&vb, &reqs).is_empty());
    assert!(rows_for(&vb, &reqs).is_empty());
}

#[test]
fn default_reqs_follow_the_tense_family() {
    assert_eq!(
        Verb::new("pres:παυ").default_reqs(),
        codes(&["pai", "ppi", "iai", "ipi"])
    );
    assert_eq!(Verb::new("fut:παυσ").default_reqs(), codes(&["fai", "fmi", "fpi"]));
    assert_eq!(Verb::new("aor:παυσ").default_reqs(), codes(&["aai", "ami", "api"]));
}

#[test]
fn end_to_end_single_line() {
    let mut vb = Verb::new("pres:παυ");
    let reqs = codes(&["pai"]);
    conj_reqs(&mut vb, &reqs);
    assert_eq!(
        lines_for(&vb, &reqs),
        vec!["παυω, παυεις, παυει, παυομεν, παυετε, παυουσι".to_string()]
    );
}

#[test]
fn computing_twice_gives_identical_cells() {
    let mut vb1 = Verb::new("pres:ἀκου");
    let mut vb2 = Verb::new("pres:ἀκου");
    conj_reqs(&mut vb1, &codes(&["iai"]));
    conj_reqs(&mut vb2, &codes(&["iai"]));
    conj_reqs(&mut vb2, &codes(&["iai"]));
    match (&vb1.iai, &vb2.iai) {
        (Conjugated::Forms(a), Conjugated::Forms(b)) => assert_eq!(a, b),
        _ => panic!("expected computed forms on both"),
    }
}

#[test]
fn rows_keep_request_order_and_skip_absent() {
    let mut vb = Verb::new("pres:παυ");
    conj_reqs(&mut vb, &codes(&["pai", "pfai", "iai"]));
    let rows = rows_for(&vb, &codes(&["pai", "pfai", "iai"]));
    assert_eq!(rows.len(), 2);
    assert_eq!(rows[0][0], "παυω");
    assert_eq!(rows[1][0], "ἐπαυον");
}

#[test]
fn lookup_distinguishes_filled_and_absent() {
    let mut vb = Verb::new("pres:παυ");
    assert!(vb.lookup("pai").is_none());
    vb.conj_pai();
    let forms = vb.lookup("pai").unwrap();
    assert_eq!(forms.len(), 6);
    assert!(vb.lookup("pfai").is_none());
}

#[test]
fn known_code_matches_the_fixed_set() {
    for code in ["pai", "ppi", "iai", "ipi", "fai", "fmi", "fpi", "aai", "ami", "api"] {
        assert!(known_code(code));
    }
    assert!(!known_code("pfai"));
    assert!(!known_code("plpi"));
    assert!(!known_code(""));
}

#[test]
fn joined_renders_forms_or_nothing() {
    let mut vb = Verb::new("pres:παυ");
    assert!(vb.pai.joined().is_none());
    vb.conj_pai();
    assert_eq!(
        vb.pai.joined().unwrap(),
        "παυω, παυεις, παυει, παυομεν, παυετε, παυουσι"
    );
}

#[test]
fn join_parts_uses_fixed_delimiter() {
    assert_eq!(join_parts(&codes(&["a", "b", "c"])), "a, b, c");
    assert_eq!(join_parts(&codes(&["solo"])), "solo");
    assert_eq!(join_parts(&Vec::new()), "");
}
