use gkverb::engine::conjugate;
use gkverb::verb::Verb;

fn forms(parts: [&str; 6]) -> Vec<String> {
    parts.iter().map(|s| s.to_string()).collect()
}

#[test]
fn pai_exact_forms() {
    assert_eq!(
        conjugate("παυ", "pai").unwrap(),
        forms(["παυω", "παυεις", "παυει", "παυομεν", "παυετε", "παυουσι"])
    );
}

#[test]
fn ppi_exact_forms() {
    assert_eq!(
        conjugate("παυ", "ppi").unwrap(),
        forms(["παυομαι", "παυῃ", "παυεται", "παυομεθα", "παυεσθε", "παυονται"])
    );
}

#[test]
fn iai_default_augment_forms() {
    // A stem with no recognized leading vowel takes the default augment.
    assert_eq!(
        conjugate("παυ", "iai").unwrap(),
        forms(["ἐπαυον", "ἐπαυες", "ἐπαυε", "ἐπαυομεν", "ἐπαυετε", "ἐπαυον"])
    );
}

#[test]
fn iai_smooth_alpha_augment_forms() {
    // A leading smooth-breathing alpha is replaced by the lengthened vowel.
    assert_eq!(
        conjugate("ἀκου", "iai").unwrap(),
        forms(["ἠκουον", "ἠκουες", "ἠκουε", "ἠκουομεν", "ἠκουετε", "ἠκουον"])
    );
}

#[test]
fn ipi_exact_forms() {
    assert_eq!(
        conjugate("παυ", "ipi").unwrap(),
        forms(["ἐπαυομην", "ἐπαυου", "ἐπαυετο", "ἐπαυομεθα", "ἐπαυεσθε", "ἐπαυοντο"])
    );
}

#[test]
fn fai_exact_forms() {
    assert_eq!(
        conjugate("παυσ", "fai").unwrap(),
        forms(["παυσω", "παυσεις", "παυσει", "παυσομεν", "παυσετε", "παυσουσι"])
    );
}

#[test]
fn fmi_exact_forms() {
    assert_eq!(
        conjugate("παυσ", "fmi").unwrap(),
        forms(["παυσομαι", "παυσῃ", "παυσεται", "παυσομεθα", "παυσεσθε", "παυσονται"])
    );
}

#[test]
fn fpi_exact_forms() {
    assert_eq!(
        conjugate("παυ", "fpi").unwrap(),
        forms([
            "παυθησομαι",
            "παυθησῃ",
            "παυθησεται",
            "παυθησομεθα",
            "παυθησεσθε",
            "παυθησονται"
        ])
    );
}

#[test]
fn aai_exact_forms() {
    // The engine applies no augment to aorist codes.
    assert_eq!(
        conjugate("παυσ", "aai").unwrap(),
        forms(["παυσα", "παυσας", "παυσε", "παυσαμεν", "παυσατε", "παυσαν"])
    );
}

#[test]
fn ami_exact_forms() {
    assert_eq!(
        conjugate("παυσ", "ami").unwrap(),
        forms(["παυσαμην", "παυσω", "παυσατο", "παυσαμεθα", "παυσασθε", "παυσαντο"])
    );
}

#[test]
fn api_exact_forms() {
    assert_eq!(
        conjugate("παυ", "api").unwrap(),
        forms(["παυθην", "παυθης", "παυθη", "παυθημεν", "παυθητε", "παυθησαν"])
    );
}

#[test]
fn every_known_code_yields_six_forms() {
    for code in ["pai", "ppi", "iai", "ipi", "fai", "fmi", "fpi", "aai", "ami", "api"] {
        let v = conjugate("παυ", code).unwrap();
        assert_eq!(v.len(), 6);
    }
}

#[test]
fn unaugmented_forms_start_with_stem() {
    for code in ["pai", "ppi", "fai", "fmi", "fpi", "aai", "ami", "api"] {
        for form in conjugate("παυ", code).unwrap() {
            assert!(form.starts_with("παυ"));
        }
    }
}

#[test]
fn conjugation_is_pure() {
    let first = conjugate("ἀκου", "iai");
    let second = conjugate("ἀκου", "iai");
    assert_eq!(first, second);
}

#[test]
fn unknown_code_yields_nothing() {
    assert!(conjugate("παυ", "pfai").is_none());
    assert!(conjugate("παυ", "xyz").is_none());
    assert!(conjugate("παυ", "").is_none());
}

#[test]
fn empty_stem_is_accepted() {
    assert_eq!(
        conjugate("", "pai").unwrap(),
        forms(["ω", "εις", "ει", "ομεν", "ετε", "ουσι"])
    );
}

#[test]
fn augment_smooth_alpha() {
    let (aug, rest) = Verb::aug_and_stem("ἀκου");
    assert_eq!(aug, "ἠ");
    assert_eq!(rest, "κου");
}

#[test]
fn augment_rough_alpha() {
    let (aug, rest) = Verb::aug_and_stem("ἁγνευ");
    assert_eq!(aug, "ἡ");
    assert_eq!(rest, "γνευ");
}

#[test]
fn augment_accented_rough_alpha() {
    let (aug, rest) = Verb::aug_and_stem("ἅπτ");
    assert_eq!(aug, "ἡ");
    assert_eq!(rest, "πτ");
}

#[test]
fn augment_smooth_diphthong_consumes_two_chars() {
    let (aug, rest) = Verb::aug_and_stem("αἰρε");
    assert_eq!(aug, "ᾐ");
    assert_eq!(rest, "ρε");
}

#[test]
fn augment_rough_diphthong_consumes_two_chars() {
    let (aug, rest) = Verb::aug_and_stem("αἱρε");
    assert_eq!(aug, "ᾑ");
    assert_eq!(rest, "ρε");
}

#[test]
fn augment_default_keeps_stem() {
    let (aug, rest) = Verb::aug_and_stem("παυ");
    assert_eq!(aug, "ἐ");
    assert_eq!(rest, "παυ");
}

#[test]
fn augment_empty_stem_gets_default() {
    let (aug, rest) = Verb::aug_and_stem("");
    assert_eq!(aug, "ἐ");
    assert_eq!(rest, "");
}
