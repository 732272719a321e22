use binary_options_core::text::{chars_of, contains, ends_with, starts_with};
use binary_options_core::validator::{Frame, RawValidator, ValidatorError};

fn chars(s: &str) -> Vec<char> {
    s.chars().collect()
}

#[test]
fn chars_of_keeps_every_character() {
    assert_eq!(chars_of("aé€"), vec!['a', 'é', '€']);
    assert_eq!(chars_of(""), Vec::<char>::new());
}

#[test]
fn text_matching_edges() {
    assert!(contains(&chars("hello"), &chars("")));
    assert!(contains(&chars("hello"), &chars("ell")));
    assert!(!contains(&chars("hello"), &chars("elo")));
    assert!(!contains(&chars("he"), &chars("hello")));
    assert!(starts_with(&chars("hello"), &chars("he")));
    assert!(!starts_with(&chars("hello"), &chars("lo")));
    assert!(ends_with(&chars("hello"), &chars("lo")));
    assert!(!ends_with(&chars("lo"), &chars("hello")));
    assert!(ends_with(&chars("x"), &chars("")));
}

#[test]
fn accept_all_accepts_everything() {
    assert!(RawValidator::new().check(String::new()));
    assert!(RawValidator::default().check("anything".to_string()));
}

#[test]
fn leaf_validators() {
    let msg = "42[\"updateStream\",[\"EURUSD_otc\",1,1.1]]".to_string();
    assert!(RawValidator::contains("EURUSD".to_string()).check(msg.clone()));
    assert!(!RawValidator::contains("GBPUSD".to_string()).check(msg.clone()));
    assert!(RawValidator::starts_with("42[".to_string()).check(msg.clone()));
    assert!(!RawValidator::starts_with("451-".to_string()).check(msg.clone()));
    assert!(RawValidator::ends_with("]]".to_string()).check(msg.clone()));
    assert!(!RawValidator::ends_with("}".to_string()).check(msg));
}

#[test]
fn empty_all_accepts_and_empty_any_rejects() {
    for text in ["", "abc", "42[\"x\"]"] {
        assert!(RawValidator::all(Vec::new()).check(text.to_string()));
        assert!(!RawValidator::any(Vec::new()).check(text.to_string()));
    }
}

#[test]
fn all_and_any_combine_children() {
    let both = RawValidator::new_all(vec![
        RawValidator::starts_with("a".to_string()),
        RawValidator::ends_with("z".to_string()),
    ]);
    assert!(both.check("abcz".to_string()));
    assert!(!both.check("abc".to_string()));
    let either = RawValidator::new_any(vec![
        RawValidator::starts_with("a".to_string()),
        RawValidator::ends_with("z".to_string()),
    ]);
    assert!(either.check("xyz".to_string()));
    assert!(!either.check("xyy".to_string()));
}

#[test]
fn double_negation_is_identity() {
    for text in ["", "hello", "say hello"] {
        let v = RawValidator::starts_with("hello".to_string());
        let expected = v.check(text.to_string());
        let twice = RawValidator::ne(RawValidator::new_not(v));
        assert_eq!(twice.check(text.to_string()), expected);
        let once = RawValidator::ne(RawValidator::starts_with("hello".to_string()));
        assert_eq!(once.check(text.to_string()), !expected);
    }
}

#[test]
fn regex_matches_anywhere() {
    let v = RawValidator::regex("^42\\[\"success".to_string()).unwrap();
    assert!(v.check("42[\"successopenOrder\"]".to_string()));
    assert!(!v.check("x42[\"successopenOrder\"]".to_string()));
    let w = RawValidator::new_regex("[0-9]{3}".to_string()).unwrap();
    assert!(w.check("id 123".to_string()));
    assert!(!w.check("id 12".to_string()));
    match w {
        RawValidator::Regex(r) => assert_eq!(r.pattern(), "[0-9]{3}"),
        _ => panic!("expected a regex validator"),
    }
}

#[test]
fn invalid_regex_fails_at_construction() {
    let r = RawValidator::new_regex("foo(bar".to_string());
    assert!(matches!(r, Err(ValidatorError::InvalidRegex(ref p)) if p == "foo(bar"));
    assert!(RawValidator::regex("[".to_string()).is_err());
}

#[test]
fn custom_predicates_use_frame_verdicts() {
    let v = RawValidator::custom(1);
    assert!(v.validate(&Frame::with_verdicts("m".to_string(), vec![false, true])));
    assert!(!v.validate(&Frame::with_verdicts("m".to_string(), vec![true, false])));
    assert!(!v.validate(&Frame::new("m".to_string())));
    assert!(!v.check("m".to_string()));
}
