use mint_vanity::target::{ends_with, Alternative, MatchTarget};

#[test]
fn suffix_target_matches_exact_suffix() {
    let t = MatchTarget::Suffix("pump".to_string());
    assert_eq!(t.evaluate("7xKXpump"), Some(Alternative::First));
    assert_eq!(t.evaluate("7xKXpumq"), None);
    assert!(t.is_match("pump"));
    assert!(!t.is_match("ump"));
}

#[test]
fn suffix_comparison_is_case_sensitive() {
    let t = MatchTarget::Suffix("Pet".to_string());
    assert!(t.is_match("abcPet"));
    assert!(!t.is_match("abcpet"));
}

#[test]
fn dual_target_reports_which_suffix() {
    let t = MatchTarget::AnyOfSuffixes("pump".to_string(), "bonk".to_string());
    assert_eq!(t.evaluate("bbbpump"), Some(Alternative::First));
    assert_eq!(t.evaluate("cccbonk"), Some(Alternative::Second));
    assert_eq!(t.evaluate("aaa"), None);
    assert_eq!(t.suffix(Alternative::Second), "bonk");
}

#[test]
fn evaluation_is_repeatable() {
    let t = MatchTarget::AnyOfSuffixes("pump".to_string(), "bonk".to_string());
    for a in ["xpump", "xbonk", "xyz", ""] {
        assert_eq!(t.evaluate(a), t.evaluate(a));
        assert_eq!(t.is_match(a), t.is_match(a));
    }
}

#[test]
fn ends_with_edge_cases() {
    assert!(ends_with("abc", ""));
    assert!(ends_with("", ""));
    assert!(!ends_with("", "a"));
    assert!(ends_with("abc", "abc"));
    assert!(!ends_with("bc", "abc"));
    assert!(ends_with("naïve", "ïve"));
}
