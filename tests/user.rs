use bot_core::user::FullName;

fn parts(n: &Option<FullName>) -> Option<(String, String)> {
    n.as_ref().map(|n| (n.first.clone(), n.last.clone()))
}

#[test]
fn full_name_two_words() {
    let n = FullName::try_from_str("Ada Lovelace");
    assert_eq!(parts(&n), Some(("Ada".to_string(), "Lovelace".to_string())));
}

#[test]
fn full_name_one_word() {
    let n = FullName::try_from_str("Ada");
    assert_eq!(parts(&n), Some(("Ada".to_string(), String::new())));
}

#[test]
fn full_name_empty_text_is_no_name() {
    assert!(FullName::try_from_str("").is_none());
    assert!(FullName::try_from_str(" \t\n ").is_none());
}

#[test]
fn full_name_drops_words_after_the_second() {
    let n = FullName::try_from_str("Ada King Lovelace");
    assert_eq!(parts(&n), Some(("Ada".to_string(), "King".to_string())));
}

#[test]
fn full_name_surrounding_and_inner_spaces() {
    let n = FullName::try_from_str("  Ada \t\n Lovelace  ");
    assert_eq!(parts(&n), Some(("Ada".to_string(), "Lovelace".to_string())));
    let n = FullName::try_from_str("\u{3000}Ada\u{00a0}Lovelace");
    assert_eq!(parts(&n), Some(("Ada".to_string(), "Lovelace".to_string())));
}

#[test]
fn full_name_non_ascii_words() {
    let n = FullName::try_from_str("Émilie Châtelet");
    assert_eq!(parts(&n), Some(("Émilie".to_string(), "Châtelet".to_string())));
}

#[test]
fn try_new_needs_both_parts() {
    let n = FullName::try_new(Some("Ada".to_string()), Some("Lovelace".to_string()));
    assert_eq!(parts(&n), Some(("Ada".to_string(), "Lovelace".to_string())));
    assert!(FullName::try_new(Some("Ada".to_string()), None).is_none());
    assert!(FullName::try_new(None, Some("Lovelace".to_string())).is_none());
    assert!(FullName::try_new(None, None).is_none());
}

#[test]
fn name_is_empty_only_when_both_parts_are() {
    assert!(FullName::new(String::new(), String::new()).is_empty());
    assert!(!FullName::new("Ada".to_string(), String::new()).is_empty());
    assert!(!FullName::new(String::new(), "Lovelace".to_string()).is_empty());
}

#[test]
fn name_display() {
    assert_eq!(FullName::new("Ada".to_string(), "Lovelace".to_string()).name(), "Ada Lovelace");
    assert_eq!(FullName::new("Ada".to_string(), String::new()).name(), "Ada ");
    assert_eq!(FullName::new(String::new(), String::new()).name(), "Unknown user name");
}

#[test]
fn default_name_is_empty() {
    let n = FullName::default();
    assert!(n.is_empty());
    assert_eq!(n.name(), "Unknown user name");
    let c = FullName::new("Ada".to_string(), "Lovelace".to_string()).clone();
    assert_eq!((c.first.as_str(), c.last.as_str()), ("Ada", "Lovelace"));
}
