use snoo::Scope;
use snoo::ScopeSet;

fn set_of(scopes: &[Scope]) -> ScopeSet {
    let mut set = ScopeSet::new();
    for scope in scopes {
        set.insert(*scope);
    }
    set
}

#[test]
fn scopes_default_contains_identity() {
    let actual = ScopeSet::default();
    let expected = set_of(&[Scope::Identity]);
    assert_eq!(actual, expected);
}

#[test]
fn serializes_known_scopes() {
    let scopes = set_of(&[Scope::Account, Scope::History, Scope::Identity]);
    let pairs = vec![("scope".to_owned(), scopes.to_scope_string())];
    let actual = serde_urlencoded::to_string(&pairs).unwrap();
    let expected = "scope=account+history+identity";
    assert_eq!(actual.as_str(), expected)
}

#[test]
fn deserializes_known_scopes() {
    let pairs: Vec<(String, String)> =
        serde_urlencoded::from_str("scope=account+history+identity").unwrap();
    assert_eq!(pairs.len(), 1);
    assert_eq!(pairs[0].0.as_str(), "scope");
    let actual = ScopeSet::from_scope_string(pairs[0].1.as_str()).unwrap();
    let expected = set_of(&[Scope::Account, Scope::History, Scope::Identity]);
    assert_eq!(actual, expected);
}

#[test]
fn fails_to_deserialize_unknown_scopes() {
    let pairs: Vec<(String, String)> = serde_urlencoded::from_str("scope=unknown").unwrap();
    let result = ScopeSet::from_scope_string(pairs[0].1.as_str());
    assert!(result.is_none())
}

#[test]
fn insert_reports_whether_the_set_changed() {
    let mut set = ScopeSet::new();
    assert_eq!(set.insert(Scope::Identity), true);
    assert_eq!(set.insert(Scope::Identity), false);
    assert_eq!(set.insert(Scope::Account), true);
    assert_eq!(set.len(), 2);
}

#[test]
fn inserting_all_collapses_the_set() {
    let mut set = set_of(&[Scope::Identity, Scope::Account, Scope::History]);
    assert_eq!(set.insert(Scope::All), true);
    assert_eq!(set.len(), 1);
    assert!(set.contains(Scope::All));
    assert!(!set.contains(Scope::Identity));
    // Inserting the wildcard again changes nothing: still only the wildcard.
    assert_eq!(set.insert(Scope::All), true);
    assert_eq!(set.len(), 1);
    assert!(set.contains(Scope::All));
}

#[test]
fn wildcard_set_absorbs_other_scopes() {
    let mut set = set_of(&[Scope::All]);
    assert_eq!(set.insert(Scope::Account), false);
    assert_eq!(set.len(), 1);
    assert!(set.contains(Scope::All));
    assert!(!set.contains(Scope::Account));
}

#[test]
fn removes_and_takes_scopes() {
    let mut set = ScopeSet::new();
    set.insert(Scope::Identity);
    assert_eq!(set.remove(Scope::Identity), true);
    assert_eq!(set.remove(Scope::Identity), false);
    assert!(set.is_empty());
    set.insert(Scope::Identity);
    assert_eq!(set.take(Scope::Identity), Some(Scope::Identity));
    assert_eq!(set.take(Scope::Identity), None);
    assert!(set.is_empty());
}

#[test]
fn clears_the_set() {
    let mut set = set_of(&[Scope::Identity, Scope::Account, Scope::History]);
    assert!(!set.is_empty());
    set.clear();
    assert!(set.is_empty());
    assert_eq!(set.len(), 0);
}

#[test]
fn iterates_in_canonical_order() {
    let set = set_of(&[Scope::Identity, Scope::Account, Scope::History]);
    let members = set.iter();
    assert_eq!(members, vec![Scope::Account, Scope::History, Scope::Identity]);
}

#[test]
fn serializes_the_wildcard_and_the_empty_set() {
    assert_eq!(set_of(&[Scope::All]).to_scope_string().as_str(), "*");
    assert_eq!(ScopeSet::new().to_scope_string().as_str(), "");
}

#[test]
fn scope_strings_round_trip() {
    let set = set_of(&[Scope::ModWiki, Scope::Read, Scope::All, Scope::Vote]);
    let parsed = ScopeSet::from_scope_string(set.to_scope_string().as_str()).unwrap();
    assert_eq!(parsed, set);
    let plain = set_of(&[Scope::Account, Scope::WikiRead, Scope::WikiEdit]);
    let parsed_plain = ScopeSet::from_scope_string(plain.to_scope_string().as_str()).unwrap();
    assert_eq!(parsed_plain, plain);
}

#[test]
fn parses_scope_strings_with_repeated_spaces() {
    let parsed = ScopeSet::from_scope_string("  account   history ").unwrap();
    assert_eq!(parsed, set_of(&[Scope::Account, Scope::History]));
    let empty = ScopeSet::from_scope_string("").unwrap();
    assert!(empty.is_empty());
}

#[test]
fn scope_names_round_trip_through_from_str() {
    let scopes = set_of(&[Scope::All]).iter();
    assert_eq!(scopes.len(), 1);
    assert_eq!(Scope::from_str("*"), Some(Scope::All));
    assert_eq!(Scope::from_str("account"), Some(Scope::Account));
    assert_eq!(Scope::from_str("structuredstyles"), Some(Scope::StructuredStyles));
    assert_eq!(Scope::from_str("wikiread"), Some(Scope::WikiRead));
    assert_eq!(Scope::from_str("unknown"), None);
    assert_eq!(Scope::All.as_str(), "*");
    assert_eq!(Scope::ModContributors.as_str(), "modcontributors");
}
