use reward_factory::account::{make_child_account_id, AccountId};
use reward_factory::errors::FactoryError;

fn acct(s: &str) -> AccountId {
    AccountId::new(s.to_string()).expect("valid account id")
}

#[test]
fn accepts_plain_identifiers() {
    assert!(AccountId::new("ab".to_string()).is_ok());
    assert!(AccountId::new("alice".to_string()).is_ok());
    assert!(AccountId::new("factory.near".to_string()).is_ok());
    assert!(AccountId::new("alice.factory.near".to_string()).is_ok());
    assert!(AccountId::new("a-b_c.d0".to_string()).is_ok());
    assert!(AccountId::new("0123456789".to_string()).is_ok());
}

#[test]
fn accepts_longest_identifier() {
    let id = "a".repeat(64);
    assert!(AccountId::new(id).is_ok());
}

#[test]
fn rejects_bad_lengths() {
    assert_eq!(
        AccountId::new(String::new()).unwrap_err(),
        FactoryError::InvalidIdentifier
    );
    assert_eq!(
        AccountId::new("a".to_string()).unwrap_err(),
        FactoryError::InvalidIdentifier
    );
    let long = "a".repeat(65);
    assert_eq!(
        AccountId::new(long).unwrap_err(),
        FactoryError::InvalidIdentifier
    );
}

#[test]
fn rejects_bad_characters() {
    assert!(AccountId::new("Alice".to_string()).is_err());
    assert!(AccountId::new("a b".to_string()).is_err());
    assert!(AccountId::new("a!b".to_string()).is_err());
    assert!(AccountId::new("a\u{e9}b".to_string()).is_err());
}

#[test]
fn rejects_misplaced_separators() {
    assert!(AccountId::new("-ab".to_string()).is_err());
    assert!(AccountId::new("ab-".to_string()).is_err());
    assert!(AccountId::new(".ab".to_string()).is_err());
    assert!(AccountId::new("ab.".to_string()).is_err());
    assert!(AccountId::new("a..b".to_string()).is_err());
    assert!(AccountId::new("a--b".to_string()).is_err());
    assert!(AccountId::new("a-.b".to_string()).is_err());
    assert!(AccountId::new("a_.b".to_string()).is_err());
}

#[test]
fn derives_child_identifier() {
    let factory = acct("factory.near");
    let child = make_child_account_id("alice", &factory).expect("valid child");
    assert_eq!(child.as_str(), "alice.factory.near");
}

#[test]
fn rejects_malformed_child_identifier() {
    let factory = acct("factory.near");
    assert_eq!(
        make_child_account_id("", &factory).unwrap_err(),
        FactoryError::InvalidIdentifier
    );
    assert_eq!(
        make_child_account_id("bad..name", &factory).unwrap_err(),
        FactoryError::InvalidIdentifier
    );
    assert_eq!(
        make_child_account_id("UPPER", &factory).unwrap_err(),
        FactoryError::InvalidIdentifier
    );
}

#[test]
fn child_of_long_name_is_rejected() {
    let factory = acct("factory.near");
    let name = "a".repeat(60);
    assert_eq!(
        make_child_account_id(&name, &factory).unwrap_err(),
        FactoryError::InvalidIdentifier
    );
}

#[test]
fn same_id_compares_text() {
    let a = acct("alice.near");
    let b = acct("alice.near");
    let c = acct("bob.near");
    assert!(a.same_id(&b));
    assert!(!a.same_id(&c));
}
