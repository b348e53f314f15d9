use patron::identity::Identity;
use patron::peers::ExplicitPeerSet;

#[test]
fn a_fresh_set_contains_nothing() {
    let s = ExplicitPeerSet::new();
    assert!(!s.contains(&Identity::new(vec![1, 2, 3])));
}

#[test]
fn inserted_identities_are_contained() {
    let mut s = ExplicitPeerSet::new();
    s.insert(Identity::new(vec![1]));
    s.insert(Identity::new(vec![2, 2]));
    assert!(s.contains(&Identity::new(vec![1])));
    assert!(s.contains(&Identity::new(vec![2, 2])));
    assert!(!s.contains(&Identity::new(vec![2])));
}

#[test]
fn repeated_insertion_then_one_removal_clears_the_identity() {
    let mut s = ExplicitPeerSet::new();
    s.insert(Identity::new(vec![7]));
    s.insert(Identity::new(vec![7]));
    s.remove(&Identity::new(vec![7]));
    assert!(!s.contains(&Identity::new(vec![7])));
}

#[test]
fn removal_of_an_absent_identity_changes_nothing() {
    let mut s = ExplicitPeerSet::new();
    s.insert(Identity::new(vec![1]));
    s.remove(&Identity::new(vec![9]));
    assert!(s.contains(&Identity::new(vec![1])));
}
