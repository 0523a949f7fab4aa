use font_index::fallback::MAX_FALLBACKS;
use font_index::{Fallbacks, FamilyId};

#[test]
fn new_chain_is_empty() {
    let chain = Fallbacks::new();
    assert_eq!(chain.len(), 0);
    assert!(chain.get().is_empty());
    assert!(!chain.contains(FamilyId(0)));
}

#[test]
fn default_chain_is_empty() {
    let chain = Fallbacks::default();
    assert_eq!(chain.len(), 0);
    assert!(chain.get().is_empty());
}

#[test]
fn push_keeps_the_order_of_arrival() {
    let mut chain = Fallbacks::new();
    assert!(chain.push(FamilyId(3)));
    assert!(chain.push(FamilyId(1)));
    assert!(chain.push(FamilyId(2)));
    assert_eq!(chain.get(), &[FamilyId(3), FamilyId(1), FamilyId(2)]);
    assert_eq!(chain.len(), 3);
}

#[test]
fn push_refuses_a_family_already_held() {
    let mut chain = Fallbacks::new();
    assert!(chain.push(FamilyId(3)));
    assert!(chain.push(FamilyId(1)));
    assert!(!chain.push(FamilyId(3)));
    assert!(!chain.push(FamilyId(1)));
    assert_eq!(chain.get(), &[FamilyId(3), FamilyId(1)]);
}

#[test]
fn push_refuses_the_zero_family_only_once_held() {
    // The unused slots of a chain must not count as families.
    let mut chain = Fallbacks::new();
    assert!(!chain.contains(FamilyId(0)));
    assert!(chain.push(FamilyId(0)));
    assert!(chain.contains(FamilyId(0)));
    assert!(!chain.push(FamilyId(0)));
    assert_eq!(chain.get(), &[FamilyId(0)]);
}

#[test]
fn push_stops_at_capacity() {
    let mut chain = Fallbacks::new();
    for raw in 0..MAX_FALLBACKS as u32 {
        assert!(chain.push(FamilyId(raw + 10)));
    }
    assert_eq!(chain.len(), MAX_FALLBACKS);
    assert!(!chain.push(FamilyId(99)));
    assert_eq!(chain.len(), MAX_FALLBACKS);
    assert_eq!(
        chain.get(),
        &[
            FamilyId(10),
            FamilyId(11),
            FamilyId(12),
            FamilyId(13),
            FamilyId(14),
            FamilyId(15),
            FamilyId(16),
            FamilyId(17)
        ]
    );
}

#[test]
fn capacity_is_eight() {
    assert_eq!(MAX_FALLBACKS, 8);
}

#[test]
fn a_chain_never_exceeds_capacity_nor_repeats() {
    let mut chain = Fallbacks::new();
    for raw in [5u32, 5, 7, 1, 7, 2, 3, 4, 6, 8, 9, 10, 11, 5] {
        chain.push(FamilyId(raw));
        let ids = chain.get();
        assert!(ids.len() <= MAX_FALLBACKS);
        for i in 0..ids.len() {
            for j in 0..i {
                assert_ne!(ids[i], ids[j]);
            }
        }
    }
    assert_eq!(chain.len(), MAX_FALLBACKS);
}

#[test]
fn copies_are_independent() {
    let mut first = Fallbacks::new();
    first.push(FamilyId(1));
    let mut second = first;
    second.push(FamilyId(2));
    assert_eq!(first.get(), &[FamilyId(1)]);
    assert_eq!(second.get(), &[FamilyId(1), FamilyId(2)]);
}
