use font_index::{FamilyId, FontId, SourceId};

#[test]
fn identifiers_convert_to_and_from_integers() {
    assert_eq!(FamilyId::new(7).to_u32(), 7);
    assert_eq!(FamilyId::new(7).to_usize(), 7);
    assert_eq!(FontId::new(0).to_u32(), 0);
    assert_eq!(FontId::new(u32::MAX).to_usize(), u32::MAX as usize);
    assert_eq!(SourceId::new(12).to_u32(), 12);
    assert_eq!(SourceId::new(12).to_usize(), 12);
}

#[test]
fn identifiers_are_equal_where_their_integers_are() {
    assert_eq!(FamilyId::new(3), FamilyId(3));
    assert_ne!(FamilyId::new(3), FamilyId(4));
    assert_eq!(FontId::new(3), FontId(3));
    assert_ne!(FontId::new(3), FontId(4));
    assert_eq!(SourceId::new(3), SourceId(3));
    assert_ne!(SourceId::new(3), SourceId(4));
}
