use font_index::{
    Attributes, DynamicIndex, FaceInfo, FamilyId, FontId, SourceId, SourceKind,
};
use std::sync::Arc;
use swash::{CacheKey, Stretch, Weight};

fn face(source: SourceId, index: u32, weight: u16) -> FaceInfo {
    FaceInfo {
        source,
        index,
        offset: index * 100,
        attributes: Attributes(
            swash::Attributes::new(Stretch::NORMAL, Weight(weight), swash::Style::Normal).0,
        ),
        key: CacheKey::new(),
    }
}

#[test]
fn a_new_dynamic_index_finds_nothing() {
    for index in [DynamicIndex::new(), DynamicIndex::default()] {
        assert!(index.family(FamilyId(0)).is_none());
        assert!(index.family_by_id(FamilyId(0)).is_none());
        assert!(index.family_by_name("embedded").is_none());
        assert!(index.font_by_id(FontId(0)).is_none());
        assert!(index.families.is_empty());
    }
}

#[test]
fn a_family_is_registered_with_its_faces() {
    let mut index = DynamicIndex::new();
    let source = index.add_source(SourceKind::Memory(vec![1, 2, 3])).unwrap();
    assert_eq!(source, SourceId(0));
    let first = index.add_family("Embedded Sans", &[face(source, 0, 400), face(source, 1, 700)]);
    assert_eq!(first, Some(FamilyId(0)));
    let second = index.add_family("Embedded Serif", &[face(source, 2, 400)]);
    assert_eq!(second, Some(FamilyId(1)));
    let third = index.add_family("Empty", &[]);
    assert_eq!(third, Some(FamilyId(2)));
    assert_eq!(index.base.fonts.len(), 3);

    let family = index.family_by_name("EMBEDDED SANS").unwrap();
    assert_eq!(family.id(), FamilyId(0));
    assert_eq!(family.name(), "Embedded Sans");
    let fonts = family.fonts();
    assert_eq!(fonts.len(), 2);
    assert_eq!(fonts[0].id(), FontId(0));
    assert_eq!(fonts[1].id(), FontId(1));
    assert_eq!(fonts[1].index(), 1);
    assert_eq!(fonts[1].offset(), 100);
    assert_eq!(fonts[1].attributes().weight(), 700);
    assert_eq!(fonts[1].source().id(), source);

    let font = index.font_by_id(FontId(2)).unwrap();
    assert_eq!(font.family().id(), FamilyId(1));
    assert_eq!(font.family_name(), "Embedded Serif");
    assert_eq!(font.index(), 2);
    assert!(index.font_by_id(FontId(3)).is_none());
    assert!(index.family_by_id(FamilyId(2)).unwrap().fonts().is_empty());
    assert!(index.family_by_id(FamilyId(3)).is_none());
}

#[test]
fn a_face_with_an_unknown_source_is_refused_whole() {
    let mut index = DynamicIndex::new();
    let source = index.add_source(SourceKind::Memory(Vec::new())).unwrap();
    let faces = [face(source, 0, 400), face(SourceId(1), 1, 700), face(source, 2, 900)];
    assert_eq!(index.add_family("Broken", &faces), None);
    assert!(index.families.is_empty());
    assert!(index.base.fonts.is_empty());
    assert!(index.family_by_name("broken").is_none());
    assert_eq!(index.add_family("Whole", &[face(source, 0, 400)]), Some(FamilyId(0)));
    assert_eq!(index.font_by_id(FontId(0)).unwrap().family_name(), "Whole");
}

#[test]
fn a_handle_outlives_the_index() {
    let mut index = DynamicIndex::new();
    let source = index.add_source(SourceKind::Memory(Vec::new())).unwrap();
    let id = index.add_family("Embedded", &[face(source, 0, 400)]).unwrap();
    let handle = Arc::clone(index.family(id).unwrap());
    let other = Arc::clone(index.family(id).unwrap());
    assert!(Arc::ptr_eq(&handle, &other));
    assert!(Arc::ptr_eq(&handle, &index.families[0]));
    assert_eq!(Arc::strong_count(&handle), 3);
    assert!(index.family(FamilyId(1)).is_none());
    drop(index);
    drop(other);
    assert_eq!(Arc::strong_count(&handle), 1);
    assert_eq!(handle.name, "Embedded");
    assert_eq!(handle.id, id);
    assert_eq!(handle.fonts.len(), 1);
    assert_eq!(handle.fonts[0].id, FontId(0));
}

#[test]
fn registration_keeps_earlier_identifiers_valid() {
    let mut index = DynamicIndex::new();
    let source = index.add_source(SourceKind::Memory(Vec::new())).unwrap();
    let first = index.add_family("First", &[face(source, 0, 400)]).unwrap();
    let held = Arc::clone(index.family(first).unwrap());
    for position in 0..20u32 {
        let name = format!("Later {}", position);
        let id = index.add_family(&name, &[face(source, position, 400), face(source, position, 700)]);
        assert_eq!(id, Some(FamilyId(position + 1)));
        assert_eq!(index.family_by_id(first).unwrap().name(), "First");
        assert_eq!(index.font_by_id(FontId(0)).unwrap().family().id(), first);
        assert!(Arc::ptr_eq(&held, &index.families[0]));
    }
    assert_eq!(index.font_by_id(FontId(40)).unwrap().family_name(), "Later 19");
    assert_eq!(index.font_by_id(FontId(39)).unwrap().family_name(), "Later 19");
    assert_eq!(index.font_by_id(FontId(38)).unwrap().family_name(), "Later 18");
}

#[test]
fn dynamic_lookup_ignores_case_and_the_last_registration_wins() {
    let mut index = DynamicIndex::new();
    let first = index.add_family("Embedded", &[]).unwrap();
    assert_eq!(index.family_by_name("embedded").unwrap().id(), first);
    assert_eq!(index.family_by_name("EMBEDDED").unwrap().id(), first);
    let second = index.add_family("EmBedded", &[]).unwrap();
    assert_eq!(index.family_by_name("embedded").unwrap().id(), second);
    assert_eq!(index.family_by_name("Embedded").unwrap().name(), "EmBedded");
    assert_eq!(index.family_by_id(first).unwrap().name(), "Embedded");
}
