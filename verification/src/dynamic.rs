//! An index that takes families while it is in use.

use crate::attributes::Attributes;
use crate::entry::{lists_own_faces, FamilyEntry, FontEntry};
use crate::ids::{FamilyId, FontId, SourceId};
use crate::index_data::{FamilyData, FamilyFont, FontData, SourceData, SourceKind};
use crate::names::lowercase;
use crate::store::BaseIndex;
use std::sync::Arc;
use swash::CacheKey;
use vstd::prelude::*;

verus! {

/// A face to register together with its family.
#[derive(Clone, Copy, Debug)]
pub struct FaceInfo {
    /// The source that holds the face.
    pub source: SourceId,
    /// The position of the face in its source.
    pub index: u32,
    /// The offset of the face's table directory in its source.
    pub offset: u32,
    pub attributes: Attributes,
    pub key: CacheKey,
}

/// An index that takes families while it is in use. Each family is shared:
/// a handle handed out stays valid for as long as its holder keeps it.
/// It derives no fallback chains: a family is found by name or identifier.
pub struct DynamicIndex {
    pub base: BaseIndex,
    pub families: Vec<Arc<FamilyData>>,
}

impl Default for DynamicIndex {
    fn default() -> (index: Self)
        ensures
            index.wf(),
            index.base.family_map@ == Map::<Seq<char>, FamilyId>::empty(),
            index.base.fonts@.len() == 0,
            index.base.sources@.len() == 0,
            index.families@.len() == 0,
    {
        DynamicIndex::new()
    }
}

impl DynamicIndex {
    /// Whether `id` names a family of this index.
    pub open spec fn has_family(&self, id: FamilyId) -> bool {
        id.index() < self.families@.len()
    }

    /// The invariant of the index.
    pub open spec fn wf(&self) -> bool {
        &&& self.base.wf()
        // Every family stands at the position its identifier names.
        &&& forall|f: int|
            0 <= f < self.families@.len() ==> (#[trigger] self.families@[f]).id.index() == f
        // Every face belongs to a family of the index.
        &&& forall|i: int|
            0 <= i < self.base.fonts@.len() ==> self.has_family(
                (#[trigger] self.base.fonts@[i]).family,
            )
        &&& forall|f: int|
            0 <= f < self.families@.len() ==> lists_own_faces(
                self.base,
                *#[trigger] self.families@[f],
            )
        // A name maps to a family of the index whose name it is, in lowercase.
        &&& forall|name: Seq<char>| #[trigger]
            self.base.family_map@.contains_key(name) ==> {
                &&& self.has_family(self.base.family_map@[name])
                &&& lowercase(self.families@[self.base.family_map@[name].index()].name@) == name
            }
    }

    /// The family that `name` maps to: the name map is read at the
    /// lowercase form of `name`.
    pub open spec fn family_id_by_name(&self, name: Seq<char>) -> Option<FamilyId> {
        self.base.spec_family_id_by_name(name)
    }

    /// Whether `entry` is the view of family `id`: the family's view where
    /// the index has such a family, and nothing where it has not or where
    /// `id` is `None`.
    pub open spec fn is_family_view(
        &self,
        entry: Option<FamilyEntry>,
        id: Option<FamilyId>,
    ) -> bool {
        match id {
            Some(id) => if self.has_family(id) {
                &&& entry.is_some()
                &&& entry.unwrap().store() == self.base
                &&& entry.unwrap().record() == *self.families@[id.index()]
            } else {
                entry.is_none()
            },
            None => entry.is_none(),
        }
    }

    /// Whether the index can show face `id`: it holds the face, its family
    /// and its source. In a well-formed index that is every face.
    pub open spec fn shows_font(&self, id: FontId) -> bool {
        &&& self.base.holds_face(id)
        &&& self.has_family(self.base.fonts@[id.index()].family)
    }

    /// Whether `entry` is the view of face `id`: the view of the face and
    /// of its family where the index can show the face, and nothing where
    /// it cannot.
    pub open spec fn is_font_view(&self, entry: Option<FontEntry>, id: FontId) -> bool {
        if self.shows_font(id) {
            &&& entry.is_some()
            &&& entry.unwrap().store() == self.base
            &&& entry.unwrap().record() == self.base.fonts@[id.index()]
            &&& entry.unwrap().family_record() == *self.families@[self.base.fonts@[id.index()]
                .family.index()]
        } else {
            entry.is_none()
        }
    }

    /// Whether `faces` can be registered: each names a source of the
    /// index, and identifiers are left for the family and for every face.
    pub open spec fn can_add(&self, faces: Seq<FaceInfo>) -> bool {
        &&& self.families@.len() <= u32::MAX
        &&& faces.len() > 0 ==> self.base.fonts@.len() + faces.len() <= u32::MAX + 1
        &&& forall|j: int|
            0 <= j < faces.len() ==> (#[trigger] faces[j]).source.index()
                < self.base.sources@.len()
    }

    /// An index without families, faces or sources.
    pub fn new() -> (index: Self)
        ensures
            index.wf(),
            index.base.family_map@ == Map::<Seq<char>, FamilyId>::empty(),
            index.base.fonts@.len() == 0,
            index.base.sources@.len() == 0,
            index.families@.len() == 0,
    {
        DynamicIndex { base: BaseIndex::new(), families: Vec::new() }
    }

    /// Appends a source and returns its identifier; `None`, with the index
    /// unchanged, where no identifier is left.
    pub fn add_source(&mut self, kind: SourceKind) -> (id: Option<SourceId>)
        ensures
            old(self).wf() ==> final(self).wf(),
            final(self).base.family_map == old(self).base.family_map,
            final(self).base.fonts == old(self).base.fonts,
            final(self).families == old(self).families,
            id.is_some() == (old(self).base.sources@.len() <= u32::MAX),
            match id {
                Some(id) => {
                    &&& id.index() == old(self).base.sources@.len()
                    &&& final(self).base.sources@ == old(self).base.sources@.push(
                        SourceData { id, kind },
                    )
                },
                None => final(self).base.sources == old(self).base.sources,
            },
    {
        let id = self.base.add_source(kind);
        proof {
            if old(self).wf() {
                assert forall|f: int| 0 <= f < self.families@.len() implies lists_own_faces(
                    self.base,
                    *#[trigger] self.families@[f],
                ) by {
                    assert(lists_own_faces(old(self).base, *old(self).families@[f]));
                }
            }
        }
        id
    }

    /// Registers a family under `name`, with `faces` as its faces, and
    /// returns its identifier. The faces get the identifiers that follow
    /// those issued so far, in the order of `faces`. The lowercase form of
    /// `name` maps to the new family from now on, also where it mapped to
    /// another before. Families and faces registered earlier keep their
    /// identifiers and their records. `None`, with the index unchanged,
    /// where a face names a source that the index does not hold or where
    /// the identifiers do not suffice.
    pub fn add_family(&mut self, name: &str, faces: &[FaceInfo]) -> (id: Option<FamilyId>)
        ensures
            old(self).wf() ==> final(self).wf(),
            final(self).base.sources == old(self).base.sources,
            id.is_some() == old(self).can_add(faces@),
            match id {
                Some(id) => {
                    &&& id.index() == old(self).families@.len()
                    &&& final(self).families@.len() == old(self).families@.len() + 1
                    &&& forall|f: int|
                        0 <= f < old(self).families@.len() ==> #[trigger] final(self).families@[f]
                            == old(self).families@[f]
                    &&& final(self).families@[id.index()].id == id
                    &&& final(self).families@[id.index()].name@ == name@
                    &&& final(self).families@[id.index()].fonts@.len() == faces@.len()
                    &&& final(self).base.fonts@.len() == old(self).base.fonts@.len() + faces@.len()
                    &&& forall|i: int|
                        0 <= i < old(self).base.fonts@.len() ==> (#[trigger] final(
                            self
                        ).base.fonts@[i]) == old(self).base.fonts@[i]
                    &&& forall|j: int|
                        0 <= j < faces@.len() ==> {
                            let face = #[trigger] faces@[j];
                            let font = FontId((old(self).base.fonts@.len() + j) as u32);
                            &&& final(self).base.fonts@[old(self).base.fonts@.len() + j]
                                == FontData {
                                id: font,
                                family: id,
                                source: face.source,
                                index: face.index,
                                offset: face.offset,
                                attributes: face.attributes,
                                key: face.key,
                            }
                            &&& final(self).families@[id.index()].fonts@[j] == FamilyFont {
                                id: font,
                                attributes: face.attributes,
                            }
                        }
                    &&& final(self).base.family_map@ == old(self).base.family_map@.insert(
                        lowercase(name@),
                        id,
                    )
                    &&& final(self).family_id_by_name(name@) == Some(id)
                    &&& lowercase(lowercase(name@)) == lowercase(name@) ==> {
                        final(self).family_id_by_name(lowercase(name@)) == Some(id)
                    }
                },
                None => {
                    &&& final(self).families == old(self).families
                    &&& final(self).base.fonts == old(self).base.fonts
                    &&& final(self).base.family_map == old(self).base.family_map
                },
            },
    {
        let n_families = self.families.len();
        let n_fonts = self.base.fonts.len();
        if n_families > u32::MAX as usize {
            return None;
        }
        if faces.len() > 0 && (n_fonts > u32::MAX as usize || faces.len() - 1 > u32::MAX as usize
            - n_fonts) {
            return None;
        }
        let mut j: usize = 0;
        while j < faces.len()
            invariant
                j <= faces@.len(),
                *self == *old(self),
                n_fonts == self.base.fonts@.len(),
                n_families == self.families@.len(),
                n_families <= u32::MAX,
                faces@.len() > 0 ==> n_fonts + faces@.len() <= u32::MAX + 1,
                forall|k: int|
                    0 <= k < j ==> (#[trigger] faces@[k]).source.index() < self.base.sources@.len(),
            decreases faces@.len() - j,
        {
            if faces[j].source.to_usize() >= self.base.sources.len() {
                return None;
            }
            j += 1;
        }
        let id = FamilyId(n_families as u32);
        let mut listed: Vec<FamilyFont> = Vec::new();
        let mut j: usize = 0;
        while j < faces.len()
            invariant
                j <= faces@.len(),
                n_fonts == old(self).base.fonts@.len(),
                faces@.len() > 0 ==> n_fonts + faces@.len() <= u32::MAX + 1,
                old(self).can_add(faces@),
                self.families == old(self).families,
                self.base.sources == old(self).base.sources,
                self.base.family_map == old(self).base.family_map,
                self.base.fonts@.len() == n_fonts + j,
                listed@.len() == j,
                forall|i: int|
                    0 <= i < n_fonts ==> #[trigger] self.base.fonts@[i] == old(self).base.fonts@[i],
                forall|k: int|
                    0 <= k < j ==> {
                        let face = #[trigger] faces@[k];
                        let font = FontId((n_fonts + k) as u32);
                        &&& self.base.fonts@[n_fonts + k] == FontData {
                            id: font,
                            family: id,
                            source: face.source,
                            index: face.index,
                            offset: face.offset,
                            attributes: face.attributes,
                            key: face.key,
                        }
                        &&& listed@[k] == FamilyFont { id: font, attributes: face.attributes }
                    },
            decreases faces@.len() - j,
        {
            let face = &faces[j];
            let font = FontId((n_fonts + j) as u32);
            self.base.fonts.push(
                FontData {
                    id: font,
                    family: id,
                    source: face.source,
                    index: face.index,
                    offset: face.offset,
                    attributes: face.attributes,
                    key: face.key,
                },
            );
            listed.push(FamilyFont { id: font, attributes: face.attributes });
            j += 1;
        }
        self.families.push(Arc::new(FamilyData { id, name: name.to_string(), fonts: listed }));
        self.base.map_family(name, id);
        proof {
            if old(self).wf() {
                assert forall|i: int| 0 <= i < self.base.fonts@.len() implies (
                #[trigger] self.base.fonts@[i]).id.index() == i
                    && self.base.fonts@[i].source.index() < self.base.sources@.len()
                    && self.has_family(self.base.fonts@[i].family) by {
                    if i >= n_fonts {
                        let k = i - n_fonts;
                        assert(faces@[k].source.index() < self.base.sources@.len());
                        assert(self.base.fonts@[n_fonts + k].family == id);
                    }
                }
                assert forall|f: int| 0 <= f < self.families@.len() implies lists_own_faces(
                    self.base,
                    *#[trigger] self.families@[f],
                ) by {
                    if f < n_families {
                        assert(lists_own_faces(old(self).base, *old(self).families@[f]));
                    } else {
                        assert forall|k: int| 0 <= k < self.families@[f].fonts@.len() implies {
                            let listed = #[trigger] self.families@[f].fonts@[k];
                            &&& listed.id.index() < self.base.fonts@.len()
                            &&& self.base.fonts@[listed.id.index()].family == id
                            &&& self.base.fonts@[listed.id.index()].attributes == listed.attributes
                        } by {
                            let face = self.base.fonts@[n_fonts + k];
                            assert(faces@[k].attributes == face.attributes);
                        }
                    }
                }
            }
        }
        Some(id)
    }

    /// Returns the handle of the family with the specified identifier. A
    /// clone of it keeps the family alive for as long as its holder keeps
    /// it, also when the index is gone.
    pub fn family(&self, id: FamilyId) -> (family: Option<&Arc<FamilyData>>)
        ensures
            family.is_some() == self.has_family(id),
            family.is_some() ==> *family.unwrap() == self.families@[id.index()],
    {
        if id.to_usize() < self.families.len() {
            Some(&self.families[id.to_usize()])
        } else {
            None
        }
    }

    /// Returns a font family entry for the specified name, whatever the
    /// case of its letters.
    pub fn family_by_name<'a>(&'a self, name: &str) -> (entry: Option<FamilyEntry<'a>>)
        ensures
            self.is_family_view(entry, self.family_id_by_name(name@)),
            self.wf() ==> entry.is_some() == self.family_id_by_name(name@).is_some(),
            self.wf() && entry.is_some() ==> {
                &&& entry.unwrap().wf()
                &&& Some(entry.unwrap().record().id) == self.family_id_by_name(name@)
            },
    {
        match self.base.family_id_by_name(name) {
            Some(id) => self.family_by_id(id),
            None => None,
        }
    }

    /// Returns a font family entry for the specified identifier.
    pub fn family_by_id<'a>(&'a self, id: FamilyId) -> (entry: Option<FamilyEntry<'a>>)
        ensures
            self.is_family_view(entry, Some(id)),
            entry.is_some() == self.has_family(id),
            self.wf() && entry.is_some() ==> {
                &&& entry.unwrap().wf()
                &&& entry.unwrap().record().id == id
            },
    {
        if id.to_usize() < self.families.len() {
            let data: &FamilyData = &self.families[id.to_usize()];
            Some(FamilyEntry::new(&self.base, data))
        } else {
            None
        }
    }

    /// Returns a font entry for the specified identifier. Its family is
    /// the one that the face was registered with.
    pub fn font_by_id<'a>(&'a self, id: FontId) -> (entry: Option<FontEntry<'a>>)
        ensures
            self.is_font_view(entry, id),
            entry.is_some() == self.shows_font(id),
            self.wf() ==> entry.is_some() == (id.index() < self.base.fonts@.len()),
            self.wf() && entry.is_some() ==> {
                &&& entry.unwrap().wf()
                &&& entry.unwrap().record().id == id
            },
    {
        let data = match self.base.font(id) {
            Some(data) => data,
            None => {
                return None;
            },
        };
        if data.family.to_usize() >= self.families.len() {
            return None;
        }
        let family: &FamilyData = &self.families[data.family.to_usize()];
        FontEntry::new(&self.base, family, data)
    }
}

} // verus!
