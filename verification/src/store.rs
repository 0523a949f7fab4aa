//! The store that both kinds of index share: sources, faces and the name
//! map.

use crate::attributes::Attributes;
use crate::ids::{FamilyId, FontId, SourceId};
use crate::index_data::{FontData, SourceData, SourceKind};
use crate::names::{lowercase, to_lowercase};
use swash::CacheKey;
use vstd::hash_map::StringHashMap;
use vstd::prelude::*;

verus! {

/// What both kinds of index store: the name map, the faces and the sources.
pub struct BaseIndex {
    /// From the lowercase form of a family name to the family.
    pub family_map: StringHashMap<FamilyId>,
    pub fonts: Vec<FontData>,
    pub sources: Vec<SourceData>,
}

impl BaseIndex {
    /// Every source and face stands at the position its identifier names,
    /// and every face names a source of this store.
    pub open spec fn wf(&self) -> bool {
        &&& forall|i: int|
            0 <= i < self.sources@.len() ==> (#[trigger] self.sources@[i]).id.index() == i
        &&& forall|i: int|
            0 <= i < self.fonts@.len() ==> (#[trigger] self.fonts@[i]).id.index() == i
        &&& forall|i: int|
            0 <= i < self.fonts@.len() ==> (#[trigger] self.fonts@[i]).source.index()
                < self.sources@.len()
    }

    /// The family that the name map holds for `name`: the map is read at
    /// the lowercase form of `name`.
    pub open spec fn spec_family_id_by_name(&self, name: Seq<char>) -> Option<FamilyId> {
        if self.family_map@.contains_key(lowercase(name)) {
            Some(self.family_map@[lowercase(name)])
        } else {
            None
        }
    }

    /// Whether the store holds face `id` together with its source.
    pub open spec fn holds_face(&self, id: FontId) -> bool {
        &&& id.index() < self.fonts@.len()
        &&& self.fonts@[id.index()].source.index() < self.sources@.len()
    }

    /// An empty store.
    pub fn new() -> (base: Self)
        ensures
            base.wf(),
            base.family_map@ == Map::<Seq<char>, FamilyId>::empty(),
            base.fonts@.len() == 0,
            base.sources@.len() == 0,
    {
        BaseIndex { family_map: StringHashMap::new(), fonts: Vec::new(), sources: Vec::new() }
    }

    /// Returns the source with the specified identifier.
    pub fn source(&self, id: SourceId) -> (source: Option<&SourceData>)
        ensures
            source.is_some() == (id.index() < self.sources@.len()),
            source.is_some() ==> *source.unwrap() == self.sources@[id.index()],
    {
        if id.to_usize() < self.sources.len() {
            Some(&self.sources[id.to_usize()])
        } else {
            None
        }
    }

    /// Returns the face with the specified identifier.
    pub fn font(&self, id: FontId) -> (font: Option<&FontData>)
        ensures
            font.is_some() == (id.index() < self.fonts@.len()),
            font.is_some() ==> *font.unwrap() == self.fonts@[id.index()],
    {
        if id.to_usize() < self.fonts.len() {
            Some(&self.fonts[id.to_usize()])
        } else {
            None
        }
    }

    /// Returns the family that the name map holds for `key`. The key is
    /// looked up as it is: the map holds lowercase names.
    pub fn family_id(&self, key: &str) -> (id: Option<FamilyId>)
        ensures
            id == if self.family_map@.contains_key(key@) {
                Some(self.family_map@[key@])
            } else {
                None
            },
    {
        match self.family_map.get(key) {
            Some(id) => Some(*id),
            None => None,
        }
    }

    /// Returns the family that the name map holds for `name`, whatever the
    /// case of its letters.
    pub fn family_id_by_name(&self, name: &str) -> (id: Option<FamilyId>)
        ensures
            id == self.spec_family_id_by_name(name@),
    {
        let key = to_lowercase(name);
        self.family_id(key.as_str())
    }

    /// Maps the lowercase form of `name` to `id`, also where it mapped to
    /// another family before.
    pub fn map_family(&mut self, name: &str, id: FamilyId)
        ensures
            old(self).wf() ==> final(self).wf(),
            final(self).fonts == old(self).fonts,
            final(self).sources == old(self).sources,
            final(self).family_map@ == old(self).family_map@.insert(lowercase(name@), id),
            final(self).spec_family_id_by_name(name@) == Some(id),
            lowercase(lowercase(name@)) == lowercase(name@) ==> final(self).spec_family_id_by_name(
                lowercase(name@),
            ) == Some(id),
    {
        let key = to_lowercase(name);
        self.family_map.insert(key, id);
    }

    /// Appends a source and returns its identifier; `None`, with the store
    /// unchanged, where no identifier is left.
    pub fn add_source(&mut self, kind: SourceKind) -> (id: Option<SourceId>)
        ensures
            old(self).wf() ==> final(self).wf(),
            final(self).family_map == old(self).family_map,
            final(self).fonts == old(self).fonts,
            id.is_some() == (old(self).sources@.len() <= u32::MAX),
            match id {
                Some(id) => {
                    &&& id.index() == old(self).sources@.len()
                    &&& final(self).sources@ == old(self).sources@.push(SourceData { id, kind })
                },
                None => final(self).sources == old(self).sources,
            },
    {
        let n = self.sources.len();
        if n > u32::MAX as usize {
            return None;
        }
        let id = SourceId(n as u32);
        self.sources.push(SourceData { id, kind });
        Some(id)
    }

    /// Appends a face and returns its identifier; `None`, with the store
    /// unchanged, where the store does not hold the source or where no
    /// identifier is left.
    pub fn add_font(
        &mut self,
        family: FamilyId,
        source: SourceId,
        index: u32,
        offset: u32,
        attributes: Attributes,
        key: CacheKey,
    ) -> (id: Option<FontId>)
        ensures
            old(self).wf() ==> final(self).wf(),
            final(self).family_map == old(self).family_map,
            final(self).sources == old(self).sources,
            id.is_some() == (source.index() < old(self).sources@.len() && old(self).fonts@.len()
                <= u32::MAX),
            match id {
                Some(id) => {
                    &&& id.index() == old(self).fonts@.len()
                    &&& final(self).fonts@ == old(self).fonts@.push(
                        FontData { id, family, source, index, offset, attributes, key },
                    )
                },
                None => final(self).fonts == old(self).fonts,
            },
    {
        let n = self.fonts.len();
        if source.to_usize() >= self.sources.len() || n > u32::MAX as usize {
            return None;
        }
        let id = FontId(n as u32);
        self.fonts.push(FontData { id, family, source, index, offset, attributes, key });
        Some(id)
    }
}

impl Default for BaseIndex {
    fn default() -> (base: Self)
        ensures
            base.wf(),
            base.family_map@ == Map::<Seq<char>, FamilyId>::empty(),
            base.fonts@.len() == 0,
            base.sources@.len() == 0,
    {
        BaseIndex::new()
    }
}

} // verus!
