//! Views of the sources, families and faces of an index.

use crate::attributes::{Attributes, RequestedAttributes};
use crate::ids::{FamilyId, FontId, SourceId};
use crate::index_data::{FamilyData, FamilyFont, FontData, SourceData, SourceKind};
use crate::store::BaseIndex;
use swash::CacheKey;
use vstd::prelude::*;

verus! {

/// Whether the faces that `family` lists are faces of `store` that belong
/// to `family` and have the attributes listed.
pub open spec fn lists_own_faces(store: BaseIndex, family: FamilyData) -> bool {
    forall|j: int|
        0 <= j < family.fonts@.len() ==> {
            let listed = #[trigger] family.fonts@[j];
            &&& listed.id.index() < store.fonts@.len()
            &&& store.fonts@[listed.id.index()].family == family.id
            &&& store.fonts@[listed.id.index()].attributes == listed.attributes
        }
}

/// The faces among `listed` that `store` holds together with their sources,
/// in the order in which they are listed.
pub open spec fn stored_faces(store: BaseIndex, listed: Seq<FamilyFont>) -> Seq<FontId>
    decreases listed.len(),
{
    if listed.len() == 0 {
        Seq::empty()
    } else {
        let earlier = stored_faces(store, listed.drop_last());
        if store.holds_face(listed.last().id) {
            earlier.push(listed.last().id)
        } else {
            earlier
        }
    }
}

/// A well-formed store holds every face that is listed with an identifier
/// it has issued.
pub proof fn lemma_stored_faces(store: BaseIndex, listed: Seq<FamilyFont>)
    requires
        store.wf(),
        forall|j: int|
            0 <= j < listed.len() ==> (#[trigger] listed[j]).id.index() < store.fonts@.len(),
    ensures
        stored_faces(store, listed).len() == listed.len(),
        forall|j: int|
            0 <= j < listed.len() ==> #[trigger] stored_faces(store, listed)[j] == listed[j].id,
    decreases listed.len(),
{
    if listed.len() > 0 {
        let front = listed.drop_last();
        assert forall|j: int| 0 <= j < front.len() implies (#[trigger] front[j]).id.index()
            < store.fonts@.len() by {
            assert(front[j] == listed[j]);
        }
        lemma_stored_faces(store, front);
        assert(store.holds_face(listed.last().id));
        assert forall|j: int| 0 <= j < listed.len() implies #[trigger] stored_faces(
            store,
            listed,
        )[j] == listed[j].id by {
            if j < front.len() {
                assert(stored_faces(store, front)[j] == front[j].id);
            }
        }
    }
}

/// A view of one source of an index. It borrows from the index and is cheap
/// to copy.
#[derive(Clone, Copy)]
pub struct SourceEntry<'a> {
    index: &'a BaseIndex,
    data: &'a SourceData,
}

impl<'a> SourceEntry<'a> {
    /// The store the source belongs to.
    pub closed spec fn store(&self) -> BaseIndex {
        *self.index
    }

    /// The record of the source.
    pub closed spec fn record(&self) -> SourceData {
        *self.data
    }

    /// The view of `data`, a source of `index`.
    pub(crate) fn new(index: &'a BaseIndex, data: &'a SourceData) -> (entry: Self)
        ensures
            entry.store() == *index,
            entry.record() == *data,
    {
        SourceEntry { index, data }
    }

    /// Returns the source identifier.
    pub fn id(&self) -> (id: SourceId)
        ensures
            id == self.record().id,
    {
        self.data.id
    }

    /// Returns the path of the source, if it is represented by a file.
    pub fn path(&self) -> (path: Option<&'a str>)
        ensures
            match self.record().kind {
                SourceKind::Memory(_) => path.is_none(),
                SourceKind::File { path: file } => path.is_some() && path.unwrap()@ == file@,
            },
    {
        match &self.data.kind {
            SourceKind::Memory(_) => None,
            SourceKind::File { path } => Some(path.as_str()),
        }
    }
}

/// A view of one family of an index. It borrows from the index and is cheap
/// to copy.
#[derive(Clone, Copy)]
pub struct FamilyEntry<'a> {
    index: &'a BaseIndex,
    data: &'a FamilyData,
}

impl<'a> FamilyEntry<'a> {
    /// The store the family belongs to.
    pub closed spec fn store(&self) -> BaseIndex {
        *self.index
    }

    /// The record of the family.
    pub closed spec fn record(&self) -> FamilyData {
        *self.data
    }

    /// The store is well formed, and the faces that the family lists are
    /// its own.
    pub open spec fn wf(&self) -> bool {
        &&& self.store().wf()
        &&& lists_own_faces(self.store(), self.record())
    }

    /// The view of `data`, a family of the index that `index` belongs to.
    pub(crate) fn new(index: &'a BaseIndex, data: &'a FamilyData) -> (entry: Self)
        ensures
            entry.store() == *index,
            entry.record() == *data,
    {
        FamilyEntry { index, data }
    }

    /// Returns the family identifier.
    pub fn id(&self) -> (id: FamilyId)
        ensures
            id == self.record().id,
    {
        self.data.id
    }

    /// Returns the name of the family.
    pub fn name(&self) -> (name: &'a str)
        ensures
            name@ == self.record().name@,
    {
        self.data.name.as_str()
    }

    /// Returns the fonts in the family, in the order in which the family
    /// lists them. A face that the store does not hold, or whose source it
    /// does not hold, is left out; in a well-formed index there is none.
    pub fn fonts(&self) -> (fonts: Vec<FontEntry<'a>>)
        ensures
            fonts@.len() == stored_faces(self.store(), self.record().fonts@).len(),
            forall|k: int|
                0 <= k < fonts@.len() ==> {
                    &&& (#[trigger] fonts@[k]).store() == self.store()
                    &&& fonts@[k].family_record() == self.record()
                    &&& fonts@[k].record() == self.store().fonts@[stored_faces(
                        self.store(),
                        self.record().fonts@,
                    )[k].index()]
                },
            self.wf() ==> fonts@.len() == self.record().fonts@.len(),
            self.wf() ==> forall|j: int|
                0 <= j < fonts@.len() ==> {
                    &&& (#[trigger] fonts@[j]).wf()
                    &&& fonts@[j].record().id == self.record().fonts@[j].id
                },
    {
        let ghost listed = self.data.fonts@;
        let mut fonts: Vec<FontEntry<'a>> = Vec::new();
        let mut j: usize = 0;
        while j < self.data.fonts.len()
            invariant
                j <= self.data.fonts@.len(),
                listed == self.data.fonts@,
                fonts@.len() == stored_faces(*self.index, listed.take(j as int)).len(),
                forall|k: int|
                    0 <= k < fonts@.len() ==> {
                        &&& (#[trigger] fonts@[k]).store() == self.store()
                        &&& fonts@[k].family_record() == self.record()
                        &&& fonts@[k].record() == self.index.fonts@[stored_faces(
                            *self.index,
                            listed.take(j as int),
                        )[k].index()]
                    },
            decreases self.data.fonts@.len() - j,
        {
            let id = self.data.fonts[j].id;
            proof {
                assert(listed.take(j + 1).drop_last() =~= listed.take(j as int));
                assert(listed.take(j + 1).last() == listed[j as int]);
            }
            match self.index.font(id) {
                Some(data) => match FontEntry::new(self.index, self.data, data) {
                    Some(entry) => {
                        fonts.push(entry);
                    },
                    None => {},
                },
                None => {},
            }
            j += 1;
        }
        proof {
            assert(listed.take(j as int) =~= listed);
            if self.wf() {
                lemma_stored_faces(*self.index, listed);
            }
        }
        fonts
    }
}

/// A view of one face of an index, with its family. It borrows from the
/// index and is cheap to copy.
#[derive(Clone, Copy)]
pub struct FontEntry<'a> {
    index: &'a BaseIndex,
    family: &'a FamilyData,
    data: &'a FontData,
}

impl<'a> FontEntry<'a> {
    /// The store the face belongs to.
    pub closed spec fn store(&self) -> BaseIndex {
        *self.index
    }

    /// The record of the family of the face.
    pub closed spec fn family_record(&self) -> FamilyData {
        *self.family
    }

    /// The record of the face.
    pub closed spec fn record(&self) -> FontData {
        *self.data
    }

    /// The store holds the source of the face. This holds of every entry
    /// that the library hands out.
    #[verifier::type_invariant]
    closed spec fn has_source(self) -> bool {
        self.data.source.index() < self.index.sources@.len()
    }

    /// The store is well formed and holds the record under the face's
    /// identifier; the family record is that of the face's family, and
    /// the faces that it lists are its own.
    pub open spec fn wf(&self) -> bool {
        &&& self.store().wf()
        &&& self.record().id.index() < self.store().fonts@.len()
        &&& self.store().fonts@[self.record().id.index()] == self.record()
        &&& self.family_record().id == self.record().family
        &&& lists_own_faces(self.store(), self.family_record())
    }

    /// The view of `data`, a face of `index`, with `family` as its family;
    /// `None` where `index` does not hold the source of the face.
    pub(crate) fn new(index: &'a BaseIndex, family: &'a FamilyData, data: &'a FontData) -> (entry:
        Option<Self>)
        ensures
            entry.is_some() == (data.source.index() < index.sources@.len()),
            entry.is_some() ==> {
                &&& entry.unwrap().store() == *index
                &&& entry.unwrap().family_record() == *family
                &&& entry.unwrap().record() == *data
            },
    {
        if data.source.to_usize() < index.sources.len() {
            Some(FontEntry { index, family, data })
        } else {
            None
        }
    }

    /// Returns the font identifier.
    pub fn id(&self) -> (id: FontId)
        ensures
            id == self.record().id,
    {
        self.data.id
    }

    /// Returns the font source.
    pub fn source(&self) -> (source: SourceEntry<'a>)
        ensures
            self.record().source.index() < self.store().sources@.len(),
            source.store() == self.store(),
            source.record() == self.store().sources@[self.record().source.index()],
            self.store().wf() ==> source.record().id == self.record().source,
    {
        proof {
            use_type_invariant(self);
        }
        SourceEntry::new(self.index, &self.index.sources[self.data.source.to_usize()])
    }

    /// Returns the index of the font in the source.
    pub fn index(&self) -> (index: u32)
        ensures
            index == self.record().index,
    {
        self.data.index
    }

    /// Returns the offset to the font table directory in the source.
    pub fn offset(&self) -> (offset: u32)
        ensures
            offset == self.record().offset,
    {
        self.data.offset
    }

    /// Returns the family entry. It is the entry of the family that the
    /// face was registered with.
    pub fn family(&self) -> (family: FamilyEntry<'a>)
        ensures
            family.store() == self.store(),
            family.record() == self.family_record(),
            self.wf() ==> family.wf() && family.record().id == self.record().family,
    {
        FamilyEntry::new(self.index, self.family)
    }

    /// Returns the family name.
    pub fn family_name(&self) -> (name: &'a str)
        ensures
            name@ == self.family_record().name@,
    {
        self.family.name.as_str()
    }

    /// Returns the font attributes.
    pub fn attributes(&self) -> (attributes: Attributes)
        ensures
            attributes == self.record().attributes,
    {
        self.data.attributes
    }

    /// Returns the cache key of the font.
    pub fn cache_key(&self) -> (key: CacheKey)
        ensures
            key == self.record().key,
    {
        self.data.key
    }

    /// Returns what a selection compares: the font, its own attributes and
    /// the attributes asked for.
    pub fn selector(&self, attrs: RequestedAttributes) -> (selector: (
        FontId,
        Attributes,
        RequestedAttributes,
    ))
        ensures
            selector == (self.record().id, self.record().attributes, attrs),
    {
        (self.data.id, self.data.attributes, attrs)
    }
}

} // verus!
