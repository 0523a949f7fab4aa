//! Font index.

use crate::attributes::{Attributes, RequestedAttributes};
use crate::defaults::{
    default_cjk_families, default_cjk_names, default_generic_families, default_generic_names,
    default_script_families, default_script_names, has_default_generic,
};
use crate::entry::{lists_own_faces, FamilyEntry, FontEntry};
use crate::fallback::{chain, is_chain, Fallbacks};
use crate::fallback::{lemma_chain_bounded, lemma_chain_ended, lemma_chain_push};
use crate::ids::{FamilyId, FontId, SourceId};
use crate::index_data::{lemma_nearest, FamilyData, FamilyFont, FontData, SourceData, SourceKind};
use crate::names::{first_match, lowercase, lowercased, name_views, resolved};
use crate::names::{lemma_resolved_prefix, lemma_resolved_push, lemma_resolved_values};
use crate::script::{lemma_script_code_injective, lemma_script_codes};
use crate::script::{Cjk, GenericFamily, Os, Script};
use crate::script::{CJK_COUNT, GENERIC_COUNT, SCRIPT_COUNT};
use crate::store::BaseIndex;
use std::collections::HashMap;
use swash::CacheKey;
use vstd::prelude::*;
use vstd::std_specs::convert::FromSpecImpl;

verus! {

broadcast use vstd::std_specs::hash::group_hash_axioms;

/// What a family lookup goes by.
#[derive(Clone, Copy, Debug)]
pub enum FamilyKey<'a> {
    Id(FamilyId),
    Name(&'a str),
    Generic(GenericFamily),
}

impl<'a> From<FamilyId> for FamilyKey<'a> {
    fn from(id: FamilyId) -> (key: Self) {
        FamilyKey::Id(id)
    }
}

impl<'a> FromSpecImpl<FamilyId> for FamilyKey<'a> {
    open spec fn obeys_from_spec() -> bool {
        true
    }

    open spec fn from_spec(id: FamilyId) -> Self {
        FamilyKey::Id(id)
    }
}

impl<'a> From<&'a str> for FamilyKey<'a> {
    fn from(name: &'a str) -> (key: Self) {
        FamilyKey::Name(name)
    }
}

impl<'a> FromSpecImpl<&'a str> for FamilyKey<'a> {
    open spec fn obeys_from_spec() -> bool {
        true
    }

    open spec fn from_spec(name: &'a str) -> Self {
        FamilyKey::Name(name)
    }
}

impl<'a> From<GenericFamily> for FamilyKey<'a> {
    fn from(generic: GenericFamily) -> (key: Self) {
        FamilyKey::Generic(generic)
    }
}

impl<'a> FromSpecImpl<GenericFamily> for FamilyKey<'a> {
    open spec fn obeys_from_spec() -> bool {
        true
    }

    open spec fn from_spec(generic: GenericFamily) -> Self {
        FamilyKey::Generic(generic)
    }
}

/// Whether every identifier of `ids` is below `count`.
pub open spec fn ids_below(ids: Seq<FamilyId>, count: int) -> bool {
    forall|i: int| 0 <= i < ids.len() ==> (#[trigger] ids[i]).index() < count
}

/// Whether the CJK variant shares its chain with another: `Traditional`
/// and `Unspecified` do, with each other.
pub open spec fn shares_chain(cjk: Cjk) -> bool {
    cjk == Cjk::Traditional || cjk == Cjk::Unspecified
}

/// An index that is filled once, from the fonts found on the system, and
/// then only read. Besides the families and faces it holds the fallback
/// chains of each script and CJK variant, and the family of each generic
/// family.
pub struct StaticIndex {
    pub base: BaseIndex,
    pub families: Vec<FamilyData>,
    /// From the code of a script to its fallback chain; a script without
    /// fallbacks has no entry, and `Han` never has one.
    pub script_map: HashMap<u8, Fallbacks>,
    /// The fallback chain of each CJK variant, by its slot.
    pub cjk: [Fallbacks; CJK_COUNT],
    /// The family of each generic family, by its slot.
    pub generic: [Option<FamilyId>; GENERIC_COUNT],
}

impl Default for StaticIndex {
    fn default() -> (index: Self)
        ensures
            index.wf(),
            index.base.family_map@ == Map::<Seq<char>, FamilyId>::empty(),
            index.base.fonts@.len() == 0,
            index.base.sources@.len() == 0,
            index.families@.len() == 0,
            index.script_map@ == Map::<u8, Fallbacks>::empty(),
            forall|cjk: Cjk| (#[trigger] index.cjk_chain(cjk)).len() == 0,
            forall|generic: GenericFamily| (#[trigger] index.generic_family(generic)).is_none(),
    {
        StaticIndex::new()
    }
}

impl StaticIndex {
    /// Whether `id` names a family of this index.
    pub open spec fn has_family(&self, id: FamilyId) -> bool {
        id.index() < self.families@.len()
    }

    /// Whether every family of `ids` is a family of this index.
    pub open spec fn has_families(&self, ids: Seq<FamilyId>) -> bool {
        ids_below(ids, self.families@.len() as int)
    }

    /// The fallback chain of the CJK variant `cjk`.
    pub open spec fn cjk_chain(&self, cjk: Cjk) -> Seq<FamilyId> {
        self.cjk@[cjk.spec_slot()]@
    }

    /// The family that stands for `generic`, if one is set.
    pub open spec fn generic_family(&self, generic: GenericFamily) -> Option<FamilyId> {
        self.generic@[generic.spec_slot()]
    }

    /// The fallback chain of each script that has one, by the code of the
    /// script.
    pub open spec fn script_chains(&self) -> Map<u8, Seq<FamilyId>> {
        self.script_map@.map_values(|fallbacks: Fallbacks| fallbacks@)
    }

    /// The fallback chain stored for `script`, if one is stored.
    pub open spec fn script_entry(&self, script: Script) -> Option<Seq<FamilyId>> {
        if self.script_chains().contains_key(script.spec_code()) {
            Some(self.script_chains()[script.spec_code()])
        } else {
            None
        }
    }

    /// The chain that the candidate names `names` resolve to: the families
    /// of the names that are registered, in the order of the names, up to
    /// the first that a chain refuses.
    pub open spec fn resolve_chain(&self, names: Seq<Seq<char>>) -> Seq<FamilyId> {
        chain(resolved(self.base.family_map@, names))
    }

    /// The family that `name` maps to: the name map is read at the
    /// lowercase form of `name`.
    pub open spec fn family_id_by_name(&self, name: Seq<char>) -> Option<FamilyId> {
        self.base.spec_family_id_by_name(name)
    }

    /// The identifier that `key` names, whether or not the index has a
    /// family for it.
    pub open spec fn named_by(&self, key: FamilyKey) -> Option<FamilyId> {
        match key {
            FamilyKey::Id(id) => Some(id),
            FamilyKey::Name(name) => self.family_id_by_name(name@),
            FamilyKey::Generic(generic) => self.generic_family(generic),
        }
    }

    /// The family of the index that `key` stands for: the one it names,
    /// where the index has it.
    pub open spec fn spec_resolve_key(&self, key: FamilyKey) -> Option<FamilyId> {
        match self.named_by(key) {
            Some(id) => if self.has_family(id) {
                Some(id)
            } else {
                None
            },
            None => None,
        }
    }

    /// The face that `query` selects: the nearest face of the family that
    /// `key` stands for, where the index has that family and holds the
    /// face.
    pub open spec fn spec_query(&self, key: FamilyKey, attributes: RequestedAttributes) -> Option<
        FontId,
    > {
        match self.nearest_face(key, attributes) {
            Some(font) => if self.base.holds_face(font) {
                Some(font)
            } else {
                None
            },
            None => None,
        }
    }

    /// The face of the family that `key` stands for that is nearest to
    /// `attributes`. In a well-formed index it is the face that `query`
    /// selects.
    pub open spec fn nearest_face(
        &self,
        key: FamilyKey,
        attributes: RequestedAttributes,
    ) -> Option<FontId> {
        match self.spec_resolve_key(key) {
            Some(family) => self.families@[family.index()].spec_query(attributes),
            None => None,
        }
    }

    /// Whether `entry` is what `query` returns for `key` and `attributes`:
    /// the view of the selected face, with the family that `key` stands
    /// for as its family, or nothing where no face is selected.
    pub open spec fn is_selection(
        &self,
        entry: Option<FontEntry>,
        key: FamilyKey,
        attributes: RequestedAttributes,
    ) -> bool {
        match self.spec_query(key, attributes) {
            Some(font) => {
                &&& entry.is_some()
                &&& entry.unwrap().store() == self.base
                &&& entry.unwrap().record() == self.base.fonts@[font.index()]
                &&& entry.unwrap().family_record() == self.families@[self.spec_resolve_key(
                    key,
                ).unwrap().index()]
            },
            None => entry.is_none(),
        }
    }

    /// Whether the index can show face `id`: it holds the face, its family
    /// and its source. In a well-formed index that is every face.
    pub open spec fn shows_font(&self, id: FontId) -> bool {
        &&& self.base.holds_face(id)
        &&& self.has_family(self.base.fonts@[id.index()].family)
    }

    /// The fallback chain that `fallbacks` returns.
    pub open spec fn spec_fallbacks(&self, script: Script, cjk: Cjk) -> Seq<FamilyId> {
        if script == Script::Han {
            self.cjk_chain(cjk)
        } else {
            match self.script_entry(script) {
                Some(chain) => chain,
                None => Seq::empty(),
            }
        }
    }

    /// Whether `entry` is the view of family `id`: the family's view where
    /// the index has such a family, and nothing where it has not or where
    /// `id` is `None`.
    pub open spec fn is_family_view(
        &self,
        entry: Option<FamilyEntry>,
        id: Option<FamilyId>,
    ) -> bool {
        match id {
            Some(id) => if self.has_family(id) {
                &&& entry.is_some()
                &&& entry.unwrap().store() == self.base
                &&& entry.unwrap().record() == self.families@[id.index()]
            } else {
                entry.is_none()
            },
            None => entry.is_none(),
        }
    }

    /// Whether `entry` is the view of face `id`: the view of the face and
    /// of its family where the index can show the face, and nothing where
    /// it cannot or where `id` is `None`.
    pub open spec fn is_font_view(&self, entry: Option<FontEntry>, id: Option<FontId>) -> bool {
        match id {
            Some(id) => if self.shows_font(id) {
                &&& entry.is_some()
                &&& entry.unwrap().store() == self.base
                &&& entry.unwrap().record() == self.base.fonts@[id.index()]
                &&& entry.unwrap().family_record() == self.families@[self.base.fonts@[id.index()]
                    .family.index()]
            } else {
                entry.is_none()
            },
            None => entry.is_none(),
        }
    }

    /// The invariant of the families, faces and names: every family stands
    /// at the position its identifier names and lists its own faces; every
    /// face belongs to a family of the index; and a name maps to a family
    /// of the index whose name it is, in lowercase.
    pub open spec fn records_wf(&self) -> bool {
        &&& self.base.wf()
        &&& forall|f: int|
            0 <= f < self.families@.len() ==> (#[trigger] self.families@[f]).id.index() == f
        &&& forall|f: int|
            0 <= f < self.families@.len() ==> lists_own_faces(
                self.base,
                #[trigger] self.families@[f],
            )
        &&& forall|i: int|
            0 <= i < self.base.fonts@.len() ==> self.has_family(
                (#[trigger] self.base.fonts@[i]).family,
            )
        &&& forall|name: Seq<char>| #[trigger]
            self.base.family_map@.contains_key(name) ==> {
                &&& self.has_family(self.base.family_map@[name])
                &&& lowercase(self.families@[self.base.family_map@[name].index()].name@) == name
            }
    }

    /// The invariant of the tables: no variant signalled means traditional
    /// Chinese; the script map holds no empty chain and none for Han; no
    /// chain exceeds the capacity or holds a family twice; and the tables
    /// name families of the index only.
    pub open spec fn tables_wf(&self) -> bool {
        &&& self.cjk_chain(Cjk::Unspecified) == self.cjk_chain(Cjk::Traditional)
        &&& forall|slot: int|
            0 <= slot < CJK_COUNT ==> {
                &&& is_chain((#[trigger] self.cjk@[slot])@)
                &&& self.has_families(self.cjk@[slot]@)
            }
        &&& !self.script_map@.contains_key(Script::Han.spec_code())
        &&& forall|code: u8| #[trigger]
            self.script_map@.contains_key(code) ==> {
                &&& self.script_map@[code]@.len() > 0
                &&& is_chain(self.script_map@[code]@)
                &&& self.has_families(self.script_map@[code]@)
            }
        &&& forall|slot: int|
            0 <= slot < GENERIC_COUNT ==> ((#[trigger] self.generic@[slot]) matches Some(id)
                ==> self.has_family(id))
    }

    /// The invariant of the index.
    pub open spec fn wf(&self) -> bool {
        &&& self.records_wf()
        &&& self.tables_wf()
    }

    /// Tables that were well formed stay so while they are not touched and
    /// no family leaves.
    proof fn lemma_tables_kept(&self, before: &StaticIndex)
        requires
            before.tables_wf(),
            self.cjk == before.cjk,
            self.script_map == before.script_map,
            self.generic == before.generic,
            before.families@.len() <= self.families@.len(),
        ensures
            self.tables_wf(),
    {
        assert forall|slot: int| 0 <= slot < CJK_COUNT implies {
            &&& is_chain((#[trigger] self.cjk@[slot])@)
            &&& self.has_families(self.cjk@[slot]@)
        } by {
            assert(before.has_families(before.cjk@[slot]@));
        }
        assert forall|code: u8| #[trigger] self.script_map@.contains_key(code) implies {
            &&& self.script_map@[code]@.len() > 0
            &&& is_chain(self.script_map@[code]@)
            &&& self.has_families(self.script_map@[code]@)
        } by {
            assert(before.has_families(before.script_map@[code]@));
        }
    }

    /// An index without families, faces, sources or fallbacks.
    pub fn new() -> (index: Self)
        ensures
            index.wf(),
            index.base.family_map@ == Map::<Seq<char>, FamilyId>::empty(),
            index.base.fonts@.len() == 0,
            index.base.sources@.len() == 0,
            index.families@.len() == 0,
            index.script_map@ == Map::<u8, Fallbacks>::empty(),
            forall|cjk: Cjk| (#[trigger] index.cjk_chain(cjk)).len() == 0,
            forall|generic: GenericFamily| (#[trigger] index.generic_family(generic)).is_none(),
    {
        let fallbacks = Fallbacks::new();
        StaticIndex {
            base: BaseIndex::new(),
            families: Vec::new(),
            script_map: HashMap::new(),
            cjk: [fallbacks; CJK_COUNT],
            generic: [None; GENERIC_COUNT],
        }
    }

    /// Appends a source and returns its identifier; `None`, with the index
    /// unchanged, where no identifier is left.
    pub fn add_source(&mut self, kind: SourceKind) -> (id: Option<SourceId>)
        ensures
            old(self).wf() ==> final(self).wf(),
            final(self).base.family_map == old(self).base.family_map,
            final(self).base.fonts == old(self).base.fonts,
            final(self).families == old(self).families,
            final(self).script_map == old(self).script_map,
            final(self).cjk == old(self).cjk,
            final(self).generic == old(self).generic,
            id.is_some() == (old(self).base.sources@.len() <= u32::MAX),
            match id {
                Some(id) => {
                    &&& id.index() == old(self).base.sources@.len()
                    &&& final(self).base.sources@ == old(self).base.sources@.push(
                        SourceData { id, kind },
                    )
                },
                None => final(self).base.sources == old(self).base.sources,
            },
    {
        let id = self.base.add_source(kind);
        proof {
            if old(self).wf() {
                assert forall|f: int| 0 <= f < self.families@.len() implies lists_own_faces(
                    self.base,
                    #[trigger] self.families@[f],
                ) by {
                    assert(lists_own_faces(old(self).base, old(self).families@[f]));
                }
                self.lemma_tables_kept(old(self));
            }
        }
        id
    }

    /// Registers a family under `name` and returns its identifier. The
    /// lowercase form of `name` maps to the new family from now on, also
    /// where it mapped to another before. `None`, with the index unchanged,
    /// where no identifier is left.
    pub fn add_family(&mut self, name: &str) -> (id: Option<FamilyId>)
        ensures
            old(self).wf() ==> final(self).wf(),
            final(self).base.fonts == old(self).base.fonts,
            final(self).base.sources == old(self).base.sources,
            final(self).script_map == old(self).script_map,
            final(self).cjk == old(self).cjk,
            final(self).generic == old(self).generic,
            id.is_some() == (old(self).families@.len() <= u32::MAX),
            match id {
                Some(id) => {
                    &&& id.index() == old(self).families@.len()
                    &&& final(self).families@.len() == old(self).families@.len() + 1
                    &&& forall|f: int|
                        0 <= f < old(self).families@.len() ==> #[trigger] final(self).families@[f]
                            == old(self).families@[f]
                    &&& final(self).families@[id.index()].id == id
                    &&& final(self).families@[id.index()].name@ == name@
                    &&& final(self).families@[id.index()].fonts@.len() == 0
                    &&& final(self).base.family_map@ == old(self).base.family_map@.insert(
                        lowercase(name@),
                        id,
                    )
                    &&& final(self).family_id_by_name(name@) == Some(id)
                    &&& lowercase(lowercase(name@)) == lowercase(name@) ==> {
                        final(self).family_id_by_name(lowercase(name@)) == Some(id)
                    }
                },
                None => {
                    &&& final(self).families == old(self).families
                    &&& final(self).base.family_map == old(self).base.family_map
                },
            },
    {
        let n = self.families.len();
        if n > u32::MAX as usize {
            return None;
        }
        let id = FamilyId(n as u32);
        self.families.push(FamilyData { id, name: name.to_string(), fonts: Vec::new() });
        self.base.map_family(name, id);
        proof {
            if old(self).wf() {
                assert forall|f: int| 0 <= f < self.families@.len() implies lists_own_faces(
                    self.base,
                    #[trigger] self.families@[f],
                ) by {
                    if f < n {
                        assert(lists_own_faces(old(self).base, old(self).families@[f]));
                    }
                }
                self.lemma_tables_kept(old(self));
            }
        }
        Some(id)
    }

    /// Registers a face of `family`, held by `source`, and returns its
    /// identifier. `None`, with the index unchanged, where the index has no
    /// such family or no such source, or where no identifier is left.
    pub fn add_font(
        &mut self,
        family: FamilyId,
        source: SourceId,
        index: u32,
        offset: u32,
        attributes: Attributes,
        key: CacheKey,
    ) -> (id: Option<FontId>)
        ensures
            old(self).wf() ==> final(self).wf(),
            final(self).base.family_map == old(self).base.family_map,
            final(self).base.sources == old(self).base.sources,
            final(self).script_map == old(self).script_map,
            final(self).cjk == old(self).cjk,
            final(self).generic == old(self).generic,
            final(self).families@.len() == old(self).families@.len(),
            id.is_some() == (old(self).has_family(family) && source.index() < old(
                self,
            ).base.sources@.len() && old(self).base.fonts@.len() <= u32::MAX),
            match id {
                Some(id) => {
                    &&& id.index() == old(self).base.fonts@.len()
                    &&& final(self).base.fonts@ == old(self).base.fonts@.push(
                        FontData { id, family, source, index, offset, attributes, key },
                    )
                    &&& forall|f: int|
                        0 <= f < old(self).families@.len() && f != family.index()
                            ==> #[trigger] final(self).families@[f] == old(self).families@[f]
                    &&& final(self).families@[family.index()].id == old(
                        self,
                    ).families@[family.index()].id
                    &&& final(self).families@[family.index()].name == old(
                        self,
                    ).families@[family.index()].name
                    &&& final(self).families@[family.index()].fonts@ == old(
                        self,
                    ).families@[family.index()].fonts@.push(FamilyFont { id, attributes })
                },
                None => {
                    &&& final(self).families == old(self).families
                    &&& final(self).base.fonts == old(self).base.fonts
                },
            },
    {
        if family.to_usize() >= self.families.len() {
            return None;
        }
        let id = match self.base.add_font(family, source, index, offset, attributes, key) {
            Some(id) => id,
            None => {
                return None;
            },
        };
        self.families[family.to_usize()].fonts.push(FamilyFont { id, attributes });
        proof {
            if old(self).wf() {
                assert forall|f: int| 0 <= f < self.families@.len() implies lists_own_faces(
                    self.base,
                    #[trigger] self.families@[f],
                ) by {
                    let before = old(self).families@[f];
                    let after = self.families@[f];
                    assert(lists_own_faces(old(self).base, before));
                    assert forall|j: int| 0 <= j < after.fonts@.len() implies {
                        let listed = #[trigger] after.fonts@[j];
                        &&& listed.id.index() < self.base.fonts@.len()
                        &&& self.base.fonts@[listed.id.index()].family == after.id
                        &&& self.base.fonts@[listed.id.index()].attributes == listed.attributes
                    } by {
                        if j < before.fonts@.len() {
                            assert(after.fonts@[j] == before.fonts@[j]);
                        }
                    }
                }
                self.lemma_tables_kept(old(self));
            }
        }
        Some(id)
    }

    /// Returns the identifier of the family that stands for emoji: that of
    /// the family that `family_by_key` finds for the generic family
    /// `Emoji`, and nothing where it finds none.
    pub fn emoji_family(&self) -> (id: Option<FamilyId>)
        ensures
            id == match self.spec_resolve_key(FamilyKey::Generic(GenericFamily::Emoji)) {
                Some(family) => Some(self.families@[family.index()].id),
                None => None,
            },
            self.wf() ==> id == self.spec_resolve_key(FamilyKey::Generic(GenericFamily::Emoji)),
    {
        match self.family_by_key(FamilyKey::Generic(GenericFamily::Emoji)) {
            Some(family) => Some(family.id()),
            None => None,
        }
    }

    /// Returns the families to try, in order, where the primary font lacks
    /// a glyph of `script`. Han goes by the CJK variant alone; a script
    /// without fallbacks yields an empty slice.
    pub fn fallbacks(&self, script: Script, cjk: Cjk) -> (ids: &[FamilyId])
        ensures
            ids@ == self.spec_fallbacks(script, cjk),
            script == Script::Han ==> ids@ == self.cjk_chain(cjk),
            is_chain(ids@),
    {
        if script == Script::Han {
            self.cjk[cjk.slot()].get()
        } else {
            match self.script_map.get(&script.code()) {
                Some(fallbacks) => fallbacks.get(),
                None => &[],
            }
        }
    }

    /// Returns a font entry that matches the specified family and
    /// attributes: the face of the family that is nearest to `attributes`.
    /// There is none where `family` resolves to no family, or to one
    /// without faces.
    pub fn query<'a>(&'a self, family: FamilyKey<'_>, attributes: RequestedAttributes) -> (entry:
        Option<FontEntry<'a>>)
        ensures
            self.is_selection(entry, family, attributes),
            entry.is_some() == self.spec_query(family, attributes).is_some(),
            self.wf() ==> self.is_font_view(entry, self.spec_query(family, attributes)),
            self.wf() && entry.is_some() ==> entry.unwrap().wf(),
            self.wf() ==> self.spec_query(family, attributes) == self.nearest_face(
                family,
                attributes,
            ),
    {
        let family_id = match self.resolve_key(family) {
            Some(family_id) => family_id,
            None => {
                return None;
            },
        };
        let family = &self.families[family_id.to_usize()];
        proof {
            if family.fonts@.len() > 0 {
                lemma_nearest(family.fonts@, attributes);
            }
        }
        let font_id = match family.query(attributes) {
            Some(font_id) => font_id,
            None => {
                return None;
            },
        };
        match self.base.font(font_id) {
            Some(data) => FontEntry::new(&self.base, &self.families[family_id.to_usize()], data),
            None => None,
        }
    }

    /// Returns the family of the index that the specified key stands for.
    pub fn resolve_key(&self, key: FamilyKey<'_>) -> (id: Option<FamilyId>)
        ensures
            id == self.spec_resolve_key(key),
    {
        let id = match key {
            FamilyKey::Id(id) => Some(id),
            FamilyKey::Name(name) => self.base.family_id_by_name(name),
            FamilyKey::Generic(generic) => self.generic[generic.slot()],
        };
        match id {
            Some(id) => if id.to_usize() < self.families.len() {
                Some(id)
            } else {
                None
            },
            None => None,
        }
    }

    /// Returns a font family entry for the specified family key.
    pub fn family_by_key<'a>(&'a self, key: FamilyKey<'_>) -> (entry: Option<FamilyEntry<'a>>)
        ensures
            self.is_family_view(entry, self.spec_resolve_key(key)),
            entry.is_some() == self.spec_resolve_key(key).is_some(),
            self.wf() && entry.is_some() ==> {
                &&& entry.unwrap().wf()
                &&& Some(entry.unwrap().record().id) == self.spec_resolve_key(key)
            },
    {
        match self.resolve_key(key) {
            Some(id) => self.family_by_id(id),
            None => None,
        }
    }

    /// Returns a font family entry for the specified name, whatever the
    /// case of its letters.
    pub fn family_by_name<'a>(&'a self, name: &str) -> (entry: Option<FamilyEntry<'a>>)
        ensures
            self.is_family_view(entry, self.family_id_by_name(name@)),
            self.wf() ==> entry.is_some() == self.family_id_by_name(name@).is_some(),
            self.wf() && entry.is_some() ==> {
                &&& entry.unwrap().wf()
                &&& Some(entry.unwrap().record().id) == self.family_id_by_name(name@)
            },
    {
        match self.base.family_id_by_name(name) {
            Some(id) => self.family_by_id(id),
            None => None,
        }
    }

    /// Returns a font family entry for the specified identifier.
    pub fn family_by_id<'a>(&'a self, id: FamilyId) -> (entry: Option<FamilyEntry<'a>>)
        ensures
            self.is_family_view(entry, Some(id)),
            entry.is_some() == self.has_family(id),
            self.wf() && entry.is_some() ==> {
                &&& entry.unwrap().wf()
                &&& entry.unwrap().record().id == id
            },
    {
        if id.to_usize() < self.families.len() {
            Some(FamilyEntry::new(&self.base, &self.families[id.to_usize()]))
        } else {
            None
        }
    }

    /// Returns a font entry for the specified identifier. Its family is
    /// the one that the face was registered with.
    pub fn font_by_id<'a>(&'a self, id: FontId) -> (entry: Option<FontEntry<'a>>)
        ensures
            self.is_font_view(entry, Some(id)),
            entry.is_some() == self.shows_font(id),
            self.wf() ==> entry.is_some() == (id.index() < self.base.fonts@.len()),
            self.wf() && entry.is_some() ==> {
                &&& entry.unwrap().wf()
                &&& entry.unwrap().record().id == id
            },
    {
        let data = match self.base.font(id) {
            Some(data) => data,
            None => {
                return None;
            },
        };
        if data.family.to_usize() >= self.families.len() {
            return None;
        }
        FontEntry::new(&self.base, &self.families[data.family.to_usize()], data)
    }

    /// The key that a candidate name is looked up under: its lowercase form
    /// where case is folded, and the name itself where it is not.
    pub open spec fn candidate_key(name: Seq<char>, fold_case: bool) -> Seq<char> {
        if fold_case {
            lowercase(name)
        } else {
            name
        }
    }

    /// The keys that candidate names are looked up under.
    pub open spec fn candidate_keys(names: Seq<&str>, fold_case: bool) -> Seq<Seq<char>> {
        if fold_case {
            lowercased(name_views(names))
        } else {
            name_views(names)
        }
    }

    /// Looks one candidate up, under its lowercase form or as it is.
    fn lookup(&self, name: &str, fold_case: bool) -> (id: Option<FamilyId>)
        ensures
            id == if self.base.family_map@.contains_key(Self::candidate_key(name@, fold_case)) {
                Some(self.base.family_map@[Self::candidate_key(name@, fold_case)])
            } else {
                None
            },
    {
        if fold_case {
            self.base.family_id_by_name(name)
        } else {
            self.base.family_id(name)
        }
    }

    /// Walks the candidates to the first that is registered.
    fn walk_to_first(&self, names: &[&str], fold_case: bool) -> (id: Option<FamilyId>)
        ensures
            id == first_match(self.base.family_map@, Self::candidate_keys(names@, fold_case)),
            self.wf() && id.is_some() ==> self.has_family(id.unwrap()),
    {
        let ghost map = self.base.family_map@;
        let ghost keys = Self::candidate_keys(names@, fold_case);
        let mut i: usize = 0;
        while i < names.len()
            invariant
                i <= names@.len(),
                map == self.base.family_map@,
                keys == Self::candidate_keys(names@, fold_case),
                keys.len() == names@.len(),
                resolved(map, keys.take(i as int)).len() == 0,
            decreases names@.len() - i,
        {
            proof {
                assert(keys.take(i + 1) =~= keys.take(i as int).push(keys[i as int]));
                lemma_resolved_push(map, keys.take(i as int), keys[i as int]);
                assert(keys[i as int] == Self::candidate_key(names@[i as int]@, fold_case));
            }
            match self.lookup(names[i], fold_case) {
                Some(id) => {
                    proof {
                        lemma_resolved_prefix(map, keys, i + 1);
                        assert(resolved(map, keys.take(i + 1))[0] == id);
                        self.lemma_chain_of_registered(keys);
                    }
                    return Some(id);
                },
                None => {},
            }
            i += 1;
        }
        assert(keys.take(i as int) =~= keys);
        None
    }

    /// Walks the candidates and pushes the family of each that is
    /// registered, up to the first that the chain refuses.
    fn walk_to_chain(&self, names: &[&str], fold_case: bool) -> (fallbacks: Fallbacks)
        ensures
            fallbacks@ == self.resolve_chain(Self::candidate_keys(names@, fold_case)),
            is_chain(fallbacks@),
            self.wf() ==> self.has_families(fallbacks@),
    {
        let ghost map = self.base.family_map@;
        let ghost keys = Self::candidate_keys(names@, fold_case);
        let mut fallbacks = Fallbacks::new();
        let mut i: usize = 0;
        while i < names.len()
            invariant
                i <= names@.len(),
                map == self.base.family_map@,
                keys == Self::candidate_keys(names@, fold_case),
                keys.len() == names@.len(),
                fallbacks@ == resolved(map, keys.take(i as int)),
                chain(fallbacks@) == fallbacks@,
            decreases names@.len() - i,
        {
            let ghost hits = fallbacks@;
            proof {
                assert(keys.take(i + 1) =~= keys.take(i as int).push(keys[i as int]));
                lemma_resolved_push(map, keys.take(i as int), keys[i as int]);
                assert(keys[i as int] == Self::candidate_key(names@[i as int]@, fold_case));
            }
            match self.lookup(names[i], fold_case) {
                Some(id) => {
                    let pushed = fallbacks.push(id);
                    proof {
                        lemma_chain_bounded(hits);
                        lemma_chain_push(hits, id);
                    }
                    if !pushed {
                        proof {
                            // The chain has ended: what follows changes nothing.
                            let upto = hits.push(id);
                            let all = resolved(map, keys);
                            lemma_resolved_prefix(map, keys, i + 1);
                            lemma_chain_bounded(upto);
                            assert(all =~= upto + all.skip(upto.len() as int));
                            lemma_chain_ended(upto, all.skip(upto.len() as int));
                            lemma_chain_bounded(all);
                            self.lemma_chain_of_registered(keys);
                        }
                        return fallbacks;
                    }
                },
                None => {},
            }
            i += 1;
        }
        proof {
            assert(keys.take(i as int) =~= keys);
            lemma_chain_bounded(resolved(map, keys));
            self.lemma_chain_of_registered(keys);
        }
        fallbacks
    }

    /// Returns the family of the first of `families` that is registered,
    /// whatever the case of the letters of the names.
    pub fn find_family(&self, families: &[&str]) -> (id: Option<FamilyId>)
        ensures
            id == first_match(self.base.family_map@, lowercased(name_views(families@))),
            self.wf() && id.is_some() ==> self.has_family(id.unwrap()),
    {
        self.walk_to_first(families, true)
    }

    /// Returns the family of the first of `keys` that the name map holds.
    /// The keys are looked up as they are: the map holds lowercase names.
    pub fn find_family_by_key(&self, keys: &[&str]) -> (id: Option<FamilyId>)
        ensures
            id == first_match(self.base.family_map@, name_views(keys@)),
            self.wf() && id.is_some() ==> self.has_family(id.unwrap()),
    {
        self.walk_to_first(keys, false)
    }

    /// Returns the fallback chain that the candidate names `families`
    /// resolve to, whatever the case of their letters. The names are walked
    /// in order; each that is registered contributes its family, and the
    /// walk ends at the first family that the chain refuses, because it is
    /// full or already holds the family. Names that are not registered are
    /// passed over.
    pub fn find_fallbacks(&self, families: &[&str]) -> (fallbacks: Fallbacks)
        ensures
            fallbacks@ == self.resolve_chain(lowercased(name_views(families@))),
            is_chain(fallbacks@),
            self.wf() ==> self.has_families(fallbacks@),
    {
        self.walk_to_chain(families, true)
    }

    /// Returns the fallback chain that `keys` resolve to, walked as
    /// `find_fallbacks` walks names. The keys are looked up as they are: the
    /// name map holds lowercase names.
    pub fn find_fallbacks_by_key(&self, keys: &[&str]) -> (fallbacks: Fallbacks)
        ensures
            fallbacks@ == self.resolve_chain(name_views(keys@)),
            is_chain(fallbacks@),
            self.wf() ==> self.has_families(fallbacks@),
    {
        self.walk_to_chain(keys, false)
    }

    /// In a well-formed index, what candidate keys resolve to are families
    /// of the index.
    pub proof fn lemma_chain_of_registered(&self, names: Seq<Seq<char>>)
        ensures
            self.wf() ==> self.has_families(self.resolve_chain(names)),
            self.wf() && first_match(self.base.family_map@, names).is_some() ==> self.has_family(
                first_match(self.base.family_map@, names).unwrap(),
            ),
    {
        if self.wf() {
            let map = self.base.family_map@;
            let hits = resolved(map, names);
            lemma_resolved_values(map, names);
            lemma_chain_bounded(hits);
            assert forall|i: int| 0 <= i < hits.len() implies self.has_family(
                #[trigger] hits[i],
            ) by {
                assert(map.contains_value(hits[i]));
                let name = choose|name: Seq<char>| map.contains_key(name) && map[name] == hits[i];
                assert(self.has_family(map[name]));
            }
            assert forall|i: int| 0 <= i < chain(hits).len() implies self.has_family(
                #[trigger] chain(hits)[i],
            ) by {
                assert(chain(hits)[i] == hits[i]);
            }
        }
    }

    /// Stores `chain` as the fallback chain of `script`. An empty chain is
    /// not stored, and none is stored for Han: the index is then left as it
    /// is.
    pub fn set_script(&mut self, script: Script, chain: Fallbacks)
        ensures
            old(self).wf() && old(self).has_families(chain@) ==> final(self).wf(),
            final(self).base == old(self).base,
            final(self).families == old(self).families,
            final(self).cjk == old(self).cjk,
            final(self).generic == old(self).generic,
            final(self).script_chains() == if script != Script::Han && chain@.len() > 0 {
                old(self).script_chains().insert(script.spec_code(), chain@)
            } else {
                old(self).script_chains()
            },
    {
        if script == Script::Han {
            return ;
        }
        if chain.len() != 0 {
            self.script_map.insert(script.code(), chain);
            proof {
                if script.spec_code() == Script::Han.spec_code() {
                    lemma_script_code_injective(script, Script::Han);
                }
                assert(self.script_chains() =~= old(self).script_chains().insert(
                    script.spec_code(),
                    chain@,
                ));
                if old(self).wf() && old(self).has_families(chain@) {
                    assert forall|code: u8| #[trigger]
                        self.script_map@.contains_key(code) implies {
                        &&& self.script_map@[code]@.len() > 0
                        &&& is_chain(self.script_map@[code]@)
                        &&& self.has_families(self.script_map@[code]@)
                    } by {
                        if code != script.spec_code() {
                            assert(old(self).has_families(old(self).script_map@[code]@));
                        }
                    }
                }
            }
        }
    }

    /// Stores `chain` as the fallback chain of the CJK variant `cjk`.
    /// `Traditional` and `Unspecified` share one chain: setting either sets
    /// both.
    pub fn set_cjk(&mut self, cjk: Cjk, chain: Fallbacks)
        ensures
            old(self).wf() && old(self).has_families(chain@) ==> final(self).wf(),
            final(self).base == old(self).base,
            final(self).families == old(self).families,
            final(self).script_map == old(self).script_map,
            final(self).generic == old(self).generic,
            forall|other: Cjk| #[trigger]
                final(self).cjk_chain(other) == if other == cjk || (shares_chain(other)
                    && shares_chain(cjk)) {
                    chain@
                } else {
                    old(self).cjk_chain(other)
                },
    {
        // Every chain is within the capacity and holds no family twice.
        let _ = chain.len();
        match cjk {
            Cjk::Traditional | Cjk::Unspecified => {
                self.cjk[Cjk::Traditional.slot()] = chain;
                self.cjk[Cjk::Unspecified.slot()] = chain;
            },
            _ => {
                self.cjk[cjk.slot()] = chain;
            },
        }
        proof {
            if old(self).wf() && old(self).has_families(chain@) {
                assert forall|slot: int| 0 <= slot < CJK_COUNT implies {
                    &&& is_chain((#[trigger] self.cjk@[slot])@)
                    &&& self.has_families(self.cjk@[slot]@)
                } by {
                    if self.cjk@[slot] != chain {
                        assert(old(self).has_families(old(self).cjk@[slot]@));
                    }
                }
            }
        }
    }

    /// Stores `family` as the family of `generic`; `None` unsets it.
    pub fn set_generic(&mut self, generic: GenericFamily, family: Option<FamilyId>)
        ensures
            old(self).wf() && (family.is_some() ==> old(self).has_family(family.unwrap()))
                ==> final(self).wf(),
            final(self).base == old(self).base,
            final(self).families == old(self).families,
            final(self).script_map == old(self).script_map,
            final(self).cjk == old(self).cjk,
            forall|other: GenericFamily| #[trigger]
                final(self).generic_family(other) == if other == generic {
                    family
                } else {
                    old(self).generic_family(other)
                },
    {
        self.generic[generic.slot()] = family;
    }

    /// Sets the fallback chain of `script` to what the candidate names
    /// `families` resolve to, whatever the case of their letters. Where
    /// they resolve to nothing, and for Han, the index is left as it is.
    pub fn map_script(&mut self, script: Script, families: &[&str])
        ensures
            old(self).wf() ==> final(self).wf(),
            final(self).base == old(self).base,
            final(self).families == old(self).families,
            final(self).cjk == old(self).cjk,
            final(self).generic == old(self).generic,
            final(self).script_chains() == if script != Script::Han && old(self).resolve_chain(
                lowercased(name_views(families@)),
            ).len() > 0 {
                old(self).script_chains().insert(
                    script.spec_code(),
                    old(self).resolve_chain(lowercased(name_views(families@))),
                )
            } else {
                old(self).script_chains()
            },
    {
        let chain = self.find_fallbacks(families);
        self.set_script(script, chain);
    }

    /// Sets the fallback chain of the CJK variant `cjk` to what the
    /// candidate names `families` resolve to, whatever the case of their
    /// letters. `Traditional` and `Unspecified` share one chain: setting
    /// either sets both.
    pub fn map_cjk(&mut self, cjk: Cjk, families: &[&str])
        ensures
            old(self).wf() ==> final(self).wf(),
            final(self).base == old(self).base,
            final(self).families == old(self).families,
            final(self).script_map == old(self).script_map,
            final(self).generic == old(self).generic,
            forall|other: Cjk| #[trigger]
                final(self).cjk_chain(other) == if other == cjk || (shares_chain(other)
                    && shares_chain(cjk)) {
                    old(self).resolve_chain(lowercased(name_views(families@)))
                } else {
                    old(self).cjk_chain(other)
                },
    {
        let chain = self.find_fallbacks(families);
        self.set_cjk(cjk, chain);
    }

    /// Sets the family of `generic` to the first of the candidate names
    /// `families` that is registered, whatever the case of their letters,
    /// and to none where none of them is.
    pub fn map_generic(&mut self, generic: GenericFamily, families: &[&str])
        ensures
            old(self).wf() ==> final(self).wf(),
            final(self).base == old(self).base,
            final(self).families == old(self).families,
            final(self).script_map == old(self).script_map,
            final(self).cjk == old(self).cjk,
            forall|other: GenericFamily| #[trigger]
                final(self).generic_family(other) == if other == generic {
                    first_match(old(self).base.family_map@, lowercased(name_views(families@)))
                } else {
                    old(self).generic_family(other)
                },
    {
        let family = self.find_family(families);
        self.set_generic(generic, family);
    }

    /// The entry that `setup_default_fallbacks` leaves under `code` in the
    /// script map of an index that held `before` there: the chain of the
    /// default families of the script with that code, where they resolve
    /// to any; else, and for Han and for a code that is no script's, what
    /// was there.
    pub open spec fn default_script_entry(
        &self,
        os: Os,
        code: u8,
        before: Option<Seq<FamilyId>>,
    ) -> Option<Seq<FamilyId>> {
        match Script::spec_from_code(code) {
            Some(script) => if script != Script::Han && self.resolve_chain(
                default_script_names(os, script),
            ).len() > 0 {
                Some(self.resolve_chain(default_script_names(os, script)))
            } else {
                before
            },
            None => before,
        }
    }

    /// The fallback chain stored under `code` in the script map, if one is
    /// stored.
    pub open spec fn script_entry_at(&self, code: u8) -> Option<Seq<FamilyId>> {
        if self.script_chains().contains_key(code) {
            Some(self.script_chains()[code])
        } else {
            None
        }
    }

    /// Derives the fallback chains of the CJK variants and of the scripts
    /// from the families that `os` ships, as far as they are registered.
    /// A script of which no default family is registered keeps the chain it
    /// had, if any, and so does every key of the script map that is no
    /// script's code.
    pub fn setup_default_fallbacks(&mut self, os: Os)
        ensures
            old(self).wf() ==> final(self).wf(),
            final(self).base == old(self).base,
            final(self).families == old(self).families,
            final(self).generic == old(self).generic,
            forall|cjk: Cjk| #[trigger]
                final(self).cjk_chain(cjk) == old(self).resolve_chain(default_cjk_names(os, cjk)),
            forall|code: u8| #[trigger]
                final(self).script_entry_at(code) == old(self).default_script_entry(
                    os,
                    code,
                    old(self).script_entry_at(code),
                ),
            forall|script: Script| #[trigger]
                final(self).script_entry(script) == if script != Script::Han && old(
                    self,
                ).resolve_chain(default_script_names(os, script)).len() > 0 {
                    Some(old(self).resolve_chain(default_script_names(os, script)))
                } else {
                    old(self).script_entry(script)
                },
    {
        let simplified = default_cjk_families(os, Cjk::Simplified);
        let chain = self.find_fallbacks_by_key(simplified.as_slice());
        self.set_cjk(Cjk::Simplified, chain);
        let traditional = default_cjk_families(os, Cjk::Traditional);
        let chain = self.find_fallbacks_by_key(traditional.as_slice());
        self.set_cjk(Cjk::Traditional, chain);
        let japanese = default_cjk_families(os, Cjk::Japanese);
        let chain = self.find_fallbacks_by_key(japanese.as_slice());
        self.set_cjk(Cjk::Japanese, chain);
        let korean = default_cjk_families(os, Cjk::Korean);
        let chain = self.find_fallbacks_by_key(korean.as_slice());
        self.set_cjk(Cjk::Korean, chain);
        let ghost cjk_done = self.cjk;
        assert forall|cjk: Cjk|
            (#[trigger] cjk_done@[cjk.spec_slot()])@ == old(self).resolve_chain(
                default_cjk_names(os, cjk),
            ) by {
            assert(self.cjk_chain(cjk) == cjk_done@[cjk.spec_slot()]@);
        }
        let mut code: u8 = 0;
        while (code as usize) < SCRIPT_COUNT
            invariant
                code <= SCRIPT_COUNT,
                old(self).wf() ==> self.wf(),
                self.base == old(self).base,
                self.families == old(self).families,
                self.generic == old(self).generic,
                self.cjk == cjk_done,
                forall|key: u8| #[trigger]
                    self.script_entry_at(key) == if key < code {
                        old(self).default_script_entry(os, key, old(self).script_entry_at(key))
                    } else {
                        old(self).script_entry_at(key)
                    },
            decreases SCRIPT_COUNT - code,
        {
            let ghost before = *self;
            match Script::from_code(code) {
                Some(script) => {
                    let names = default_script_families(os, script);
                    let chain = self.find_fallbacks_by_key(names.as_slice());
                    self.set_script(script, chain);
                    assert forall|key: u8| #[trigger]
                        self.script_entry_at(key) == if key < code + 1 {
                            old(self).default_script_entry(os, key, old(self).script_entry_at(key))
                        } else {
                            old(self).script_entry_at(key)
                        } by {
                        assert(before.script_entry_at(key) == if key < code {
                            old(self).default_script_entry(os, key, old(self).script_entry_at(key))
                        } else {
                            old(self).script_entry_at(key)
                        });
                    }
                },
                None => {},
            }
            code += 1;
        }
        proof {
            assert forall|key: u8| #[trigger]
                self.script_entry_at(key) == old(self).default_script_entry(
                    os,
                    key,
                    old(self).script_entry_at(key),
                ) by {
                lemma_script_codes(Script::Han, key);
            }
            assert forall|script: Script| #[trigger]
                self.script_entry(script) == if script != Script::Han && old(self).resolve_chain(
                    default_script_names(os, script),
                ).len() > 0 {
                    Some(old(self).resolve_chain(default_script_names(os, script)))
                } else {
                    old(self).script_entry(script)
                } by {
                lemma_script_codes(script, script.spec_code());
                assert(self.script_entry(script) == self.script_entry_at(script.spec_code()));
                assert(old(self).script_entry(script) == old(self).script_entry_at(
                    script.spec_code(),
                ));
            }
        }
    }

    /// Maps each generic family that platforms have defaults for to the
    /// first registered family among those that `os` ships for it, and to
    /// none where none is registered. The other generic families keep
    /// what they had.
    pub fn setup_default_generic(&mut self, os: Os)
        ensures
            old(self).wf() ==> final(self).wf(),
            final(self).base == old(self).base,
            final(self).families == old(self).families,
            final(self).script_map == old(self).script_map,
            final(self).cjk == old(self).cjk,
            forall|generic: GenericFamily| #[trigger]
                final(self).generic_family(generic) == if has_default_generic(generic) {
                    first_match(old(self).base.family_map@, default_generic_names(os, generic))
                } else {
                    old(self).generic_family(generic)
                },
    {
        self.set_default_generic(os, GenericFamily::SansSerif);
        self.set_default_generic(os, GenericFamily::Serif);
        self.set_default_generic(os, GenericFamily::Monospace);
        self.set_default_generic(os, GenericFamily::Fantasy);
        self.set_default_generic(os, GenericFamily::Cursive);
        self.set_default_generic(os, GenericFamily::SystemUI);
        self.set_default_generic(os, GenericFamily::Emoji);
    }

    /// Maps `generic` to the first registered family among those that `os`
    /// ships for it.
    fn set_default_generic(&mut self, os: Os, generic: GenericFamily)
        ensures
            old(self).wf() ==> final(self).wf(),
            final(self).base == old(self).base,
            final(self).families == old(self).families,
            final(self).script_map == old(self).script_map,
            final(self).cjk == old(self).cjk,
            forall|other: GenericFamily| #[trigger]
                final(self).generic_family(other) == if other == generic {
                    first_match(old(self).base.family_map@, default_generic_names(os, generic))
                } else {
                    old(self).generic_family(other)
                },
    {
        let keys = default_generic_families(os, generic);
        let family = self.find_family_by_key(keys.as_slice());
        self.set_generic(generic, family);
    }
}

} // verus!
