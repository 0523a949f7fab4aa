//! What holds of every well-formed index.

use crate::fallback::{chain, is_chain, lemma_chain_bounded, MAX_FALLBACKS};
use crate::ids::{FamilyId, FontId};
use crate::dynamic::DynamicIndex;
use crate::entry::{lists_own_faces, FamilyEntry, FontEntry};
use crate::index::{FamilyKey, StaticIndex};
use crate::index_data::lemma_nearest;
use crate::names::{first_match, lemma_resolved_none, lowercase, lowercased, resolved};
use crate::script::{Cjk, GenericFamily, Os, Script};
use vstd::prelude::*;

verus! {

impl StaticIndex {
    /// Lookup by name ignores case: two names with the same lowercase form
    /// resolve to the same family, or both to none.
    pub proof fn lemma_lookup_ignores_case(&self, a: Seq<char>, b: Seq<char>)
        ensures
            lowercase(a) == lowercase(b) ==> self.family_id_by_name(a) == self.family_id_by_name(b),
    {
    }

    /// A name and its lowercase form resolve to the same family, wherever
    /// the lowercase form is its own lowercase form.
    pub proof fn lemma_lowercase_name_resolves_alike(&self, name: Seq<char>)
        ensures
            lowercase(lowercase(name)) == lowercase(name) ==> self.family_id_by_name(
                lowercase(name),
            ) == self.family_id_by_name(name),
    {
    }

    /// A family that the name map holds is found under its own display
    /// name.
    pub proof fn lemma_mapped_family_resolves(&self, key: Seq<char>)
        requires
            self.wf(),
            self.base.family_map@.contains_key(key),
        ensures
            self.has_family(self.base.family_map@[key]),
            self.family_id_by_name(self.families@[self.base.family_map@[key].index()].name@)
                == Some(self.base.family_map@[key]),
    {
    }

    /// The view of a face shows the face, and the family that the face was
    /// registered with: the identifier that the family's view gives is the
    /// one in the face's record.
    pub proof fn lemma_font_view_round_trips(&self, entry: Option<FontEntry>, id: FontId)
        requires
            self.wf(),
            id.index() < self.base.fonts@.len(),
            self.is_font_view(entry, Some(id)),
        ensures
            entry.is_some(),
            entry.unwrap().wf(),
            entry.unwrap().record().id == id,
            entry.unwrap().family_record().id == self.base.fonts@[id.index()].family,
            self.has_family(entry.unwrap().family_record().id),
    {
    }

    /// The face that a query selects is a face of the index, and belongs
    /// to the family that the key resolves to; so a lookup of the face by
    /// its identifier leads back to that family.
    pub proof fn lemma_query_selects_own_face(
        &self,
        key: FamilyKey,
        attributes: crate::attributes::RequestedAttributes,
    )
        requires
            self.wf(),
            self.spec_query(key, attributes).is_some(),
        ensures
            self.shows_font(self.spec_query(key, attributes).unwrap()),
            self.spec_resolve_key(key).is_some(),
            self.base.fonts@[self.spec_query(key, attributes).unwrap().index()].family
                == self.spec_resolve_key(key).unwrap(),
    {
        let family = self.spec_resolve_key(key).unwrap();
        let fonts = self.families@[family.index()].fonts@;
        lemma_nearest(fonts, attributes);
        assert(lists_own_faces(self.base, self.families@[family.index()]));
    }

    /// In a well-formed index a query finds a face wherever the key
    /// resolves to a family that has faces: the nearest of them.
    pub proof fn lemma_query_finds_nearest(
        &self,
        key: FamilyKey,
        attributes: crate::attributes::RequestedAttributes,
    )
        requires
            self.wf(),
        ensures
            self.spec_query(key, attributes) == self.nearest_face(key, attributes),
    {
        if self.spec_resolve_key(key).is_some() {
            let family = self.spec_resolve_key(key).unwrap();
            let fonts = self.families@[family.index()].fonts@;
            assert(lists_own_faces(self.base, self.families@[family.index()]));
            if fonts.len() > 0 {
                lemma_nearest(fonts, attributes);
            }
        }
    }

    /// Han text goes by the CJK variant, whatever the script map holds.
    pub proof fn lemma_han_goes_by_variant(&self, cjk: Cjk)
        ensures
            self.spec_fallbacks(Script::Han, cjk) == self.cjk_chain(cjk),
    {
    }

    /// Where no CJK variant is signalled, Han text falls back as
    /// traditional Chinese does.
    pub proof fn lemma_unspecified_is_traditional(&self)
        requires
            self.wf(),
        ensures
            self.spec_fallbacks(Script::Han, Cjk::Unspecified) == self.spec_fallbacks(
                Script::Han,
                Cjk::Traditional,
            ),
    {
    }

    /// Whatever the candidate names, and however often they name the same
    /// family, the chain they resolve to is within the capacity and holds
    /// no family twice.
    pub proof fn lemma_resolved_chain_bounded(&self, names: Seq<Seq<char>>)
        ensures
            self.resolve_chain(names).len() <= MAX_FALLBACKS,
            self.resolve_chain(names).no_duplicates(),
    {
        lemma_chain_bounded(resolved(self.base.family_map@, names));
    }

    /// Every fallback chain of a well-formed index is within the capacity,
    /// holds no family twice, and holds families of the index only.
    pub proof fn lemma_fallbacks_registered(&self, script: Script, cjk: Cjk)
        requires
            self.wf(),
        ensures
            self.spec_fallbacks(script, cjk).len() <= MAX_FALLBACKS,
            self.spec_fallbacks(script, cjk).no_duplicates(),
            self.has_families(self.spec_fallbacks(script, cjk)),
    {
        if script == Script::Han {
            assert(is_chain(self.cjk@[cjk.spec_slot()]@));
        } else if self.script_entry(script).is_some() {
            assert(is_chain(self.script_map@[script.spec_code()]@));
        } else {
            assert(self.spec_fallbacks(script, cjk) =~= Seq::empty());
        }
    }

    /// Candidates of which none is registered resolve to an empty chain
    /// and to no family.
    pub proof fn lemma_nothing_registered(&self, names: Seq<Seq<char>>)
        requires
            forall|i: int|
                0 <= i < names.len() ==> !self.base.family_map@.contains_key(#[trigger] names[i]),
        ensures
            self.resolve_chain(names).len() == 0,
            first_match(self.base.family_map@, names).is_none(),
    {
        lemma_resolved_none(self.base.family_map@, names);
        assert(chain(Seq::<FamilyId>::empty()).len() == 0);
    }

    /// Deriving the default fallbacks twice is deriving them once: the
    /// entry that the second derivation leaves under a key of the script
    /// map is the one that the first left there.
    pub proof fn lemma_default_entry_settles(
        &self,
        os: Os,
        code: u8,
        before: Option<Seq<FamilyId>>,
    )
        ensures
            self.default_script_entry(os, code, self.default_script_entry(os, code, before))
                == self.default_script_entry(os, code, before),
    {
    }

    /// Candidate names are looked up without regard to case: two lists of
    /// names with the same lowercase forms resolve to the same chain and to
    /// the same first family.
    pub proof fn lemma_candidates_ignore_case(&self, a: Seq<Seq<char>>, b: Seq<Seq<char>>)
        ensures
            lowercased(a) == lowercased(b) ==> {
                &&& self.resolve_chain(lowercased(a)) == self.resolve_chain(lowercased(b))
                &&& first_match(self.base.family_map@, lowercased(a)) == first_match(
                    self.base.family_map@,
                    lowercased(b),
                )
            },
    {
    }

    /// A script without an entry in the script map has no fallbacks.
    pub proof fn lemma_unmapped_script_is_empty(&self, script: Script, cjk: Cjk)
        requires
            script != Script::Han,
            self.script_entry(script).is_none(),
        ensures
            self.spec_fallbacks(script, cjk).len() == 0,
    {
    }

    /// A generic family that is not set resolves to no family.
    pub proof fn lemma_unset_generic_is_absent(
        &self,
        generic: GenericFamily,
        entry: Option<FamilyEntry>,
    )
        requires
            self.generic_family(generic).is_none(),
            self.is_family_view(entry, self.named_by(FamilyKey::Generic(generic))),
        ensures
            entry.is_none(),
    {
    }
}

impl DynamicIndex {
    /// Lookup by name ignores case: two names with the same lowercase form
    /// resolve to the same family, or both to none.
    pub proof fn lemma_lookup_ignores_case(&self, a: Seq<char>, b: Seq<char>)
        ensures
            lowercase(a) == lowercase(b) ==> self.family_id_by_name(a) == self.family_id_by_name(b),
    {
    }

    /// A name and its lowercase form resolve to the same family, wherever
    /// the lowercase form is its own lowercase form.
    pub proof fn lemma_lowercase_name_resolves_alike(&self, name: Seq<char>)
        ensures
            lowercase(lowercase(name)) == lowercase(name) ==> self.family_id_by_name(
                lowercase(name),
            ) == self.family_id_by_name(name),
    {
    }

    /// A family that the name map holds is found under its own display
    /// name.
    pub proof fn lemma_mapped_family_resolves(&self, key: Seq<char>)
        requires
            self.wf(),
            self.base.family_map@.contains_key(key),
        ensures
            self.has_family(self.base.family_map@[key]),
            self.family_id_by_name(self.families@[self.base.family_map@[key].index()].name@)
                == Some(self.base.family_map@[key]),
    {
    }

    /// The view of a face shows the face, and the family that the face was
    /// registered with: the identifier that the family's view gives is the
    /// one in the face's record.
    pub proof fn lemma_font_view_round_trips(&self, entry: Option<FontEntry>, id: FontId)
        requires
            self.wf(),
            id.index() < self.base.fonts@.len(),
            self.is_font_view(entry, id),
        ensures
            entry.is_some(),
            entry.unwrap().wf(),
            entry.unwrap().record().id == id,
            entry.unwrap().family_record().id == self.base.fonts@[id.index()].family,
            self.has_family(entry.unwrap().family_record().id),
    {
    }
}

} // verus!
