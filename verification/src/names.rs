//! Family names: case folding, and the resolution of candidate lists
//! against a name map.

use crate::ids::FamilyId;
use vstd::prelude::*;

verus! {

/// The lowercase form of `name`, as `str::to_lowercase` of the standard
/// library gives it.
pub uninterp spec fn lowercase(name: Seq<char>) -> Seq<char>;

/// `str::to_lowercase`. The standard library derives the result from the
/// characters of `name` alone, by the Unicode case mappings it was built
/// with; the contract names that result and says nothing more of it.
#[verifier::external_body]
pub(crate) fn to_lowercase(name: &str) -> (lower: String)
    ensures
        lower@ == lowercase(name@),
{
    name.to_lowercase()
}

/// The texts of a list of names.
pub open spec fn name_views(names: Seq<&str>) -> Seq<Seq<char>> {
    names.map_values(|name: &str| name@)
}

/// The lowercase forms of a list of names.
pub open spec fn lowercased(names: Seq<Seq<char>>) -> Seq<Seq<char>> {
    names.map_values(|name: Seq<char>| lowercase(name))
}

/// The families that the names of `names` map to in `map`, in the order of
/// the names. A name that `map` does not hold contributes nothing.
pub open spec fn resolved(map: Map<Seq<char>, FamilyId>, names: Seq<Seq<char>>) -> Seq<FamilyId>
    decreases names.len(),
{
    if names.len() == 0 {
        Seq::empty()
    } else {
        let earlier = resolved(map, names.drop_last());
        if map.contains_key(names.last()) {
            earlier.push(map[names.last()])
        } else {
            earlier
        }
    }
}

/// The family of the first name of `names` that `map` holds.
pub open spec fn first_match(map: Map<Seq<char>, FamilyId>, names: Seq<Seq<char>>) -> Option<
    FamilyId,
> {
    let hits = resolved(map, names);
    if hits.len() > 0 {
        Some(hits[0])
    } else {
        None
    }
}

/// Resolving one more name appends its family, if the map holds the name.
pub proof fn lemma_resolved_push(
    map: Map<Seq<char>, FamilyId>,
    names: Seq<Seq<char>>,
    name: Seq<char>,
)
    ensures
        resolved(map, names.push(name)) == if map.contains_key(name) {
            resolved(map, names).push(map[name])
        } else {
            resolved(map, names)
        },
{
    assert(names.push(name).drop_last() =~= names);
}

/// Names that follow do not change what the names before them resolve to:
/// the families of a prefix of the list are a prefix of the families of the
/// whole list.
pub proof fn lemma_resolved_prefix(map: Map<Seq<char>, FamilyId>, names: Seq<Seq<char>>, n: int)
    requires
        0 <= n <= names.len(),
    ensures
        resolved(map, names.take(n)).len() <= resolved(map, names).len(),
        resolved(map, names.take(n)) == resolved(map, names).take(
            resolved(map, names.take(n)).len() as int,
        ),
    decreases names.len(),
{
    if n == names.len() {
        assert(names.take(n) =~= names);
    } else {
        assert(names.drop_last().take(n) =~= names.take(n));
        lemma_resolved_prefix(map, names.drop_last(), n);
    }
}

/// Every resolved family is a value of the map.
pub proof fn lemma_resolved_values(map: Map<Seq<char>, FamilyId>, names: Seq<Seq<char>>)
    ensures
        forall|i: int|
            0 <= i < resolved(map, names).len() ==> map.contains_value(
                #[trigger] resolved(map, names)[i],
            ),
    decreases names.len(),
{
    if names.len() > 0 {
        lemma_resolved_values(map, names.drop_last());
        let earlier = resolved(map, names.drop_last());
        assert forall|i: int| 0 <= i < resolved(map, names).len() implies map.contains_value(
            #[trigger] resolved(map, names)[i],
        ) by {
            if i < earlier.len() {
                assert(resolved(map, names)[i] == earlier[i]);
            } else {
                assert(map.contains_key(names.last()));
                assert(resolved(map, names)[i] == map[names.last()]);
            }
        }
    }
}

/// A list of which the map holds no name resolves to nothing.
pub proof fn lemma_resolved_none(map: Map<Seq<char>, FamilyId>, names: Seq<Seq<char>>)
    requires
        forall|i: int| 0 <= i < names.len() ==> !map.contains_key(#[trigger] names[i]),
    ensures
        resolved(map, names).len() == 0,
        first_match(map, names).is_none(),
    decreases names.len(),
{
    if names.len() > 0 {
        lemma_resolved_none(map, names.drop_last());
    }
}

} // verus!
