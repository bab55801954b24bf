//! Lookup from asset identifiers to the slots that hold their resources.

use smol_str::SmolStr;
use vstd::prelude::*;

use crate::assets::ident::smol_text;

verus! {

/// Hash map from identifiers to slot numbers: a `hashbrown::HashMap` with
/// [`SmolStr`] keys.
///
/// The verifier does not look inside. It knows the map by its entries,
/// [`index_entries`], and by what the functions of this module say they do to
/// them.
#[verifier::external_body]
pub struct NameIndex {
    map: hashbrown::HashMap<SmolStr, usize>,
}

/// The entries of an index: the slot entered under each identifier, with the
/// identifier given by its characters.
pub uninterp spec fn index_entries(index: NameIndex) -> Map<Seq<char>, usize>;

/// Calls `hashbrown::HashMap::new`. Trusted: the new map has no entry.
#[verifier::external_body]
pub(crate) fn index_new() -> (index: NameIndex)
    ensures
        forall|name: Seq<char>| !index_entries(index).dom().contains(name),
{
    NameIndex { map: hashbrown::HashMap::new() }
}

/// Calls `hashbrown::HashMap::get`. Trusted: the result is the slot entered
/// under the identifier with these characters, or nothing if there is no such
/// entry. Identifiers are hashed and compared by their characters, so a string
/// finds the entry of the identifier made from it.
#[verifier::external_body]
pub(crate) fn index_get(index: &NameIndex, name: &str) -> (slot: Option<usize>)
    ensures
        slot.is_some() == index_entries(*index).dom().contains(name@),
        slot.is_some() ==> slot.unwrap() == index_entries(*index)[name@],
{
    index.map.get(name).copied()
}

/// Calls `hashbrown::HashMap::insert`. Trusted: afterwards the identifier
/// leads to the slot, and every other entry is as it was.
#[verifier::external_body]
pub(crate) fn index_insert(index: &mut NameIndex, name: SmolStr, slot: usize)
    ensures
        index_entries(*final(index)) == index_entries(*old(index)).insert(smol_text(name), slot),
{
    index.map.insert(name, slot);
}

} // verus!
