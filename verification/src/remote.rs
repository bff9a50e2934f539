//! The requests of a run: which addresses are asked, and which of the
//! listed collections are mirrored.

use crate::config::{ConfigView, WallhavenConfig};
use crate::records::{Collection, CollectionView};
use crate::text::{decimal, equal, spec_decimal, spec_split, spec_trim, split, trim};
use vstd::prelude::*;
use vstd::string::*;

verus! {

/// The address under which the remote service answers.
pub open spec fn spec_base_url() -> Seq<char> {
    "https://wallhaven.cc/api/v1"@
}

/// The address that lists the collections: those of the key's owner where
/// an API key is configured, else the public ones of the configured user.
pub open spec fn spec_collections_url(config: ConfigView) -> Seq<char> {
    if config.apikey.len() > 0 {
        spec_base_url() + "/collections?apikey="@ + config.apikey
    } else {
        spec_base_url() + "/collections/"@ + config.username
    }
}

/// The address that lists page `page` of the collection `collection` of
/// the configured user; the API key is added where one is configured.
pub open spec fn spec_page_url(config: ConfigView, collection: int, page: int) -> Seq<char> {
    let listing = spec_base_url() + "/collections/"@ + config.username + "/"@ + spec_decimal(
        collection,
    ) + "?page="@ + spec_decimal(page);
    if config.apikey.len() > 0 {
        listing + "&apikey="@ + config.apikey
    } else {
        listing
    }
}

/// The collection names that a filter text asks for: none for the empty
/// text, else the trimmed pieces between its commas.
pub open spec fn spec_collection_names(filter: Seq<char>) -> Seq<Seq<char>> {
    if filter.len() == 0 {
        Seq::empty()
    } else {
        Seq::new(spec_split(filter, ',').len(), |i: int| spec_trim(spec_split(filter, ',')[i]))
    }
}

/// Whether a collection labelled `label` is mirrored: every collection is
/// where no name is asked for, else those whose label is among the names.
pub open spec fn spec_is_wanted(names: Seq<Seq<char>>, label: Seq<char>) -> bool {
    names.len() == 0 || names.contains(label)
}

/// The collections among `listed` that are mirrored, in their order.
pub open spec fn spec_select(names: Seq<Seq<char>>, listed: Seq<CollectionView>) -> Seq<
    CollectionView,
>
    decreases listed.len(),
{
    if listed.len() == 0 {
        Seq::empty()
    } else {
        let before = spec_select(names, listed.drop_last());
        if spec_is_wanted(names, listed.last().label) {
            before.push(listed.last())
        } else {
            before
        }
    }
}

/// Builds the address that lists the collections.
pub fn collections_url(config: &WallhavenConfig) -> (url: String)
    ensures
        url@ == spec_collections_url(config@),
{
    let base = "https://wallhaven.cc/api/v1".to_owned();
    if !config.apikey.as_str().is_empty() {
        base.concat("/collections?apikey=").concat(config.apikey.as_str())
    } else {
        base.concat("/collections/").concat(config.username.as_str())
    }
}

/// Builds the address that lists one page of a collection.
pub fn page_url(config: &WallhavenConfig, collection: i32, page: i32) -> (url: String)
    ensures
        url@ == spec_page_url(config@, collection as int, page as int),
{
    let collection_text = decimal(collection);
    let page_text = decimal(page);
    let listing = "https://wallhaven.cc/api/v1".to_owned().concat("/collections/").concat(
        config.username.as_str(),
    ).concat("/").concat(collection_text.as_str()).concat("?page=").concat(page_text.as_str());
    if !config.apikey.as_str().is_empty() {
        listing.concat("&apikey=").concat(config.apikey.as_str())
    } else {
        listing
    }
}

/// Reads the collection names out of a filter text.
pub fn collection_names(filter: &str) -> (names: Vec<String>)
    ensures
        names.deep_view() == spec_collection_names(filter@),
{
    let mut names: Vec<String> = Vec::new();
    if filter.is_empty() {
        assert(names.deep_view() =~= spec_collection_names(filter@));
        return names;
    }
    let pieces = split(filter, ',');
    let mut i: usize = 0;
    while i < pieces.len()
        invariant
            i <= pieces.len(),
            pieces.deep_view() == spec_split(filter@, ','),
            names.len() == i,
            forall|k: int| 0 <= k < i ==> (#[trigger] names[k])@ == spec_trim(pieces[k]@),
        decreases pieces.len() - i,
    {
        let name = trim(pieces[i].as_str()).to_owned();
        names.push(name);
        i += 1;
    }
    assert(names.deep_view() =~= spec_collection_names(filter@)) by {
        assert forall|k: int| 0 <= k < names.len() implies names.deep_view()[k]
            == spec_collection_names(filter@)[k] by {
            assert(pieces.deep_view()[k] == pieces[k]@);
        }
    }
    names
}

/// Tells whether a collection labelled `label` is mirrored.
pub fn is_wanted(names: &Vec<String>, label: &str) -> (wanted: bool)
    ensures
        wanted == spec_is_wanted(names.deep_view(), label@),
{
    if names.len() == 0 {
        return true;
    }
    let mut i: usize = 0;
    while i < names.len()
        invariant
            i <= names.len(),
            forall|k: int| 0 <= k < i ==> (#[trigger] names[k])@ != label@,
        decreases names.len() - i,
    {
        if equal(names[i].as_str(), label) {
            assert(names.deep_view()[i as int] == label@);
            return true;
        }
        i += 1;
    }
    assert(!names.deep_view().contains(label@)) by {
        assert forall|k: int| 0 <= k < names.deep_view().len() implies names.deep_view()[k]
            != label@ by {
            assert(names.deep_view()[k] == names[k]@);
        }
    }
    false
}

/// Picks the collections to mirror out of a listing, keeping their order.
pub fn select(names: &Vec<String>, listed: &Vec<Collection>) -> (chosen: Vec<Collection>)
    ensures
        chosen.deep_view() == spec_select(names.deep_view(), listed.deep_view()),
{
    let mut chosen: Vec<Collection> = Vec::new();
    let mut i: usize = 0;
    assert(listed.deep_view().take(0) =~= Seq::empty());
    assert(chosen.deep_view() =~= Seq::empty());
    while i < listed.len()
        invariant
            i <= listed.len(),
            chosen.deep_view() == spec_select(names.deep_view(), listed.deep_view().take(i as int)),
        decreases listed.len() - i,
    {
        let ghost before = chosen.deep_view();
        assert(listed.deep_view().take(i + 1).drop_last() =~= listed.deep_view().take(i as int));
        assert(listed.deep_view().take(i + 1).last() == listed[i as int]@);
        if is_wanted(names, listed[i].label.as_str()) {
            chosen.push(listed[i].clone());
            assert(chosen.deep_view() =~= before.push(listed[i as int]@));
        }
        i += 1;
    }
    assert(listed.deep_view().take(i as int) =~= listed.deep_view());
    chosen
}

} // verus!
