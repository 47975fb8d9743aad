//! The notes directory as a list of file names: where a file lies, and
//! which names a search shows.

use crate::text::{
    chars_of, contains, lowercase, occurs_in, remove_all, string_of_range, without,
};
use vstd::prelude::*;

verus! {

/// The place of the file with this name: directly under `notes/`.
pub open spec fn entry_path_text(file_name: Seq<char>) -> Seq<char> {
    "notes/"@ + file_name
}

/// The name of a file as the list shows it: without `.json`, wherever it
/// stands in the name.
pub open spec fn display_text(file_name: Seq<char>) -> Seq<char> {
    without(file_name, ".json"@)
}

/// Whether a search for `query` shows the file with this name: an empty
/// query shows every file, another one those whose name holds the query,
/// both taken in lower case.
pub open spec fn entry_matches(name: Seq<char>, query: Seq<char>) -> bool {
    query.len() == 0 || occurs_in(lowercase(query), lowercase(name))
}

/// The names that a search for `query` shows, in the order they came in.
pub open spec fn listing(names: Seq<Seq<char>>, query: Seq<char>) -> Seq<Seq<char>> {
    names.filter(|name: Seq<char>| entry_matches(name, query))
}

/// The texts of a list of strings.
pub open spec fn texts(names: Seq<String>) -> Seq<Seq<char>> {
    names.map_values(|name: String| name@)
}

/// The listing of a list with one more name at its end.
pub proof fn lemma_listing_push(names: Seq<Seq<char>>, name: Seq<char>, query: Seq<char>)
    ensures
        listing(names.push(name), query) == (if entry_matches(name, query) {
            listing(names, query).push(name)
        } else {
            listing(names, query)
        }),
{
    reveal(Seq::filter);
    assert(names.push(name).drop_last() =~= names);
}

/// An empty query shows every file; any query shows only files that are
/// there, each one holding the query when both are taken in lower case.
pub proof fn lemma_listing_is_part(names: Seq<Seq<char>>, query: Seq<char>)
    ensures
        listing(names, Seq::<char>::empty()) == names,
        forall|i: int|
            0 <= i < listing(names, query).len() ==> listing(names, Seq::<char>::empty()).contains(
                #[trigger] listing(names, query)[i],
            ),
        forall|i: int|
            0 <= i < listing(names, query).len() ==> entry_matches(
                #[trigger] listing(names, query)[i],
                query,
            ),
        forall|i: int|
            0 <= i < names.len() && entry_matches(names[i], query) ==> listing(
                names,
                query,
            ).contains(#[trigger] names[i]),
    decreases names.len(),
{
    let some = |name: Seq<char>| entry_matches(name, query);
    reveal(Seq::filter);
    if names.len() > 0 {
        lemma_listing_is_part(names.drop_last(), query);
    }
    assert forall|i: int| 0 <= i < listing(names, query).len() implies names.contains(
        #[trigger] listing(names, query)[i],
    ) && entry_matches(listing(names, query)[i], query) by {
        names.lemma_filter_pred(some, i);
        names.lemma_filter_contains_rev(some, listing(names, query)[i]);
    }
}

/// The place of the file with this name.
pub fn entry_path(file_name: &str) -> (path: String)
    ensures
        path@ == entry_path_text(file_name@),
{
    String::from_str("notes/").concat(file_name)
}

/// The name of a file as the list shows it.
pub fn display_name(file_name: &str) -> (shown: String)
    ensures
        shown@ == display_text(file_name@),
{
    let kept = remove_all(&chars_of(file_name), &chars_of(".json"));
    let shown = string_of_range(&kept, 0, kept.len());
    shown
}

/// Whether a search for `query` shows the file with this name.
pub fn matches_query(name: &str, query: &str) -> (shown: bool)
    ensures
        shown == entry_matches(name@, query@),
{
    if query.unicode_len() == 0 {
        return true;
    }
    let needle = chars_of(query.to_lowercase().as_str());
    let hay = chars_of(name.to_lowercase().as_str());
    contains(&hay, &needle)
}

/// The names that a search for `query` shows, in the order they came in.
pub fn filter_entries(names: &Vec<String>, query: &str) -> (shown: Vec<String>)
    ensures
        texts(shown@) == listing(texts(names@), query@),
        query@.len() == 0 ==> texts(shown@) == texts(names@),
{
    let mut shown: Vec<String> = Vec::new();
    let mut i: usize = 0;
    while i < names.len()
        invariant
            i <= names.len(),
            texts(shown@) == listing(texts(names@.take(i as int)), query@),
        decreases names.len() - i,
    {
        let ghost before = texts(names@.take(i as int));
        proof {
            assert(texts(names@.take(i + 1)) =~= before.push(names@[i as int]@));
            lemma_listing_push(before, names@[i as int]@, query@);
        }
        if matches_query(names[i].as_str(), query) {
            shown.push(names[i].clone());
        }
        i += 1;
    }
    proof {
        assert(names@.take(i as int) =~= names@);
        lemma_listing_is_part(texts(names@), query@);
        if query@.len() == 0 {
            assert(query@ =~= Seq::<char>::empty());
        }
    }
    shown
}

} // verus!
