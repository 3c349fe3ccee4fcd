//! Open mode: a search over the paths below the workspace, and a short
//! list of results to pick a file from.
use vstd::prelude::*;
use crate::helpers::selectable_set::SelectableSet;

verus! {

/// The most results that a search keeps.
pub const MAX_RESULTS: usize = 5;

/// bloodhound's index of the paths below a directory. Proofs see nothing
/// inside it; what a search finds in it is `matching_paths`.
#[verifier::external_type_specification]
#[verifier::external_body]
pub struct ExIndex(bloodhound::Index);

/// The paths of an index that match a term, best match first, cut off at
/// a limit: what `Index::find` yields.
pub uninterp spec fn matching_paths(index: bloodhound::Index, term: Seq<char>, limit: nat) -> Seq<
    Seq<char>,
>;

/// The characters of each of a list of strings.
pub open spec fn texts(items: Seq<String>) -> Seq<Seq<char>> {
    items.map_values(|s: String| s@)
}

/// `Index::find`: the indexed paths that match the term, best match first,
/// and no more of them than the limit.
#[verifier::external_body]
fn find_paths(index: &bloodhound::Index, term: &str, limit: usize) -> (r: Vec<String>)
    ensures
        texts(r@) == matching_paths(*index, term@, limit as nat),
        r@.len() <= limit,
{
    index.find(term, limit).into_iter().map(|p| p.to_string_lossy().into_owned()).collect()
}

pub struct OpenMode {
    pub input: String,
    pub index: bloodhound::Index,
    pub results: SelectableSet<String>,
}

impl OpenMode {
    /// Open mode over an index of paths, with nothing typed and no results.
    pub fn new(index: bloodhound::Index) -> (r: OpenMode)
        ensures
            r.input@.len() == 0,
            r.index == index,
            r.results.items().len() == 0,
            r.results.selected_index() == 0,
    {
        OpenMode { input: String::new(), index, results: SelectableSet::new(Vec::new()) }
    }

    /// The path that is selected among the results, if there are any.
    pub fn selected_path(&self) -> (r: Option<&String>)
        ensures
            match r {
                Some(path) => self.results.selected_index() < self.results.items().len() && *path
                    == self.results.items()[self.results.selected_index() as int],
                None => self.results.items().len() == 0,
            },
    {
        self.results.selection()
    }

    /// Runs the search for what was typed: the results are the best matches
    /// of the index, at most `MAX_RESULTS` of them, with the first selected.
    pub fn search(&mut self)
        ensures
            final(self).input == old(self).input,
            final(self).index == old(self).index,
            texts(final(self).results.items()) == matching_paths(
                old(self).index,
                old(self).input@,
                MAX_RESULTS as nat,
            ),
            final(self).results.items().len() <= MAX_RESULTS,
            final(self).results.selected_index() == 0,
    {
        let found = find_paths(&self.index, self.input.as_str(), MAX_RESULTS);
        self.results = SelectableSet::new(found);
    }
}

} // verus!
