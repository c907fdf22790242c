//! Search over the repository.

use vstd::prelude::*;

use crate::i18n::Language;
use crate::models::{AppFilter, AppInfo, SortBy};
use crate::repositories::{query_result, AppRepository};

verus! {

/// Search entry point of the interface.
pub struct SearchService;

impl SearchService {
    /// The applications shown for a search query, a filter and a sort order.
    pub fn search(
        repo: &AppRepository,
        query: &str,
        filter: &AppFilter,
        sort: SortBy,
        lang: Language,
    ) -> (r: Vec<AppInfo>)
        ensures
            r@ == query_result(repo@, *filter, query@, sort, lang),
    {
        repo.query(filter, query, sort, lang)
    }
}

} // verus!
