//! The rebuild task for one collection: page through the collection's
//! document retriever until exhausted, then hand the accumulated corpus to
//! the registry for an atomic swap. A failure aborts only the current
//! language's cycle; other languages still get their pass.

use vstd::prelude::*;

use crate::errors::ErrorKind;
use crate::models::doc_details::DocDetails;
use crate::models::language::Language;
use crate::services::doc_details_retriever::DocDetailsRetriever;
use crate::services::index_processor::IndexProcessor;

verus! {

/// An ephemeral rebuild task: a retriever for one collection and the page
/// size used while fetching.
pub struct IndexTask<T> where T: DocDetailsRetriever {
    data_retriever: T,
    limit: u64,
}

impl<T> IndexTask<T> where T: DocDetailsRetriever {
    /// The page size of every fetch the rebuild issues.
    pub closed spec fn page_size(&self) -> u64 {
        self.limit
    }

    pub fn new(limit: u64, data_retriever: T) -> (t: IndexTask<T>)
        ensures
            t.page_size() == limit,
    {
        IndexTask { data_retriever, limit }
    }

    /// Materialize one language's current full corpus and swap it into the
    /// registry. Fetching starts at offset 0 and advances by the page size
    /// after every non-empty page; an empty page ends the pagination. On
    /// any failure the registry is left exactly as it was.
    pub fn reindex_language(&self, registry: &mut IndexProcessor, lang: Language) -> (r: Result<
        (),
        ErrorKind,
    >)
        ensures
            r matches Ok(u) ==> final(registry).lang_clean(lang),
            r matches Ok(u) ==> forall|m: Language|
                m != lang ==> #[trigger] final(registry).lang_docs(m) == old(registry).lang_docs(m)
                    && final(registry).lang_clean(m) == old(registry).lang_clean(m),
            r matches Err(e) ==> (e == ErrorKind::RetrieverFailure || e
                == ErrorKind::IndexBuildFailure) && *final(registry) == *old(registry),
    {
        let mut results: Vec<DocDetails> = Vec::new();
        let mut offset: u64 = 0;
        loop
            invariant
                *registry == *old(registry),
            decreases u64::MAX - offset,
        {
            let mut page = match self.data_retriever.retrieve(lang.as_str(), self.limit, offset) {
                Ok(p) => p,
                Err(e) => {
                    return Err(ErrorKind::RetrieverFailure);
                },
            };
            if page.len() == 0 {
                break ;
            }
            // A page size of zero cannot page forward; a non-empty answer
            // to it is a misbehaving retriever, and aborts this cycle.
            if self.limit == 0 {
                return Err(ErrorKind::RetrieverFailure);
            }
            offset = match offset.checked_add(self.limit) {
                Some(o) => o,
                None => {
                    return Err(ErrorKind::RetrieverFailure);
                },
            };
            results.append(&mut page);
        }
        registry.swap_index(lang, &results)
    }

    /// One full pass for this collection: rebuild every language in order.
    /// A failing language keeps its previous index; the pass always runs to
    /// completion.
    pub fn start(&self, registry: &mut IndexProcessor)
        ensures
            forall|l: Language|
                #[trigger] final(registry).lang_clean(l) || (final(registry).lang_docs(l) == old(
                    registry,
                ).lang_docs(l) && final(registry).lang_clean(l) == old(registry).lang_clean(l)),
    {
        let langs = Language::all();
        let mut idx: usize = 0;
        while idx < langs.len()
            invariant
                langs@.len() == 2,
                idx <= langs@.len(),
                forall|l: Language|
                    #[trigger] registry.lang_clean(l) || (registry.lang_docs(l) == old(
                        registry,
                    ).lang_docs(l) && registry.lang_clean(l) == old(registry).lang_clean(l)),
            decreases langs@.len() - idx,
        {
            let lang = langs[idx];
            let ghost prev = *registry;
            let res = self.reindex_language(registry, lang);
            proof {
                assert forall|l: Language|
                    #[trigger] registry.lang_clean(l) || (registry.lang_docs(l) == old(
                        registry,
                    ).lang_docs(l) && registry.lang_clean(l) == old(registry).lang_clean(l)) by {
                    if res is Ok {
                        if l != lang {
                            assert(registry.lang_docs(l) == prev.lang_docs(l)
                                && registry.lang_clean(l) == prev.lang_clean(l));
                            assert(prev.lang_clean(l) || (prev.lang_docs(l) == old(
                                registry,
                            ).lang_docs(l) && prev.lang_clean(l) == old(registry).lang_clean(l)));
                        }
                    } else {
                        assert(*registry == prev);
                        assert(prev.lang_clean(l) || (prev.lang_docs(l) == old(
                            registry,
                        ).lang_docs(l) && prev.lang_clean(l) == old(registry).lang_clean(l)));
                    }
                }
            }
            match res {
                Ok(u) => {},
                Err(e) => {},
            }
            idx = idx + 1;
        }
    }
}

} // verus!
