//! The index registry for one collection: one searchable language index per
//! supported language, with append, atomic full rebuild (swap), and search.
//!
//! The text structure itself comes from the tantivy crate. Each language
//! slot is modeled by three document sequences: the write buffer
//! (`pending_docs`), the durably committed corpus (`committed_docs`), and
//! the snapshot served to searches (`visible_docs`). The trusted wrappers
//! below state how each tantivy call moves documents between the three.

use vstd::prelude::*;

use crate::errors::ErrorKind;
use crate::models::doc_details::{doc_views, DocDetails};
use crate::models::language::Language;
use crate::text::{
    build_patterns, lemma_patterns_bridge, patterns_ok, prefix_match, simple_title,
    title_selected, token_views, tokens_ok,
};

use tantivy::collector::TopDocs;
use tantivy::query::{BooleanQuery, Occur, Query, RegexQuery};
use tantivy::schema::{Value, STORED, TEXT};
use tantivy::{ReloadPolicy, TantivyDocument};

verus! {

/// The fixed cap on the number of identifiers a search returns.
pub const LIMIT_RESULT_SIZE: usize = 75;

/// One searchable text structure for a single (collection, language) pair:
/// the schema fields, the write handle, and the read snapshot handle.
#[verifier::external_body]
pub struct LanguageIndex {
    index: tantivy::Index,
    writer: tantivy::IndexWriter,
    reader: tantivy::IndexReader,
    title_field: tantivy::schema::Field,
    id_field: tantivy::schema::Field,
}

/// The documents added to the write buffer since the last commit, in order.
pub uninterp spec fn pending_docs(ix: LanguageIndex) -> Seq<(u64, Seq<char>)>;

/// The documents durably committed into the index, in order of addition.
pub uninterp spec fn committed_docs(ix: LanguageIndex) -> Seq<(u64, Seq<char>)>;

/// The documents observable through the read snapshot, in order of addition.
pub uninterp spec fn visible_docs(ix: LanguageIndex) -> Seq<(u64, Seq<char>)>;

/// Every title in the corpus is one the word-matching rule describes
/// exactly.
pub open spec fn simple_corpus(docs: Seq<(u64, Seq<char>)>) -> bool {
    forall|j: int| 0 <= j < docs.len() ==> simple_title((#[trigger] docs[j]).1)
}

/// Some indexed document carries this identifier and matches the query.
pub open spec fn corpus_has_match(ts: Seq<Seq<char>>, corpus: Seq<(u64, Seq<char>)>, id: u64) -> bool {
    exists|j: int|
        0 <= j < corpus.len() && (#[trigger] corpus[j]).0 == id && prefix_match(ts, corpus[j].1)
}

/// How many indexed documents match the query.
pub open spec fn match_count(ts: Seq<Seq<char>>, corpus: Seq<(u64, Seq<char>)>) -> nat {
    corpus.filter(|d: (u64, Seq<char>)| prefix_match(ts, d.1)).len()
}

/// What a search result owes to the corpus it ran against: never more than
/// the fixed cap of identifiers; and, for well-formed word tokens over a
/// simple corpus, every returned identifier belongs to a matching document,
/// and every matching document is returned whenever the matches fit under
/// the cap.
pub open spec fn search_ok(ts: Seq<Seq<char>>, corpus: Seq<(u64, Seq<char>)>, ids: Seq<u64>) -> bool {
    ids.len() <= (LIMIT_RESULT_SIZE as int) && ((tokens_ok(ts) && simple_corpus(corpus)) ==> (
    (forall|i: int| 0 <= i < ids.len() ==> corpus_has_match(ts, corpus, #[trigger] ids[i])) && (
    match_count(ts, corpus) <= (LIMIT_RESULT_SIZE as int) ==> (forall|j: int|
        0 <= j < corpus.len() && prefix_match(ts, (#[trigger] corpus[j]).1) ==> ids.contains(
            corpus[j].0,
        )))))
}

/// Like `match_count`, but counted against the per-pattern form of the
/// query, as the underlying engine sees it.
pub open spec fn selected_count(ps: Seq<Seq<char>>, docs: Seq<(u64, Seq<char>)>) -> nat {
    docs.filter(|d: (u64, Seq<char>)| title_selected(ps, d.1)).len()
}

/// Pointwise-equal predicates select the same number of documents.
proof fn lemma_counts_agree(ts: Seq<Seq<char>>, ps: Seq<Seq<char>>, docs: Seq<(u64, Seq<char>)>)
    requires
        forall|t: Seq<char>| #[trigger] title_selected(ps, t) == prefix_match(ts, t),
    ensures
        selected_count(ps, docs) == match_count(ts, docs),
    decreases docs.len(),
{
    if docs.len() == 0 {
        assert(docs.filter(|d: (u64, Seq<char>)| title_selected(ps, d.1)) =~= Seq::empty());
        assert(docs.filter(|d: (u64, Seq<char>)| prefix_match(ts, d.1)) =~= Seq::empty());
    } else {
        lemma_counts_agree(ts, ps, docs.drop_last());
        reveal_with_fuel(Seq::filter, 2);
        assert(title_selected(ps, docs.last().1) == prefix_match(ts, docs.last().1));
    }
}

impl LanguageIndex {
    /// Build an empty in-memory index with an analyzed `title` field and a
    /// stored `id` field.
    ///
    /// Relies on tantivy's `Index::create_in_ram`, `Index::writer` and the
    /// reader builder with manual reload: a freshly created index holds no
    /// document, and a manual-reload reader observes nothing until
    /// `reload` is called.
    #[verifier::external_body]
    pub fn new() -> (r: Result<LanguageIndex, ErrorKind>)
        ensures
            r matches Ok(ix) ==> pending_docs(ix).len() == 0 && committed_docs(ix).len() == 0
                && visible_docs(ix).len() == 0,
            r matches Err(e) ==> e == ErrorKind::IndexBuildFailure,
    {
        let mut b = tantivy::schema::Schema::builder();
        let title_field = b.add_text_field("title", TEXT);
        let id_field = b.add_u64_field("id", STORED);
        let index = tantivy::Index::builder().schema(b.build()).create_in_ram().map_err(|_|
            ErrorKind::IndexBuildFailure)?;
        let writer = index.writer(100_000_000).map_err(|_| ErrorKind::IndexBuildFailure)?;
        let reader = index.reader_builder().reload_policy(ReloadPolicy::Manual).try_into().map_err(
            |_| ErrorKind::IndexBuildFailure)?;
        Ok(LanguageIndex { index, writer, reader, title_field, id_field })
    }

    /// Add one `(title, id)` pair to the write buffer.
    ///
    /// Relies on tantivy's `IndexWriter::add_document`: the document joins
    /// the buffer of the next commit and nothing already committed or
    /// visible moves.
    #[verifier::external_body]
    fn add_doc(&mut self, id: u64, title: &str) -> (r: Result<(), ErrorKind>)
        ensures
            r matches Ok(u) ==> pending_docs(*final(self)) == pending_docs(*old(self)).push(
                (id, title@),
            ),
            r matches Err(e) ==> e == ErrorKind::IndexBuildFailure,
            committed_docs(*final(self)) == committed_docs(*old(self)),
            visible_docs(*final(self)) == visible_docs(*old(self)),
    {
        let mut d = TantivyDocument::new();
        d.add_text(self.title_field, title);
        d.add_u64(self.id_field, id);
        self.writer.add_document(d).map_err(|_| ErrorKind::IndexBuildFailure)?;
        Ok(())
    }

    /// Durably flush the write buffer into the queryable structure.
    ///
    /// Relies on tantivy's `IndexWriter::commit`: on success the buffered
    /// documents are appended to the committed corpus; the read snapshot is
    /// untouched either way, because the reader reloads only manually.
    #[verifier::external_body]
    fn commit(&mut self) -> (r: Result<(), ErrorKind>)
        ensures
            r matches Ok(u) ==> committed_docs(*final(self)) == committed_docs(*old(self))
                + pending_docs(*old(self)) && pending_docs(*final(self)).len() == 0,
            r matches Err(e) ==> e == ErrorKind::IndexBuildFailure,
            visible_docs(*final(self)) == visible_docs(*old(self)),
    {
        self.writer.commit().map_err(|_| ErrorKind::IndexBuildFailure)?;
        Ok(())
    }

    /// Refresh the read snapshot so searches observe the committed corpus.
    ///
    /// Relies on tantivy's `IndexReader::reload`: on success, subsequently
    /// acquired searchers see exactly what has been committed.
    #[verifier::external_body]
    fn reload(&mut self) -> (r: Result<(), ErrorKind>)
        ensures
            r matches Ok(u) ==> visible_docs(*final(self)) == committed_docs(*old(self)),
            r matches Err(e) ==> e == ErrorKind::IndexBuildFailure,
            committed_docs(*final(self)) == committed_docs(*old(self)),
            pending_docs(*final(self)) == pending_docs(*old(self)),
    {
        self.reader.reload().map_err(|_| ErrorKind::IndexBuildFailure)?;
        Ok(())
    }

    /// Run one structured lookup against the read snapshot and return the
    /// stored identifiers of the best-scoring documents, at most `limit`.
    ///
    /// Relies on tantivy's `RegexQuery::from_pattern`, `BooleanQuery::new`
    /// over `Must` clauses, `TopDocs::with_limit` and `Searcher::search`: a
    /// regex pattern must match a whole indexed word; a pattern with a `.*`
    /// suffix therefore matches any word the stem is a prefix of; a
    /// document is returned only if every clause matches, and every
    /// matching document is returned when no more than `limit` match.
    /// Which of the matching documents are returned beyond `limit`, and in
    /// what order, depends on the scorer and is not stated.
    #[verifier::external_body]
    fn run_query(&self, patterns: &Vec<String>, limit: usize) -> (r: Result<Vec<u64>, ErrorKind>)
        requires
            limit >= 1,
        ensures
            r matches Ok(ids) ==> ids@.len() <= limit,
            r matches Err(e) ==> e == ErrorKind::IndexQueryFailure,
            r matches Ok(ids) ==> ((patterns_ok(token_views(patterns@)) && simple_corpus(
                visible_docs(*self),
            )) ==> ((forall|i: int|
                0 <= i < ids@.len() ==> exists|j: int|
                    0 <= j < visible_docs(*self).len() && (#[trigger] visible_docs(*self)[j]).0
                        == #[trigger] ids@[i] && title_selected(
                        token_views(patterns@),
                        visible_docs(*self)[j].1,
                    )) && (selected_count(token_views(patterns@), visible_docs(*self)) <= limit
                ==> (forall|j: int|
                0 <= j < visible_docs(*self).len() && title_selected(
                    token_views(patterns@),
                    (#[trigger] visible_docs(*self)[j]).1,
                ) ==> ids@.contains(visible_docs(*self)[j].0))))),
    {
        let e = ErrorKind::IndexQueryFailure;
        let mut clauses = Vec::new();
        for p in patterns.iter() {
            let q = RegexQuery::from_pattern(p, self.title_field).map_err(|_| e)?;
            clauses.push((Occur::Must, Box::new(q) as Box<dyn Query>));
        }
        let searcher = self.reader.searcher();
        let c = TopDocs::with_limit(limit).order_by_score();
        let top = searcher.search(&BooleanQuery::new(clauses), &c).map_err(|_| e)?;
        let mut out = Vec::new();
        for (_score, addr) in top {
            let d: TantivyDocument = searcher.doc(addr).map_err(|_| e)?;
            out.extend(d.get_first(self.id_field).and_then(|v| v.as_u64()));
        }
        Ok(out)
    }

    /// Append the given documents to the write buffer, commit, and refresh
    /// the read snapshot.
    fn write_batch(&mut self, data: &Vec<DocDetails>) -> (r: Result<(), ErrorKind>)
        requires
            pending_docs(*old(self)).len() == 0,
            committed_docs(*old(self)) == visible_docs(*old(self)),
        ensures
            r matches Ok(u) ==> visible_docs(*final(self)) == visible_docs(*old(self)) + doc_views(
                data@,
            ) && pending_docs(*final(self)).len() == 0 && committed_docs(*final(self))
                == visible_docs(*final(self)),
            r matches Err(e) ==> e == ErrorKind::IndexBuildFailure,
    {
        let ghost pre = *self;
        let mut k: usize = 0;
        while k < data.len()
            invariant
                k <= data@.len(),
                pending_docs(*self) == doc_views(data@).take(k as int),
                committed_docs(*self) == committed_docs(pre),
                visible_docs(*self) == visible_docs(pre),
                committed_docs(pre) == visible_docs(pre),
            decreases data@.len() - k,
        {
            let d = &data[k];
            match self.add_doc(d.id(), d.title()) {
                Ok(u) => {},
                Err(e) => {
                    return Err(e);
                },
            }
            k = k + 1;
            proof {
                assert(doc_views(data@).take(k as int) =~= doc_views(data@).take(k as int - 1).push(
                    data@[k as int - 1]@,
                ));
            }
        }
        proof {
            assert(doc_views(data@).take(data@.len() as int) =~= doc_views(data@));
        }
        match self.commit() {
            Ok(u) => {},
            Err(e) => {
                return Err(e);
            },
        }
        match self.reload() {
            Ok(u) => {},
            Err(e) => {
                return Err(e);
            },
        }
        Ok(())
    }
}

/// The index registry for one collection: exactly one language index per
/// supported language. At any instant each language maps to exactly one
/// index; a rebuild prepares a fresh index off to the side and swaps it in
/// only after it has fully committed.
pub struct IndexProcessor {
    es: LanguageIndex,
    en: LanguageIndex,
}

impl IndexProcessor {
    /// The documents currently served to searches for one language.
    pub closed spec fn lang_docs(&self, lang: Language) -> Seq<(u64, Seq<char>)> {
        match lang {
            Language::Es => visible_docs(self.es),
            Language::En => visible_docs(self.en),
        }
    }

    /// The language's slot has no buffered writes and serves exactly what
    /// was committed.
    pub closed spec fn lang_clean(&self, lang: Language) -> bool {
        match lang {
            Language::Es => pending_docs(self.es).len() == 0 && committed_docs(self.es)
                == visible_docs(self.es),
            Language::En => pending_docs(self.en).len() == 0 && committed_docs(self.en)
                == visible_docs(self.en),
        }
    }

    /// Build a registry with one empty index per language.
    pub fn new() -> (r: Result<IndexProcessor, ErrorKind>)
        ensures
            r matches Ok(p) ==> forall|l: Language|
                (#[trigger] p.lang_docs(l)).len() == 0 && p.lang_clean(l),
            r matches Err(e) ==> e == ErrorKind::IndexBuildFailure,
    {
        let es = match LanguageIndex::new() {
            Ok(ix) => ix,
            Err(e) => {
                return Err(e);
            },
        };
        let en = match LanguageIndex::new() {
            Ok(ix) => ix,
            Err(e) => {
                return Err(e);
            },
        };
        let p = IndexProcessor { es, en };
        proof {
            assert forall|l: Language| (#[trigger] p.lang_docs(l)).len() == 0 && p.lang_clean(
                l,
            ) by {
                match l {
                    Language::Es => {
                        assert(committed_docs(p.es) =~= visible_docs(p.es));
                    },
                    Language::En => {
                        assert(committed_docs(p.en) =~= visible_docs(p.en));
                    },
                }
            }
        }
        Ok(p)
    }

    /// Append documents to the existing index of one language without
    /// discarding prior content (the incremental growth path).
    pub fn write_all(&mut self, lang: Language, data: &Vec<DocDetails>) -> (r: Result<
        (),
        ErrorKind,
    >)
        requires
            old(self).lang_clean(lang),
        ensures
            r matches Ok(u) ==> final(self).lang_docs(lang) == old(self).lang_docs(lang)
                + doc_views(data@) && final(self).lang_clean(lang),
            r matches Err(e) ==> e == ErrorKind::IndexBuildFailure,
            forall|m: Language|
                m != lang ==> #[trigger] final(self).lang_docs(m) == old(self).lang_docs(m)
                    && final(self).lang_clean(m) == old(self).lang_clean(m),
    {
        match lang {
            Language::Es => self.es.write_batch(data),
            Language::En => self.en.write_batch(data),
        }
    }

    /// Full rebuild of one language: build a brand-new index holding
    /// exactly `data`, commit it, and only then swap it into the slot. On
    /// any failure the registry is left exactly as it was, the previous
    /// index still serving searches.
    pub fn swap_index(&mut self, lang: Language, data: &Vec<DocDetails>) -> (r: Result<
        (),
        ErrorKind,
    >)
        ensures
            r matches Ok(u) ==> final(self).lang_docs(lang) == doc_views(data@)
                && final(self).lang_clean(lang),
            r matches Ok(u) ==> forall|m: Language|
                m != lang ==> #[trigger] final(self).lang_docs(m) == old(self).lang_docs(m)
                    && final(self).lang_clean(m) == old(self).lang_clean(m),
            r matches Err(e) ==> e == ErrorKind::IndexBuildFailure && *final(self) == *old(self),
    {
        let mut fresh = match LanguageIndex::new() {
            Ok(ix) => ix,
            Err(e) => {
                return Err(e);
            },
        };
        proof {
            assert(committed_docs(fresh) =~= visible_docs(fresh));
        }
        match fresh.write_batch(data) {
            Ok(u) => {},
            Err(e) => {
                return Err(e);
            },
        }
        proof {
            assert(visible_docs(fresh) =~= doc_views(data@));
        }
        match lang {
            Language::Es => {
                self.es = fresh;
            },
            Language::En => {
                self.en = fresh;
            },
        }
        Ok(())
    }

    /// Search one language's index with an ordered, non-empty token list.
    pub fn search(&self, lang: Language, tokens: &Vec<String>) -> (r: Result<Vec<u64>, ErrorKind>)
        requires
            tokens@.len() >= 1,
        ensures
            r matches Ok(ids) ==> search_ok(token_views(tokens@), self.lang_docs(lang), ids@),
            r matches Err(e) ==> e == ErrorKind::IndexQueryFailure,
    {
        let patterns = build_patterns(tokens);
        let slot = match lang {
            Language::Es => &self.es,
            Language::En => &self.en,
        };
        let r = slot.run_query(&patterns, LIMIT_RESULT_SIZE);
        proof {
            let ts = token_views(tokens@);
            let ps = token_views(patterns@);
            let corpus = self.lang_docs(lang);
            assert(visible_docs(*slot) == corpus);
            if r is Ok {
                let ids = r->Ok_0;
                if tokens_ok(ts) && simple_corpus(corpus) {
                    lemma_patterns_bridge(ts, ps);
                    lemma_counts_agree(ts, ps, corpus);
                    assert forall|i: int| 0 <= i < ids@.len() implies corpus_has_match(
                        ts,
                        corpus,
                        #[trigger] ids@[i],
                    ) by {
                        let j = choose|j: int|
                            0 <= j < corpus.len() && (#[trigger] corpus[j]).0 == ids@[i]
                                && title_selected(ps, corpus[j].1);
                        assert(title_selected(ps, corpus[j].1) == prefix_match(ts, corpus[j].1));
                        assert(prefix_match(ts, corpus[j].1));
                    }
                    if match_count(ts, corpus) <= (LIMIT_RESULT_SIZE as int) {
                        assert forall|j: int|
                            0 <= j < corpus.len() && prefix_match(
                                ts,
                                (#[trigger] corpus[j]).1,
                            ) implies ids@.contains(corpus[j].0) by {
                            assert(title_selected(ps, corpus[j].1));
                        }
                    }
                }
                assert(search_ok(ts, corpus, ids@));
            }
        }
        r
    }
}

/// LAW: a search result never holds more than the fixed cap of
/// identifiers, regardless of corpus size.
pub proof fn lemma_result_capped(ts: Seq<Seq<char>>, corpus: Seq<(u64, Seq<char>)>, ids: Seq<u64>)
    requires
        search_ok(ts, corpus, ids),
    ensures
        ids.len() <= (LIMIT_RESULT_SIZE as int),
{
}

/// LAW: a search answers only from the corpus it ran against. An
/// identifier carried by no document of that corpus is never returned: a
/// search that runs before a rebuild swap never observes the new corpus, a
/// search that runs after never observes the old one, and a document
/// indexed only under another language is never returned.
pub proof fn lemma_search_sees_only_indexed(
    ts: Seq<Seq<char>>,
    corpus: Seq<(u64, Seq<char>)>,
    ids: Seq<u64>,
    id: u64,
)
    requires
        search_ok(ts, corpus, ids),
        tokens_ok(ts),
        simple_corpus(corpus),
        forall|j: int| 0 <= j < corpus.len() ==> (#[trigger] corpus[j]).0 != id,
    ensures
        !ids.contains(id),
{
    if ids.contains(id) {
        let i = choose|i: int| 0 <= i < ids.len() && ids[i] == id;
        assert(corpus_has_match(ts, corpus, ids[i]));
    }
}

/// LAW: a document placed in the corpus by a rebuild is found by any
/// subsequent search whose tokens decompose its title into whole words
/// plus a final word prefix, whenever the matching documents fit under the
/// result cap.
pub proof fn lemma_indexed_title_is_found(
    ts: Seq<Seq<char>>,
    corpus: Seq<(u64, Seq<char>)>,
    ids: Seq<u64>,
    j: int,
)
    requires
        search_ok(ts, corpus, ids),
        tokens_ok(ts),
        simple_corpus(corpus),
        0 <= j < corpus.len(),
        prefix_match(ts, corpus[j].1),
        match_count(ts, corpus) <= (LIMIT_RESULT_SIZE as int),
    ensures
        ids.contains(corpus[j].0),
{
}

} // verus!
