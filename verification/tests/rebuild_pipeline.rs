//! The rebuild pipeline: pagination until exhaustion, per-language failure
//! containment, and the scheduler cycle.

use std::cell::Cell;
use std::cell::RefCell;
use std::rc::Rc;

use keyword_index::errors::ErrorKind;
use keyword_index::models::doc_details::DocDetails;
use keyword_index::models::entity::Entity;
use keyword_index::models::language::Language;
use keyword_index::services::doc_details_retriever::DocDetailsRetriever;
use keyword_index::services::index_processor::IndexProcessor;
use keyword_index::services::index_task::IndexTask;
use keyword_index::services::indexer_runner::{IndexerRunner, RunnerStep};

/// Serves a fixed list of pages, in order, to every language alike, and
/// counts the calls.
struct PagedSource {
    pages: RefCell<Vec<Vec<(u64, &'static str)>>>,
    calls: Rc<Cell<usize>>,
}

impl PagedSource {
    fn new(mut pages: Vec<Vec<(u64, &'static str)>>) -> PagedSource {
        pages.reverse();
        PagedSource { pages: RefCell::new(pages), calls: Rc::new(Cell::new(0)) }
    }
}

impl DocDetailsRetriever for PagedSource {
    fn retrieve(&self, _lang: &str, _limit: u64, _offset: u64) -> Result<Vec<DocDetails>, ErrorKind> {
        self.calls.set(self.calls.get() + 1);
        let page = self.pages.borrow_mut().pop().unwrap_or_default();
        Ok(page.into_iter().map(|(id, title)| DocDetails::new(id, String::from(title))).collect())
    }
}

/// Fails for one language; serves one page then an empty page to the rest.
struct FlakySource {
    failing_lang: &'static str,
    served: Cell<bool>,
}

impl DocDetailsRetriever for FlakySource {
    fn retrieve(&self, lang: &str, _limit: u64, _offset: u64) -> Result<Vec<DocDetails>, ErrorKind> {
        if lang == self.failing_lang {
            return Err(ErrorKind::RetrieverFailure);
        }
        if self.served.get() {
            Ok(Vec::new())
        } else {
            self.served.set(true);
            Ok(vec![DocDetails::new(10, String::from("fresh arrival"))])
        }
    }
}

#[test]
fn pagination_runs_until_empty_page() {
    let source = PagedSource::new(vec![
        vec![(1, "item one"), (2, "item two")],
        vec![(3, "item three"), (4, "item four")],
        vec![(5, "item five")],
        vec![],
    ]);
    let task = IndexTask::new(2, source);
    let mut registry = IndexProcessor::new().expect("registry");

    task.reindex_language(&mut registry, Language::En).expect("reindex");

    let tokens = vec![String::from("item")];
    let mut found = registry.search(Language::En, &tokens).expect("search");
    found.sort();
    assert_eq!(found, vec![1, 2, 3, 4, 5]);
}

#[test]
fn pagination_issues_exactly_one_fetch_per_page() {
    let source = PagedSource::new(vec![
        vec![(1, "item one"), (2, "item two")],
        vec![(3, "item three"), (4, "item four")],
        vec![(5, "item five")],
        vec![],
    ]);
    let calls = Rc::clone(&source.calls);
    let task = IndexTask::new(2, source);
    let mut registry = IndexProcessor::new().expect("registry");
    task.reindex_language(&mut registry, Language::En).expect("reindex");

    // Four pages of sizes 2, 2, 1 and 0: four fetches, no more.
    assert_eq!(calls.get(), 4);
}

#[test]
fn failing_language_keeps_previous_index_and_pass_completes() {
    let mut registry = IndexProcessor::new().expect("registry");
    registry
        .swap_index(Language::Es, &vec![DocDetails::new(20, String::from("archivo antiguo"))])
        .expect("seed");

    let task = IndexTask::new(5, FlakySource { failing_lang: "ES", served: Cell::new(false) });
    task.start(&mut registry);

    // The language that failed still serves its previous corpus.
    let es_tokens = vec![String::from("archivo")];
    let es = registry.search(Language::Es, &es_tokens).expect("search");
    assert_eq!(es, vec![20]);

    // The language that succeeded serves its new corpus.
    let en_tokens = vec![String::from("fresh")];
    let en = registry.search(Language::En, &en_tokens).expect("search");
    assert_eq!(en, vec![10]);
}

#[test]
fn failed_fetch_reports_retriever_failure_and_changes_nothing() {
    let mut registry = IndexProcessor::new().expect("registry");
    registry
        .swap_index(Language::En, &vec![DocDetails::new(7, String::from("kept safe"))])
        .expect("seed");

    let task = IndexTask::new(5, FlakySource { failing_lang: "EN", served: Cell::new(false) });
    let r = task.reindex_language(&mut registry, Language::En);
    assert_eq!(r, Err(ErrorKind::RetrieverFailure));

    let tokens = vec![String::from("kept")];
    let kept = registry.search(Language::En, &tokens).expect("search");
    assert_eq!(kept, vec![7]);
}

#[test]
fn scheduler_cycles_through_all_collections_then_signals() {
    let mut runner = IndexerRunner::new();
    let mut first_cycle = Vec::new();
    let mut i = 0;
    while i < 6 {
        first_cycle.push(runner.next_step());
        i += 1;
    }
    assert_eq!(
        first_cycle,
        vec![
            RunnerStep::Wait,
            RunnerStep::Reindex(Entity::Movie),
            RunnerStep::Reindex(Entity::Tv),
            RunnerStep::Reindex(Entity::Recipe),
            RunnerStep::Reindex(Entity::Game),
            RunnerStep::SignalPassComplete,
        ]
    );
    // The cycle repeats forever.
    assert_eq!(runner.next_step(), RunnerStep::Wait);
    assert_eq!(runner.next_step(), RunnerStep::Reindex(Entity::Movie));
}
