//! End-to-end search behavior: rebuild, query normalization, prefix
//! semantics, the result cap, and language isolation.

use keyword_index::errors::ErrorKind;
use keyword_index::models::doc_details::DocDetails;
use keyword_index::models::entity::Entity;
use keyword_index::models::language::Language;
use keyword_index::services::index_processor::IndexProcessor;
use keyword_index::services::search_service_impl::SearchServiceImpl;

fn empty_registry() -> IndexProcessor {
    IndexProcessor::new().expect("registry")
}

fn service_with_movie(movie: IndexProcessor) -> SearchServiceImpl {
    SearchServiceImpl::new(movie, empty_registry(), empty_registry(), empty_registry())
}

#[test]
fn rebuild_then_search_prefix_semantics() {
    let mut movie = empty_registry();
    let docs = vec![DocDetails::new(1, String::from("the queen"))];
    movie.swap_index(Language::En, &docs).expect("rebuild");
    let svc = service_with_movie(movie);

    let exact = svc.search("queen", Language::En, Entity::Movie).expect("search");
    assert_eq!(exact, vec![1]);

    let prefix = svc.search("que", Language::En, Entity::Movie).expect("search");
    assert_eq!(prefix, vec![1]);

    let two_tokens = svc.search("the qu", Language::En, Entity::Movie).expect("search");
    assert_eq!(two_tokens, vec![1]);

    let too_long = svc.search("queens", Language::En, Entity::Movie).expect("search");
    assert_eq!(too_long, Vec::<u64>::new());
}

#[test]
fn search_normalizes_case_and_whitespace() {
    let mut movie = empty_registry();
    let docs = vec![DocDetails::new(3, String::from("The QUEEN"))];
    movie.swap_index(Language::En, &docs).expect("rebuild");
    let svc = service_with_movie(movie);

    let r = svc.search("  ThE   QuEeN ", Language::En, Entity::Movie).expect("search");
    assert_eq!(r, vec![3]);
}

#[test]
fn search_caps_results_at_seventy_five() {
    let mut movie = empty_registry();
    let mut docs = Vec::new();
    let mut id: u64 = 0;
    while id < 80 {
        docs.push(DocDetails::new(id, format!("shared title number {}", id)));
        id += 1;
    }
    movie.swap_index(Language::En, &docs).expect("rebuild");
    let svc = service_with_movie(movie);

    let r = svc.search("shared", Language::En, Entity::Movie).expect("search");
    assert_eq!(r.len(), 75);
}

#[test]
fn languages_are_mutually_invisible() {
    let mut movie = empty_registry();
    let docs = vec![DocDetails::new(9, String::from("solamente aqui"))];
    movie.swap_index(Language::Es, &docs).expect("rebuild");
    let svc = service_with_movie(movie);

    let in_es = svc.search("solamente", Language::Es, Entity::Movie).expect("search");
    assert_eq!(in_es, vec![9]);

    let in_en = svc.search("solamente", Language::En, Entity::Movie).expect("search");
    assert_eq!(in_en, Vec::<u64>::new());
}

#[test]
fn collections_are_mutually_invisible() {
    let mut movie = empty_registry();
    let docs = vec![DocDetails::new(4, String::from("crossover hit"))];
    movie.swap_index(Language::En, &docs).expect("rebuild");
    let svc = service_with_movie(movie);

    let in_movie = svc.search("crossover", Language::En, Entity::Movie).expect("search");
    assert_eq!(in_movie, vec![4]);

    let in_tv = svc.search("crossover", Language::En, Entity::Tv).expect("search");
    assert_eq!(in_tv, Vec::<u64>::new());
}

#[test]
fn append_grows_without_discarding() {
    let mut movie = empty_registry();
    movie
        .swap_index(Language::En, &vec![DocDetails::new(1, String::from("first film"))])
        .expect("rebuild");
    movie
        .write_all(Language::En, &vec![DocDetails::new(2, String::from("second film"))])
        .expect("append");
    let svc = service_with_movie(movie);

    let mut r = svc.search("film", Language::En, Entity::Movie).expect("search");
    r.sort();
    assert_eq!(r, vec![1, 2]);
}

#[test]
fn rebuild_replaces_whole_corpus() {
    let mut movie = empty_registry();
    movie
        .swap_index(Language::En, &vec![DocDetails::new(1, String::from("old era"))])
        .expect("rebuild");
    movie
        .swap_index(Language::En, &vec![DocDetails::new(2, String::from("new era"))])
        .expect("rebuild");
    let svc = service_with_movie(movie);

    let old = svc.search("old", Language::En, Entity::Movie).expect("search");
    assert_eq!(old, Vec::<u64>::new());
    let era = svc.search("era", Language::En, Entity::Movie).expect("search");
    assert_eq!(era, vec![2]);
}

#[test]
fn non_final_tokens_match_whole_words_only() {
    let mut movie = empty_registry();
    movie
        .swap_index(Language::En, &vec![DocDetails::new(5, String::from("the queen"))])
        .expect("rebuild");
    let svc = service_with_movie(movie);

    // "th" is only a prefix of "the"; as a non-final token it must match a
    // whole word, so nothing qualifies.
    let r = svc.search("th queen", Language::En, Entity::Movie).expect("search");
    assert_eq!(r, Vec::<u64>::new());
}

#[test]
fn empty_query_is_rejected() {
    let svc = service_with_movie(empty_registry());
    let blank = svc.search("   ", Language::En, Entity::Movie);
    assert_eq!(blank, Err(ErrorKind::EmptyQuery));
    let nothing = svc.search("", Language::En, Entity::Movie);
    assert_eq!(nothing, Err(ErrorKind::EmptyQuery));
}

#[test]
fn malformed_pattern_is_a_query_failure() {
    let svc = service_with_movie(empty_registry());
    let r = svc.search("(((", Language::En, Entity::Movie);
    assert_eq!(r, Err(ErrorKind::IndexQueryFailure));
}
