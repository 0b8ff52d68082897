//! The plain data carried by the core: documents, parsing of the closed
//! sets, configuration records, and the transport shapes.

use keyword_index::config::database_config::DatabaseConfig;
use keyword_index::config::indexer_runner_config::IndexerRunnerConfig;
use keyword_index::config::logger_config::{LogLevel, LoggerConfig};
use keyword_index::config::server_config::ServerConfig;
use keyword_index::config::Config;
use keyword_index::entities::game::Game;
use keyword_index::entities::movie::Movie;
use keyword_index::entities::recipe::Recipe;
use keyword_index::entities::tv::Tv;
use keyword_index::errors::ErrorKind;
use keyword_index::handlers::requests::search_request::SearchRequest;
use keyword_index::handlers::responses::search_response::SearchResponse;
use keyword_index::models::doc_details::DocDetails;
use keyword_index::models::entity::Entity;
use keyword_index::models::language::Language;

#[test]
fn doc_details_lowercases_title_once_at_construction() {
    let d = DocDetails::new(7, String::from("The QuEEn"));
    assert_eq!(d.id(), 7);
    assert_eq!(d.title(), "the queen");
}

#[test]
fn doc_details_leaves_non_letters_alone() {
    let d = DocDetails::new(1, String::from("A-Team 2: RETURNS"));
    assert_eq!(d.title(), "a-team 2: returns");
}

#[test]
fn entity_parses_the_closed_set() {
    assert_eq!(Entity::parse("MOVIE"), Ok(Entity::Movie));
    assert_eq!(Entity::parse("TV"), Ok(Entity::Tv));
    assert_eq!(Entity::parse("GAME"), Ok(Entity::Game));
    assert_eq!(Entity::parse("RECIPE"), Ok(Entity::Recipe));
    assert_eq!(Entity::parse("INVALID"), Err(ErrorKind::UnknownCollection));
    assert_eq!(Entity::parse("movie"), Err(ErrorKind::UnknownCollection));
}

#[test]
fn language_parses_the_closed_set() {
    assert_eq!(Language::parse("ES"), Ok(Language::Es));
    assert_eq!(Language::parse("EN"), Ok(Language::En));
    assert_eq!(Language::parse("FR"), Err(ErrorKind::UnknownLanguage));
    assert_eq!(Language::parse(""), Err(ErrorKind::UnknownLanguage));
}

#[test]
fn language_round_trips_through_its_code() {
    for lang in Language::all() {
        assert_eq!(Language::parse(lang.as_str()), Ok(lang));
    }
    assert_eq!(Language::all().len(), 2);
}

#[test]
fn error_kinds_have_distinct_names() {
    let kinds = [
        ErrorKind::UnknownCollection,
        ErrorKind::UnknownLanguage,
        ErrorKind::EmptyQuery,
        ErrorKind::RetrieverFailure,
        ErrorKind::IndexBuildFailure,
        ErrorKind::IndexQueryFailure,
    ];
    let mut names: Vec<&str> = kinds.iter().map(|k| k.as_str()).collect();
    names.sort();
    names.dedup();
    assert_eq!(names.len(), kinds.len());
}

#[test]
fn entities_carry_their_fields() {
    let m = Movie::new(1, String::from("Heat"));
    assert_eq!(m.id(), 1);
    assert_eq!(m.title(), "Heat");
    let t = Tv::new(2, String::from("Split Ends"));
    assert_eq!(t.id(), 2);
    assert_eq!(t.title(), "Split Ends");
    let r = Recipe::new(3, String::from("Slow Stew"));
    assert_eq!(r.id(), 3);
    assert_eq!(r.title(), "Slow Stew");
    let g = Game::new(4, String::from("Command Line"));
    assert_eq!(g.id(), 4);
    assert_eq!(g.title(), "Command Line");
}

#[test]
fn config_getters_return_what_was_set() {
    let db = DatabaseConfig::new(
        String::from("search"),
        String::from("svc"),
        String::from("SECRET-REDACTED"),
        String::from("db.internal"),
        5432,
        8,
        1,
    );
    let server = ServerConfig::new(String::from("0.0.0.0"), 8080);
    let runner = IndexerRunnerConfig::new(500, 900, true);
    let logger = LoggerConfig::new(true, String::from("INFO"));
    let mut config = Config::new(db, server, runner, logger);

    assert_eq!(config.database().db_name().as_str(), "search");
    assert_eq!(config.database().username().as_str(), "svc");
    assert_eq!(config.database().host().as_str(), "db.internal");
    assert_eq!(config.database().port(), 5432);
    assert_eq!(config.database().max_connections(), 8);
    assert_eq!(config.database().min_connections(), 1);
    assert_eq!(config.server().host().as_str(), "0.0.0.0");
    assert_eq!(config.server().port(), 8080);
    assert_eq!(config.indexer_runner().batch_size(), 500);
    assert_eq!(config.indexer_runner().interval(), 900);
    assert!(config.indexer_runner().wait_until_index());
    assert!(config.logger().enabled());

    config.database_mut().set_port(15432);
    assert_eq!(config.database().port(), 15432);
}

#[test]
fn logger_level_maps_every_recognized_name() {
    let cases = [
        ("TRACE", LogLevel::Trace),
        ("DEBUG", LogLevel::Debug),
        ("INFO", LogLevel::Info),
        ("WARN", LogLevel::Warn),
        ("ERROR", LogLevel::Error),
    ];
    for (name, expected) in cases {
        let c = LoggerConfig::new(true, String::from(name));
        assert_eq!(c.level(), expected);
    }
}

#[test]
fn transport_shapes_carry_plain_values() {
    let mut req = SearchRequest::new(String::from("the queen"), String::from("MOVIE"));
    assert_eq!(req.entity().as_str(), "MOVIE");
    req.keywords_mut().push_str(" ii");
    assert_eq!(req.keywords, "the queen ii");

    let resp = SearchResponse::new(vec![1, 2, 3]);
    assert_eq!(resp.results().to_vec(), vec![1, 2, 3]);
}
