use quickserve::config::Config;
use quickserve::level::LogLevel;
use quickserve::logger::Logger;
use quickserve::outcome::{Outcome, Request};
use quickserve::record::format_record;
use quickserve::router::{route, wants_index};

fn get(path: &str) -> Request {
    Request { method: "GET".to_string(), path: path.to_string() }
}

fn not_found() -> Outcome {
    Outcome::Failure { status: 404, reason: "Not Found".to_string() }
}

fn page(body: &str) -> Outcome {
    Outcome::Success {
        status: 200,
        content_type: "text/plain".to_string(),
        body: body.to_string(),
    }
}

#[test]
fn parse_levels() {
    assert_eq!(LogLevel::parse(&"all".to_string()), LogLevel::All);
    assert_eq!(LogLevel::parse(&"error".to_string()), LogLevel::ErrorsOnly);
    assert_eq!(LogLevel::parse(&"none".to_string()), LogLevel::Silent);
    // anything unrecognized logs nothing
    assert_eq!(LogLevel::parse(&"verbose".to_string()), LogLevel::Silent);
}

#[test]
fn logger_new_parses_level() {
    assert_eq!(Logger::new("all".to_string()).level, LogLevel::All);
    assert_eq!(Logger::new("error".to_string()).level, LogLevel::ErrorsOnly);
    assert_eq!(Logger::new("none".to_string()).level, LogLevel::Silent);
}

#[test]
fn all_level_records_success_and_failure() {
    let logger = Logger::new("all".to_string());
    let req = get("/a");
    let (outcome, record) = logger.handle(&req, page("hi"), 5);
    assert!(matches!(outcome, Outcome::Success { status: 200, .. }));
    let record = record.expect("a success is recorded at level all");
    assert_eq!(record.method, "GET");
    assert_eq!(record.path, "/a");
    assert_eq!(record.status, 200);
    assert_eq!(record.elapsed_ns, 5);
    assert_eq!(record.reason, None);

    let (outcome, record) = logger.handle(&req, not_found(), 9);
    assert!(matches!(outcome, Outcome::Failure { status: 404, .. }));
    let record = record.expect("a failure is recorded at level all");
    assert_eq!(record.status, 404);
    assert_eq!(record.elapsed_ns, 9);
    assert_eq!(record.reason, Some("Not Found".to_string()));
}

#[test]
fn error_level_skips_successes() {
    let logger = Logger::new("error".to_string());
    let req = get("/a");
    let (outcome, record) = logger.handle(&req, page("hi"), 5);
    assert!(matches!(outcome, Outcome::Success { .. }));
    assert!(record.is_none());

    let (_, record) = logger.handle(&req, not_found(), 5);
    let record = record.expect("a failure is recorded at level error");
    assert_eq!(record.reason, Some("Not Found".to_string()));
}

#[test]
fn silent_level_records_nothing() {
    let logger = Logger::new("none".to_string());
    let req = get("/a");
    let (_, record) = logger.handle(&req, page("hi"), 5);
    assert!(record.is_none());
    let (_, record) = logger.handle(&req, not_found(), 5);
    assert!(record.is_none());
}

#[test]
fn root_wants_the_index_document() {
    assert!(wants_index(&"/".to_string()));
    assert!(!wants_index(&"/index.html".to_string()));
    assert!(!wants_index(&"".to_string()));
}

#[test]
fn root_serves_the_index_document() {
    let outcome = route(&"/".to_string(), Some("<html>home</html>".to_string()), not_found());
    match outcome {
        Outcome::Success { status, content_type, body } => {
            assert_eq!(status, 200);
            assert_eq!(content_type, "text/html");
            assert_eq!(body, "<html>home</html>");
        },
        Outcome::Failure { .. } => panic!("the index document must be served"),
    }
}

#[test]
fn root_without_index_takes_the_static_fallback() {
    let outcome = route(&"/".to_string(), None, page("listing"));
    match outcome {
        Outcome::Success { status, body, .. } => {
            assert_eq!(status, 200);
            assert_eq!(body, "listing");
        },
        Outcome::Failure { .. } => panic!("the static fallback must be served"),
    }
}

#[test]
fn root_without_index_or_fallback_reports_the_index_failure() {
    let outcome = route(&"/".to_string(), None, not_found());
    match outcome {
        Outcome::Failure { status, reason } => {
            assert_eq!(status, 404);
            assert_eq!(reason, "Unable to find index file");
        },
        Outcome::Success { .. } => panic!("nothing could be served"),
    }
}

#[test]
fn other_paths_get_the_engine_outcome() {
    let outcome = route(&"/missing.txt".to_string(), None, not_found());
    match outcome {
        Outcome::Failure { status, reason } => {
            assert_eq!(status, 404);
            assert!(!reason.is_empty());
            assert_eq!(reason, "Not Found");
        },
        Outcome::Success { .. } => panic!("a missing file cannot be served"),
    }
}

#[test]
fn missing_file_scenario() {
    // GET /missing.txt against an empty root: a 404 failure, logged at
    // levels all and error with the reason on the line, not at none
    let req = get("/missing.txt");
    for level in ["all", "error"] {
        let logger = Logger::new(level.to_string());
        let (outcome, record) = logger.serve(&req, None, not_found(), 0);
        assert!(matches!(outcome, Outcome::Failure { status: 404, .. }));
        let record = record.expect("the failure is recorded");
        let line = format_record(&record);
        assert_eq!(line, "GET /missing.txt 404 0.0ms Not Found");
    }
    let logger = Logger::new("none".to_string());
    let (outcome, record) = logger.serve(&req, None, not_found(), 0);
    assert!(matches!(outcome, Outcome::Failure { status: 404, .. }));
    assert!(record.is_none());
}

#[test]
fn index_scenario_logs_once() {
    let req = get("/");
    let logger = Logger::new("all".to_string());
    let (outcome, record) = logger.serve(&req, Some("home".to_string()), not_found(), 1_000_000);
    match outcome {
        Outcome::Success { status, body, .. } => {
            assert_eq!(status, 200);
            assert_eq!(body, "home");
        },
        Outcome::Failure { .. } => panic!("the index document must be served"),
    }
    // the one logging point covers the index route like any other
    let record = record.expect("the success is recorded at level all");
    assert_eq!(format_record(&record), "GET / 200 1.0ms");
}

#[test]
fn config_rejects_port_zero() {
    assert!(Config::new(0, "localhost".to_string(), ".".to_string(), LogLevel::All).is_none());
    let config = Config::new(8080, "localhost".to_string(), ".".to_string(), LogLevel::All)
        .expect("a nonzero port is valid");
    assert_eq!(config.port, 8080);
    assert_eq!(config.host, "localhost");
    assert_eq!(config.root, ".");
    assert_eq!(config.level, LogLevel::All);
}
