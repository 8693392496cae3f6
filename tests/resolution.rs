use config_server::{candidate_paths, resolve, ConfigError, ParseFailure, Probe, Resolver};

fn paths(names: &[&str]) -> Vec<String> {
    names.iter().map(|s| s.to_string()).collect()
}

const GOOD: &str = r#"{"message": "hello", "port": 8080}"#;

#[test]
fn first_usable_candidate_wins() {
    let probes = vec![
        Probe::Missing,
        Probe::Unreadable("permission denied".to_string()),
        Probe::Read(GOOD.to_string()),
        Probe::Read(r#"{"message": "later", "port": 1}"#.to_string()),
    ];
    let loaded = resolve(paths(&["a", "b", "c", "d"]), &probes).unwrap();
    assert_eq!(loaded.path, "c");
    assert_eq!(loaded.config.message, "hello");
    assert_eq!(loaded.config.port, 8080);
}

#[test]
fn malformed_candidate_stops_the_search() {
    let probes = vec![
        Probe::Missing,
        Probe::Read(r#"{"port": 1}"#.to_string()),
        Probe::Read(GOOD.to_string()),
    ];
    match resolve(paths(&["a", "b", "c"]), &probes) {
        Err(ConfigError::Parse { path, failure: ParseFailure::MissingField(f) }) => {
            assert_eq!(path, "b");
            assert_eq!(f, "message");
        }
        _ => panic!("expected a parse error"),
    }
}

#[test]
fn nothing_found_is_not_a_parse_error() {
    let probes = vec![Probe::Missing, Probe::Missing];
    let err = resolve(paths(&["x/config.json", "config.json"]), &probes).unwrap_err();
    match &err {
        ConfigError::NotFound { last_failure } => {
            assert_eq!(last_failure.as_deref(), Some("config.json: not found"))
        }
        _ => panic!("expected not found"),
    }
    assert_eq!(
        err.describe(),
        "Failed to load config from any path. Last error: config.json: not found"
    );
}

#[test]
fn unreadable_last_candidate_is_reported() {
    let probes = vec![Probe::Missing, Probe::Unreadable("is a directory".to_string())];
    let err = resolve(paths(&["a", "b"]), &probes).unwrap_err();
    assert_eq!(
        err.describe(),
        "Failed to load config from any path. Last error: b: is a directory"
    );
}

#[test]
fn no_candidates_at_all() {
    let err = resolve(Vec::new(), &Vec::new()).unwrap_err();
    assert!(matches!(err, ConfigError::NotFound { last_failure: None }));
    assert_eq!(err.describe(), "Failed to load config from any path. Last error: ");
}

#[test]
fn missing_port_names_the_path() {
    let probes = vec![Probe::Read(r#"{"message": "hi"}"#.to_string())];
    let err = resolve(paths(&["/etc/app/config.json"]), &probes).unwrap_err();
    assert_eq!(
        err.describe(),
        "Failed to parse /etc/app/config.json: missing field `port`"
    );
}

#[test]
fn resolver_steps_one_candidate_at_a_time() {
    let mut r = Resolver::new(paths(&["a", "b"]));
    assert_eq!(r.pending().as_deref(), Some("a"));
    assert!(r.advance(&Probe::Missing).is_none());
    assert_eq!(r.pending().as_deref(), Some("b"));
    assert!(r.advance(&Probe::Missing).is_none());
    assert_eq!(r.pending(), None);
    match r.give_up() {
        ConfigError::NotFound { last_failure } => assert_eq!(last_failure.as_deref(), Some("b: not found")),
        _ => panic!("expected not found"),
    }
    let mut r = Resolver::new(paths(&["a"]));
    let done = r.advance(&Probe::Read(GOOD.to_string())).unwrap().unwrap();
    assert_eq!(done.path, "a");
}

#[test]
fn candidate_order() {
    let got = candidate_paths(Some("/opt/app/bin"), Some("/srv"));
    assert_eq!(
        got,
        vec![
            "/opt/app/bin/config/config.json",
            "/opt/app/bin/../config/config.json",
            "/opt/app/bin/../../config/config.json",
            "/srv/config/config.json",
            "/srv/../config/config.json",
            "/srv/config.json",
            "/opt/app/bin/config.json",
            "config.json",
        ]
    );
}

#[test]
fn candidates_without_directories() {
    assert_eq!(candidate_paths(None, None), vec!["config.json"]);
    assert_eq!(
        candidate_paths(None, Some("/srv/")),
        vec!["/srv/config/config.json", "/srv/../config/config.json", "/srv/config.json", "config.json"]
    );
}

#[test]
fn fallback_only_scenario() {
    let candidates = candidate_paths(Some("/opt/app"), Some("/home/u"));
    let n = candidates.len();
    let mut probes: Vec<Probe> = (0..n - 1).map(|_| Probe::Missing).collect();
    probes.push(Probe::Read(GOOD.to_string()));
    let loaded = resolve(candidates, &probes).unwrap();
    assert_eq!(loaded.path, "config.json");
    assert_eq!(config_server::listen_address(loaded.config.port), "0.0.0.0:8080");
    let home = config_server::home_handler(&loaded.config);
    assert_eq!((home.status, home.body.as_str()), (200, "hello"));
    let health = config_server::health_handler();
    assert_eq!((health.status, health.body.as_str()), (200, "OK"));
}
