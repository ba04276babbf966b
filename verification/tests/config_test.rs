use twitch_extension_api::config::throttle::ThrottleState;
use twitch_extension_api::config::vars::{chars_of, is_true, parse_u16, parse_usize, split_by};
use twitch_extension_api::config::{resolve_workers, Config, ConfigVars};

fn sample_vars() -> ConfigVars {
    ConfigVars {
        app_name: "twitch-extension-api".to_string(),
        app_version: "1.0.0".to_string(),
        app_url: "0.0.0.0".to_string(),
        app_port: "8000".to_string(),
        app_platform_secret: "SECRET-REDACTED".to_string(),
        app_tls_enabled: "false".to_string(),
        app_tls_cert: "cert.pem".to_string(),
        app_tls_key: "key.pem".to_string(),
        max_workers: Some("4".to_string()),
        scylla_nodes: "localhost:9042,127.0.0.1:9043".to_string(),
        scylla_username: "scylla".to_string(),
        scylla_password: "scylla".to_string(),
        scylla_cached_queries: "5".to_string(),
        scylla_keyspace: "twitch".to_string(),
    }
}

#[test]
fn parse_u16_agrees_with_std() {
    let cases = [
        "0", "8000", "65535", "65536", "+80", "+", "", "-1", "-0", " 80", "80 ", "08080", "1a",
        "99999999999999999999", "٣", "++1", "+-1", "00000000000000000000065535",
    ];
    for c in cases {
        assert_eq!(parse_u16(c), c.parse::<u16>().ok(), "input {:?}", c);
    }
}

#[test]
fn parse_usize_agrees_with_std() {
    let cases = [
        "0", "5", "18446744073709551615", "18446744073709551616", "+7", "", "x", "1_000", "-3",
        "4294967296",
    ];
    for c in cases {
        assert_eq!(parse_usize(c), c.parse::<usize>().ok(), "input {:?}", c);
    }
}

#[test]
fn parse_exact_values() {
    assert_eq!(parse_u16("8000"), Some(8000));
    assert_eq!(parse_u16("+443"), Some(443));
    assert_eq!(parse_u16("65536"), None);
    assert_eq!(parse_usize("12"), Some(12));
    assert_eq!(parse_usize("1 2"), None);
}

#[test]
fn split_agrees_with_std() {
    let cases = ["a,b,c", "", ",", "a,,b", "node1", ",x,", "ä,ö", "a b,c"];
    for c in cases {
        let ours = split_by(c, ',');
        let theirs: Vec<String> = c.split(',').map(|s| s.to_string()).collect();
        assert_eq!(ours, theirs, "input {:?}", c);
    }
}

#[test]
fn split_then_join_gives_back_the_text() {
    for c in ["a,b", "", ",,", "host:9042"] {
        let parts = split_by(c, ',');
        assert_eq!(parts.join(","), c);
        assert!(parts.iter().all(|p| !p.contains(',')));
    }
}

#[test]
fn chars_of_keeps_order() {
    assert_eq!(chars_of("aé,"), vec!['a', 'é', ',']);
}

#[test]
fn tls_flag_is_exactly_true() {
    assert!(is_true("true"));
    assert!(!is_true("True"));
    assert!(!is_true("true "));
    assert!(!is_true("1"));
    assert!(!is_true(""));
}

#[test]
fn workers_fallbacks() {
    assert_eq!(resolve_workers(&Some("8".to_string()), Some(2)), 8);
    assert_eq!(resolve_workers(&Some("eight".to_string()), Some(2)), 2);
    assert_eq!(resolve_workers(&None, Some(3)), 3);
    assert_eq!(resolve_workers(&None, None), 1);
    assert_eq!(resolve_workers(&Some("-1".to_string()), None), 1);
    assert_eq!(resolve_workers(&Some("0".to_string()), Some(4)), 0);
}

#[test]
fn config_from_vars() {
    let c = Config::from_vars(sample_vars(), Some(16));
    assert_eq!(c.app.name, "twitch-extension-api");
    assert_eq!(c.app.version, "1.0.0");
    assert_eq!(c.app.url, "0.0.0.0");
    assert_eq!(c.app.port, 8000);
    assert_eq!(c.app.platform_secret, "SECRET-REDACTED");
    assert!(!c.tls.enabled);
    assert_eq!(c.tls.cert, "cert.pem");
    assert_eq!(c.tls.key, "key.pem");
    assert_eq!(c.http.workers, 4);
    assert_eq!(c.database.nodes, vec!["localhost:9042".to_string(), "127.0.0.1:9043".to_string()]);
    assert_eq!(c.database.username, "scylla");
    assert_eq!(c.database.password, "scylla");
    assert_eq!(c.database.cached_queries, 5);
    assert_eq!(c.database.keyspace, "twitch");
}

#[test]
fn config_tls_and_workers_from_machine() {
    let mut vars = sample_vars();
    vars.app_tls_enabled = "true".to_string();
    vars.max_workers = None;
    let c = Config::from_vars(vars, Some(6));
    assert!(c.tls.enabled);
    assert_eq!(c.http.workers, 6);
}

#[test]
fn throttle_state_starts_empty() {
    assert!(ThrottleState::new().last_request.is_empty());
    assert!(ThrottleState::default().last_request.is_empty());
}
