use policy_integrations::config::{find, Config};
use policy_integrations::text::{parse_flag, parse_u16, same_text};

fn vars(pairs: &[(&str, &str)]) -> Vec<(String, String)> {
    pairs.iter().map(|(name, value)| (name.to_string(), value.to_string())).collect()
}

#[test]
fn an_empty_environment_leaves_the_defaults() {
    let config = Config::from_env(&[]).unwrap();
    assert_eq!(config.server.host, "0.0.0.0");
    assert_eq!(config.server.port, 3000);
    assert_eq!(config.server.grpc_port, 50051);
    assert_eq!(config.server.request_timeout_ms, 30000);
    assert!(config.cache.enabled);
    assert!(!config.cache.l2_enabled);
    assert!(config.cache.redis_url.is_none());
    assert!(config.telemetry.enabled);
    assert!(config.telemetry.otlp_endpoint.is_none());
    assert_eq!(config.telemetry.log_level, "info");
    assert!(config.integrations.shield_url.is_none());
    assert!(config.integrations.observatory_url.is_none());
    assert_eq!(config.integrations.timeout_ms, 5000);
    assert!(!config.security.auth_enabled);
    assert!(config.security.jwt_secret.is_none());
    assert_eq!(config.performance.max_evaluation_time_ms, 100);
    assert!(config.validate().is_ok());
}

#[test]
fn every_variable_sets_its_field() {
    let environment = vars(&[
        ("PORT", "8080"),
        ("GRPC_PORT", "9000"),
        ("HOST", "127.0.0.1"),
        ("CACHE_ENABLED", "false"),
        ("REDIS_URL", "redis://cache:6379"),
        ("TELEMETRY_ENABLED", "false"),
        ("OTLP_ENDPOINT", "http://otel:4317"),
        ("LOG_LEVEL", "debug"),
        ("LLM_SHIELD_URL", "http://shield"),
        ("LLM_COSTOPS_URL", "http://costops"),
        ("LLM_GOVERNANCE_URL", "http://governance"),
        ("LLM_EDGE_AGENT_URL", "http://edge"),
        ("INCIDENT_MANAGER_URL", "http://incidents"),
        ("SENTINEL_URL", "http://sentinel"),
        ("LLM_SCHEMA_REGISTRY_URL", "http://schemas"),
        ("LLM_CONFIG_MANAGER_URL", "http://cfg"),
        ("LLM_OBSERVATORY_URL", "http://obs"),
        ("JWT_SECRET", "s3cr3t"),
        ("AUTH_ENABLED", "true"),
        ("UNRELATED", "ignored"),
    ]);
    let config = Config::from_env(&environment).unwrap();
    assert_eq!(config.server.port, 8080);
    assert_eq!(config.server.grpc_port, 9000);
    assert_eq!(config.server.host, "127.0.0.1");
    assert!(!config.cache.enabled);
    assert_eq!(config.cache.redis_url.as_deref(), Some("redis://cache:6379"));
    assert!(config.cache.l2_enabled);
    assert!(!config.telemetry.enabled);
    assert_eq!(config.telemetry.otlp_endpoint.as_deref(), Some("http://otel:4317"));
    assert_eq!(config.telemetry.log_level, "debug");
    assert_eq!(config.integrations.shield_url.as_deref(), Some("http://shield"));
    assert_eq!(config.integrations.costops_url.as_deref(), Some("http://costops"));
    assert_eq!(config.integrations.governance_url.as_deref(), Some("http://governance"));
    assert_eq!(config.integrations.edge_agent_url.as_deref(), Some("http://edge"));
    assert_eq!(config.integrations.incident_manager_url.as_deref(), Some("http://incidents"));
    assert_eq!(config.integrations.sentinel_url.as_deref(), Some("http://sentinel"));
    assert_eq!(config.integrations.schema_registry_url.as_deref(), Some("http://schemas"));
    assert_eq!(config.integrations.config_manager_url.as_deref(), Some("http://cfg"));
    assert_eq!(config.integrations.observatory_url.as_deref(), Some("http://obs"));
    assert_eq!(config.security.jwt_secret.as_deref(), Some("s3cr3t"));
    assert!(config.security.auth_enabled);
    assert_eq!(config.integrations.timeout_ms, 5000);
    assert_eq!(config.cache.redis_prefix, "llm-policy:");
    assert_eq!(config.security.jwt_algorithm, "HS256");
    assert!(config.validate().is_ok());
}

#[test]
fn an_unreadable_port_or_switch_leaves_the_default() {
    let environment = vars(&[
        ("PORT", "eighty"),
        ("GRPC_PORT", "70000"),
        ("CACHE_ENABLED", "no"),
        ("TELEMETRY_ENABLED", "TRUE"),
        ("AUTH_ENABLED", "1"),
    ]);
    let config = Config::from_env(&environment).unwrap();
    assert_eq!(config.server.port, 3000);
    assert_eq!(config.server.grpc_port, 50051);
    assert!(config.cache.enabled);
    assert!(config.telemetry.enabled);
    assert!(!config.security.auth_enabled);
}

#[test]
fn authentication_without_a_secret_is_read_and_then_refused() {
    let config = Config::from_env(&vars(&[("AUTH_ENABLED", "true")])).unwrap();
    assert!(config.security.auth_enabled);
    assert!(config.validate().is_err());
}

#[test]
fn the_first_occurrence_of_a_name_counts() {
    let environment = vars(&[("PORT", "1"), ("HOST", "a"), ("PORT", "2"), ("HOST", "b")]);
    assert_eq!(find(&environment, "PORT").map(String::as_str), Some("1"));
    assert_eq!(find(&environment, "HOST").map(String::as_str), Some("a"));
    assert_eq!(find(&environment, "port"), None);
    assert_eq!(find(&environment, "POR"), None);
    assert_eq!(find(&environment, ""), None);
    assert_eq!(find(&[], "PORT"), None);
    let config = Config::from_env(&environment).unwrap();
    assert_eq!(config.server.port, 1);
    assert_eq!(config.server.host, "a");
}

#[test]
fn numbers_are_read_as_the_standard_library_reads_them() {
    let samples = [
        "", "0", "7", "80", "0080", "65535", "65536", "065535", "0000000000000000000065535",
        "99999", "100000", "4294967296", "18446744073709551616", "+", "-", "+0", "+80", "-80",
        "++80", "+-80", "8 0", " 80", "80 ", "80\n", "0x50", "8_0", "8.0", "1e3", "\u{664}",
        "\u{ff11}", "8\u{e9}", "\u{e9}8", "+\u{e9}", "3000", "50051", "a", "12a", "a12", "+65535",
        "+65536", "00000", "+00000",
    ];
    for text in samples {
        assert_eq!(parse_u16(text), text.parse::<u16>().ok(), "reading {:?}", text);
    }
    for n in 0..=70000u32 {
        let text = n.to_string();
        assert_eq!(parse_u16(&text), text.parse::<u16>().ok());
        let signed = format!("+{}", n);
        assert_eq!(parse_u16(&signed), signed.parse::<u16>().ok());
    }
    assert_eq!(parse_u16("8080"), Some(8080));
    assert_eq!(parse_u16("65535"), Some(65535));
    assert_eq!(parse_u16("65536"), None);
}

#[test]
fn switches_are_read_as_the_standard_library_reads_them() {
    let samples =
        ["true", "false", "", "True", "FALSE", "1", "0", "yes", " true", "true ", "tru", "truee"];
    for text in samples {
        assert_eq!(parse_flag(text), text.parse::<bool>().ok(), "reading {:?}", text);
    }
    assert_eq!(parse_flag("true"), Some(true));
    assert_eq!(parse_flag("false"), Some(false));
    assert_eq!(parse_flag("on"), None);
}

#[test]
fn texts_are_the_same_when_their_characters_are() {
    assert!(same_text("", ""));
    assert!(same_text("PORT", "PORT"));
    assert!(!same_text("PORT", "PORT "));
    assert!(!same_text("PORT", "port"));
    assert!(same_text("caf\u{e9}", "caf\u{e9}"));
    assert!(!same_text("cafe\u{301}", "caf\u{e9}"));
}
