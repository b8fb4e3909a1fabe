use sqs_worker::{load_config, Config, ConfigError, Settings};

fn settings(queue_url: Option<&str>) -> Settings {
    Settings {
        queue_url: queue_url.map(|s| s.to_string()),
        max_messages: None,
        wait_time_seconds: None,
        visibility_timeout: None,
        health_host: None,
        health_port: None,
        log_level: None,
    }
}

#[test]
fn default_config_values() {
    let c = Config::default();
    assert_eq!(c.sqs.queue_url, "");
    assert_eq!(c.sqs.max_messages, 10);
    assert_eq!(c.sqs.wait_time_seconds, 20);
    assert_eq!(c.sqs.visibility_timeout, 30);
    assert_eq!(c.health.host, "0.0.0.0");
    assert_eq!(c.health.port, 8080);
    assert_eq!(c.logging.level, "info");
}

#[test]
fn only_the_queue_url_is_required() {
    let c = load_config(settings(Some("https://queue.example/123/jobs"))).unwrap();
    assert_eq!(c.sqs.queue_url, "https://queue.example/123/jobs");
    assert_eq!(c.sqs.max_messages, 10);
    assert_eq!(c.sqs.wait_time_seconds, 20);
    assert_eq!(c.sqs.visibility_timeout, 30);
    assert_eq!(c.health.host, "0.0.0.0");
    assert_eq!(c.health.port, 8080);
    assert_eq!(c.logging.level, "info");
}

#[test]
fn present_settings_override_defaults() {
    let mut st = settings(Some("q"));
    st.max_messages = Some("5".to_string());
    st.wait_time_seconds = Some("+0".to_string());
    st.visibility_timeout = Some("-12".to_string());
    st.health_host = Some("127.0.0.1".to_string());
    st.health_port = Some("65535".to_string());
    st.log_level = Some("debug".to_string());
    let c = load_config(st).unwrap();
    assert_eq!(c.sqs.max_messages, 5);
    assert_eq!(c.sqs.wait_time_seconds, 0);
    assert_eq!(c.sqs.visibility_timeout, -12);
    assert_eq!(c.health.host, "127.0.0.1");
    assert_eq!(c.health.port, 65535);
    assert_eq!(c.logging.level, "debug");
}

#[test]
fn missing_queue_url_is_refused_first() {
    let mut st = settings(None);
    st.max_messages = Some("many".to_string());
    assert_eq!(load_config(st).unwrap_err(), ConfigError::MissingQueueUrl);
}

#[test]
fn each_invalid_number_is_named() {
    let mut st = settings(Some("q"));
    st.max_messages = Some("ten".to_string());
    assert_eq!(load_config(st).unwrap_err(), ConfigError::InvalidMaxMessages);

    let mut st = settings(Some("q"));
    st.wait_time_seconds = Some(" 20".to_string());
    assert_eq!(load_config(st).unwrap_err(), ConfigError::InvalidWaitTimeSeconds);

    let mut st = settings(Some("q"));
    st.visibility_timeout = Some("2147483648".to_string());
    assert_eq!(load_config(st).unwrap_err(), ConfigError::InvalidVisibilityTimeout);

    let mut st = settings(Some("q"));
    st.health_port = Some("65536".to_string());
    assert_eq!(load_config(st).unwrap_err(), ConfigError::InvalidHealthPort);

    let mut st = settings(Some("q"));
    st.health_port = Some("-1".to_string());
    assert_eq!(load_config(st).unwrap_err(), ConfigError::InvalidHealthPort);

    let mut st = settings(Some("q"));
    st.max_messages = Some("-".to_string());
    assert_eq!(load_config(st).unwrap_err(), ConfigError::InvalidMaxMessages);
}

#[test]
fn earlier_setting_errors_win() {
    let mut st = settings(Some("q"));
    st.wait_time_seconds = Some("x".to_string());
    st.health_port = Some("y".to_string());
    assert_eq!(load_config(st).unwrap_err(), ConfigError::InvalidWaitTimeSeconds);
}
