use sqs_worker::{HealthConfig, HealthServer};

#[test]
fn test_health_server_ready_state() {
    let config = HealthConfig { host: "127.0.0.1".to_string(), port: 8080 };

    let server = HealthServer::new(config);

    assert_eq!(server.is_ready(), false);

    server.set_ready(true);
    assert_eq!(server.is_ready(), true);

    server.set_ready(false);
    assert_eq!(server.is_ready(), false);
}

#[test]
fn clones_share_the_ready_flag() {
    let server = HealthServer::new(HealthConfig { host: "0.0.0.0".to_string(), port: 9000 });
    let probe = server.clone();
    server.set_ready(true);
    assert!(probe.is_ready());
    assert_eq!(probe.config().port, 9000);
    assert_eq!(probe.config().host, "0.0.0.0");
}
