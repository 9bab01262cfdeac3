use ecdb::config::Config;
use ecdb::health::{alive_reply, health_status, hello_reply, ready_reply, HealthStatus};
use ecdb::init::{init_step, initialize_outcome, InitError, InitStep};
use ecdb::router::{route_of, RouteKind};
use ecdb::state::AppState;

fn sample_config() -> Config {
    Config::from_opts(
        Some("127.0.0.1:8000".to_string()),
        Some("service_user".to_string()),
        Some("example-password".to_string()),
        Some("main".to_string()),
        Some("main".to_string()),
        Some("127.0.0.1:0".to_string()),
    )
}

#[test]
fn alive_is_200_ok_json() {
    let r = alive_reply();
    assert_eq!(r.status, 200);
    assert_eq!(r.body, "{\"status\":\"ok\"}");
}

#[test]
fn alive_does_not_depend_on_database_health() {
    // The liveness body is the same whatever a probe would report.
    let before = alive_reply();
    let _ = health_status(false);
    let after = alive_reply();
    assert_eq!(before.body, after.body);
    assert_eq!(before.status, 200);
    assert_eq!(after.status, 200);
}

#[test]
fn ready_connected_body() {
    let r = ready_reply(HealthStatus::Reachable);
    assert_eq!(r.status, 200);
    assert_eq!(r.body, "{\"status\":\"ready\",\"database\":\"connected\"}");
}

#[test]
fn ready_disconnected_body_still_200() {
    let r = ready_reply(HealthStatus::Unreachable);
    assert_eq!(r.status, 200);
    assert_eq!(r.body, "{\"status\":\"not ready\",\"database\":\"disconnected\"}");
}

#[test]
fn probe_outcome_maps_to_status() {
    assert_eq!(health_status(true), HealthStatus::Reachable);
    assert_eq!(health_status(false), HealthStatus::Unreachable);
}

#[test]
fn hello_is_plain_greeting() {
    let r = hello_reply();
    assert_eq!(r.status, 200);
    assert_eq!(r.body, "Hello, World!");
}

#[test]
fn config_defaults_apply_when_unset() {
    let c = Config::from_opts(None, None, None, None, None, None);
    assert_eq!(c.database_url, "localhost:8000");
    assert_eq!(c.database_username, "root");
    assert_eq!(c.database_password, "root");
    assert_eq!(c.database_namespace, "main");
    assert_eq!(c.database_name, "main");
    assert_eq!(c.bind_addr, "localhost:3000");
}

#[test]
fn config_supplied_values_win() {
    let c = sample_config();
    assert_eq!(c.database_url, "127.0.0.1:8000");
    assert_eq!(c.database_username, "service_user");
    assert_eq!(c.database_password, "example-password");
    assert_eq!(c.database_namespace, "main");
    assert_eq!(c.database_name, "main");
    assert_eq!(c.bind_addr, "127.0.0.1:0");
}

#[test]
fn init_succeeds_only_when_every_step_does() {
    let cfg = sample_config();
    let conn = initialize_outcome(&cfg, true, true, true).unwrap();
    assert_eq!(conn.endpoint, "127.0.0.1:8000");
    assert_eq!(conn.username, "service_user");
    assert_eq!(conn.namespace, "main");
    assert_eq!(conn.database, "main");
}

#[test]
fn init_transport_failure_is_connection_error() {
    let cfg = sample_config();
    assert_eq!(
        initialize_outcome(&cfg, false, true, true).unwrap_err(),
        InitError::Connection
    );
    // A failed transport hides whatever the later steps would have done.
    assert_eq!(
        initialize_outcome(&cfg, false, false, false).unwrap_err(),
        InitError::Connection
    );
}

#[test]
fn init_rejected_credentials_are_authentication_error() {
    let cfg = sample_config();
    assert_eq!(
        initialize_outcome(&cfg, true, false, true).unwrap_err(),
        InitError::Authentication
    );
}

#[test]
fn init_rejected_selection_is_selection_error() {
    let cfg = sample_config();
    assert_eq!(
        initialize_outcome(&cfg, true, true, false).unwrap_err(),
        InitError::Selection
    );
}

#[test]
fn init_steps_run_in_strict_order() {
    assert_eq!(init_step(InitStep::Connect, true).unwrap(), InitStep::Authenticate);
    assert_eq!(init_step(InitStep::Authenticate, true).unwrap(), InitStep::Select);
    assert_eq!(init_step(InitStep::Select, true).unwrap(), InitStep::Done);
    assert_eq!(init_step(InitStep::Done, true).unwrap(), InitStep::Done);
    assert_eq!(init_step(InitStep::Connect, false).unwrap_err(), InitError::Connection);
    assert_eq!(
        init_step(InitStep::Authenticate, false).unwrap_err(),
        InitError::Authentication
    );
    assert_eq!(init_step(InitStep::Select, false).unwrap_err(), InitError::Selection);
}

#[test]
fn state_echoes_config_and_connection() {
    let cfg = sample_config();
    let conn = initialize_outcome(&cfg, true, true, true).unwrap();
    let state = AppState::new(cfg, conn);
    assert_eq!(state.config.bind_addr, "127.0.0.1:0");
    assert_eq!(state.connection.endpoint, "127.0.0.1:8000");
    // Cloning shares the same values with another handler.
    let other = state.clone();
    assert_eq!(other.connection.namespace, "main");
}

#[test]
fn routes_dispatch_to_their_handlers() {
    assert_eq!(route_of(&"/api/check/alive".to_string()), RouteKind::Alive);
    assert_eq!(route_of(&"/api/check/ready".to_string()), RouteKind::Ready);
    assert_eq!(route_of(&"/api/test".to_string()), RouteKind::Hello);
    assert_eq!(route_of(&"/api/customers".to_string()), RouteKind::Customers);
    assert_eq!(route_of(&"/api/else".to_string()), RouteKind::NotFound);
    assert_eq!(route_of(&"".to_string()), RouteKind::NotFound);
}
