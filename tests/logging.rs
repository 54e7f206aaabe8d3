use actor_interfaces::actor::HealthCheckResponse;
use actor_interfaces::graphdb;
use actor_interfaces::host::DEFAULT_BINDING;
use actor_interfaces::logging::{self, level_or_info, log_record};
use actor_interfaces::messaging;

#[test]
fn known_levels_are_kept_in_any_case() {
    assert_eq!(level_or_info("warn"), "warn");
    assert_eq!(level_or_info("WARN"), "WARN");
    assert_eq!(level_or_info("Error"), "Error");
    assert_eq!(level_or_info("trace"), "trace");
    assert_eq!(level_or_info("debug"), "debug");
}

#[test]
fn other_levels_become_info() {
    assert_eq!(level_or_info("verbose"), "info");
    assert_eq!(level_or_info(""), "info");
    assert_eq!(level_or_info(" warn"), "info");
    let record = log_record("actor", "LOUD", "text");
    assert_eq!(record.level, "info");
    assert_eq!(record.target, "actor");
    assert_eq!(record.text, "text");
}

#[test]
fn sink_binding_can_be_changed() {
    let mut sink = logging::default();
    assert_eq!(sink.binding(), DEFAULT_BINDING);
    sink.set_binding("audit");
    assert_eq!(sink.binding(), "audit");
}

#[test]
fn bindings_are_named() {
    assert_eq!(messaging::host("broker-2").binding(), "broker-2");
    assert_eq!(messaging::default().binding(), "default");
    let g = graphdb::default().graph("social");
    assert_eq!(g.name(), "social");
    assert_eq!(graphdb::host("g2").graph("x").name(), "x");
}

#[test]
fn healthy_response() {
    let r = HealthCheckResponse::healthy();
    assert!(r.healthy);
    assert_eq!(r.message, "");
}
