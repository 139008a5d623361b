use supervisor::api::webhook_update;
use supervisor::cli::{bool_to_icon, handle_command, main_instance_label, parse_command, running_label, Command};
use supervisor::health::{is_healthy_status, probe_succeeded};
use supervisor::proxy::{default_listen_addr, routes_to_control, BackendError, SupervisorProxy};
use supervisor::slot::Slot;
use supervisor::steps::Script;

fn s(v: &str) -> Option<String> {
    Some(v.to_string())
}

#[test]
fn webhook_without_query_key() {
    let r = webhook_update(s("secret"), None);
    assert_eq!(r.status, 401);
    assert!(!r.success);
    assert!(!r.enqueue);
    assert_eq!(r.message, "Unauthorized: invalid or missing API key");
}

#[test]
fn webhook_with_wrong_key() {
    let r = webhook_update(s("secret"), s("wrong"));
    assert_eq!(r.status, 401);
    assert!(!r.enqueue);
}

#[test]
fn webhook_with_right_key() {
    let r = webhook_update(s("secret"), s("secret"));
    assert_eq!(r.status, 200);
    assert!(r.success);
    assert!(r.enqueue);
    assert_eq!(r.message, "Update was added to the queue and will be processed shortly.");
}

#[test]
fn webhook_without_configured_key() {
    assert_eq!(webhook_update(None, s("secret")).status, 401);
    assert_eq!(webhook_update(None, None).status, 401);
    assert_eq!(webhook_update(s(""), s("")).status, 401);
    assert!(!webhook_update(s(""), s("")).enqueue);
}

#[test]
fn health_codes() {
    for c in [200u16, 204, 299, 301, 304, 399, 400, 404, 405] {
        assert!(is_healthy_status(c), "{c}");
    }
    for c in [100u16, 199, 406, 429, 500, 503] {
        assert!(!is_healthy_status(c), "{c}");
    }
    assert!(probe_succeeded(Some(200)));
    assert!(!probe_succeeded(Some(503)));
    assert!(!probe_succeeded(None));
}

#[test]
fn control_paths() {
    assert!(routes_to_control("/_supervisor"));
    assert!(routes_to_control("/_supervisor/webhook/update"));
    assert!(routes_to_control("/_supervisorx"));
    assert!(!routes_to_control("/"));
    assert!(!routes_to_control(""));
    assert!(!routes_to_control("/_superviso"));
    assert!(!routes_to_control("/api/_supervisor"));
    assert!(!routes_to_control("/_Supervisor"));
}

#[test]
fn proxy_routes_start_on_slot_one() {
    let r = SupervisorProxy::with_defaults();
    assert_eq!(r.upstream_for("/"), "127.0.0.1:19131");
    assert_eq!(r.upstream_for("/_supervisor/webhook/update"), "127.0.0.1:19180");
    assert_eq!(r.current_world_backend(), "127.0.0.1:19131");
    assert_eq!(default_listen_addr(), "0.0.0.0:19130");
}

#[test]
fn proxy_world_backend_swap() {
    let mut r = SupervisorProxy::with_defaults();
    assert_eq!(r.set_world_backend("127.0.0.1:19132", 1), Ok(()));
    assert_eq!(r.upstream_for("/index.html"), "127.0.0.1:19132");
    assert_eq!(r.upstream_for("/_supervisor/x"), "127.0.0.1:19180");
    assert_eq!(r.set_world_backend("nowhere", 0), Err(BackendError::Unresolvable));
    assert_eq!(r.current_world_backend(), "127.0.0.1:19132");
}

#[test]
fn slot_bindings() {
    assert_eq!(Slot::One.other(), Slot::Two);
    assert_eq!(Slot::Two.other(), Slot::One);
    assert_eq!(Slot::One.address(), "127.0.0.1:19131");
    assert_eq!(Slot::Two.address(), "127.0.0.1:19132");
    assert_eq!(Slot::One.port(), "19131");
    assert_eq!(Slot::Two.number(), "2");
    assert_eq!(Slot::Two.entry_point(), "/home/container/.app/instance/2/server/index.mjs");
    assert_eq!(
        Script::MoveBuildToInstance.path(),
        "/usr/local/share/supervisor/scripts/move_build_to_instance.sh"
    );
}

#[test]
fn commands() {
    assert_eq!(parse_command("help"), Command::Help);
    assert_eq!(parse_command("?"), Command::Help);
    assert_eq!(parse_command("STATUS"), Command::Status);
    assert_eq!(parse_command("Info"), Command::Status);
    assert_eq!(parse_command("instances"), Command::Instances);
    assert_eq!(parse_command("backend"), Command::Backend);
    assert_eq!(parse_command("queue"), Command::Queue);
    assert_eq!(parse_command("Update"), Command::Update);
    assert_eq!(parse_command("shutdown"), Command::Stop);
    assert_eq!(parse_command("Frobnicate"), Command::Unknown("frobnicate".to_string()));
}

#[test]
fn command_lines() {
    assert_eq!(handle_command("   "), None);
    assert_eq!(handle_command(""), None);
    assert_eq!(handle_command("  STOP now "), Some(Command::Stop));
    assert_eq!(handle_command("\tupdate"), Some(Command::Update));
}

#[test]
fn labels() {
    assert_eq!(bool_to_icon(true), "yes");
    assert_eq!(bool_to_icon(false), "no");
    assert_eq!(main_instance_label(None), "(not assigned)");
    assert_eq!(main_instance_label(Some(Slot::Two)), "2");
    assert_eq!(running_label(true), "running");
    assert_eq!(running_label(false), "stopped");
}

#[test]
fn proxy_with_given_backends() {
    let r = SupervisorProxy::new("10.0.0.1:80", "10.0.0.2:81");
    assert_eq!(r.upstream_for("/a"), "10.0.0.1:80");
    assert_eq!(r.upstream_for("/_supervisor/a"), "10.0.0.2:81");
}

#[test]
fn server_command_of_slot_two() {
    let c = Slot::Two.server_command();
    assert_eq!(c.program, "bun");
    assert_eq!(c.args, vec!["/home/container/.app/instance/2/server/index.mjs".to_string()]);
    assert_eq!(
        c.env,
        vec![
            ("NITRO_PORT".to_string(), "19132".to_string()),
            ("NITRO_HOST".to_string(), "127.0.0.1".to_string())
        ]
    );
}

#[test]
fn proxy_publish_slot() {
    let mut r = SupervisorProxy::with_defaults();
    assert_eq!(r.publish(Slot::Two, 1), Ok(()));
    assert_eq!(r.upstream_for("/"), "127.0.0.1:19132");
    assert_eq!(r.publish(Slot::One, 0), Err(BackendError::Unresolvable));
    assert_eq!(r.upstream_for("/"), "127.0.0.1:19132");
    assert_eq!(r.publish(Slot::One, 2), Ok(()));
    assert_eq!(r.current_world_backend(), "127.0.0.1:19131");
}

#[test]
fn command_lines_with_unicode_space() {
    assert_eq!(handle_command("\u{3000}Queue\u{a0}x"), Some(Command::Queue));
    assert_eq!(handle_command("\u{2003}\u{85}"), None);
}
