use monitoring_agent::checks::{
    check_http_port, check_service, service_query, service_state, CommandOutput, ServiceQuery,
};
use monitoring_agent::metrics::Platform;
use std::cell::RefCell;

fn output(success: bool, stdout: &str) -> Option<CommandOutput> {
    Some(CommandOutput { success, stdout: stdout.to_string() })
}

#[test]
fn test_check_http_port() {
    // nothing listens on 65535: the connection is refused
    assert!(!check_http_port(65535, |host: &str, port: u16| !(host == "127.0.0.1" && port == 65535)));
}

#[test]
fn port_probe_tries_the_local_host_on_that_port() {
    let seen: RefCell<Vec<(String, u16)>> = RefCell::new(Vec::new());
    let up = check_http_port(8080, |host: &str, port: u16| {
        seen.borrow_mut().push((host.to_string(), port));
        true
    });
    assert!(up);
    assert_eq!(*seen.borrow(), vec![("127.0.0.1".to_string(), 8080)]);
}

#[test]
fn port_probe_is_down_when_the_connection_fails() {
    assert!(!check_http_port(80, |_: &str, _: u16| false));
    assert!(check_http_port(80, |_: &str, _: u16| true));
}

#[test]
fn service_query_on_unix_asks_systemctl() {
    let q: ServiceQuery = service_query(Platform::Unix, "sshd");
    assert_eq!(q.program, "systemctl");
    assert_eq!(q.args, vec!["is-active", "sshd"]);
}

#[test]
fn service_query_on_windows_asks_sc() {
    let q: ServiceQuery = service_query(Platform::Windows, "Spooler");
    assert_eq!(q.program, "sc");
    assert_eq!(q.args, vec!["query", "Spooler"]);
}

#[test]
fn service_on_unix_runs_when_the_tool_succeeds_and_says_active() {
    assert!(service_state(Platform::Unix, &output(true, "active\n")));
    assert!(service_state(Platform::Unix, &output(true, "active")));
    assert!(service_state(Platform::Unix, &output(true, "  active \r\n")));
}

#[test]
fn service_on_unix_is_down_otherwise() {
    assert!(!service_state(Platform::Unix, &output(false, "active\n")));
    assert!(!service_state(Platform::Unix, &output(true, "inactive\n")));
    assert!(!service_state(Platform::Unix, &output(true, "activating\n")));
    assert!(!service_state(Platform::Unix, &output(true, "active (running)\n")));
    assert!(!service_state(Platform::Unix, &output(true, "")));
    assert!(!service_state(Platform::Unix, &output(false, "failed\n")));
    assert!(!service_state(Platform::Unix, &output(true, "RUNNING")));
}

#[test]
fn service_on_windows_runs_when_the_tool_says_running_somewhere() {
    let text = "SERVICE_NAME: Spooler\r\n        STATE              : 4  RUNNING \r\n";
    assert!(service_state(Platform::Windows, &output(true, text)));
    assert!(service_state(Platform::Windows, &output(false, text)));
    assert!(service_state(Platform::Windows, &output(true, "RUNNING")));
}

#[test]
fn service_on_windows_is_down_otherwise() {
    assert!(!service_state(Platform::Windows, &output(true, "STATE : 1  STOPPED\r\n")));
    assert!(!service_state(Platform::Windows, &output(true, "")));
    assert!(!service_state(Platform::Windows, &output(true, "running")));
    assert!(!service_state(Platform::Windows, &output(true, "active")));
}

#[test]
fn service_is_down_when_the_query_cannot_be_run() {
    assert!(!service_state(Platform::Unix, &None));
    assert!(!service_state(Platform::Windows, &None));
    assert!(!check_service(Platform::Unix, "sshd", |_: &ServiceQuery| None));
    assert!(!check_service(Platform::Windows, "sshd", |_: &ServiceQuery| None));
}

#[test]
fn check_service_runs_the_query_once_and_reads_it() {
    let seen: RefCell<Vec<(String, Vec<String>)>> = RefCell::new(Vec::new());
    let up = check_service(Platform::Unix, "sshd", |q: &ServiceQuery| {
        seen.borrow_mut().push((q.program.clone(), q.args.clone()));
        output(true, "active\n")
    });
    assert!(up);
    assert_eq!(
        *seen.borrow(),
        vec![("systemctl".to_string(), vec!["is-active".to_string(), "sshd".to_string()])]
    );
    assert!(!check_service(Platform::Unix, "sshd", |_: &ServiceQuery| output(true, "inactive\n")));
    assert!(check_service(Platform::Windows, "w32time", |q: &ServiceQuery| {
        if q.program == "sc" && q.args == vec!["query", "w32time"] {
            output(true, "STATE : 4 RUNNING")
        } else {
            None
        }
    }));
}
