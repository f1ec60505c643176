use monitoring_agent::config::{Config, PortEntry};
use monitoring_agent::handlers::{
    check_response, cpu_handler, disk_handler, load_handler, memory_handler, metrics_handler,
    port_handler, report_response, root_handler, service_handler, Response, STATUS_DOWN,
    STATUS_NOT_FOUND, STATUS_OK,
};
use monitoring_agent::health::{CheckResult, HealthReport, Target};
use monitoring_agent::metrics::{get_metrics, DiskSample, Metrics, Platform, SystemSample};
use monitoring_agent::percent::Percent;
use monitoring_agent::report::{push_check_line, push_metrics, push_percent_line, render_report};
use std::cell::RefCell;

fn metrics() -> Metrics {
    get_metrics(
        Platform::Unix,
        &SystemSample {
            cpu: 1234,
            used_memory: 1,
            total_memory: 3,
            load_one: 5,
            load_five: 150,
            load_fifteen: 1000,
            cores: 4,
            disks: vec![
                DiskSample {
                    name: "/dev/sda1".to_string(),
                    mount_point: "/".to_string(),
                    total_space: 100,
                    available_space: 25,
                },
                DiskSample {
                    name: "tmpfs".to_string(),
                    mount_point: "/run".to_string(),
                    total_space: 100,
                    available_space: 100,
                },
                DiskSample {
                    name: "/dev/sdb".to_string(),
                    mount_point: "/data".to_string(),
                    total_space: 0,
                    available_space: 0,
                },
            ],
        },
    )
}

const METRICS_TEXT: &str = "cpu usage: 12.34%\n\
cpu usage 1min: 1.25%\n\
cpu_usage 5min: 37.50%\n\
cpu usage 15min: 250.00%\n\
memory usage: 33.33%\n\
disk /dev/sda1 - / usage: 75.00%\n\
disk /dev/sdb - /data usage: 0.00%\n";

fn settings() -> Config {
    Config::new(
        vec!["sshd".to_string()],
        vec![PortEntry { name: "web".to_string(), port: 80 }],
        None,
    )
    .unwrap()
}

fn lines(r: &Response) -> Vec<&str> {
    r.body.lines().collect()
}

#[test]
fn root_says_that_the_agent_runs() {
    let r = root_handler();
    assert_eq!(r.status, 200);
    assert_eq!(r.body, "monitoring agent is running\n");
}

#[test]
fn status_codes() {
    assert_eq!(STATUS_OK, 200);
    assert_eq!(STATUS_NOT_FOUND, 404);
    assert_eq!(STATUS_DOWN, 500);
}

#[test]
fn metrics_endpoint_is_down_when_service_and_port_are_down() {
    let r = metrics_handler(&settings(), metrics(), |_: &str| false, |_: u16| false);
    assert_eq!(r.status, 500);
    assert!(lines(&r).contains(&"service sshd: inactive"));
    assert!(lines(&r).contains(&"http port 80 (web): down"));
    assert_eq!(
        r.body,
        format!("{}service sshd: inactive\nhttp port 80 (web): down\n", METRICS_TEXT)
    );
}

#[test]
fn metrics_endpoint_is_ok_when_service_and_port_are_up() {
    let r = metrics_handler(&settings(), metrics(), |n: &str| n == "sshd", |p: u16| p == 80);
    assert_eq!(r.status, 200);
    assert!(lines(&r).contains(&"service sshd: active"));
    assert!(lines(&r).contains(&"http port 80 (web): up"));
    assert_eq!(r.body, format!("{}service sshd: active\nhttp port 80 (web): up\n", METRICS_TEXT));
}

#[test]
fn metrics_endpoint_is_down_when_only_one_target_is_down() {
    let r = metrics_handler(&settings(), metrics(), |_: &str| true, |_: u16| false);
    assert_eq!(r.status, 500);
    assert_eq!(r.body, format!("{}service sshd: active\nhttp port 80 (web): down\n", METRICS_TEXT));
    let r = metrics_handler(&settings(), metrics(), |_: &str| false, |_: u16| true);
    assert_eq!(r.status, 500);
    assert_eq!(r.body, format!("{}service sshd: inactive\nhttp port 80 (web): up\n", METRICS_TEXT));
}

#[test]
fn metrics_endpoint_without_targets_is_ok() {
    let empty = Config::new(vec![], vec![], None).unwrap();
    let r = metrics_handler(&empty, metrics(), |_: &str| false, |_: u16| false);
    assert_eq!(r.status, 200);
    assert_eq!(r.body, METRICS_TEXT);
}

#[test]
fn unknown_service_is_not_found_whatever_its_state() {
    let calls: RefCell<u32> = RefCell::new(0);
    for up in [true, false] {
        let r = service_handler(&settings(), "unknown", |_: &str| {
            *calls.borrow_mut() += 1;
            up
        });
        assert_eq!(r.status, 404);
        assert_eq!(r.body, "service unknown not in config\n");
    }
    assert_eq!(*calls.borrow(), 0);
}

#[test]
fn unknown_port_is_not_found_whatever_is_open() {
    let calls: RefCell<u32> = RefCell::new(0);
    for up in [true, false] {
        let r = port_handler(&settings(), "unknown", |_: u16| {
            *calls.borrow_mut() += 1;
            up
        });
        assert_eq!(r.status, 404);
        assert_eq!(r.body, "port name 'unknown' not in config\n");
    }
    assert_eq!(*calls.borrow(), 0);
}

#[test]
fn service_endpoint_tells_whether_the_service_runs() {
    let r = service_handler(&settings(), "sshd", |n: &str| n == "sshd");
    assert_eq!(r.status, 200);
    assert_eq!(r.body, "service sshd: active\n");
    let r = service_handler(&settings(), "sshd", |_: &str| false);
    assert_eq!(r.status, 500);
    assert_eq!(r.body, "service sshd: inactive\n");
}

#[test]
fn port_endpoint_tells_whether_the_port_is_open() {
    let r = port_handler(&settings(), "web", |p: u16| p == 80);
    assert_eq!(r.status, 200);
    assert_eq!(r.body, "http_port 80 (web): up\n");
    let r = port_handler(&settings(), "web", |_: u16| false);
    assert_eq!(r.status, 500);
    assert_eq!(r.body, "http_port 80 (web): down\n");
}

#[test]
fn cpu_endpoint_gives_the_bare_value() {
    let r = cpu_handler(&metrics());
    assert_eq!(r.status, 200);
    assert_eq!(r.body, "12.34\n");
}

#[test]
fn memory_endpoint_gives_the_bare_value() {
    let r = memory_handler(&metrics());
    assert_eq!(r.status, 200);
    assert_eq!(r.body, "33.33\n");
}

#[test]
fn load_endpoint_gives_the_fifteen_minute_load() {
    let r = load_handler(&metrics());
    assert_eq!(r.status, 200);
    assert_eq!(r.body, "250.00\n");
}

#[test]
fn disk_endpoint_lists_the_disks() {
    let r = disk_handler(&metrics());
    assert_eq!(r.status, 200);
    assert_eq!(r.body, "/dev/sda1 - /: 75.00%\n/dev/sdb - /data: 0.00%\n");
}

#[test]
fn disk_endpoint_without_disks_is_empty() {
    let mut m = metrics();
    m.disk_stats.clear();
    let r = disk_handler(&m);
    assert_eq!(r.status, 200);
    assert_eq!(r.body, "");
}

#[test]
fn report_text_is_the_metrics_then_the_checks() {
    let checks = vec![
        CheckResult { target: Target::Service("sshd".to_string()), up: true },
        CheckResult { target: Target::Port("web".to_string(), 65535), up: false },
        CheckResult { target: Target::Service("nginx".to_string()), up: false },
    ];
    let report = HealthReport::new(metrics(), checks);
    let expected = format!(
        "{}service sshd: active\nhttp port 65535 (web): down\nservice nginx: inactive\n",
        METRICS_TEXT
    );
    assert_eq!(render_report(&report), expected);
    let r = report_response(&report);
    assert_eq!(r.status, 500);
    assert_eq!(r.body, expected);
}

#[test]
fn check_response_of_a_single_check() {
    let r = check_response(&CheckResult { target: Target::Port("db".to_string(), 5432), up: true });
    assert_eq!(r.status, 200);
    assert_eq!(r.body, "http_port 5432 (db): up\n");
    let r = check_response(&CheckResult { target: Target::Service("db".to_string()), up: false });
    assert_eq!(r.status, 500);
    assert_eq!(r.body, "service db: inactive\n");
}

#[test]
fn lines_are_appended_to_what_is_there() {
    let mut out = String::from("# head\n");
    push_percent_line(&mut out, "swap", Percent::from_hundredths(7));
    push_check_line(&mut out, &CheckResult { target: Target::Port("web".to_string(), 0), up: true });
    assert_eq!(out, "# head\nswap: 0.07%\nhttp port 0 (web): up\n");
    let mut out = String::from(">");
    push_metrics(&mut out, &metrics());
    assert_eq!(out, format!(">{}", METRICS_TEXT));
}
