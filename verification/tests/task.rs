use export_metrics::error::InvalidConfig;
use export_metrics::mode::DeliveryMode;
use export_metrics::option::{ExportMetricsOption, WriteInterval};
use export_metrics::schedule::{
    write_system_metric_by_handler, HandlerEvent, LoopAction, LoopState,
};
use export_metrics::delivery::network_request;
use export_metrics::task::{ExportMetricsTask, StartAction};

#[derive(Debug, PartialEq)]
struct Filter(&'static str);

#[derive(Debug, PartialEq)]
struct Handler(u32);

type Task = ExportMetricsTask<Filter, Handler>;

fn option(endpoint: &str, db: &str, secs: u64, headers: &[(&str, &str)]) -> ExportMetricsOption {
    ExportMetricsOption {
        enable: true,
        endpoint: endpoint.to_string(),
        db: db.to_string(),
        write_interval: WriteInterval::from_secs(secs),
        headers: headers.iter().map(|(name, value)| (name.to_string(), value.to_string())).collect(),
    }
}

fn fault(config: &ExportMetricsOption, local: Option<&str>) -> InvalidConfig {
    match Task::try_new(config, local, None) {
        Err(fault) => fault,
        Ok(_) => panic!("the configuration was accepted"),
    }
}

fn task(config: &ExportMetricsOption, local: Option<&str>) -> Task {
    match Task::try_new(config, local, None) {
        Ok(Some(task)) => task,
        Ok(None) => panic!("no task was built"),
        Err(fault) => panic!("the configuration was refused: {}", fault.message()),
    }
}

#[test]
fn disabled_config_yields_no_task() {
    let mut config = option("", "", 0, &[("bad name", "bad\nvalue")]);
    config.enable = false;
    assert!(matches!(Task::try_new(&config, None, None), Ok(None)));
    assert!(matches!(Task::try_new(&config, Some("127.0.0.1:4000"), Some(Filter("f"))), Ok(None)));
    assert!(matches!(Task::try_new(&ExportMetricsOption::default(), None, None), Ok(None)));
}

#[test]
fn disabled_task_starts_nothing() {
    let mut task = Task::default();
    assert!(!task.config().enable);
    assert!(task.headers().is_empty());
    assert!(matches!(task.start(), StartAction::Nothing));
    task.set_handler(Handler(1));
    assert!(matches!(task.start(), StartAction::Nothing));
}

#[test]
fn zero_interval_fails_construction() {
    assert_eq!(fault(&option("10.0.0.9:4000", "sys", 0, &[]), None), InvalidConfig::ZeroWriteInterval);
    assert_eq!(
        fault(&option("", "", 0, &[("bad name", "v")]), Some("127.0.0.1:4000")),
        InvalidConfig::ZeroWriteInterval
    );
}

#[test]
fn empty_db_fails_construction() {
    assert_eq!(fault(&option("10.0.0.9:4000", "", 30, &[]), None), InvalidConfig::EmptyDb);
    assert_eq!(fault(&option("", "", 30, &[("bad name", "v")]), None), InvalidConfig::EmptyDb);
}

#[test]
fn invalid_header_name_fails_construction() {
    let config = option("10.0.0.9:4000", "sys", 30, &[("x-ok", "1"), ("x\u{7}bell", "2")]);
    assert_eq!(fault(&config, None), InvalidConfig::HeaderName("x\u{7}bell".to_string()));
    assert_eq!(
        fault(&config, None).message(),
        "Export metrics: invalid HTTP header name: x\u{7}bell"
    );
}

#[test]
fn invalid_header_value_fails_construction() {
    let config = option("10.0.0.9:4000", "sys", 30, &[("x-ok", "a\r\nb")]);
    assert_eq!(fault(&config, Some("127.0.0.1:4000")), InvalidConfig::HeaderValue("a\r\nb".to_string()));
}

#[test]
fn header_fault_is_reported_before_missing_endpoint() {
    let config = option("", "sys", 30, &[("bad name", "v")]);
    assert_eq!(fault(&config, None), InvalidConfig::HeaderName("bad name".to_string()));
}

#[test]
fn missing_endpoint_without_local_address_fails_construction() {
    assert_eq!(fault(&option("", "sys", 30, &[]), None), InvalidConfig::MissingEndpoint);
}

#[test]
fn mode_follows_endpoint_and_local_address() {
    assert_eq!(task(&option("127.0.0.1:4000", "sys", 30, &[]), Some("127.0.0.1:4000")).mode(), DeliveryMode::Handler);
    assert_eq!(task(&option("", "sys", 30, &[]), Some("127.0.0.1:4000")).mode(), DeliveryMode::Handler);
    assert_eq!(task(&option("10.0.0.9:4000", "sys", 30, &[]), Some("127.0.0.1:4000")).mode(), DeliveryMode::Network);
    assert_eq!(task(&option("10.0.0.9:4000", "sys", 30, &[]), None).mode(), DeliveryMode::Network);
    assert!(task(&option("", "sys", 30, &[]), Some("127.0.0.1:4000")).send_by_handler());
    assert!(!task(&option("10.0.0.9:4000", "sys", 30, &[]), None).send_by_handler());
}

#[test]
fn task_keeps_config_filter_and_headers() {
    let config = option("10.0.0.9:4000", "sys", 30, &[("X-Tenant", "a")]);
    let built = match Task::try_new(&config, None, Some(Filter("only_http"))) {
        Ok(Some(task)) => task,
        _ => panic!("no task was built"),
    };
    assert_eq!(built.config(), &config);
    assert_eq!(built.headers().len(), 1);
    assert_eq!(built.headers().get("x-tenant").unwrap().as_bytes(), b"a");
    match built.start() {
        StartAction::Network { filter, .. } => assert_eq!(filter, Some(&Filter("only_http"))),
        _ => panic!("a network loop was expected"),
    }
}

#[test]
fn handler_scenario_writes_once_after_one_interval() {
    let config = option("", "metrics", 1, &[]);
    let mut built = task(&config, Some("127.0.0.1:4000"));
    assert_eq!(built.mode(), DeliveryMode::Handler);
    built.set_handler(Handler(7));
    let (db, handler, interval) = match built.start() {
        StartAction::Handler { db, handler, filter, interval } => {
            assert_eq!(filter, None);
            (db, handler, interval)
        }
        _ => panic!("a handler loop was expected"),
    };
    assert_eq!(db, "metrics");
    assert_eq!(handler, &Handler(7));
    assert_eq!(interval, WriteInterval::from_secs(1));

    // The timer fires at once and then after each interval: two ticks have
    // come when one interval has gone by.
    let mut writes = 0;
    let mut state = LoopState::start();
    for _tick in 0..2 {
        let (next, action) = write_system_metric_by_handler(state, HandlerEvent::Tick);
        state = next;
        if action == LoopAction::Export {
            writes += 1;
            let (next, action) = write_system_metric_by_handler(state, HandlerEvent::Written);
            state = next;
            assert_eq!(action, LoopAction::Wait);
        }
    }
    assert_eq!(writes, 1);
    assert_eq!(state, LoopState::Idle);
}

#[test]
fn network_scenario_posts_custom_and_protocol_headers() {
    let config = option("10.0.0.9:4000", "sys", 2, &[("X-Tenant", "a")]);
    let mut built = task(&config, Some("127.0.0.1:4000"));
    assert_eq!(built.mode(), DeliveryMode::Network);
    let (headers, endpoint, interval) = match built.start() {
        StartAction::Network { headers, endpoint, filter, interval } => {
            assert_eq!(filter, None);
            (headers, endpoint, interval)
        }
        _ => panic!("a network loop was expected"),
    };
    assert_eq!(endpoint, "http://10.0.0.9:4000/v1/prometheus/write?db=sys");
    assert_eq!(interval, WriteInterval::from_secs(2));
    assert_eq!(headers.len(), 1);

    let request = network_request(&endpoint, &headers, b"batch").unwrap();
    assert_eq!(request.url, "http://10.0.0.9:4000/v1/prometheus/write?db=sys");
    assert_eq!(request.headers.len(), 3);
    assert_eq!(request.headers.get("X-Tenant").unwrap().as_bytes(), b"a");
    assert_eq!(request.headers.get("X-Prometheus-Remote-Write-Version").unwrap().as_bytes(), b"0.1.0");
    assert_eq!(request.headers.get("Content-Type").unwrap().as_bytes(), b"application/x-protobuf");

    // A handler attached to a task in network mode changes nothing.
    built.set_handler(Handler(1));
    assert!(matches!(built.start(), StartAction::Network { .. }));
}

#[test]
fn handler_mode_without_handler_falls_back_to_the_network() {
    let built = task(&option("127.0.0.1:4000", "sys", 30, &[]), Some("127.0.0.1:4000"));
    assert_eq!(built.mode(), DeliveryMode::Handler);
    match built.start() {
        StartAction::Network { endpoint, headers, .. } => {
            assert_eq!(endpoint, "http://127.0.0.1:4000/v1/prometheus/write?db=sys");
            assert!(headers.is_empty());
        }
        _ => panic!("a network loop was expected"),
    }
}

#[test]
fn set_handler_replaces_an_earlier_handler() {
    let mut built = task(&option("", "sys", 30, &[]), Some("127.0.0.1:4000"));
    built.set_handler(Handler(1));
    built.set_handler(Handler(2));
    match built.start() {
        StartAction::Handler { handler, .. } => assert_eq!(handler, &Handler(2)),
        _ => panic!("a handler loop was expected"),
    }
}

#[test]
fn starting_twice_gives_the_same_plan() {
    let built = task(&option("10.0.0.9:4000", "sys", 5, &[("x-a", "1"), ("x-b", "2")]), None);
    let first = match built.start() {
        StartAction::Network { headers, endpoint, .. } => (headers, endpoint),
        _ => panic!("a network loop was expected"),
    };
    let second = match built.start() {
        StartAction::Network { headers, endpoint, .. } => (headers, endpoint),
        _ => panic!("a network loop was expected"),
    };
    assert_eq!(first, second);
    assert_eq!(&first.0, built.headers());
}

#[test]
fn main_items_are_found_at_the_crate_root() {
    let config = export_metrics::ExportMetricsOption::default();
    let built = export_metrics::ExportMetricsTask::<Filter, Handler>::try_new(&config, None, None);
    assert!(matches!(built, Ok(None)));
    let (state, action) = export_metrics::write_system_metric_by_network(
        LoopState::start(),
        export_metrics::schedule::NetworkEvent::Tick,
    );
    assert_eq!((state, action), (LoopState::Idle, LoopAction::Wait));
    let (state, action) = export_metrics::write_system_metric_by_handler(state, HandlerEvent::Tick);
    assert_eq!((state, action), (LoopState::Exporting, LoopAction::Export));
}
