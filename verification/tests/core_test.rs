use eva_common::common_payloads::{NodeData, ValueOrList};
use eva_common::events::{Force, NodeInfo, NodeStatus, OnModifiedError};
use eva_common::time::Time;
use eva_common::tools::{format_path, SocketPath};
use eva_common::{registry, time, tools, Error, ErrorKind, ItemKind, IEID, OID};
use std::time::Duration;

#[test]
fn test_oid() {
    let oid: OID = "sensor:env/room1/temp1".parse().unwrap();
    assert_eq!(oid.id(), "temp1");
    assert_eq!(oid.full_id(), "env/room1/temp1");
    assert_eq!(oid.group().unwrap(), "env/room1");
    assert_eq!(oid.kind(), ItemKind::Sensor);
    assert!("sensorx:env/temp1".parse::<OID>().is_err());
    assert!("sensorxenv/temp1".parse::<OID>().is_err());
    assert!("sensorxenv/:temp1".parse::<OID>().is_err());
    assert!("sensor|temp1".parse::<OID>().is_err());
    assert!("sensor:".parse::<OID>().is_err());
    let oid = OID::new0(ItemKind::Sensor, "tests/test1").unwrap();
    assert_eq!(oid.id(), "test1");
    assert_eq!(oid.group().unwrap(), "tests");
    assert_eq!(oid.kind(), ItemKind::Sensor);
    let oid = OID::new0(ItemKind::Sensor, "tests/room1/test1").unwrap();
    assert_eq!(oid.id(), "test1");
    assert_eq!(oid.group().unwrap(), "tests/room1");
    assert_eq!(oid.kind(), ItemKind::Sensor);
}

#[test]
fn test_ieid() {
    assert!(IEID::new(1, 1) == IEID::new(1, 1));
    assert!(IEID::new(2, 1) > IEID::new(1, 9));
    assert!(IEID::new(2, 2) < IEID::new(3, 1));
    assert!(IEID::new(2, 4) > IEID::new(2, 2));
    assert!(IEID::new(2, 4) < IEID::new(2, 5));
}

#[test]
fn test_err() {
    assert_eq!(Error::timeout().display_string(), "Timed out");
    assert_eq!(
        Error::not_found("test").display_string(),
        "Resource not found: test"
    );
}

#[test]
fn test_time() {
    let timestamp_nanos: u64 = 1_632_093_707_123_456_789;
    let time = Time::from_timestamp_ns(timestamp_nanos);
    assert_eq!(time.timestamp_ns(), timestamp_nanos);
    assert_eq!(time.timestamp_ms(), timestamp_nanos / 1_000_000);
    assert_eq!(time.timestamp_us(), timestamp_nanos / 1_000);
    let timestamp_micros: u64 = 1_632_093_707_123_456;
    let time = Time::from_timestamp_us(timestamp_micros);
    assert_eq!(time.timestamp_ms(), timestamp_micros / 1_000);
    assert_eq!(time.timestamp_us(), timestamp_micros);
    assert_eq!(time.timestamp_ns(), timestamp_micros * 1_000);
    let timestamp_millis: u64 = 1_632_093_707_123;
    let time = Time::from_timestamp_ms(timestamp_millis);
    assert_eq!(time.timestamp_ms(), timestamp_millis);
    assert_eq!(time.timestamp_us(), timestamp_millis * 1_000);
    assert_eq!(time.timestamp_ns(), timestamp_millis * 1_000_000);
}

#[test]
fn test_time_clock() {
    let t = Time::now();
    assert!(t.nsec_part() < 1_000_000_000);
    let m = Time::now_monotonic();
    assert!(m.nsec_part() < 1_000_000_000);
    // the saturating nanosecond helpers agree with the parts
    let ns = time::ns_of_parts(2, 5);
    assert_eq!(ns, 2_000_000_005);
    assert_eq!(time::ns_of_parts(u64::MAX, 1), u64::MAX);
    let _ = time::now();
    let _ = time::now_ns();
    let _ = time::monotonic();
    let _ = time::monotonic_ns();
}

#[test]
fn test_op_deadlines() {
    let op = eva_common::op::Op::new(Duration::from_secs(1000));
    assert!(!op.is_timed_out());
    assert!(op.timeout().is_ok());
    assert!(op.is_enough(Duration::from_millis(1)));
    assert!(op.enough(Duration::from_millis(1)).is_ok());
    assert!(op.remaining(Duration::from_secs(1000)).is_ok());
    let op = eva_common::op::Op::new(Duration::from_nanos(0));
    assert!(op.enough(Duration::from_secs(5)).is_err());
}

#[test]
fn test_error_codes() {
    assert_eq!(Error::timeout().code(), -32008);
    assert_eq!(Error::not_found("x").code(), -32001);
    assert_eq!(Error::access("x").code(), -32002);
    assert_eq!(Error::invalid_data("x").code(), -32009);
    assert_eq!(Error::unsupported("x").code(), -32006);
    assert_eq!(ErrorKind::from(-32008), ErrorKind::Timeout);
    assert_eq!(ErrorKind::from(-32001), ErrorKind::ResourceNotFound);
    assert_eq!(ErrorKind::from(12345), ErrorKind::Other);
    assert_eq!(Error::new0(ErrorKind::BusTimeout).code(), -32120);
    assert!(Error::newc(ErrorKind::Aborted, None).message().is_none());
    let e = Error::new(ErrorKind::CoreError, "boom");
    assert_eq!(e.message().unwrap(), "boom");
    assert_eq!(e.display_string(), "Core error: boom");
    assert_eq!(Error::core_error("x").kind(), ErrorKind::CoreError);
    assert_eq!(Error::e(ErrorKind::NotReady, "y").kind(), ErrorKind::NotReady);
    assert_eq!(Error::aborted().kind(), ErrorKind::Aborted);
    assert_eq!(Error::busy("b").kind(), ErrorKind::ResourceBusy);
    assert_eq!(Error::io("i").kind(), ErrorKind::IOError);
    assert_eq!(Error::registry("r").kind(), ErrorKind::RegistryError);
    assert_eq!(Error::duplicate("d").kind(), ErrorKind::ResourceAlreadyExists);
    assert_eq!(Error::failed("f").kind(), ErrorKind::FunctionFailed);
    assert_eq!(Error::not_ready("n").kind(), ErrorKind::NotReady);
    assert_eq!(Error::invalid_params("p").kind(), ErrorKind::InvalidParameter);
    assert_eq!(Error::not_implemented("m").kind(), ErrorKind::MethodNotImplemented);
    assert_eq!(
        Error::access_more_data_required("a").kind(),
        ErrorKind::AccessDeniedMoreDataRequired
    );
}

#[test]
fn test_oid_ops() {
    let oid = OID::new(ItemKind::Unit, "grp/sub", "dev1").unwrap();
    assert_eq!(oid.as_str(), "unit:grp/sub/dev1");
    assert_eq!(oid.as_path(), "unit/grp/sub/dev1");
    assert_eq!(oid.group().unwrap(), "grp/sub");
    assert!(OID::new(ItemKind::Unit, "+", "dev1").is_err());
    assert!(OID::new(ItemKind::Unit, "grp", "").is_err());
    assert!(OID::new(ItemKind::Unit, "grp", "a/b").is_err());
    let oid = OID::from_path("lvar/a/b").unwrap();
    assert_eq!(oid.as_str(), "lvar:a/b");
    let oid = OID::from_str_type(ItemKind::Lmacro, "m1").unwrap();
    assert_eq!(oid.as_str(), "lmacro:m1");
    let oid = OID::from_str_type(ItemKind::Lmacro, "lmacro:m2").unwrap();
    assert_eq!(oid.as_str(), "lmacro:m2");
    assert!(OID::from_str_type(ItemKind::Lmacro, "unit:m2").is_err());
    assert!(oid.group().is_none());
    assert_eq!(oid.id(), "m2");
    assert_eq!(oid.full_id(), "m2");
    let copy = oid.clone();
    assert_eq!(copy.as_str(), "lmacro:m2");
    assert_eq!(ItemKind::Lvar.as_str(), "lvar");
    assert_eq!("U".parse::<ItemKind>().unwrap(), ItemKind::Unit);
    assert_eq!("S".parse::<ItemKind>().unwrap(), ItemKind::Sensor);
    assert_eq!("LV".parse::<ItemKind>().unwrap(), ItemKind::Lvar);
    assert_eq!("K".parse::<ItemKind>().unwrap(), ItemKind::Lmacro);
    assert!("k".parse::<ItemKind>().is_err());
}

#[test]
fn test_ieid_helpers() {
    let mut e = IEID::new(3, 7);
    assert_eq!(e.boot_id(), 3);
    assert!(!e.is_phantom());
    assert!(e.other_is_newer(&IEID::new(3, 8)));
    assert!(!e.other_is_newer(&IEID::new(3, 7)));
    assert!(e.other_is_less_or_equal(&IEID::new(3, 7)));
    assert!(e.other_is_less_or_equal(&IEID::new(2, 100)));
    assert!(!e.other_is_less_or_equal(&IEID::new(4, 0)));
    e.mark_phantom();
    assert!(e.is_phantom());
    assert_eq!(e.boot_id(), 0);
}

#[test]
fn test_registry_keys() {
    assert_eq!(registry::format_top_key("x"), "eva/x");
    assert_eq!(registry::format_key("state", "a/b"), "eva/state/a/b");
    assert_eq!(registry::format_config_key("svc1"), "eva/config/svc1");
    assert_eq!(registry::format_data_key("d"), "eva/data/d");
    assert_eq!(registry::format_svc_data_key("s"), "eva/svc_data/s");
    assert_eq!(registry::format_svc_data_subkey("s"), "svc_data/s");
}

#[test]
fn test_tools() {
    assert_eq!(format_path("/opt/base", Some("rel/p"), None), "/opt/base/rel/p");
    assert_eq!(format_path("/opt/base", Some("/abs/p"), None), "/abs/p");
    assert_eq!(format_path("/opt/base", None, Some("dflt")), "/opt/base/dflt");
    assert!(tools::default_true());
    assert!(tools::is_true(&true));
    assert!(!tools::is_true(&false));
    let a = tools::atomic_true();
    assert!(a.load(std::sync::atomic::Ordering::SeqCst));
    let a = tools::arc_atomic_true();
    assert!(a.load(std::sync::atomic::Ordering::SeqCst));
    match SocketPath::parse("tcp://127.0.0.1:7777") {
        SocketPath::Tcp(t) => assert_eq!(t, "127.0.0.1:7777"),
        _ => panic!("expected tcp"),
    }
    match SocketPath::parse("udp://h:1") {
        SocketPath::Udp(t) => assert_eq!(t, "h:1"),
        _ => panic!("expected udp"),
    }
    match "/tmp/sock".parse::<SocketPath>().unwrap() {
        SocketPath::Unix(t) => assert_eq!(t, "/tmp/sock"),
        _ => panic!("expected unix"),
    }
}

#[test]
fn test_events() {
    assert_eq!("online".parse::<NodeStatus>().unwrap(), NodeStatus::Online);
    assert_eq!("offline".parse::<NodeStatus>().unwrap(), NodeStatus::Offline);
    assert_eq!("removed".parse::<NodeStatus>().unwrap(), NodeStatus::Removed);
    assert!("gone".parse::<NodeStatus>().is_err());
    assert_eq!(NodeStatus::Online.as_str(), "online");
    let f = Force::default();
    assert!(f.is_none());
    assert!(!f.is_any());
    assert!(Force::Update.is_weak());
    assert!(Force::Full.is_full());
    assert!(Force::Full.is_any());
    assert_eq!(OnModifiedError::default(), OnModifiedError::Process);
}

#[test]
fn test_node_data() {
    let info = NodeInfo { build: 42, version: "4.0.1".to_owned() };
    let mut nd = NodeData::new(Some("svc1"), true, None, Some(Duration::from_secs(5)));
    assert_eq!(nd.svc().unwrap(), "svc1");
    assert!(nd.online());
    assert!(nd.info().is_none());
    assert_eq!(nd.timeout().unwrap(), Duration::from_secs(5));
    nd.set_online(false);
    assert!(!nd.online());
    let beacon = nd.online_beacon();
    beacon.store(true, std::sync::atomic::Ordering::SeqCst);
    assert!(nd.online());
    nd.update_info(info);
    assert_eq!(nd.info().unwrap().build, 42);
    nd.update_timeout(None);
    assert!(nd.timeout().is_none());
}

#[test]
fn test_value_or_list() {
    let v: ValueOrList<String> = ValueOrList::Single("a".to_owned());
    assert!(!v.is_empty());
    assert_eq!(v.len(), 1);
    let v: ValueOrList<String> = ValueOrList::Multiple(vec!["a".to_owned(), "b".to_owned()]);
    assert!(!v.is_empty());
    assert_eq!(v.len(), 2);
    let v: ValueOrList<String> = ValueOrList::default();
    assert!(v.is_empty());
    assert_eq!(v.len(), 0);
}

#[test]
fn test_default_sleep_step() {
    assert_eq!(eva_common::get_default_sleep_step(), Duration::from_millis(100));
}

#[test]
fn test_wildcard_token_helpers() {
    assert!(eva_common::is_str_wildcard("#"));
    assert!(eva_common::is_str_wildcard("*"));
    assert!(!eva_common::is_str_wildcard("x"));
    assert!(!eva_common::is_str_wildcard("##"));
    assert!(eva_common::is_str_any("+"));
    assert!(eva_common::is_str_any("?"));
    assert!(!eva_common::is_str_any("+?"));
}
