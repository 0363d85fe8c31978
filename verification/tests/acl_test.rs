use eva_common::acl::{Acl, AclItemsPvt, OIDMask, OIDMaskList, Op, PathMask, PathMaskList};
use eva_common::{ItemKind, OID};

#[test]
fn test_path_mask() {
    let s = "#";
    let mask: PathMask = s.parse().unwrap();
    assert_eq!(s, mask.to_string());
    assert!(mask.chunks().is_none());
    let s = "";
    assert_eq!(s.parse::<PathMask>().is_err(), true);
    let s = "data/#";
    let mask: PathMask = s.parse().unwrap();
    assert_eq!(s, mask.to_string());
    assert_eq!(mask.chunks().unwrap(), ["data", "#"]);
    let s = "data/tests/t1";
    let mask: PathMask = s.parse().unwrap();
    assert_eq!(s, mask.to_string());
    assert_eq!(mask.chunks().unwrap(), ["data", "tests", "t1"]);
    let s = "data/tests/*";
    let mask: PathMask = s.parse().unwrap();
    assert_eq!(mask.to_string(), "data/tests/#");
    assert_eq!(mask.chunks().unwrap(), ["data", "tests", "#"]);
    let s = "data/*/t1";
    let mask: PathMask = s.parse().unwrap();
    assert_ne!(s, mask.to_string());
    assert_eq!(mask.chunks().unwrap(), ["data", "#"]);
}

#[test]
fn test_oid_mask() {
    let s = "#";
    let mask: OIDMask = s.parse().unwrap();
    assert_eq!(s, mask.to_string());
    assert!(mask.chunks().is_none());
    assert_eq!(mask.as_path(), "#");
    let s = "";
    assert_eq!(s.parse::<OIDMask>().is_err(), true);
    let s = "sensor:";
    assert_eq!(s.parse::<OIDMask>().is_err(), true);
    let s = "sensor:data/#";
    let mask: OIDMask = s.parse().unwrap();
    assert_eq!(mask.as_path(), "sensor/data/#");
    assert_eq!(s, mask.to_string());
    assert_eq!(mask.kind().unwrap(), ItemKind::Sensor);
    assert_eq!(mask.chunks().unwrap(), ["data", "#"]);
    let s = "#:data/#";
    assert_eq!(s.parse::<OIDMask>().is_err(), true);
    let s = "+:data/tests/t1";
    let mask: OIDMask = s.parse().unwrap();
    assert_eq!(mask.as_path(), "+/data/tests/t1");
    assert_eq!(s, mask.to_string());
    assert_eq!(mask.chunks().unwrap(), ["data", "tests", "t1"]);
    assert!(mask.kind().is_none());
    let s = "unit:data/tests/*";
    let mask: OIDMask = s.parse().unwrap();
    assert_eq!(mask.to_string(), "unit:data/tests/#");
    assert_eq!(mask.chunks().unwrap(), ["data", "tests", "#"]);
    assert_eq!(mask.kind().unwrap(), ItemKind::Unit);
    let s = "data/*/t1";
    let mask: PathMask = s.parse().unwrap();
    assert_ne!(s, mask.to_string());
    assert_eq!(mask.chunks().unwrap(), ["data", "#"]);
}

#[test]
fn test_path_mask_list() {
    let p = PathMaskList::from_str_list(&["test/tests", "+/xxx", "zzz/?/222", "abc", "a/b/#/c"]);
    assert_eq!(p.matches("test"), false);
    assert_eq!(p.matches("test/tests"), true);
    assert_eq!(p.matches("test/tests2"), false);
    assert_eq!(p.matches("aaa/xxx"), true);
    assert_eq!(p.matches("aaa/xxx/123"), false);
    assert_eq!(p.matches("zzz/xxx/222"), true);
    assert_eq!(p.matches("zzz/xxx/222/555"), false);
    assert_eq!(p.matches("zzz/xxx/223"), false);
    assert_eq!(p.matches("abc"), true);
    assert_eq!(p.matches("abd"), false);
    assert_eq!(p.matches("abc/xxx"), true);
    assert_eq!(p.matches("abc/zzz"), false);
    assert_eq!(p.matches("a/b/zzz"), true);
    assert_eq!(p.matches("a/b/zzz/xxx"), true);
    let p = PathMaskList::from_str_list(&["*"]);
    assert_eq!(p.matches("test"), true);
    assert_eq!(p.matches("test/tests"), true);
    assert_eq!(p.matches("test/tests2"), true);
    assert_eq!(p.matches("aaa/xxx"), true);
    assert_eq!(p.matches("aaa/xxx/123"), true);
    assert_eq!(p.matches("zzz/xxx/222"), true);
    assert_eq!(p.matches("zzz/xxx/222/555"), true);
    assert_eq!(p.matches("zzz/xxx/223"), true);
    assert_eq!(p.matches("abc"), true);
    assert_eq!(p.matches("abd"), true);
    assert_eq!(p.matches("abc/xxx"), true);
    assert_eq!(p.matches("abc/zzz"), true);
    assert_eq!(p.matches("a/b/zzz"), true);
    assert_eq!(p.matches("a/b/zzz/xxx"), true);
}

#[test]
fn test_oid_mask_list() {
    let p = OIDMaskList::from_str_list(&[
        "unit:test/tests",
        "sensor:+/xxx",
        "+:zzz/?/222",
        "lvar:abc",
        "+:a/b/#/c",
    ])
    .unwrap();
    assert_eq!(p.matches(&"unit:test".parse().unwrap()), false);
    assert_eq!(p.matches(&"unit:test/tests".parse().unwrap()), true);
    assert_eq!(p.matches(&"sensor:test/tests".parse().unwrap()), false);
    assert_eq!(p.matches(&"unit:test/tests2".parse().unwrap()), false);
    assert_eq!(p.matches(&"sensor:aaa/xxx".parse().unwrap()), true);
    assert_eq!(p.matches(&"lvar:aaa/xxx".parse().unwrap()), false);
    assert_eq!(p.matches(&"unit:zzz/xxx/222".parse().unwrap()), true);
    assert_eq!(p.matches(&"sensor:zzz/xxx/222".parse().unwrap()), true);
    assert_eq!(p.matches(&"sensor:zzz/xxx/222/555".parse().unwrap()), false);
    assert_eq!(p.matches(&"unit:zzz/xxx/223".parse().unwrap()), false);
    assert_eq!(p.matches(&"lvar:abc".parse().unwrap()), true);
    assert_eq!(p.matches(&"unit:abc".parse().unwrap()), false);
    assert_eq!(p.matches(&"lvar:abd".parse().unwrap()), false);
    assert_eq!(p.matches(&"lvar:abc/xxx".parse().unwrap()), false);
    assert_eq!(p.matches(&"sensor:abc/xxx".parse().unwrap()), true);
    assert_eq!(p.matches(&"sensor:abc/zzz".parse().unwrap()), false);
    assert_eq!(p.matches(&"unit:a/b/zzz".parse().unwrap()), true);
    assert_eq!(p.matches(&"unit:a/b/zzz/xxx".parse().unwrap()), true);
    assert_eq!(p.matches(&"unit:a/c/zzz/xxx".parse().unwrap()), false);
    let p = OIDMaskList::from_str_list(&["*"]).unwrap();
    assert_eq!(p.matches(&"unit:test".parse().unwrap()), true);
    assert_eq!(p.matches(&"unit:test/tests".parse().unwrap()), true);
    assert_eq!(p.matches(&"sensor:test/tests".parse().unwrap()), true);
    assert_eq!(p.matches(&"unit:test/tests2".parse().unwrap()), true);
    assert_eq!(p.matches(&"sensor:aaa/xxx".parse().unwrap()), true);
    assert_eq!(p.matches(&"lvar:aaa/xxx".parse().unwrap()), true);
    assert_eq!(p.matches(&"unit:zzz/xxx/222".parse().unwrap()), true);
    assert_eq!(p.matches(&"sensor:zzz/xxx/222".parse().unwrap()), true);
    assert_eq!(p.matches(&"sensor:zzz/xxx/222/555".parse().unwrap()), true);
    assert_eq!(p.matches(&"unit:zzz/xxx/223".parse().unwrap()), true);
    assert_eq!(p.matches(&"lvar:abc".parse().unwrap()), true);
    assert_eq!(p.matches(&"unit:abc".parse().unwrap()), true);
    assert_eq!(p.matches(&"lvar:abd".parse().unwrap()), true);
    assert_eq!(p.matches(&"lvar:abc/xxx".parse().unwrap()), true);
    assert_eq!(p.matches(&"sensor:abc/xxx".parse().unwrap()), true);
    assert_eq!(p.matches(&"sensor:abc/zzz".parse().unwrap()), true);
    assert_eq!(p.matches(&"unit:a/b/zzz".parse().unwrap()), true);
    assert_eq!(p.matches(&"unit:a/b/zzz/xxx".parse().unwrap()), true);
    assert_eq!(p.matches(&"unit:a/c/zzz/xxx".parse().unwrap()), true);

    let p = OIDMaskList::from_str_list(&["sensor:content/#"]).unwrap();
    assert_eq!(p.matches(&"sensor:content/data".parse().unwrap()), true);
    let p = OIDMaskList::from_str_list(&["sensor:+"]).unwrap();
    assert_ne!(p.matches(&"sensor:content/data".parse().unwrap()), true);
}

#[test]
fn test_oid_wildcard_mask() {
    let mask: OIDMask = "sensor:tests/#".parse().unwrap();
    let oid_mask: OID = mask.to_wildcard_oid().unwrap();
    assert!(oid_mask.is_wildcard());
    assert_eq!(oid_mask.to_wildcard_str("%"), "sensor:tests/%");
    let mask: OIDMask = "sensor:#".parse().unwrap();
    let oid_mask: OID = mask.to_wildcard_oid().unwrap();
    assert!(oid_mask.is_wildcard());
    assert_eq!(oid_mask.to_wildcard_str("%"), "sensor:%");
    let mask: OIDMask = "sensor:+/#".parse().unwrap();
    assert!(mask.to_wildcard_oid().is_err());
}

fn empty_acl(id: &str, admin: bool, from: Vec<String>) -> Acl {
    Acl::new(
        id,
        admin,
        AclItemsPvt::empty(),
        AclItemsPvt::empty(),
        AclItemsPvt::empty(),
        AclItemsPvt::empty(),
        Vec::new(),
        None,
        from,
    )
}

#[test]
fn test_rpvt_acl() {
    let p_allow = PathMaskList::from_str_list(&["node1/res", "node2/res/#"]);
    let p_deny = PathMaskList::from_str_list(&["node2/res/secret"]);
    let acl = Acl::new(
        "test",
        false,
        AclItemsPvt::new(OIDMaskList::empty(), PathMaskList::empty(), p_allow),
        AclItemsPvt::empty(),
        AclItemsPvt::new(OIDMaskList::empty(), PathMaskList::empty(), p_deny),
        AclItemsPvt::empty(),
        Vec::new(),
        None,
        vec!["test".to_owned()],
    );
    for pfx in &["", "http://", "https://"] {
        assert_eq!(acl.check_rpvt_read(&format!("node1/{pfx}res")), true);
        assert_eq!(acl.check_rpvt_read(&format!("node2/{pfx}res")), false);
        assert_eq!(acl.check_rpvt_read(&format!("node2/{pfx}res/res1")), true);
        assert_eq!(acl.check_rpvt_read(&format!("node2/{pfx}res/secret")), false);
        assert_eq!(acl.check_rpvt_read(&format!("node3/{pfx}res")), false);
    }
    assert!(acl.contains_acl("test"));
    assert!(!acl.contains_acl("other"));
    assert!(acl.meta().is_none());
    assert_eq!(acl.id(), "test");
    assert_eq!(acl.from().len(), 1);
}

#[test]
fn test_acl_meta() {
    let meta = serde_json::Value::from(123u64);
    let acl = Acl::new(
        "m",
        false,
        AclItemsPvt::empty(),
        AclItemsPvt::empty(),
        AclItemsPvt::empty(),
        AclItemsPvt::empty(),
        Vec::new(),
        Some(meta),
        Vec::new(),
    );
    assert!(acl.meta().is_some());
    assert_eq!(acl.meta().unwrap().as_u64().unwrap(), 123);
}

#[test]
fn test_admin_overrides_all() {
    let acl = empty_acl("root", true, Vec::new());
    let oid: OID = "sensor:env/temp1".parse().unwrap();
    assert!(acl.check_admin());
    assert!(acl.check_op(Op::Log));
    assert!(acl.check_op(Op::Moderator));
    assert!(acl.check_op(Op::Supervisor));
    assert!(acl.check_item_read(&oid));
    assert!(acl.check_item_write(&oid));
    assert!(acl.check_pvt_read("any/path"));
    assert!(acl.check_pvt_write("any/path"));
    assert!(acl.check_rpvt_read("node/any"));
    assert!(acl.require_admin().is_ok());
    assert!(acl.require_item_write(&oid).is_ok());
    let (allow, deny) = acl.get_items_allow_deny_reading();
    assert_eq!(allow, ["#"]);
    assert!(deny.is_empty());
}

#[test]
fn test_deny_overrides_allow() {
    let read_items = OIDMaskList::from_str_list(&["sensor:#"]).unwrap();
    let write_items = OIDMaskList::from_str_list(&["sensor:#"]).unwrap();
    let deny_read_items = OIDMaskList::from_str_list(&["sensor:secret/#"]).unwrap();
    let acl = Acl::new(
        "t",
        false,
        AclItemsPvt::new(read_items, PathMaskList::empty(), PathMaskList::empty()),
        AclItemsPvt::new(write_items, PathMaskList::empty(), PathMaskList::empty()),
        AclItemsPvt::new(deny_read_items, PathMaskList::empty(), PathMaskList::empty()),
        AclItemsPvt::empty(),
        Vec::new(),
        None,
        Vec::new(),
    );
    let open_oid: OID = "sensor:env/temp1".parse().unwrap();
    let secret_oid: OID = "sensor:secret/k1".parse().unwrap();
    assert!(acl.check_item_read(&open_oid));
    assert!(acl.check_item_write(&open_oid));
    assert!(!acl.check_item_read(&secret_oid));
    // deny-read blocks writing too, even though deny_write is empty
    assert!(!acl.check_item_write(&secret_oid));
    assert!(acl.require_item_read(&secret_oid).is_err());
    let e = acl.require_item_write(&secret_oid).unwrap_err();
    assert_eq!(e.kind(), eva_common::ErrorKind::AccessDenied);
    assert_eq!(
        e.message().unwrap(),
        "write access required for: sensor:secret/k1"
    );
}

#[test]
fn test_check_op_list() {
    let acl = Acl::new(
        "ops",
        false,
        AclItemsPvt::empty(),
        AclItemsPvt::empty(),
        AclItemsPvt::empty(),
        AclItemsPvt::empty(),
        vec![Op::Log, Op::Supervisor],
        None,
        Vec::new(),
    );
    assert!(acl.check_op(Op::Log));
    assert!(!acl.check_op(Op::Moderator));
    assert!(acl.check_op(Op::Supervisor));
    assert!(acl.require_op(Op::Log).is_ok());
    assert!(acl.require_op(Op::Moderator).is_err());
}

#[test]
fn test_pvt_checks() {
    let read_pvt = PathMaskList::from_str_list(&["docs/#"]);
    let write_pvt = PathMaskList::from_str_list(&["docs/draft/#"]);
    let deny_read_pvt = PathMaskList::from_str_list(&["docs/hidden"]);
    let acl = Acl::new(
        "p",
        false,
        AclItemsPvt::new(OIDMaskList::empty(), read_pvt, PathMaskList::empty()),
        AclItemsPvt::new(OIDMaskList::empty(), write_pvt, PathMaskList::empty()),
        AclItemsPvt::new(OIDMaskList::empty(), deny_read_pvt, PathMaskList::empty()),
        AclItemsPvt::empty(),
        Vec::new(),
        None,
        Vec::new(),
    );
    assert!(acl.check_pvt_read("docs/a"));
    assert!(!acl.check_pvt_read("docs/hidden"));
    assert!(!acl.check_pvt_read("other/a"));
    assert!(acl.check_pvt_write("docs/draft/a"));
    // deny-read blocks private-path writing as well
    assert!(!acl.check_pvt_write("docs/hidden"));
    assert!(acl.require_pvt_read("docs/a").is_ok());
    assert!(acl.require_pvt_write("other/x").is_err());
}

#[test]
fn test_mask_list_idempotent_insert() {
    let once = PathMaskList::from_str_list(&["a/b", "c/#"]);
    let twice = PathMaskList::from_str_list(&["a/b", "c/#", "a/b"]);
    assert_eq!(once.as_string_vec(), twice.as_string_vec());
    assert_eq!(once.as_string_vec().len(), 2);
    for subject in &["a/b", "a/b/c", "c/x/y", "c", "a"] {
        assert_eq!(once.matches(subject), twice.matches(subject));
    }
    let once = OIDMaskList::from_str_list(&["unit:a/#", "sensor:+/t"]).unwrap();
    let twice = OIDMaskList::from_str_list(&["unit:a/#", "sensor:+/t", "unit:a/#"]).unwrap();
    assert_eq!(once.as_string_vec(), twice.as_string_vec());
    assert_eq!(twice.as_string_vec().len(), 2);
}

#[test]
fn test_mask_list_canonical_dedup() {
    // `a/*` and `a/#` parse to the same mask, so only one is stored
    let p = PathMaskList::from_str_list(&["a/*", "a/#"]);
    assert_eq!(p.as_string_vec(), ["a/#"]);
    // empty entries are skipped
    let p = PathMaskList::from_str_list(&["", "x"]);
    assert_eq!(p.as_string_vec(), ["x"]);
    assert!(!p.is_empty());
    let p = PathMaskList::from_str_list(&[]);
    assert!(p.is_empty());
}

#[test]
fn test_path_mask_literal_exact() {
    let mask: PathMask = "a/b/c".parse().unwrap();
    assert!(mask.matches("a/b/c"));
    assert!(!mask.matches("a/b"));
    assert!(!mask.matches("a/b/c/d"));
    assert!(!mask.matches(""));
}

#[test]
fn test_wildcard_mask_matches_everything() {
    for w in &["#", "*"] {
        let mask: PathMask = w.parse().unwrap();
        assert!(mask.matches(""));
        assert!(mask.matches("a"));
        assert!(mask.matches("a/b/c"));
    }
}

#[test]
fn test_allow_deny_reading_lists() {
    let read_items = OIDMaskList::from_str_list(&["sensor:a/#", "unit:b"]).unwrap();
    let write_items = OIDMaskList::from_str_list(&["unit:b", "lvar:c"]).unwrap();
    let deny_items = OIDMaskList::from_str_list(&["sensor:a/secret"]).unwrap();
    let acl = Acl::new(
        "l",
        false,
        AclItemsPvt::new(read_items, PathMaskList::empty(), PathMaskList::empty()),
        AclItemsPvt::new(write_items, PathMaskList::empty(), PathMaskList::empty()),
        AclItemsPvt::new(deny_items, PathMaskList::empty(), PathMaskList::empty()),
        AclItemsPvt::empty(),
        Vec::new(),
        None,
        Vec::new(),
    );
    let (allow, deny) = acl.get_items_allow_deny_reading();
    assert_eq!(allow, ["sensor:a/#", "unit:b", "lvar:c"]);
    assert_eq!(deny, ["sensor:a/secret"]);
}

#[test]
fn test_op_parse() {
    assert_eq!(Op::parse("log").unwrap(), Op::Log);
    assert_eq!(Op::parse("moderator").unwrap(), Op::Moderator);
    assert_eq!(Op::parse("supervisor").unwrap(), Op::Supervisor);
    assert!(Op::parse("other").is_err());
    assert_eq!(Op::Supervisor.as_str(), "supervisor");
}

#[test]
fn test_oid_mask_from_path() {
    let mask = OIDMask::from_path("unit/data/tests/t1").unwrap();
    assert_eq!(mask.to_string(), "unit:data/tests/t1");
    assert_eq!(mask.kind().unwrap(), ItemKind::Unit);
    let mask = OIDMask::from_path("+/data/#").unwrap();
    assert_eq!(mask.to_string(), "+:data/#");
    assert!(OIDMask::from_path("nope/data").is_err());
}

#[test]
fn test_oid_mask_invalid_symbols() {
    assert!("sensor:da|ta".parse::<OIDMask>().is_err());
    assert!("sensor:da:ta".parse::<OIDMask>().is_err());
    let e = "sensor:".parse::<OIDMask>().unwrap_err();
    assert_eq!(e.kind(), eva_common::ErrorKind::InvalidData);
    let e = "sensor:+/#".parse::<OIDMask>().unwrap().to_wildcard_oid().unwrap_err();
    assert_eq!(e.kind(), eva_common::ErrorKind::Unsupported);
    let e = "#".parse::<OIDMask>().unwrap().to_wildcard_oid().unwrap_err();
    assert_eq!(e.kind(), eva_common::ErrorKind::Unsupported);
}

#[test]
fn test_oid_mask_list_first_error() {
    // the first failing entry's error is the one returned
    let e = OIDMaskList::from_str_list(&["unit:a", "nope:x", "bad|y"]).unwrap_err();
    assert_eq!(e.kind(), eva_common::ErrorKind::InvalidData);
    assert_eq!(e.message().unwrap(), "Invalid item type: nope");
}

#[test]
fn test_oid_wildcard_mask_whole_tail() {
    // a whole-tail token in the first position converts like the bare
    // all-path: no any-token stands in the way
    let mask: OIDMask = "sensor:#/x".parse().unwrap();
    assert_eq!(mask.chunks().unwrap(), ["#"]);
    let oid = mask.to_wildcard_oid().unwrap();
    assert!(oid.is_wildcard());
    assert_eq!(oid.to_wildcard_str("%"), "sensor:%");
}

#[test]
fn test_comma_lists() {
    let p = PathMaskList::from_comma_str("");
    assert!(p.is_empty());
    let p = PathMaskList::from_comma_str("a/b,c/#");
    assert_eq!(p.as_string_vec(), ["a/b", "c/#"]);
    assert!(p.matches("a/b"));
    assert!(p.matches("c/x/y"));
    assert!(!p.matches("d"));
    let p = PathMaskList::from_comma_str("a/b,a/b");
    assert_eq!(p.as_string_vec().len(), 1);
    let l = OIDMaskList::from_comma_str("").unwrap();
    assert!(l.is_empty());
    let l = OIDMaskList::from_comma_str("unit:a,sensor:b/#").unwrap();
    assert!(l.matches(&"unit:a".parse().unwrap()));
    assert!(l.matches(&"sensor:b/c".parse().unwrap()));
    assert!(!l.matches(&"lvar:a".parse().unwrap()));
    assert!(OIDMaskList::from_comma_str("unit:a,bad|x").is_err());
}

#[test]
fn test_require_messages() {
    let acl = empty_acl("plain", false, Vec::new());
    let e = acl.require_admin().unwrap_err();
    assert_eq!(e.kind(), eva_common::ErrorKind::AccessDenied);
    assert_eq!(e.message().unwrap(), "admin access required");
    let e = acl.require_op(Op::Log).unwrap_err();
    assert_eq!(e.kind(), eva_common::ErrorKind::AccessDenied);
    assert_eq!(e.message().unwrap(), "operation access required: log");
}
