use nm_reconcile::cascade::{
    delete_ifaces, delete_orphan_ports, delete_remain_virtual_interface_as_desired,
};
use nm_reconcile::profile::NmConnection;
use nm_reconcile::state::{
    ErrorKind, IfaceKind, MergedDns, MergedInterface, MergedNetworkState, NmDevice,
};
use nm_reconcile::text::{contains_text, copy_texts, push_unique, same_opt_text};

fn conn(uuid: &str, name: &str, ty: &str) -> NmConnection {
    let mut c = NmConnection::new(name.to_string());
    c.uuid = Some(uuid.to_string());
    c.iface_name = Some(name.to_string());
    c.iface_type = Some(ty.to_string());
    c
}

fn member(uuid: &str, name: &str, ty: &str, ctrl: &str, ctrl_ty: &str) -> NmConnection {
    let mut c = conn(uuid, name, ty);
    c.controller = Some(ctrl.to_string());
    c.controller_type = Some(ctrl_ty.to_string());
    c
}

fn absent(name: &str, kind: IfaceKind) -> MergedInterface {
    MergedInterface {
        name: name.to_string(),
        kind,
        changed: true,
        absent: true,
        down: false,
        is_virtual: true,
        kernel: true,
    }
}

fn native(ty: &str) -> IfaceKind {
    IfaceKind::Native(ty.to_string())
}

fn merged(interfaces: Vec<MergedInterface>) -> MergedNetworkState {
    MergedNetworkState {
        memory_only: false,
        hostname: None,
        interfaces,
        dns: MergedDns { changed: false, ifaces_still_valid: true, servers: vec![], searches: vec![] },
    }
}

fn dev(name: &str, ty: &str, path: &str) -> NmDevice {
    NmDevice { name: name.to_string(), iface_type: ty.to_string(), obj_path: path.to_string() }
}

fn sorted(mut v: Vec<String>) -> Vec<String> {
    v.sort();
    v
}

#[test]
fn known_type_selects_by_name_and_type() {
    let conns = vec![conn("u1", "br0", "bridge"), conn("u2", "br0", "ovs-bridge"), conn("u3", "br1", "bridge")];
    let out = delete_ifaces(&conns, &merged(vec![absent("br0", native("bridge"))])).unwrap();
    assert_eq!(out, vec!["u1".to_string()]);
}

#[test]
fn unknown_type_deletes_every_profile_of_the_name() {
    let conns = vec![
        conn("u1", "br0", "bridge"),
        conn("u2", "br0", "ovs-bridge"),
        conn("u3", "br1", "bridge"),
        conn("u4", "br0", "ovs-interface"),
    ];
    let out = delete_ifaces(&conns, &merged(vec![absent("br0", IfaceKind::Unknown)])).unwrap();
    assert_eq!(sorted(out), vec!["u1".to_string(), "u2".to_string(), "u4".to_string()]);
}

#[test]
fn present_interface_deletes_nothing() {
    let conns = vec![conn("u1", "br0", "bridge")];
    let mut present = absent("br0", native("bridge"));
    present.absent = false;
    let mut present_unknown = absent("br0", IfaceKind::Unknown);
    present_unknown.absent = false;
    present_unknown.changed = false;
    let out = delete_ifaces(&conns, &merged(vec![present, present_unknown])).unwrap();
    assert!(out.is_empty());
}

#[test]
fn absent_interface_is_removed_whether_flagged_changed_or_not() {
    let conns = vec![conn("u1", "br0", "bridge"), conn("u2", "br0", "ovs-bridge"), conn("u3", "br1", "bridge")];
    let mut unknown = absent("br0", IfaceKind::Unknown);
    unknown.changed = false;
    let out = delete_ifaces(&conns, &merged(vec![unknown])).unwrap();
    assert_eq!(sorted(out), vec!["u1".to_string(), "u2".to_string()]);

    let mut known = absent("br0", native("bridge"));
    known.changed = false;
    let out = delete_ifaces(&conns, &merged(vec![known])).unwrap();
    assert_eq!(out, vec!["u1".to_string()]);

    let members = vec![
        member("i1", "ovs0", "ovs-interface", "port-uuid", "ovs-port"),
        member("e1", "eth1", "802-3-ethernet", "bond-uuid", "bond"),
    ];
    let mut a = absent("ovs0", native("ovs-interface"));
    a.changed = false;
    let mut b = absent("eth1", native("802-3-ethernet"));
    b.changed = false;
    let out = delete_ifaces(&members, &merged(vec![a, b])).unwrap();
    assert_eq!(sorted(out), vec!["e1".to_string(), "i1".to_string(), "port-uuid".to_string()]);

    let mut odd = absent("odd0", IfaceKind::Unsupported);
    odd.changed = false;
    let err = delete_ifaces(&conns, &merged(vec![odd])).unwrap_err();
    assert_eq!(err.kind, ErrorKind::NotImplemented);
}

#[test]
fn member_without_identity_still_takes_the_group_along() {
    let mut m = member("x", "ovs0", "ovs-interface", "port-uuid", "ovs-port");
    m.uuid = None;
    let out = delete_ifaces(&vec![m], &merged(vec![absent("ovs0", native("ovs-interface"))])).unwrap();
    assert_eq!(out, vec!["port-uuid".to_string()]);
}

#[test]
fn second_pass_after_deletion_is_empty() {
    let conns = vec![
        conn("u1", "br0", "bridge"),
        member("i1", "ovs0", "ovs-interface", "port-uuid", "ovs-port"),
        conn("port-uuid", "port0", "ovs-port"),
        conn("u3", "br1", "bridge"),
    ];
    let state = merged(vec![absent("br0", IfaceKind::Unknown), absent("ovs0", native("ovs-interface"))]);
    let first = delete_ifaces(&conns, &state).unwrap();
    let rest: Vec<NmConnection> =
        conns.iter().filter(|c| !first.contains(c.uuid.as_ref().unwrap())).cloned().collect();
    assert_eq!(rest.len(), 1);
    assert!(delete_ifaces(&rest, &state).unwrap().is_empty());
}

#[test]
fn member_of_port_group_takes_the_group_along() {
    let conns = vec![
        member("iface-uuid", "ovs0", "ovs-interface", "port-uuid", "ovs-port"),
        member("eth-uuid", "eth1", "802-3-ethernet", "bond-uuid", "bond"),
    ];
    let state = merged(vec![absent("ovs0", native("ovs-interface")), absent("eth1", native("802-3-ethernet"))]);
    let out = delete_ifaces(&conns, &state).unwrap();
    assert_eq!(sorted(out), vec!["eth-uuid".to_string(), "iface-uuid".to_string(), "port-uuid".to_string()]);
}

#[test]
fn delete_set_holds_each_identity_once() {
    let conns = vec![
        member("i1", "ovs0", "ovs-interface", "port-uuid", "ovs-port"),
        member("i2", "ovs0", "ovs-interface", "port-uuid", "ovs-port"),
        conn("port-uuid", "ovs0", "ovs-port"),
    ];
    let state = merged(vec![absent("ovs0", IfaceKind::Unknown), absent("ovs0", native("ovs-interface"))]);
    let out = delete_ifaces(&conns, &state).unwrap();
    assert_eq!(out.len(), 3);
    assert_eq!(sorted(out), vec!["i1".to_string(), "i2".to_string(), "port-uuid".to_string()]);
}

#[test]
fn unsupported_type_of_absent_interface_is_an_error() {
    let conns = vec![conn("u1", "br0", "bridge")];
    let state = merged(vec![
        absent("br0", native("bridge")),
        absent("odd0", IfaceKind::Unsupported),
        absent("odd1", IfaceKind::Unsupported),
    ]);
    let err = delete_ifaces(&conns, &state).unwrap_err();
    assert_eq!(err.kind, ErrorKind::NotImplemented);
    assert_eq!(err.msg, "odd0");
    let mut kept = absent("odd0", IfaceKind::Unsupported);
    kept.absent = false;
    assert!(delete_ifaces(&conns, &merged(vec![kept])).unwrap().is_empty());
}

#[test]
fn orphan_ports_follow_their_deleted_controller() {
    let conns = vec![
        member("p1", "port1", "ovs-port", "br-uuid", "ovs-bridge"),
        member("p2", "port2", "ovs-port", "br-uuid", "ovs-bridge"),
        member("p3", "port3", "ovs-port", "other-uuid", "ovs-bridge"),
        member("e1", "eth1", "802-3-ethernet", "br-uuid", "bridge"),
    ];
    let deleted = vec!["br-uuid".to_string()];
    let out = delete_orphan_ports(&conns, &deleted);
    assert_eq!(out, vec!["p1".to_string(), "p2".to_string()]);
}

#[test]
fn second_orphan_sweep_finds_nothing() {
    let conns = vec![
        member("p1", "port1", "ovs-port", "br-uuid", "ovs-bridge"),
        member("p3", "port3", "ovs-port", "other-uuid", "ovs-bridge"),
        member("p2", "port2", "ovs-port", "br-uuid", "ovs-bridge"),
    ];
    let deleted = vec!["br-uuid".to_string()];
    let first = delete_orphan_ports(&conns, &deleted);
    let rest: Vec<NmConnection> =
        conns.iter().filter(|c| !first.contains(c.uuid.as_ref().unwrap())).cloned().collect();
    assert_eq!(rest.len(), 1);
    assert!(delete_orphan_ports(&rest, &deleted).is_empty());
}

#[test]
fn orphan_without_identity_or_controller_is_skipped() {
    let mut nameless = member("x", "port1", "ovs-port", "br-uuid", "ovs-bridge");
    nameless.uuid = None;
    let free = conn("p9", "port9", "ovs-port");
    assert!(delete_orphan_ports(&vec![nameless, free], &vec!["br-uuid".to_string()]).is_empty());
    assert!(delete_orphan_ports(&Vec::new(), &vec!["br-uuid".to_string()]).is_empty());
}

#[test]
fn residual_virtual_devices_are_chosen_in_interface_order() {
    let devs = vec![
        dev("br0", "bridge", "/dev/1"),
        dev("eth1", "802-3-ethernet", "/dev/2"),
        dev("dummy0", "dummy", "/dev/3"),
        dev("br0", "bridge", "/dev/4"),
    ];
    let mut down = absent("dummy0", native("dummy"));
    down.absent = false;
    down.down = true;
    let mut physical = absent("eth1", native("802-3-ethernet"));
    physical.is_virtual = false;
    let mut user_space = absent("ovsbr0", native("ovs-bridge"));
    user_space.kernel = false;
    let gone = absent("vlan7", native("vlan"));
    let state = merged(vec![down, physical, user_space, gone, absent("br0", native("bridge"))]);
    let out = delete_remain_virtual_interface_as_desired(&devs, &state).unwrap();
    assert_eq!(out, vec!["/dev/3".to_string(), "/dev/1".to_string()]);
}

#[test]
fn residual_sweep_needs_a_backend_type() {
    let devs = vec![dev("br0", "bridge", "/dev/1")];
    let state = merged(vec![absent("br0", native("bridge")), absent("x0", IfaceKind::Unknown)]);
    let err = delete_remain_virtual_interface_as_desired(&devs, &state).unwrap_err();
    assert_eq!(err.kind, ErrorKind::NotImplemented);
    assert_eq!(err.msg, "x0");
    let mut unchanged = absent("x0", IfaceKind::Unsupported);
    unchanged.changed = false;
    let out = delete_remain_virtual_interface_as_desired(&devs, &merged(vec![unchanged])).unwrap();
    assert!(out.is_empty());
}

#[test]
fn converged_inventory_deletes_nothing() {
    let conns = vec![conn("u3", "br1", "bridge")];
    let state = merged(vec![absent("br0", native("bridge")), absent("br2", IfaceKind::Unknown)]);
    assert!(delete_ifaces(&conns, &state).unwrap().is_empty());
    assert!(delete_orphan_ports(&conns, &Vec::new()).is_empty());
}

#[test]
fn text_helpers() {
    let mut v = vec!["a".to_string()];
    push_unique(&mut v, &"b".to_string());
    push_unique(&mut v, &"a".to_string());
    assert_eq!(v, vec!["a".to_string(), "b".to_string()]);
    assert!(contains_text(&v, &"b".to_string()));
    assert!(!contains_text(&v, &"c".to_string()));
    assert_eq!(copy_texts(&v), v);
    assert!(same_opt_text(&None, &None));
    assert!(!same_opt_text(&Some("a".to_string()), &None));
    assert!(same_opt_text(&Some("a".to_string()), &Some("a".to_string())));
    assert!(!same_opt_text(&Some("a".to_string()), &Some("b".to_string())));
}
