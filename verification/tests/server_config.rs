use doip::server::config::Configuration;
use iso13400_2::{Eid, Gid, LogicAddress};

#[test]
fn server_configuration_keeps_its_arguments() {
    let eid = Eid::new(0x0011_2233_4455).unwrap();
    let gid = Gid::new(0x0066_7788_99AA).unwrap();
    let cfg = Configuration::new("127.0.0.1", "ABCDEFGHIJKLMNOPQ", LogicAddress::from(0x1001), eid, gid, true)
        .unwrap();
    assert_eq!(cfg.ip_address(), "127.0.0.1");
    assert_eq!(cfg.vin(), "ABCDEFGHIJKLMNOPQ");
    assert_eq!(cfg.address(), LogicAddress::from(0x1001));
    assert_eq!(cfg.eid(), eid);
    assert_eq!(cfg.gid(), gid);
}

#[test]
fn server_configuration_refuses_a_short_vin() {
    let eid = Eid::new(1).unwrap();
    let gid = Gid::new(2).unwrap();
    assert!(Configuration::new("127.0.0.1", "ABCDEFGHIJKLMNOP", LogicAddress::from(0x1001), eid, gid, true).is_none());
    assert!(Configuration::new("127.0.0.1", "ABCDEFGHIJKLMNOPQR", LogicAddress::from(0x1001), eid, gid, true).is_none());
}

#[test]
fn server_configuration_refuses_a_bad_endpoint() {
    let eid = Eid::new(1).unwrap();
    let gid = Gid::new(2).unwrap();
    assert!(Configuration::new("::1", "ABCDEFGHIJKLMNOPQ", LogicAddress::from(0x1001), eid, gid, false).is_none());
}
