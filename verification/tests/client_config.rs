use doip::client::config::Configuration;
use iso13400_2::LogicAddress;

#[test]
fn test_configuration() {
    // "127.0.0.1:13400" parses as a socket address.
    let cfg = Configuration::new("127.0.0.1", LogicAddress::from(0x0E00), true).unwrap();
    assert_eq!(cfg.server_ip(), "127.0.0.1");
    assert_eq!(cfg.address(), LogicAddress::from(0x0E00));
}

#[test]
fn client_configuration_refused_without_endpoint() {
    // "::1:13400" does not parse as a socket address (no brackets).
    assert!(Configuration::new("::1", LogicAddress::from(0x0E00), false).is_none());
}
