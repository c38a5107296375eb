use netcheck::fetch_local::{
    get_interface_ip, local_info_for, parse_default_gateway, InterfaceAddress, NetInterface,
};

fn iface(name: &str, ips: &[(&str, &str)]) -> NetInterface {
    NetInterface {
        name: name.to_string(),
        ips: ips
            .iter()
            .map(|(ip, p)| InterfaceAddress { ip: ip.to_string(), prefix: p.to_string() })
            .collect(),
    }
}

fn host() -> Vec<NetInterface> {
    vec![
        iface("lo", &[("127.0.0.1", "8")]),
        iface("eth0", &[("192.168.1.20", "24"), ("fe80::1", "64")]),
        iface("tun0", &[]),
    ]
}

#[test]
fn primary_address_of_an_interface() {
    let h = host();
    assert_eq!(get_interface_ip(&h, &"eth0".to_string()), Ok("192.168.1.20".to_string()));
    assert_eq!(get_interface_ip(&h, &"tun0".to_string()), Err(()));
    assert_eq!(get_interface_ip(&h, &"wlan0".to_string()), Err(()));
}

#[test]
fn local_info_of_an_interface() {
    let h = host();
    let info = local_info_for(&h, &"eth0".to_string(), Some("192.168.1.1".to_string()));
    assert_eq!(info.local_ip.as_deref(), Some("192.168.1.20"));
    assert_eq!(info.subnet_mask.as_deref(), Some("24"));
    assert_eq!(info.gateway.as_deref(), Some("192.168.1.1"));
    let bare = local_info_for(&h, &"tun0".to_string(), None);
    assert!(bare.local_ip.is_none() && bare.subnet_mask.is_none() && bare.gateway.is_none());
    let missing = local_info_for(&h, &"wlan0".to_string(), Some("10.0.0.1".to_string()));
    assert!(missing.local_ip.is_none() && missing.subnet_mask.is_none());
    assert_eq!(missing.gateway.as_deref(), Some("10.0.0.1"));
}

#[test]
fn gateway_from_route_output() {
    let out = "default via 192.168.1.1 proto dhcp src 192.168.1.20 metric 100 \n\
               192.168.1.0/24 proto kernel scope link src 192.168.1.20 metric 100 \n";
    assert_eq!(parse_default_gateway(out), Ok("192.168.1.1".to_string()));
}

#[test]
fn gateway_on_a_later_line() {
    let out = "10.0.0.0/8 via 10.1.1.1\n\t default  via\tfe80::1 metric 1024\r\n";
    assert_eq!(parse_default_gateway(out), Ok("fe80::1".to_string()));
}

#[test]
fn gateway_missing_or_short() {
    assert_eq!(parse_default_gateway(""), Err(()));
    assert_eq!(parse_default_gateway("192.168.1.0/24 proto kernel\n"), Err(()));
    assert_eq!(parse_default_gateway("default via\ndefault via 10.0.0.1\n"), Err(()));
}
