use netcheck::internal_comms::{DNSInfo, DNSServer, LocalInfo};
use netcheck::panels::{dns_panel, grid_columns, local_panel, panel_slot, DnsPanel, ResolveStatus};

fn info(can_fetch: Option<bool>, servers: &[(&str, Option<bool>)]) -> DNSInfo {
    DNSInfo {
        can_fetch,
        can_bind_interface: None,
        dns_servers: servers
            .iter()
            .map(|(ip, r)| DNSServer { ip: ip.to_string(), can_resolve: *r })
            .collect(),
    }
}

#[test]
fn panel_states() {
    assert!(matches!(dns_panel(&info(None, &[]), 28), DnsPanel::Fetching));
    assert!(matches!(dns_panel(&info(Some(false), &[]), 28), DnsPanel::Failed));
    assert!(matches!(dns_panel(&info(Some(true), &[]), 28), DnsPanel::NoServers));
}

#[test]
fn panel_rows_are_right_aligned() {
    let panel = dns_panel(
        &info(Some(true), &[("8.8.8.8", Some(true)), ("1.1.1.1", Some(false)), ("9.9.9.9", None)]),
        28,
    );
    let DnsPanel::Servers(rows) = panel else { panic!("expected rows") };
    assert_eq!(rows.len(), 3);
    assert_eq!(rows[0].ip, "8.8.8.8");
    assert_eq!(rows[0].status, ResolveStatus::Resolves);
    assert_eq!(rows[0].padding, 28 - 7 - 2);
    assert_eq!(rows[0].status.label(), "OK");
    assert_eq!(rows[1].status, ResolveStatus::Failure);
    assert_eq!(rows[1].padding, 28 - 7 - 7);
    assert_eq!(rows[2].status.label(), "Waiting");
    let narrow = dns_panel(&info(Some(true), &[("2001:db8::53", None)]), 10);
    let DnsPanel::Servers(rows) = narrow else { panic!("expected rows") };
    assert_eq!(rows[0].padding, 0);
}

#[test]
fn network_rows_are_right_aligned() {
    let rows = local_panel(
        &LocalInfo {
            local_ip: Some("10.0.0.2".to_string()),
            subnet_mask: None,
            gateway: Some("10.0.0.1".to_string()),
        },
        28,
    );
    assert_eq!(rows.len(), 3);
    assert_eq!(rows[0].label, "Local IP: ");
    assert_eq!(rows[0].value.as_deref(), Some("10.0.0.2"));
    assert_eq!(rows[0].padding, 28 - 10 - 8);
    assert_eq!(rows[1].label, "Subnet Mask: ");
    assert!(rows[1].value.is_none());
    assert_eq!(rows[1].padding, 28 - 13 - 7);
    assert_eq!(rows[2].label, "Gateway: ");
    assert_eq!(rows[2].padding, 28 - 9 - 8);
    let narrow = local_panel(&LocalInfo { local_ip: None, subnet_mask: None, gateway: None }, 4);
    assert!(narrow.iter().all(|r| r.padding == 0));
}

#[test]
fn grid_has_at_least_one_column() {
    assert_eq!(grid_columns(0), (1, 0));
    assert_eq!(grid_columns(29), (1, 29));
    assert_eq!(grid_columns(95), (3, 31));
    assert_eq!(grid_columns(120), (4, 30));
}

#[test]
fn panels_that_do_not_fit_are_left_out() {
    assert_eq!(panel_slot(0, 3, 1, 24), Some((0, 1)));
    assert_eq!(panel_slot(4, 3, 1, 24), Some((1, 11)));
    assert_eq!(panel_slot(7, 3, 1, 24), None);
    assert_eq!(panel_slot(2, 3, 1, 10), None);
    assert_eq!(panel_slot(10, 1, 0, u16::MAX), Some((0, 100)));
    assert_eq!(panel_slot(usize::MAX, 1, 0, u16::MAX), None);
}

#[test]
fn padding_counts_bytes() {
    let panel = dns_panel(&info(Some(true), &[("é", Some(true))]), 30);
    let DnsPanel::Servers(rows) = panel else { panic!("expected rows") };
    assert_eq!(rows[0].padding, 26);
    let rows = local_panel(
        &LocalInfo { local_ip: Some("é".to_string()), subnet_mask: None, gateway: None },
        30,
    );
    assert_eq!(rows[0].padding, 18);
}
