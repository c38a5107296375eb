use netcheck::fetch_dns::{
    classify_reply, dedup_servers, probe_query, spacing_wait_ms, verdict_for_rcode,
    CheckDNSResolutionResponse, DnsProbe, DnsProbeCommand, DnsProbeStage, TransportError,
};
use netcheck::internal_comms::DNSInfo;

fn strings(list: &[&str]) -> Vec<String> {
    list.iter().map(|s| s.to_string()).collect()
}

fn rows(info: &DNSInfo) -> Vec<(String, Option<bool>)> {
    info.dns_servers.iter().map(|s| (s.ip.clone(), s.can_resolve)).collect()
}

#[test]
fn dedup_keeps_first_seen_order() {
    let once = dedup_servers(strings(&["a", "b", "a", "c", "b"]));
    assert_eq!(once, strings(&["a", "b", "c"]));
    let twice = dedup_servers(once.clone());
    assert_eq!(twice, once);
    assert!(dedup_servers(Vec::new()).is_empty());
}

#[test]
fn unreadable_config_is_terminal() {
    let mut probe = DnsProbe::new();
    assert_eq!(probe.command(), DnsProbeCommand::ReadConfig);
    let out = probe.config_text_read(Err(())).unwrap();
    assert_eq!(out.can_fetch, Some(false));
    assert_eq!(out.can_bind_interface, None);
    assert!(out.dns_servers.is_empty());
    assert_eq!(probe.stage(), DnsProbeStage::Stopped);
    assert_eq!(probe.command(), DnsProbeCommand::Stop);
    assert!(probe.interface_address_found(true).is_none());
    assert!(probe.check_finished(CheckDNSResolutionResponse::Success).is_none());
    assert!(probe.config_read(Ok(strings(&["1.1.1.1"]))).is_none());
}

#[test]
fn unparseable_config_is_unavailable() {
    let mut probe = DnsProbe::new();
    let out = probe.config_text_read(Ok("nameserver not-an-address\n".to_string())).unwrap();
    assert_eq!(out.can_fetch, Some(false));
    assert!(out.dns_servers.is_empty());
    assert_eq!(probe.command(), DnsProbeCommand::Stop);
}

#[test]
fn config_without_nameservers_is_available_and_empty() {
    let mut probe = DnsProbe::new();
    assert!(probe.config_text_read(Ok("# no servers here\noptions ndots:1\n".to_string())).is_none());
    assert_eq!(probe.command(), DnsProbeCommand::FindInterfaceAddress);
    let out = probe.interface_address_found(true).unwrap();
    assert_eq!(out.can_fetch, Some(true));
    assert_eq!(out.can_bind_interface, None);
    assert!(out.dns_servers.is_empty());
    assert_eq!(probe.command(), DnsProbeCommand::Stop);
}

#[test]
fn config_text_is_parsed_and_deduplicated() {
    let mut probe = DnsProbe::new();
    let text = "nameserver 8.8.8.8\nnameserver 1.1.1.1\nnameserver 8.8.8.8\n";
    assert!(probe.config_text_read(Ok(text.to_string())).is_none());
    let out = probe.interface_address_found(true).unwrap();
    assert_eq!(
        rows(&out),
        vec![("8.8.8.8".to_string(), None), ("1.1.1.1".to_string(), None)]
    );
    assert_eq!(probe.command(), DnsProbeCommand::Check("8.8.8.8".to_string()));
}

#[test]
fn timeout_then_success_keeps_discovery_order() {
    let mut probe = DnsProbe::new();
    assert!(probe.config_read(Ok(strings(&["192.0.2.1", "192.0.2.2"]))).is_none());
    let listed = probe.interface_address_found(true).unwrap();
    assert_eq!(
        rows(&listed),
        vec![("192.0.2.1".to_string(), None), ("192.0.2.2".to_string(), None)]
    );
    assert_eq!(probe.command(), DnsProbeCommand::Check("192.0.2.1".to_string()));
    let first = probe.reply_received(Err(TransportError::Timeout)).unwrap();
    assert_eq!(
        rows(&first),
        vec![("192.0.2.1".to_string(), Some(false)), ("192.0.2.2".to_string(), None)]
    );
    assert_eq!(probe.command(), DnsProbeCommand::Check("192.0.2.2".to_string()));
    let last = probe.reply_received(Ok(0)).unwrap();
    assert_eq!(last.can_fetch, Some(true));
    assert_eq!(
        rows(&last),
        vec![("192.0.2.1".to_string(), Some(false)), ("192.0.2.2".to_string(), Some(true))]
    );
    assert_eq!(probe.command(), DnsProbeCommand::Stop);
    assert!(probe.check_finished(CheckDNSResolutionResponse::Success).is_none());
}

#[test]
fn missing_interface_address_means_cannot_bind() {
    let mut probe = DnsProbe::new();
    probe.config_read(Ok(strings(&["1.1.1.1"])));
    let out = probe.interface_address_found(false).unwrap();
    assert_eq!(out.can_fetch, Some(false));
    assert_eq!(out.can_bind_interface, Some(false));
    assert!(out.dns_servers.is_empty());
    assert_eq!(probe.command(), DnsProbeCommand::Stop);
}

#[test]
fn bind_failure_during_checks_is_terminal() {
    let mut probe = DnsProbe::new();
    probe.config_read(Ok(strings(&["1.1.1.1", "9.9.9.9"])));
    probe.interface_address_found(true);
    let out = probe.reply_received(Err(TransportError::Bind)).unwrap();
    assert_eq!(out.can_fetch, Some(false));
    assert_eq!(out.can_bind_interface, Some(false));
    assert!(out.dns_servers.is_empty());
    assert_eq!(probe.command(), DnsProbeCommand::Stop);
}

#[test]
fn events_out_of_turn_are_ignored() {
    let mut probe = DnsProbe::new();
    assert!(probe.interface_address_found(true).is_none());
    assert!(probe.check_finished(CheckDNSResolutionResponse::Failure).is_none());
    assert_eq!(probe.command(), DnsProbeCommand::ReadConfig);
}

#[test]
fn replies_are_classified() {
    assert_eq!(classify_reply(Err(TransportError::Bind)), CheckDNSResolutionResponse::CannotBind);
    assert_eq!(classify_reply(Err(TransportError::Send)), CheckDNSResolutionResponse::Failure);
    assert_eq!(classify_reply(Err(TransportError::Receive)), CheckDNSResolutionResponse::Failure);
    assert_eq!(classify_reply(Err(TransportError::Timeout)), CheckDNSResolutionResponse::Failure);
    assert_eq!(
        classify_reply(Err(TransportError::MalformedReply)),
        CheckDNSResolutionResponse::Failure
    );
    assert_eq!(classify_reply(Ok(0)), CheckDNSResolutionResponse::Success);
    assert_eq!(classify_reply(Ok(3)), CheckDNSResolutionResponse::Failure);
    assert_eq!(classify_reply(Ok(2)), CheckDNSResolutionResponse::Failure);
}

#[test]
fn rcode_verdicts() {
    assert_eq!(verdict_for_rcode(0), CheckDNSResolutionResponse::Success);
    assert_eq!(verdict_for_rcode(2), CheckDNSResolutionResponse::Failure);
    assert_eq!(verdict_for_rcode(5), CheckDNSResolutionResponse::Failure);
}

#[test]
fn probe_query_asks_one_question() {
    let q = probe_query();
    // header, "example.com" as two labels and a root, then type and class
    assert_eq!(q.len(), 12 + 13 + 4);
    assert_eq!(&q[2..12], &[0x01, 0x20, 0, 1, 0, 0, 0, 0, 0, 0]);
    assert_eq!(&q[12..25], b"\x07example\x03com\x00");
    assert_eq!(&q[25..29], &[0, 1, 0, 1]);
}

#[test]
fn checks_are_spaced() {
    assert_eq!(spacing_wait_ms(0), 50);
    assert_eq!(spacing_wait_ms(10), 40);
    assert_eq!(spacing_wait_ms(49), 1);
    assert_eq!(spacing_wait_ms(50), 0);
    assert_eq!(spacing_wait_ms(1200), 0);
}
