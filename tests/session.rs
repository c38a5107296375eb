use netcheck::internal_comms::{DNSInfo, DNSServer, FetchedDataMessage, LocalInfo};
use netcheck::session::{App, ApplicationStage, HoverDirection, Key, StartupError};

fn names(list: &[&str]) -> Vec<String> {
    list.iter().map(|s| s.to_string()).collect()
}

fn dns(can_fetch: Option<bool>, servers: &[(&str, Option<bool>)]) -> DNSInfo {
    DNSInfo {
        can_fetch,
        can_bind_interface: None,
        dns_servers: servers
            .iter()
            .map(|(ip, r)| DNSServer { ip: ip.to_string(), can_resolve: *r })
            .collect(),
    }
}

#[test]
fn no_interfaces_is_a_startup_error() {
    let r = App::new(Vec::new());
    assert!(matches!(r, Err(StartupError::NoInterfaces)));
}

#[test]
fn single_interface_starts_running_and_launches_probes() {
    let (app, spawn) = App::new(names(&["eth0"])).unwrap();
    assert_eq!(app.stage(), ApplicationStage::Running);
    assert_eq!(app.chosen_interface().as_deref(), Some("eth0"));
    assert_eq!(spawn.as_deref(), Some("eth0"));
    assert!(!app.should_exit());
}

#[test]
fn several_interfaces_start_selecting_on_the_first() {
    let (app, spawn) = App::new(names(&["lo", "eth0", "wlan0"])).unwrap();
    assert_eq!(app.stage(), ApplicationStage::PickInterface);
    assert_eq!(app.interface_hover_index(), 0);
    assert!(app.chosen_interface().is_none());
    assert!(spawn.is_none());
    assert_eq!(app.interface_list(), &names(&["lo", "eth0", "wlan0"]));
}

#[test]
fn hover_is_clamped_to_the_list() {
    let (mut app, _) = App::new(names(&["lo", "eth0", "wlan0"])).unwrap();
    app.move_hover(HoverDirection::Up);
    assert_eq!(app.interface_hover_index(), 0);
    for _ in 0..5 {
        app.move_hover(HoverDirection::Down);
        assert!(app.interface_hover_index() <= 2);
    }
    assert_eq!(app.interface_hover_index(), 2);
    app.move_hover(HoverDirection::Up);
    assert_eq!(app.interface_hover_index(), 1);
}

#[test]
fn hover_in_a_two_entry_list_never_leaves_it() {
    let (mut app, _) = App::new(names(&["a", "b"])).unwrap();
    let moves = [
        HoverDirection::Down,
        HoverDirection::Down,
        HoverDirection::Up,
        HoverDirection::Up,
        HoverDirection::Up,
        HoverDirection::Down,
    ];
    let expected = [1, 1, 0, 0, 0, 1];
    for (m, e) in moves.iter().zip(expected.iter()) {
        app.move_hover(*m);
        assert_eq!(app.interface_hover_index(), *e);
    }
}

#[test]
fn single_entry_hover_never_moves() {
    let (mut app, _) = App::new(names(&["eth0"])).unwrap();
    app.move_hover(HoverDirection::Down);
    app.move_hover(HoverDirection::Up);
    assert_eq!(app.interface_hover_index(), 0);
}

#[test]
fn confirm_chooses_the_hovered_interface() {
    let (mut app, _) = App::new(names(&["lo", "eth0"])).unwrap();
    app.move_hover(HoverDirection::Down);
    let spawn = app.confirm();
    assert_eq!(spawn.as_deref(), Some("eth0"));
    assert_eq!(app.stage(), ApplicationStage::Running);
    assert_eq!(app.chosen_interface().as_deref(), Some("eth0"));
}

#[test]
fn confirm_while_running_is_a_no_op() {
    let (mut app, _) = App::new(names(&["lo", "eth0"])).unwrap();
    assert!(app.confirm().is_some());
    let again = app.confirm();
    assert!(again.is_none());
    assert_eq!(app.stage(), ApplicationStage::Running);
    assert_eq!(app.chosen_interface().as_deref(), Some("lo"));
    app.move_hover(HoverDirection::Down);
    assert_eq!(app.interface_hover_index(), 0);
}

#[test]
fn keys_drive_the_session() {
    let (mut app, _) = App::new(names(&["lo", "eth0"])).unwrap();
    assert!(app.handle_key_event(Key::Down).is_none());
    assert_eq!(app.interface_hover_index(), 1);
    assert!(app.handle_key_event(Key::Char('x')).is_none());
    assert!(app.handle_key_event(Key::Other).is_none());
    assert!(!app.should_exit());
    assert_eq!(app.handle_key_event(Key::Enter).as_deref(), Some("eth0"));
    assert!(app.handle_key_event(Key::Enter).is_none());
    assert!(app.handle_key_event(Key::Up).is_none());
    assert_eq!(app.interface_hover_index(), 1);
    app.handle_key_event(Key::Char('Q'));
    assert!(app.should_exit());
}

#[test]
fn lower_case_q_quits_while_selecting() {
    let (mut app, _) = App::new(names(&["lo", "eth0"])).unwrap();
    app.handle_key_event(Key::Char('q'));
    assert!(app.should_exit());
    assert_eq!(app.stage(), ApplicationStage::PickInterface);
}

#[test]
fn last_dns_snapshot_wins() {
    let (mut app, _) = App::new(names(&["eth0"])).unwrap();
    assert!(app.network_info().dns_info.can_fetch.is_none());
    app.absorb(vec![
        FetchedDataMessage::DNSInfo(dns(Some(true), &[("1.1.1.1", None), ("8.8.8.8", None)])),
        FetchedDataMessage::LocalInfo(LocalInfo {
            local_ip: Some("10.0.0.2".to_string()),
            subnet_mask: Some("24".to_string()),
            gateway: None,
        }),
        FetchedDataMessage::DNSInfo(dns(Some(true), &[("1.1.1.1", Some(true)), ("8.8.8.8", None)])),
    ]);
    let info = app.network_info();
    assert_eq!(info.dns_info.dns_servers.len(), 2);
    assert_eq!(info.dns_info.dns_servers[0].can_resolve, Some(true));
    assert_eq!(info.dns_info.dns_servers[1].can_resolve, None);
    assert_eq!(info.local_info.local_ip.as_deref(), Some("10.0.0.2"));
    app.absorb(vec![FetchedDataMessage::DNSInfo(dns(Some(false), &[]))]);
    assert_eq!(app.network_info().dns_info.can_fetch, Some(false));
    assert!(app.network_info().dns_info.dns_servers.is_empty());
    assert_eq!(app.network_info().local_info.subnet_mask.as_deref(), Some("24"));
}
