//! Tests of region matching, socket selection, and the per-tick poll step.

use lost_metrics::aws_iprange::{FakeIpRanges, IpPrefix};
use lost_metrics::models::ProcessState;
use lost_metrics::process_watcher::{
    cidr_match, find_process_ips, match_ip, poll_step, resolve_process_id, PidProbe, SocketRecord,
    TcpEndpoint,
};

fn entry(prefix: &str, region: &str) -> IpPrefix {
    IpPrefix {
        ip_prefix: String::from(prefix),
        region: String::from(region),
        service: String::from("n/a"),
        network_border_group: String::from("n/a"),
    }
}

fn addr(a: u8, b: u8, c: u8, d: u8) -> u32 {
    u32::from_be_bytes([a, b, c, d])
}

#[test]
fn covered_address_matches_first_region() {
    let table = vec![entry("203.0.113.0/24", "EU")];
    let matched = match_ip(&table, addr(203, 0, 113, 5)).unwrap();
    assert_eq!(matched, Some(String::from("EU")));
}

#[test]
fn uncovered_address_matches_nothing() {
    let table = vec![entry("203.0.113.0/24", "EU")];
    let matched = match_ip(&table, addr(198, 51, 100, 1)).unwrap();
    assert_eq!(matched, None);
}

#[test]
fn first_listed_overlapping_prefix_wins() {
    let table = vec![entry("203.0.0.0/16", "NA"), entry("203.0.113.0/24", "EU")];
    let matched = match_ip(&table, addr(203, 0, 113, 5)).unwrap();
    assert_eq!(matched, Some(String::from("NA")));
}

#[test]
fn malformed_prefix_fails_the_match() {
    let table = vec![entry("203.0.113.0/24", "EU"), entry("not-a-network", "NA")];
    let err = match_ip(&table, addr(198, 51, 100, 1)).unwrap_err();
    assert_eq!(err.prefix, String::from("not-a-network"));
}

#[test]
fn malformed_prefix_after_a_match_is_not_reached() {
    let table = vec![entry("203.0.113.0/24", "EU"), entry("not-a-network", "NA")];
    let matched = match_ip(&table, addr(203, 0, 113, 200)).unwrap();
    assert_eq!(matched, Some(String::from("EU")));
}

#[test]
fn ipv6_prefix_never_contains_a_v4_address() {
    let table = vec![entry("2001:db8::/32", "EU"), entry("203.0.113.0/24", "NA")];
    let matched = match_ip(&table, addr(203, 0, 113, 5)).unwrap();
    assert_eq!(matched, Some(String::from("NA")));
}

#[test]
fn cidr_match_checks_prefix_bits() {
    assert!(cidr_match(addr(203, 0, 113, 0), 24, addr(203, 0, 113, 255)));
    assert!(!cidr_match(addr(203, 0, 113, 0), 24, addr(203, 0, 114, 0)));
    assert!(cidr_match(addr(0, 0, 0, 0), 0, addr(255, 255, 255, 255)));
    assert!(cidr_match(addr(10, 0, 0, 1), 32, addr(10, 0, 0, 1)));
    assert!(!cidr_match(addr(10, 0, 0, 1), 32, addr(10, 0, 0, 2)));
}

#[test]
fn fake_ranges_hold_the_loopback_entry() {
    let ranges = FakeIpRanges::new().get();
    assert_eq!(ranges.sync_token, String::new());
    assert_eq!(ranges.create_date, String::new());
    assert_eq!(ranges.prefixes.len(), 1);
    assert_eq!(ranges.prefixes[0].ip_prefix, String::from("127.0.0.0/8"));
    assert_eq!(ranges.prefixes[0].region, String::from("EUC"));
    assert_eq!(ranges.prefixes[0].service, String::from("n/a"));
    assert_eq!(ranges.prefixes[0].network_border_group, String::from("n/a"));
}

#[test]
fn loopback_address_matches_fake_table() {
    let ranges = FakeIpRanges::new().get();
    let matched = match_ip(&ranges.prefixes, addr(127, 0, 0, 1)).unwrap();
    assert_eq!(matched, Some(String::from("EUC")));
}

fn tcp_row(pids: Vec<u32>, remote: u32, port: u16) -> SocketRecord {
    SocketRecord {
        associated_pids: pids,
        tcp: Some(TcpEndpoint { remote_addr: remote, remote_port: port }),
    }
}

#[test]
fn first_matching_socket_yields_its_remote_address() {
    let sockets = vec![
        tcp_row(vec![1, 2], addr(10, 0, 0, 1), 6040),
        tcp_row(vec![42], addr(203, 0, 113, 5), 6040),
    ];
    assert_eq!(find_process_ips(&sockets, 42, 6040), vec![addr(203, 0, 113, 5)]);
}

#[test]
fn only_the_first_socket_of_the_process_counts() {
    let sockets = vec![
        tcp_row(vec![42], addr(10, 0, 0, 1), 1234),
        tcp_row(vec![42], addr(203, 0, 113, 5), 6040),
    ];
    assert_eq!(find_process_ips(&sockets, 42, 6040), Vec::<u32>::new());
}

#[test]
fn non_tcp_socket_yields_nothing() {
    let sockets = vec![SocketRecord { associated_pids: vec![42], tcp: None }];
    assert_eq!(find_process_ips(&sockets, 42, 6040), Vec::<u32>::new());
}

#[test]
fn unrelated_process_yields_nothing() {
    let sockets = vec![tcp_row(vec![7], addr(10, 0, 0, 1), 6040)];
    assert_eq!(find_process_ips(&sockets, 42, 6040), Vec::<u32>::new());
}

#[test]
fn refresh_keeps_a_live_cached_id() {
    assert_eq!(resolve_process_id(Some(42), PidProbe::Refreshed { alive: true }), Some(42));
    assert_eq!(resolve_process_id(Some(42), PidProbe::Refreshed { alive: false }), None);
    assert_eq!(resolve_process_id(None, PidProbe::Scanned { found: Some(7) }), Some(7));
    assert_eq!(resolve_process_id(None, PidProbe::Scanned { found: None }), None);
}

#[test]
fn uncovered_endpoint_reduces_toward_not_listening() {
    let table = vec![entry("203.0.113.0/24", "EU")];
    let sockets = vec![tcp_row(vec![42], addr(198, 51, 100, 1), 6040)];
    let mut last = ProcessState::Unknown;
    let (emissions, fault) = poll_step(&mut last, Some(42), &sockets, 6040, &table);
    assert!(fault.is_none());
    assert_eq!(emissions, vec![ProcessState::ProcessRunning, ProcessState::ProcessNotListening]);
    assert_eq!(last, ProcessState::ProcessNotListening);
}

#[test]
fn covered_endpoint_reduces_toward_listening() {
    let table = vec![entry("203.0.113.0/24", "EU")];
    let sockets = vec![tcp_row(vec![42], addr(203, 0, 113, 5), 6040)];
    let mut last = ProcessState::Unknown;
    let (emissions, fault) = poll_step(&mut last, Some(42), &sockets, 6040, &table);
    assert!(fault.is_none());
    assert_eq!(
        emissions,
        vec![
            ProcessState::ProcessRunning,
            ProcessState::ProcessListening(String::from("EU")),
        ]
    );
    assert_eq!(last, ProcessState::ProcessListening(String::from("EU")));
}

#[test]
fn no_socket_reduces_toward_not_listening() {
    let table = vec![entry("203.0.113.0/24", "EU")];
    let sockets: Vec<SocketRecord> = Vec::new();
    let mut last = ProcessState::ProcessListening(String::from("EU"));
    let (emissions, fault) = poll_step(&mut last, Some(42), &sockets, 6040, &table);
    assert!(fault.is_none());
    assert_eq!(emissions, vec![ProcessState::ProcessNotListening]);
    assert_eq!(last, ProcessState::ProcessNotListening);
}

#[test]
fn lost_process_id_resolves_to_stopped() {
    let table = vec![entry("203.0.113.0/24", "EU")];
    let sockets: Vec<SocketRecord> = Vec::new();
    let mut last = ProcessState::ProcessListening(String::from("EU"));
    let (emissions, fault) = poll_step(&mut last, None, &sockets, 6040, &table);
    assert!(fault.is_none());
    assert_eq!(emissions, vec![ProcessState::ProcesStopped]);
    assert_eq!(last, ProcessState::ProcesStopped);
}

#[test]
fn malformed_table_entry_aborts_the_tick() {
    let table = vec![entry("bogus/99", "EU")];
    let sockets = vec![tcp_row(vec![42], addr(203, 0, 113, 5), 6040)];
    let mut last = ProcessState::Unknown;
    let (emissions, fault) = poll_step(&mut last, Some(42), &sockets, 6040, &table);
    assert_eq!(fault.unwrap().prefix, String::from("bogus/99"));
    assert_eq!(emissions, vec![ProcessState::ProcessRunning]);
    assert_eq!(last, ProcessState::ProcessRunning);
}
