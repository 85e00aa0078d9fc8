use nodemap::addr::{format_ipv4, hosts_in_network, parse_ipv4, str_eq};
use nodemap::option::CommandType;
use nodemap::resolver::{
    first_ipv4_address, parse_ports_separated, ports_of_range, resolve_network_targets,
    resolve_port_spec, resolve_port_target, resolve_targets, ResolutionError,
};

fn default_ports() -> Vec<u16> {
    vec![21, 22, 23, 25, 53, 80, 110, 143, 443, 8080]
}

#[test]
fn parse_ipv4_literals() {
    assert_eq!(parse_ipv4("192.168.1.10"), Some(0xC0A8010A));
    assert_eq!(parse_ipv4("0.0.0.0"), Some(0));
    assert_eq!(parse_ipv4("255.255.255.255"), Some(0xFFFFFFFF));
    assert_eq!(parse_ipv4("127.0.0.1"), Some(0x7F000001));
    assert_eq!(parse_ipv4("203.0.113.5"), Some(0xCB007105));
}

#[test]
fn parse_ipv4_rejects_malformed() {
    assert_eq!(parse_ipv4(""), None);
    assert_eq!(parse_ipv4("1.2.3"), None);
    assert_eq!(parse_ipv4("1.2.3.4.5"), None);
    assert_eq!(parse_ipv4("256.1.1.1"), None);
    assert_eq!(parse_ipv4("01.2.3.4"), None);
    assert_eq!(parse_ipv4("a.b.c.d"), None);
    assert_eq!(parse_ipv4("1..2.3"), None);
    assert_eq!(parse_ipv4("1.2.3."), None);
    assert_eq!(parse_ipv4("example.com"), None);
}

#[test]
fn format_ipv4_dotted_quad() {
    assert_eq!(format_ipv4(0xC0A8010A), "192.168.1.10");
    assert_eq!(format_ipv4(0), "0.0.0.0");
    assert_eq!(format_ipv4(0xFFFFFFFF), "255.255.255.255");
    assert_eq!(format_ipv4(0xCB007105), "203.0.113.5");
}

#[test]
fn format_parse_round_trip() {
    for v in [0u32, 1, 0x7F000001, 0xC0A80101, 0xCB007105, 0xFFFFFFFF] {
        assert_eq!(parse_ipv4(format_ipv4(v).as_str()), Some(v));
    }
}

#[test]
fn str_eq_matches_equality() {
    assert!(str_eq("TCP", "TCP"));
    assert!(!str_eq("TCP", "tcp"));
    assert!(!str_eq("TCP", "TC"));
    assert!(str_eq("", ""));
}

#[test]
fn cidr_slash_30_yields_two_hosts() {
    // End-to-end scenario: 192.168.1.0/30 resolves to exactly the two
    // usable hosts 192.168.1.1 and 192.168.1.2.
    let hosts = hosts_in_network(0xC0A80100, 30);
    assert_eq!(hosts.len(), 2);
    assert_eq!(hosts[0], 0xC0A80101);
    assert_eq!(hosts[1], 0xC0A80102);
}

#[test]
fn cidr_host_count_formula() {
    // 2^(32 - prefix) - 2 usable hosts, network and broadcast excluded.
    assert_eq!(hosts_in_network(0x0A000000, 24).len(), 254);
    assert_eq!(hosts_in_network(0x0A000000, 28).len(), 14);
    assert_eq!(hosts_in_network(0x0A000000, 29).len(), 6);
    let hosts = hosts_in_network(0x0A000017, 24);
    assert_eq!(hosts.len(), 254);
    assert_eq!(hosts[0], 0x0A000001);
    assert_eq!(hosts[253], 0x0A0000FE);
    for w in hosts.windows(2) {
        assert!(w[0] < w[1]);
    }
}

#[test]
fn cidr_tiny_prefixes_have_no_usable_host() {
    assert_eq!(hosts_in_network(0xC0A80100, 31).len(), 0);
    assert_eq!(hosts_in_network(0xC0A80100, 32).len(), 0);
}

#[test]
fn network_spec_resolves_hosts() {
    let ts = resolve_network_targets("192.168.1.0/30");
    assert_eq!(ts.len(), 2);
    assert_eq!(ts[0].ip_addr, 0xC0A80101);
    assert_eq!(ts[1].ip_addr, 0xC0A80102);
    assert!(ts[0].ports.is_empty());
}

#[test]
fn network_spec_malformed_prefix_defaults_to_24() {
    assert_eq!(resolve_network_targets("10.0.0.0/abc").len(), 254);
    assert_eq!(resolve_network_targets("10.0.0.0/99").len(), 254);
    assert_eq!(resolve_network_targets("10.0.0.0").len(), 254);
}

#[test]
fn port_range_is_inclusive_exclusive() {
    // For a < b, both non-zero, the set is the integers in [a, b).
    let d = default_ports();
    let (ports, used_default) = resolve_port_spec("1-10", &d);
    assert_eq!(ports, vec![1, 2, 3, 4, 5, 6, 7, 8, 9]);
    assert!(!used_default);
}

#[test]
fn port_range_bad_bounds_fall_back_to_default() {
    let d = default_ports();
    for spec in ["10-5", "5-5", "0-5", "5-0", "x-5", "5-x", "-", "70000-70001"] {
        let (ports, used_default) = resolve_port_spec(spec, &d);
        assert_eq!(ports, d, "spec {:?} must fall back", spec);
        assert!(used_default, "spec {:?} must mark the default list", spec);
        assert!(!ports.is_empty());
    }
}

#[test]
fn port_csv_skips_unparsable_entries() {
    let d = default_ports();
    let (ports, used_default) = resolve_port_spec("22,x,80,70000,8080", &d);
    assert_eq!(ports, vec![22, 80, 8080]);
    assert!(!used_default);
}

#[test]
fn port_csv_single_port() {
    let d = default_ports();
    let (ports, used_default) = resolve_port_spec("80", &d);
    assert_eq!(ports, vec![80]);
    assert!(!used_default);
}

#[test]
fn port_csv_nothing_parsable_falls_back() {
    let d = default_ports();
    let (ports, used_default) = resolve_port_spec("x,y,z", &d);
    assert_eq!(ports, d);
    assert!(used_default);
}

#[test]
fn ports_separated_by_newline() {
    let ports = parse_ports_separated("22\n80\njunk\n8080", '\n');
    assert_eq!(ports, vec![22, 80, 8080]);
}

#[test]
fn ports_of_range_basics() {
    assert_eq!(ports_of_range(5, 8), vec![5, 6, 7]);
    assert_eq!(ports_of_range(8, 5), Vec::<u16>::new());
    assert_eq!(ports_of_range(5, 5), Vec::<u16>::new());
}

#[test]
fn port_target_with_csv_ports() {
    // End-to-end scenario: 203.0.113.5:22,80,8080 resolves to one target
    // with ports [22, 80, 8080] in that order.
    let d = default_ports();
    let (t, used_default) = resolve_port_target("203.0.113.5:22,80,8080", &d);
    let t = t.expect("literal host must resolve");
    assert_eq!(t.ip_addr, 0xCB007105);
    assert_eq!(t.ports, vec![22, 80, 8080]);
    assert_eq!(t.host_name, "");
    assert!(!used_default);
}

#[test]
fn port_target_with_range_ports() {
    // End-to-end scenario: 203.0.113.5:1-10 resolves to one target with
    // ports 1 through 9, the upper bound excluded.
    let d = default_ports();
    let (t, used_default) = resolve_port_target("203.0.113.5:1-10", &d);
    let t = t.expect("literal host must resolve");
    assert_eq!(t.ip_addr, 0xCB007105);
    assert_eq!(t.ports, vec![1, 2, 3, 4, 5, 6, 7, 8, 9]);
    assert!(!used_default);
}

#[test]
fn port_target_without_ports_uses_default_list() {
    let d = default_ports();
    let (t, used_default) = resolve_port_target("203.0.113.5", &d);
    let t = t.expect("literal host must resolve");
    assert_eq!(t.ip_addr, 0xCB007105);
    assert_eq!(t.ports, d);
    assert!(used_default);
}

#[test]
fn resolve_targets_port_scan() {
    let d = default_ports();
    let r = resolve_targets(CommandType::PortScan, "203.0.113.5:22,80,8080", &d);
    let (ts, used_default) = r.expect("resolution must succeed");
    assert_eq!(ts.len(), 1);
    assert_eq!(ts[0].ip_addr, 0xCB007105);
    assert_eq!(ts[0].ports, vec![22, 80, 8080]);
    assert!(!used_default);
}

#[test]
fn resolve_targets_host_scan_network() {
    let d = default_ports();
    let r = resolve_targets(CommandType::HostScan, "192.168.1.0/30", &d);
    let (ts, used_default) = r.expect("resolution must succeed");
    assert_eq!(ts.len(), 2);
    assert_eq!(ts[0].ip_addr, 0xC0A80101);
    assert_eq!(ts[1].ip_addr, 0xC0A80102);
    assert!(!used_default);
}

#[test]
fn resolve_targets_host_scan_comma_list() {
    let d = default_ports();
    let r = resolve_targets(CommandType::HostScan, "192.168.1.10,192.168.1.20", &d);
    let (ts, _) = r.expect("resolution must succeed");
    assert_eq!(ts.len(), 2);
    assert_eq!(ts[0].ip_addr, 0xC0A8010A);
    assert_eq!(ts[1].ip_addr, 0xC0A80114);
}

#[test]
fn resolve_targets_ping_literal() {
    let d = default_ports();
    let r = resolve_targets(CommandType::Ping, "203.0.113.5", &d);
    let (ts, _) = r.expect("resolution must succeed");
    assert_eq!(ts.len(), 1);
    assert_eq!(ts[0].ip_addr, 0xCB007105);
    assert!(ts[0].ports.is_empty());
}

#[test]
fn resolve_targets_uri_and_domain() {
    let d = default_ports();
    let (ts, _) = resolve_targets(CommandType::UriScan, "https://example.com/", &d).unwrap();
    assert_eq!(ts.len(), 1);
    assert_eq!(ts[0].base_uri, "https://example.com/");
    let (ts, _) = resolve_targets(CommandType::DomainScan, "example.com", &d).unwrap();
    assert_eq!(ts.len(), 1);
    assert_eq!(ts[0].base_domain, "example.com");
}

#[test]
fn resolution_is_idempotent() {
    // Resolving the same target specification twice yields the same
    // ordered target set.
    let d = default_ports();
    for spec in ["203.0.113.5:22,80,8080", "203.0.113.5:1-10", "203.0.113.5"] {
        let (a, da) = resolve_port_target(spec, &d);
        let (b, db) = resolve_port_target(spec, &d);
        let a = a.unwrap();
        let b = b.unwrap();
        assert_eq!(a.ip_addr, b.ip_addr);
        assert_eq!(a.ports, b.ports);
        assert_eq!(a.host_name, b.host_name);
        assert_eq!(da, db);
    }
    let a = resolve_network_targets("192.168.1.0/30");
    let b = resolve_network_targets("192.168.1.0/30");
    assert_eq!(a.len(), b.len());
    for (x, y) in a.iter().zip(b.iter()) {
        assert_eq!(x.ip_addr, y.ip_addr);
    }
}

#[test]
fn resolution_error_variants() {
    assert_eq!(
        ResolutionError::BadTargetSpecification,
        ResolutionError::BadTargetSpecification
    );
    assert_ne!(
        ResolutionError::NameResolutionFailed,
        ResolutionError::FileNotFound
    );
}

#[test]
fn unresolvable_port_scan_host_is_an_error() {
    let d = default_ports();
    let r = resolve_targets(CommandType::PortScan, "bad..name:80", &d);
    assert_eq!(r.err(), Some(ResolutionError::NameResolutionFailed));
}

#[test]
fn unresolvable_ping_host_is_an_error() {
    let d = default_ports();
    let r = resolve_targets(CommandType::Ping, "bad..name", &d);
    assert_eq!(r.err(), Some(ResolutionError::BadTargetSpecification));
}

#[test]
fn first_ipv4_address_takes_the_first_ipv4_entry() {
    // The resolution policy over a name resolver's answer: the first
    // entry that is an IPv4 literal wins; IPv6 entries are passed over,
    // so IPv4 is preferred whatever order the answer came in.
    let addrs = vec![
        "2001:db8::1".to_string(),
        "10.0.0.1".to_string(),
        "10.0.0.2".to_string(),
    ];
    assert_eq!(first_ipv4_address(&addrs), Some(0x0A000001));
}

#[test]
fn first_ipv4_address_order_decides_between_ipv4_entries() {
    let addrs = vec!["192.0.2.7".to_string(), "10.0.0.1".to_string()];
    assert_eq!(first_ipv4_address(&addrs), Some(0xC0000207));
}

#[test]
fn first_ipv4_address_without_ipv4_entry_is_none() {
    let addrs = vec!["2001:db8::1".to_string(), "::1".to_string()];
    assert_eq!(first_ipv4_address(&addrs), None);
    assert_eq!(first_ipv4_address(&Vec::new()), None);
}
