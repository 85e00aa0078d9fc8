use nodemap::get_test_ports;
use nodemap::option::{
    parse_host_scan_type, parse_port_scan_type, parse_protocol, request_method_is_post,
    CommandType, PortOption, Protocol, ScanOption, ScanType, TargetInfo, TestResult, LOCALHOST_V4,
};
use nodemap::result::{
    HostInfo, HostScanResult, PingStat, PortInfo, PortScanResult, ProbeStatus, TraceResult,
};

#[test]
fn test_ports_list() {
    assert_eq!(
        get_test_ports(),
        vec![20, 21, 22, 23, 25, 53, 80, 110, 119, 123, 143, 161, 194, 443]
    );
}

#[test]
fn command_type_names() {
    assert_eq!(CommandType::PortScan.name(), "Port scan");
    assert_eq!(CommandType::HostScan.name(), "Host scan");
    assert_eq!(CommandType::Ping.name(), "Ping");
    assert_eq!(CommandType::Traceroute.name(), "Traceroute");
    assert_eq!(CommandType::UriScan.name(), "URI scan");
    assert_eq!(CommandType::DomainScan.name(), "Domain scan");
    assert_eq!(CommandType::BatchScan.name(), "Batch scan");
    assert_eq!(CommandType::PassiveScan.name(), "Passive scan");
    assert_eq!(CommandType::PortScan.description(), "Port scan");
}

#[test]
fn protocol_names() {
    assert_eq!(Protocol::TCP.name(), "TCP");
    assert_eq!(Protocol::UDP.name(), "UDP");
    assert_eq!(Protocol::ICMPv4.name(), "ICMPv4");
    assert_eq!(Protocol::ICMPv6.name(), "ICMPv6");
}

#[test]
fn scan_type_names() {
    assert_eq!(ScanType::TcpSynScan.name(), "TCP SYN Scan");
    assert_eq!(ScanType::TcpConnectScan.name(), "TCP Connect Scan");
    assert_eq!(ScanType::IcmpPingScan.name(), "ICMP Ping Scan");
    assert_eq!(ScanType::TcpPingScan.name(), "TCP Ping Scan");
    assert_eq!(ScanType::UdpPingScan.name(), "UDP Ping Scan");
}

#[test]
fn probe_status_names() {
    assert_eq!(ProbeStatus::Done.name(), "Done");
    assert_eq!(ProbeStatus::Error.name(), "Error");
    assert_eq!(ProbeStatus::Timeout.name(), "Timeout");
}

#[test]
fn scan_option_defaults() {
    let opt = ScanOption::new();
    assert_eq!(opt.command_type, CommandType::PortScan);
    assert_eq!(opt.interface_index, 0);
    assert_eq!(opt.interface_name, "");
    assert_eq!(opt.src_ip, LOCALHOST_V4);
    assert_eq!(opt.src_port, 0);
    assert!(opt.targets.is_empty());
    assert_eq!(opt.protocol, Protocol::TCP);
    assert_eq!(opt.max_hop, 64);
    assert_eq!(opt.host_scan_type, ScanType::IcmpPingScan);
    assert_eq!(opt.port_scan_type, ScanType::TcpConnectScan);
    assert_eq!(opt.ping_type, Protocol::ICMPv4);
    assert_eq!(opt.timeout, 30000);
    assert_eq!(opt.wait_time, 200);
    assert_eq!(opt.send_rate, 0);
    assert_eq!(opt.count, 4);
    assert!(opt.default_scan);
    assert!(!opt.service_detection);
    assert!(!opt.os_detection);
    assert!(opt.async_scan);
    assert!(!opt.use_wordlist);
    assert!(!opt.use_content);
    assert!(!opt.accept_invalid_certs);
    assert_eq!(opt.save_file_path, "");
}

#[test]
fn scan_option_network_targets() {
    let mut opt = ScanOption::new();
    opt.set_dst_hosts_from_na("192.168.1.0".to_string(), 30);
    assert_eq!(opt.targets.len(), 2);
    assert_eq!(opt.targets[0].ip_addr, 0xC0A80101);
    assert_eq!(opt.targets[1].ip_addr, 0xC0A80102);
}

#[test]
fn scan_option_network_targets_skips_non_literals() {
    let mut opt = ScanOption::new();
    opt.set_dst_hosts_from_na("not-an-address".to_string(), 24);
    assert!(opt.targets.is_empty());
}

#[test]
fn scan_option_network_targets_lenient_prefix() {
    // A prefix length over 32 is malformed and falls back to 24.
    let mut opt = ScanOption::new();
    opt.set_dst_hosts_from_na("10.0.0.0".to_string(), 99);
    assert_eq!(opt.targets.len(), 254);
}

#[test]
fn scan_option_hosts_from_list_text() {
    let mut opt = ScanOption::new();
    opt.set_dst_hosts_from_list("10.0.0.1\n10.0.0.2\n".to_string());
    assert_eq!(opt.targets.len(), 2);
    assert_eq!(opt.targets[0].ip_addr, 0x0A000001);
    assert_eq!(opt.targets[1].ip_addr, 0x0A000002);
}

#[test]
fn target_info_constructors() {
    let t = TargetInfo::new();
    assert_eq!(t.ip_addr, LOCALHOST_V4);
    assert!(t.ports.is_empty());
    let t = TargetInfo::new_with_ip_addr(0x0A000001);
    assert_eq!(t.ip_addr, 0x0A000001);
    let t = TargetInfo::new_with_base_uri("https://example.com/".to_string());
    assert_eq!(t.base_uri, "https://example.com/");
    let t = TargetInfo::new_with_base_domain("example.com".to_string());
    assert_eq!(t.base_domain, "example.com");
}

#[test]
fn target_info_port_setters() {
    let mut t = TargetInfo::new();
    t.set_dst_ports_from_range(1, 4);
    assert_eq!(t.ports, vec![1, 2, 3]);
    t.set_dst_ports_from_csv("80,junk,443".to_string());
    assert_eq!(t.ports, vec![1, 2, 3, 80, 443]);
    t.set_dst_ports_from_list("8080\nx\n9090".to_string());
    assert_eq!(t.ports, vec![1, 2, 3, 80, 443, 8080, 9090]);
}

#[test]
fn target_info_reversed_range_adds_nothing() {
    let mut t = TargetInfo::new();
    t.set_dst_ports_from_range(10, 5);
    assert!(t.ports.is_empty());
}

#[test]
fn port_option_defaults() {
    let p = PortOption::new();
    assert_eq!(p.src_ip, "");
    assert_eq!(p.src_port, 53443);
    assert_eq!(p.dst_ip_addr, "");
    assert_eq!(p.dst_host_name, "");
    assert!(p.dst_ports.is_empty());
    assert_eq!(p.scan_type, "SYN");
    assert_eq!(p.timeout, 30000);
    assert_eq!(p.wait_time, 200);
    assert_eq!(p.send_rate, 0);
    assert!(!p.service_detection);
    assert!(!p.default_scan);
    assert!(!p.accept_invalid_certs);
    assert_eq!(p.save_file_path, "");
    assert!(!p.async_scan);
    assert!(!p.os_detection);
}

#[test]
fn port_option_setters() {
    let mut p = PortOption::new();
    p.set_src_port(4444);
    assert_eq!(p.src_port, 4444);
    p.set_dst_ip_addr("10.0.0.1".to_string());
    assert_eq!(p.dst_ip_addr, "10.0.0.1");
    p.set_dst_host_name("host.example".to_string());
    assert_eq!(p.dst_host_name, "host.example");
    p.set_dst_ports(vec![80, 443]);
    assert_eq!(p.dst_ports, vec![80, 443]);
    p.set_dst_ports_from_range(1, 3);
    assert_eq!(p.dst_ports, vec![80, 443, 1, 2]);
    p.set_dst_ports_from_csv("22,junk".to_string());
    assert_eq!(p.dst_ports, vec![80, 443, 1, 2, 22]);
    p.set_dst_ports_from_list("23\n25".to_string());
    assert_eq!(p.dst_ports, vec![80, 443, 1, 2, 22, 23, 25]);
    p.set_timeout(5000);
    assert_eq!(p.timeout, 5000);
    p.set_wait_time(100);
    assert_eq!(p.wait_time, 100);
    p.set_send_rate(1);
    assert_eq!(p.send_rate, 1);
    p.set_service_detection(true);
    assert!(p.service_detection);
    p.set_default_scan(true);
    assert!(p.default_scan);
    p.set_src_ip("10.0.0.9".to_string());
    assert_eq!(p.src_ip, "10.0.0.9");
    p.set_accept_invalid_certs(true);
    assert!(p.accept_invalid_certs);
    p.set_save_file_path("out.json".to_string());
    assert_eq!(p.save_file_path, "out.json");
    p.set_async_scan(true);
    assert!(p.async_scan);
    p.set_os_detection(true);
    assert!(p.os_detection);
}

#[test]
fn flag_value_parsing() {
    assert_eq!(parse_protocol("TCP"), Some(Protocol::TCP));
    assert_eq!(parse_protocol("tcp"), Some(Protocol::TCP));
    assert_eq!(parse_protocol("udp"), Some(Protocol::UDP));
    assert_eq!(parse_protocol("ICMPv4"), Some(Protocol::ICMPv4));
    assert_eq!(parse_protocol("icmpv6"), Some(Protocol::ICMPv6));
    assert_eq!(parse_protocol("sctp"), None);
    assert_eq!(parse_port_scan_type("SYN"), Some(ScanType::TcpSynScan));
    assert_eq!(parse_port_scan_type("connect"), Some(ScanType::TcpConnectScan));
    assert_eq!(parse_port_scan_type("xmas"), None);
    assert_eq!(parse_host_scan_type("ICMPv4"), Some(ScanType::IcmpPingScan));
    assert_eq!(parse_host_scan_type("icmpv6"), Some(ScanType::IcmpPingScan));
    assert_eq!(parse_host_scan_type("tcp"), Some(ScanType::TcpPingScan));
    assert_eq!(parse_host_scan_type("UDP"), Some(ScanType::UdpPingScan));
    assert_eq!(parse_host_scan_type("arp"), None);
}

#[test]
fn request_method_post_is_case_insensitive() {
    assert!(request_method_is_post("POST"));
    assert!(request_method_is_post("post"));
    assert!(request_method_is_post("Post"));
    assert!(!request_method_is_post("GET"));
    assert!(!request_method_is_post("PUT"));
    assert!(!request_method_is_post(""));
    assert!(!request_method_is_post("POSTS"));
}

#[test]
fn result_record_constructors() {
    let p = PortInfo::new();
    assert_eq!(p.port_number, 0);
    assert_eq!(p.port_status, "");
    assert_eq!(p.service_name, "");
    assert_eq!(p.service_version, "");
    assert_eq!(p.remark, "");
    let h = HostInfo::new();
    assert_eq!(h.ip_addr, "");
    assert_eq!(h.host_name, "");
    assert_eq!(h.mac_addr, "");
    assert_eq!(h.vendor_info, "");
    assert_eq!(h.os_name, "");
    assert_eq!(h.cpe, "");
    let r = PortScanResult::new();
    assert!(r.ports.is_empty());
    assert_eq!(r.total_scan_time, 0);
    let r = HostScanResult::new();
    assert!(r.hosts.is_empty());
    assert_eq!(r.total_scan_time, 0);
    let r = PingStat::new();
    assert!(r.ping_results.is_empty());
    assert_eq!(r.transmitted_count, 0);
    assert_eq!(r.received_count, 0);
    let r = TraceResult::new();
    assert!(r.nodes.is_empty());
    assert!(matches!(r.status, ProbeStatus::Done));
}

#[test]
fn test_result_record() {
    let t = TestResult { ip_addr: "10.0.0.1".to_string(), ports: vec![80] };
    assert_eq!(t.ip_addr, "10.0.0.1");
    assert_eq!(t.ports, vec![80]);
}

#[test]
fn command_entry_points_accept_a_configuration() {
    nodemap::handler::handle_ping(ScanOption::new());
    nodemap::handler::handle_trace(ScanOption::new());
    nodemap::handler::handle_domain_scan(ScanOption::new());
    nodemap::handler::handle_uri_scan(ScanOption::new());
    assert!(ScanOption::new().default_scan);
}
