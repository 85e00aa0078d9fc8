use nodemap::fingerprint::SignatureEntry;
use nodemap::option::{Protocol, ScanOption};
use nodemap::result::{Node, NodeType, ProbeStatus};
use nodemap::scan::{
    build_host_info, build_ping_stat, build_port_scan_result, build_trace_result,
    compose_host_scan_result, compose_port_scan_result, detection_targets, open_ports,
    should_run_os_detection, should_run_service_detection, DiscoveredHost, EchoReply,
    OsDetectionOutput, PortResult, PortScanStageOutput, PortState, ProgressMessage, ScanStage,
    ServiceDetectionOutput, StageOutcome, TargetPortResults,
};

fn service_table() -> Vec<(u16, String)> {
    vec![
        (22, "ssh".to_string()),
        (80, "http".to_string()),
        (443, "https".to_string()),
    ]
}

fn ps_output(results: Vec<TargetPortResults>, scan_time: u64) -> PortScanStageOutput {
    PortScanStageOutput { status: ProbeStatus::Done, results, scan_time }
}

fn target_results(ip_addr: u32, ports: Vec<(u16, PortState)>) -> TargetPortResults {
    TargetPortResults {
        ip_addr,
        ports: ports.into_iter().map(|(port, state)| PortResult { port, state }).collect(),
    }
}

#[test]
fn open_ports_filters_and_keeps_order() {
    let t = target_results(
        0x7F000001,
        vec![
            (22, PortState::Open),
            (23, PortState::Closed),
            (80, PortState::Open),
            (443, PortState::Filtered),
        ],
    );
    assert_eq!(open_ports(&t.ports), vec![22, 80]);
}

#[test]
fn detection_targets_scope_to_open_ports() {
    // The detection stages are never handed a target without confirmed
    // open ports, and the handed ports are exactly the open ones.
    let ps = ps_output(
        vec![
            target_results(0x0A000001, vec![(22, PortState::Closed), (23, PortState::Closed)]),
            target_results(0x0A000002, vec![(22, PortState::Open), (80, PortState::Open)]),
        ],
        120,
    );
    let ts = detection_targets(&ps);
    assert_eq!(ts.len(), 1);
    assert_eq!(ts[0].ip_addr, 0x0A000002);
    assert_eq!(ts[0].ports, vec![22, 80]);
    assert!(!ts[0].ports.is_empty());
}

#[test]
fn detection_skipped_without_open_ports() {
    let mut opt = ScanOption::new();
    opt.service_detection = true;
    opt.os_detection = true;
    let ps = ps_output(vec![target_results(0x0A000001, vec![(22, PortState::Closed)])], 50);
    assert!(!should_run_service_detection(&opt, &ps));
    assert!(!should_run_os_detection(&opt, &ps));
    assert!(detection_targets(&ps).is_empty());
}

#[test]
fn detection_requires_the_enable_flag() {
    let mut opt = ScanOption::new();
    opt.service_detection = false;
    opt.os_detection = false;
    let ps = ps_output(vec![target_results(0x0A000001, vec![(22, PortState::Open)])], 50);
    assert!(!should_run_service_detection(&opt, &ps));
    assert!(!should_run_os_detection(&opt, &ps));
    let mut opt2 = ScanOption::new();
    opt2.service_detection = true;
    assert!(should_run_service_detection(&opt2, &ps));
}

#[test]
fn port_scan_result_resolves_service_labels() {
    let entries = vec![
        PortResult { port: 22, state: PortState::Open },
        PortResult { port: 80, state: PortState::Open },
        PortResult { port: 8080, state: PortState::Open },
    ];
    let detected = vec![(80, "nginx 1.24".to_string())];
    let r = build_port_scan_result(
        &entries,
        &service_table(),
        &detected,
        "10.0.0.2".to_string(),
        "host.example".to_string(),
        "Linux".to_string(),
        "cpe:/o:linux:linux_kernel".to_string(),
        100,
        20,
        3,
    );
    assert_eq!(r.ports.len(), 3);
    assert_eq!(r.ports[0].port_number, 22);
    assert_eq!(r.ports[0].port_status, "Open");
    assert_eq!(r.ports[0].service_name, "ssh");
    assert_eq!(r.ports[0].service_version, "");
    // The detection result overrides the generic table lookup.
    assert_eq!(r.ports[1].service_name, "nginx 1.24");
    assert_eq!(r.ports[1].service_version, "nginx 1.24");
    // A port in neither table gets an empty label.
    assert_eq!(r.ports[2].service_name, "");
    assert_eq!(r.host.ip_addr, "10.0.0.2");
    assert_eq!(r.host.os_name, "Linux");
    assert_eq!(r.port_scan_time, 100);
    assert_eq!(r.service_detection_time, 20);
    assert_eq!(r.os_detection_time, 3);
    assert_eq!(r.total_scan_time, 123);
}

#[test]
fn total_duration_is_sum_of_stage_durations() {
    // For every combination of enabled stages, the total is exactly the
    // sum, a skipped stage contributing zero.
    let db: Vec<SignatureEntry> = vec![];
    let table = service_table();
    let ps = ps_output(vec![target_results(0x7F000001, vec![(22, PortState::Open)])], 100);

    let (r, _) = compose_port_scan_result(&ps, &None, &None, &db, &table);
    assert_eq!((r.port_scan_time, r.service_detection_time, r.os_detection_time), (100, 0, 0));
    assert_eq!(r.total_scan_time, 100);

    let (r, _) = compose_port_scan_result(&ps, &Some(sd_output(20)), &None, &db, &table);
    assert_eq!((r.port_scan_time, r.service_detection_time, r.os_detection_time), (100, 20, 0));
    assert_eq!(r.total_scan_time, 120);

    let (r, _) = compose_port_scan_result(&ps, &None, &Some(od_output(7)), &db, &table);
    assert_eq!((r.port_scan_time, r.service_detection_time, r.os_detection_time), (100, 0, 7));
    assert_eq!(r.total_scan_time, 107);

    let (r, _) = compose_port_scan_result(&ps, &Some(sd_output(20)), &Some(od_output(7)), &db, &table);
    assert_eq!((r.port_scan_time, r.service_detection_time, r.os_detection_time), (100, 20, 7));
    assert_eq!(r.total_scan_time, 127);
}

fn sd_output(detection_time: u64) -> ServiceDetectionOutput {
    ServiceDetectionOutput { services: vec![], detection_time }
}

fn od_output(detection_time: u64) -> OsDetectionOutput {
    OsDetectionOutput {
        fingerprint: nodemap::fingerprint::TcpFingerprint {
            syn_ack_samples: vec![],
            ecn: nodemap::fingerprint::EcnFingerprint {
                tcp_ecn_support: false,
                ip_df: false,
                tcp_window_size: 0,
                tcp_option_order: vec![],
            },
        },
        detection_time,
    }
}

#[test]
fn skipped_service_detection_yields_empty_and_zero() {
    // End-to-end scenario: a run with service detection enabled whose
    // port scan finds zero open ports for the only target yields an
    // empty port list, a zero service-detection duration, and a report
    // that says the stage was skipped.
    let mut opt = ScanOption::new();
    opt.service_detection = true;
    opt.os_detection = false;
    let ps = ps_output(vec![target_results(0x7F000001, vec![])], 42);
    assert!(!should_run_service_detection(&opt, &ps));
    let db: Vec<SignatureEntry> = vec![];
    let (r, report) = compose_port_scan_result(&ps, &None, &None, &db, &service_table());
    assert!(r.ports.is_empty());
    assert_eq!(r.service_detection_time, 0);
    assert_eq!(report.service_detection, StageOutcome::Skipped);
    assert_eq!(report.os_detection, StageOutcome::Skipped);
    assert_eq!(report.port_scan_status, ProbeStatus::Done);
    assert_eq!(r.total_scan_time, 42);
}

#[test]
fn empty_port_scan_report_yields_empty_result() {
    let db: Vec<SignatureEntry> = vec![];
    let ps = ps_output(vec![], 42);
    let (r, _) = compose_port_scan_result(&ps, &None, &None, &db, &service_table());
    assert!(r.ports.is_empty());
    assert_eq!(r.total_scan_time, 0);
}

#[test]
fn ping_stat_with_no_reply_is_zeroed() {
    // End-to-end scenario: a ping run with zero successful echoes keeps
    // the configured probe count as transmitted, reports zero received,
    // and zero minimum/average/maximum rather than failing.
    let replies: Vec<EchoReply> = vec![];
    let stat = build_ping_stat(&replies, 4, 4000, Protocol::ICMPv4, None);
    assert_eq!(stat.transmitted_count, 4);
    assert_eq!(stat.received_count, 0);
    assert_eq!(stat.min, 0);
    assert_eq!(stat.avg, 0);
    assert_eq!(stat.max, 0);
    assert!(stat.ping_results.is_empty());
    assert_eq!(stat.probe_time, 4000);
}

fn echo(seq: u8, rtt: u64) -> EchoReply {
    EchoReply {
        seq,
        ip_addr: "203.0.113.5".to_string(),
        host_name: String::new(),
        ttl: 64,
        hop: 1,
        rtt,
    }
}

#[test]
fn ping_stat_statistics_are_exact() {
    let replies = vec![echo(1, 10), echo(2, 40), echo(3, 22)];
    let stat = build_ping_stat(&replies, 3, 100, Protocol::TCP, Some(80));
    assert_eq!(stat.transmitted_count, 3);
    assert_eq!(stat.received_count, 3);
    assert_eq!(stat.min, 10);
    assert_eq!(stat.max, 40);
    assert_eq!(stat.avg, 24);
    assert_eq!(stat.ping_results.len(), 3);
    assert_eq!(stat.ping_results[0].seq, 1);
    assert_eq!(stat.ping_results[0].rtt, 10);
    assert_eq!(stat.ping_results[0].port_number, Some(80));
    assert_eq!(stat.ping_results[0].protocol, "TCP");
    assert!(matches!(stat.ping_results[0].status, ProbeStatus::Done));
}

fn oui_map() -> Vec<(Vec<u8>, String)> {
    vec![
        (b"AA:BB:CC".to_vec(), "ExampleVendor".to_string()),
        (b"11:22:33".to_vec(), "OtherVendor".to_string()),
    ]
}

fn ttl_map() -> Vec<(u8, String)> {
    vec![(64, "Linux".to_string()), (128, "Windows".to_string())]
}

#[test]
fn vendor_lookup_truncates_and_uppercases() {
    // A full MAC address is truncated to its 8-character OUI prefix,
    // upper-cased, before the dictionary lookup.
    let h = build_host_info(
        "10.0.0.9".to_string(),
        String::new(),
        "aa:bb:cc:dd:ee:ff".to_string(),
        &oui_map(),
        &ttl_map(),
        64,
    );
    assert_eq!(h.vendor_info, "ExampleVendor");
    assert_eq!(h.mac_addr, "aa:bb:cc:dd:ee:ff");
    assert_eq!(h.os_name, "Linux");
    assert_eq!(h.cpe, "");
}

#[test]
fn short_mac_is_looked_up_verbatim() {
    let h = build_host_info(
        "10.0.0.9".to_string(),
        String::new(),
        "AA:BB:CC".to_string(),
        &oui_map(),
        &ttl_map(),
        128,
    );
    assert_eq!(h.vendor_info, "ExampleVendor");
    assert_eq!(h.os_name, "Windows");
    let h = build_host_info(
        "10.0.0.9".to_string(),
        String::new(),
        "aa:bb:cc".to_string(),
        &oui_map(),
        &ttl_map(),
        7,
    );
    // A short MAC is not upper-cased, and an unknown TTL gives no guess.
    assert_eq!(h.vendor_info, "");
    assert_eq!(h.os_name, "");
}

#[test]
fn host_scan_result_totals_and_enrichment() {
    let hosts = vec![
        DiscoveredHost { ip_addr: 0x7F000001, ttl: 64 },
        DiscoveredHost { ip_addr: 0x7F000002, ttl: 128 },
    ];
    let mac_map = vec![(0x7F000001u32, "aa:bb:cc:dd:ee:ff".to_string())];
    let r = compose_host_scan_result(&hosts, &mac_map, &oui_map(), &ttl_map(), 90, 10);
    assert_eq!(r.hosts.len(), 2);
    assert_eq!(r.hosts[0].ip_addr, "127.0.0.1");
    assert_eq!(r.hosts[0].mac_addr, "aa:bb:cc:dd:ee:ff");
    assert_eq!(r.hosts[0].vendor_info, "ExampleVendor");
    assert_eq!(r.hosts[0].os_name, "Linux");
    assert_eq!(r.hosts[1].mac_addr, "");
    assert_eq!(r.hosts[1].os_name, "Windows");
    assert_eq!(r.host_scan_time, 90);
    assert_eq!(r.os_detection_time, 10);
    assert_eq!(r.total_scan_time, 100);
}

#[test]
fn trace_result_carries_its_nodes() {
    let nodes = vec![Node {
        seq: 1,
        ip_addr: "10.0.0.1".to_string(),
        host_name: String::new(),
        ttl: Some(64),
        hop: Some(1),
        node_type: NodeType::DefaultGateway,
        rtt: 3,
    }];
    let r = build_trace_result(nodes, ProbeStatus::Done, 30);
    assert_eq!(r.nodes.len(), 1);
    assert_eq!(r.nodes[0].ip_addr, "10.0.0.1");
    assert!(matches!(r.status, ProbeStatus::Done));
    assert_eq!(r.probe_time, 30);
}

#[test]
fn progress_markers_round_trip() {
    for stage in [
        ScanStage::PortScan,
        ScanStage::ServiceDetection,
        ScanStage::OsDetection,
        ScanStage::HostScan,
        ScanStage::ArpScan,
    ] {
        let started = ProgressMessage::StageStarted(stage).text();
        match ProgressMessage::from_text(started) {
            ProgressMessage::StageStarted(s) => assert_eq!(s, stage),
            _ => panic!("start marker must be recognized"),
        }
        let finished = ProgressMessage::StageFinished(stage).text();
        match ProgressMessage::from_text(finished) {
            ProgressMessage::StageFinished(s) => assert_eq!(s, stage),
            _ => panic!("end marker must be recognized"),
        }
    }
}

#[test]
fn progress_marker_texts() {
    assert_eq!(ProgressMessage::StageStarted(ScanStage::PortScan).text(), "START_PORTSCAN");
    assert_eq!(ProgressMessage::StageFinished(ScanStage::PortScan).text(), "END_PORTSCAN");
    assert_eq!(
        ProgressMessage::StageStarted(ScanStage::ServiceDetection).text(),
        "START_SERVICEDETECTION"
    );
    assert_eq!(ProgressMessage::StageFinished(ScanStage::OsDetection).text(), "END_OSDETECTION");
    assert_eq!(ProgressMessage::StageStarted(ScanStage::HostScan).text(), "START_HOSTSCAN");
    assert_eq!(ProgressMessage::StageFinished(ScanStage::ArpScan).text(), "END_ARPSCAN");
}

#[test]
fn free_form_progress_lines_pass_through() {
    let line = "203.0.113.5:443".to_string();
    match ProgressMessage::from_text(line) {
        ProgressMessage::ProbeUpdate(t) => assert_eq!(t, "203.0.113.5:443"),
        _ => panic!("a free-form line must stay a probe update"),
    }
}

#[test]
fn port_state_names() {
    assert_eq!(PortState::Open.name(), "Open");
    assert_eq!(PortState::Closed.name(), "Closed");
    assert_eq!(PortState::Filtered.name(), "Filtered");
    assert_eq!(PortState::Unknown.name(), "Unknown");
}
