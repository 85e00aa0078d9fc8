//! Final result records returned to the caller of a scan run.
//!
//! These are the externally visible aggregates built once at the end of a
//! run: per-port or per-host info records plus a breakdown of stage
//! durations and a total.  All durations are in milliseconds.

use vstd::prelude::*;

verus! {

/// Exit status of a probe stage.
#[derive(Clone, Copy, Debug, PartialEq, Eq, Structural)]
pub enum ProbeStatus {
    /// Successfully completed
    Done,
    /// Interrupted by error
    Error,
    /// Execution time exceeded the configured timeout value
    Timeout,
}

impl ProbeStatus {
    pub open spec fn spec_name(self) -> Seq<char> {
        match self {
            ProbeStatus::Done => "Done"@,
            ProbeStatus::Error => "Error"@,
            ProbeStatus::Timeout => "Timeout"@,
        }
    }

    pub fn name(&self) -> (r: String)
        ensures
            r@ == self.spec_name(),
    {
        match *self {
            ProbeStatus::Done => String::from_str("Done"),
            ProbeStatus::Error => String::from_str("Error"),
            ProbeStatus::Timeout => String::from_str("Timeout"),
        }
    }
}

/// Kind of a node on a route.
#[derive(Clone, Copy, Debug, PartialEq, Eq, Structural)]
pub enum NodeType {
    /// Default gateway
    DefaultGateway,
    /// Relay node
    Relay,
    /// Destination host
    Destination,
}

/// One node on a traced route.
#[derive(Clone, Debug)]
pub struct Node {
    /// Sequence number
    pub seq: u8,
    /// IP address, in text form
    pub ip_addr: String,
    /// Host name
    pub host_name: String,
    /// Time To Live
    pub ttl: Option<u8>,
    /// Number of hops
    pub hop: Option<u8>,
    /// Node type
    pub node_type: NodeType,
    /// Round Trip Time in milliseconds
    pub rtt: u64,
}

/// Information on one scanned port of one host.
#[derive(Clone, Debug)]
pub struct PortInfo {
    pub port_number: u16,
    pub port_status: String,
    pub service_name: String,
    pub service_version: String,
    pub remark: String,
}

impl PortInfo {
    pub fn new() -> (r: PortInfo)
        ensures
            r.port_number == 0,
            r.port_status@ == Seq::<char>::empty(),
            r.service_name@ == Seq::<char>::empty(),
            r.service_version@ == Seq::<char>::empty(),
            r.remark@ == Seq::<char>::empty(),
    {
        PortInfo {
            port_number: 0,
            port_status: String::new(),
            service_name: String::new(),
            service_version: String::new(),
            remark: String::new(),
        }
    }
}

/// Information on one discovered host.
#[derive(Clone, Debug)]
pub struct HostInfo {
    pub ip_addr: String,
    pub host_name: String,
    pub mac_addr: String,
    pub vendor_info: String,
    pub os_name: String,
    pub cpe: String,
}

impl HostInfo {
    pub fn new() -> (r: HostInfo)
        ensures
            r.ip_addr@ == Seq::<char>::empty(),
            r.host_name@ == Seq::<char>::empty(),
            r.mac_addr@ == Seq::<char>::empty(),
            r.vendor_info@ == Seq::<char>::empty(),
            r.os_name@ == Seq::<char>::empty(),
            r.cpe@ == Seq::<char>::empty(),
    {
        HostInfo {
            ip_addr: String::new(),
            host_name: String::new(),
            mac_addr: String::new(),
            vendor_info: String::new(),
            os_name: String::new(),
            cpe: String::new(),
        }
    }
}

/// Result of a port-scan pipeline run.  Durations are in milliseconds.
#[derive(Clone, Debug)]
pub struct PortScanResult {
    pub ports: Vec<PortInfo>,
    pub host: HostInfo,
    pub port_scan_time: u64,
    pub service_detection_time: u64,
    pub os_detection_time: u64,
    pub total_scan_time: u64,
}

impl PortScanResult {
    pub fn new() -> (r: PortScanResult)
        ensures
            r.ports@.len() == 0,
            r.host.ip_addr@ == Seq::<char>::empty(),
            r.host.host_name@ == Seq::<char>::empty(),
            r.host.mac_addr@ == Seq::<char>::empty(),
            r.host.vendor_info@ == Seq::<char>::empty(),
            r.host.os_name@ == Seq::<char>::empty(),
            r.host.cpe@ == Seq::<char>::empty(),
            r.port_scan_time == 0,
            r.service_detection_time == 0,
            r.os_detection_time == 0,
            r.total_scan_time == 0,
    {
        PortScanResult {
            ports: Vec::new(),
            host: HostInfo::new(),
            port_scan_time: 0,
            service_detection_time: 0,
            os_detection_time: 0,
            total_scan_time: 0,
        }
    }
}

/// Result of a host-scan pipeline run.  Durations are in milliseconds.
#[derive(Clone, Debug)]
pub struct HostScanResult {
    pub hosts: Vec<HostInfo>,
    pub host_scan_time: u64,
    pub os_detection_time: u64,
    pub total_scan_time: u64,
}

impl HostScanResult {
    pub fn new() -> (r: HostScanResult)
        ensures
            r.hosts@.len() == 0,
            r.host_scan_time == 0,
            r.os_detection_time == 0,
            r.total_scan_time == 0,
    {
        HostScanResult { hosts: Vec::new(), host_scan_time: 0, os_detection_time: 0, total_scan_time: 0 }
    }
}

/// One echo reply of a ping run.
#[derive(Clone, Debug)]
pub struct PingResult {
    /// Sequence number
    pub seq: u8,
    /// IP address, in text form
    pub ip_addr: String,
    /// Host name
    pub host_name: String,
    /// Port
    pub port_number: Option<u16>,
    /// Time To Live
    pub ttl: u8,
    /// Number of hops
    pub hop: u8,
    /// Round Trip Time in milliseconds
    pub rtt: u64,
    /// Status
    pub status: ProbeStatus,
    /// Protocol
    pub protocol: String,
}

/// Statistics of a ping run.  Times are in milliseconds.
#[derive(Clone, Debug)]
pub struct PingStat {
    /// Results
    pub ping_results: Vec<PingResult>,
    /// The entire ping probe time
    pub probe_time: u64,
    /// Transmitted packets
    pub transmitted_count: usize,
    /// Received packets
    pub received_count: usize,
    /// Minimum RTT
    pub min: u64,
    /// Average RTT
    pub avg: u64,
    /// Maximum RTT
    pub max: u64,
}

impl PingStat {
    pub fn new() -> (r: PingStat)
        ensures
            r.ping_results@.len() == 0,
            r.probe_time == 0,
            r.transmitted_count == 0,
            r.received_count == 0,
            r.min == 0,
            r.avg == 0,
            r.max == 0,
    {
        PingStat {
            ping_results: Vec::new(),
            probe_time: 0,
            transmitted_count: 0,
            received_count: 0,
            min: 0,
            avg: 0,
            max: 0,
        }
    }
}

/// Result of a traceroute run.  Times are in milliseconds.
#[derive(Clone, Debug)]
pub struct TraceResult {
    /// Nodes to destination
    pub nodes: Vec<Node>,
    /// Traceroute status
    pub status: ProbeStatus,
    /// The entire traceroute time
    pub probe_time: u64,
}

impl TraceResult {
    pub fn new() -> (r: TraceResult)
        ensures
            r.nodes@.len() == 0,
            r.status == ProbeStatus::Done,
            r.probe_time == 0,
    {
        TraceResult { nodes: Vec::new(), status: ProbeStatus::Done, probe_time: 0 }
    }
}

} // verus!
