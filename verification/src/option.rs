//! Run configuration for a scan.
//!
//! `ScanOption` is the immutable per-run configuration aggregate: command
//! kind, protocol, timing parameters, enabled stages, and the resolved
//! probe targets.  It is built once per invocation and handed to each
//! stage worker as an independent copy.  Durations are in milliseconds;
//! IPv4 addresses are `u32` values in network order.

use vstd::prelude::*;
use crate::addr::{spec_parse_ipv4, spec_usable_hosts, hosts_in_network, parse_ipv4, str_eq};
use crate::resolver::{
    spec_all_ipv4_tokens,
    spec_ip_list,
    spec_range_ports,
    spec_sep_ports,
    parse_ports_separated,
    ports_of_range,
    resolve_host_list,
};

verus! {

/// The IPv4 loopback address.
pub const LOCALHOST_V4: u32 = 0x7F000001;

/// Kind of command to run.
#[derive(Clone, Copy, Debug, PartialEq, Eq, Structural)]
pub enum CommandType {
    PortScan,
    HostScan,
    Ping,
    Traceroute,
    UriScan,
    DomainScan,
    BatchScan,
    PassiveScan,
}

impl CommandType {
    pub open spec fn spec_name(self) -> Seq<char> {
        match self {
            CommandType::PortScan => "Port scan"@,
            CommandType::HostScan => "Host scan"@,
            CommandType::Ping => "Ping"@,
            CommandType::Traceroute => "Traceroute"@,
            CommandType::UriScan => "URI scan"@,
            CommandType::DomainScan => "Domain scan"@,
            CommandType::BatchScan => "Batch scan"@,
            CommandType::PassiveScan => "Passive scan"@,
        }
    }

    pub fn name(&self) -> (r: String)
        ensures
            r@ == self.spec_name(),
    {
        match *self {
            CommandType::PortScan => String::from_str("Port scan"),
            CommandType::HostScan => String::from_str("Host scan"),
            CommandType::Ping => String::from_str("Ping"),
            CommandType::Traceroute => String::from_str("Traceroute"),
            CommandType::UriScan => String::from_str("URI scan"),
            CommandType::DomainScan => String::from_str("Domain scan"),
            CommandType::BatchScan => String::from_str("Batch scan"),
            CommandType::PassiveScan => String::from_str("Passive scan"),
        }
    }

    pub fn description(&self) -> (r: String)
        ensures
            r@ == self.spec_name(),
    {
        self.name()
    }
}

/// Probe protocol.
#[derive(Clone, Copy, Debug, PartialEq, Eq, Structural)]
pub enum Protocol {
    TCP,
    UDP,
    ICMPv4,
    ICMPv6,
}

impl Protocol {
    pub open spec fn spec_name(self) -> Seq<char> {
        match self {
            Protocol::TCP => "TCP"@,
            Protocol::UDP => "UDP"@,
            Protocol::ICMPv4 => "ICMPv4"@,
            Protocol::ICMPv6 => "ICMPv6"@,
        }
    }

    pub fn name(&self) -> (r: String)
        ensures
            r@ == self.spec_name(),
    {
        match *self {
            Protocol::TCP => String::from_str("TCP"),
            Protocol::UDP => String::from_str("UDP"),
            Protocol::ICMPv4 => String::from_str("ICMPv4"),
            Protocol::ICMPv6 => String::from_str("ICMPv6"),
        }
    }
}

/// Kind of probe used by the port-scan and host-scan stages.
#[derive(Clone, Copy, Debug, PartialEq, Eq, Structural)]
pub enum ScanType {
    TcpSynScan,
    TcpConnectScan,
    IcmpPingScan,
    TcpPingScan,
    UdpPingScan,
}

impl ScanType {
    pub open spec fn spec_name(self) -> Seq<char> {
        match self {
            ScanType::TcpSynScan => "TCP SYN Scan"@,
            ScanType::TcpConnectScan => "TCP Connect Scan"@,
            ScanType::IcmpPingScan => "ICMP Ping Scan"@,
            ScanType::TcpPingScan => "TCP Ping Scan"@,
            ScanType::UdpPingScan => "UDP Ping Scan"@,
        }
    }

    pub fn name(&self) -> (r: String)
        ensures
            r@ == self.spec_name(),
    {
        match *self {
            ScanType::TcpSynScan => String::from_str("TCP SYN Scan"),
            ScanType::TcpConnectScan => String::from_str("TCP Connect Scan"),
            ScanType::IcmpPingScan => String::from_str("ICMP Ping Scan"),
            ScanType::TcpPingScan => String::from_str("TCP Ping Scan"),
            ScanType::UdpPingScan => String::from_str("UDP Ping Scan"),
        }
    }
}

/// One scan destination: a resolved IPv4 address (or a base domain/URI
/// for the domain and URI scan variants), an optional host name, and the
/// ports to probe.
#[derive(Clone, Debug)]
pub struct TargetInfo {
    pub ip_addr: u32,
    pub host_name: String,
    pub ports: Vec<u16>,
    pub base_uri: String,
    pub base_domain: String,
}

impl TargetInfo {
    pub fn new() -> (r: TargetInfo)
        ensures
            r.ip_addr == LOCALHOST_V4,
            r.host_name@.len() == 0,
            r.ports@.len() == 0,
            r.base_uri@.len() == 0,
            r.base_domain@.len() == 0,
    {
        TargetInfo {
            ip_addr: LOCALHOST_V4,
            host_name: String::new(),
            ports: Vec::new(),
            base_uri: String::new(),
            base_domain: String::new(),
        }
    }

    pub fn new_with_ip_addr(ip_addr: u32) -> (r: TargetInfo)
        ensures
            r.ip_addr == ip_addr,
            r.host_name@.len() == 0,
            r.ports@.len() == 0,
            r.base_uri@.len() == 0,
            r.base_domain@.len() == 0,
    {
        TargetInfo {
            ip_addr,
            host_name: String::new(),
            ports: Vec::new(),
            base_uri: String::new(),
            base_domain: String::new(),
        }
    }

    pub fn new_with_base_uri(base_uri: String) -> (r: TargetInfo)
        ensures
            r.ip_addr == LOCALHOST_V4,
            r.host_name@.len() == 0,
            r.ports@.len() == 0,
            r.base_uri == base_uri,
            r.base_domain@.len() == 0,
    {
        TargetInfo {
            ip_addr: LOCALHOST_V4,
            host_name: String::new(),
            ports: Vec::new(),
            base_uri,
            base_domain: String::new(),
        }
    }

    pub fn new_with_base_domain(base_domain: String) -> (r: TargetInfo)
        ensures
            r.ip_addr == LOCALHOST_V4,
            r.host_name@.len() == 0,
            r.ports@.len() == 0,
            r.base_uri@.len() == 0,
            r.base_domain == base_domain,
    {
        TargetInfo {
            ip_addr: LOCALHOST_V4,
            host_name: String::new(),
            ports: Vec::new(),
            base_uri: String::new(),
            base_domain,
        }
    }

    /// Appends every port of the inclusive-exclusive range `[from_v, to_v)`.
    pub fn set_dst_ports_from_range(&mut self, from_v: u16, to_v: u16)
        ensures
            final(self).ports@ == old(self).ports@ + spec_range_ports(from_v, to_v),
            *final(self) == (TargetInfo { ports: final(self).ports, ..*old(self) }),
    {
        let mut more = ports_of_range(from_v, to_v);
        self.ports.append(&mut more);
    }

    /// Appends the ports named in comma-separated text, skipping entries
    /// that do not parse.
    pub fn set_dst_ports_from_csv(&mut self, v: String)
        ensures
            final(self).ports@ == old(self).ports@ + spec_sep_ports(v@, ','),
            *final(self) == (TargetInfo { ports: final(self).ports, ..*old(self) }),
    {
        let mut more = parse_ports_separated(v.as_str(), ',');
        self.ports.append(&mut more);
    }

    /// Appends the ports named in line-separated list text, skipping
    /// entries that do not parse.
    pub fn set_dst_ports_from_list(&mut self, v: String)
        ensures
            final(self).ports@ == old(self).ports@ + spec_sep_ports(v@, '\n'),
            *final(self) == (TargetInfo { ports: final(self).ports, ..*old(self) }),
    {
        let mut more = parse_ports_separated(v.as_str(), '\n');
        self.ports.append(&mut more);
    }
}

/// Hosts named by network notation text: the usable hosts of the network
/// when the text is an IPv4 literal, nothing otherwise.  A prefix length
/// over 32 is malformed and falls back to 24.
pub open spec fn spec_network_targets(v: Seq<char>, prefix_len: u8) -> Seq<u32> {
    match spec_parse_ipv4(v) {
        Option::Some(ip) => spec_usable_hosts(ip, if prefix_len <= 32 { prefix_len } else { 24 }),
        Option::None => Seq::empty(),
    }
}

/// The full run configuration.
#[derive(Clone, Debug)]
pub struct ScanOption {
    pub command_type: CommandType,
    pub interface_index: u32,
    pub interface_name: String,
    pub src_ip: u32,
    pub src_port: u16,
    pub targets: Vec<TargetInfo>,
    pub protocol: Protocol,
    pub max_hop: u8,
    pub host_scan_type: ScanType,
    pub port_scan_type: ScanType,
    pub ping_type: Protocol,
    pub timeout: u64,
    pub wait_time: u64,
    pub send_rate: u64,
    pub count: u32,
    pub default_scan: bool,
    pub service_detection: bool,
    pub os_detection: bool,
    pub async_scan: bool,
    pub use_wordlist: bool,
    pub use_content: bool,
    pub accept_invalid_certs: bool,
    pub wordlist_path: String,
    pub content_path: String,
    pub request_method: String,
    pub data_provider: String,
    pub save_file_path: String,
}

impl ScanOption {
    pub fn new() -> (r: ScanOption)
        ensures
            r.command_type == CommandType::PortScan,
            r.interface_index == 0,
            r.interface_name@.len() == 0,
            r.src_ip == LOCALHOST_V4,
            r.src_port == 0,
            r.targets@.len() == 0,
            r.protocol == Protocol::TCP,
            r.max_hop == 64,
            r.host_scan_type == ScanType::IcmpPingScan,
            r.port_scan_type == ScanType::TcpConnectScan,
            r.ping_type == Protocol::ICMPv4,
            r.timeout == 30000,
            r.wait_time == 200,
            r.send_rate == 0,
            r.count == 4,
            r.default_scan == true,
            r.service_detection == false,
            r.os_detection == false,
            r.async_scan == true,
            r.use_wordlist == false,
            r.use_content == false,
            r.accept_invalid_certs == false,
            r.wordlist_path@.len() == 0,
            r.content_path@.len() == 0,
            r.request_method@.len() == 0,
            r.data_provider@.len() == 0,
            r.save_file_path@.len() == 0,
    {
        ScanOption {
            command_type: CommandType::PortScan,
            interface_index: 0,
            interface_name: String::new(),
            src_ip: LOCALHOST_V4,
            src_port: 0,
            targets: Vec::new(),
            protocol: Protocol::TCP,
            max_hop: 64,
            host_scan_type: ScanType::IcmpPingScan,
            port_scan_type: ScanType::TcpConnectScan,
            ping_type: Protocol::ICMPv4,
            timeout: 30000,
            wait_time: 200,
            send_rate: 0,
            count: 4,
            default_scan: true,
            service_detection: false,
            os_detection: false,
            async_scan: true,
            use_wordlist: false,
            use_content: false,
            accept_invalid_certs: false,
            wordlist_path: String::new(),
            content_path: String::new(),
            request_method: String::new(),
            data_provider: String::new(),
            save_file_path: String::new(),
        }
    }

    /// Adds one target per usable host of the network named by `v` and
    /// `prefix_len`.  Text that is not an IPv4 literal adds nothing; only
    /// IPv4 network enumeration is supported.
    pub fn set_dst_hosts_from_na(&mut self, v: String, prefix_len: u8)
        ensures
            final(self).targets@.len() == old(self).targets@.len() + spec_network_targets(
                v@,
                prefix_len,
            ).len(),
            forall|i: int|
                0 <= i < old(self).targets@.len() ==> final(self).targets@[i] == old(
                    self,
                ).targets@[i],
            forall|i: int|
                old(self).targets@.len() <= i < final(self).targets@.len() ==> {
                    let t = #[trigger] final(self).targets@[i];
                    &&& t.ip_addr == spec_network_targets(v@, prefix_len)[i - old(
                        self,
                    ).targets@.len()]
                    &&& t.host_name@.len() == 0
                    &&& t.ports@.len() == 0
                    &&& t.base_uri@.len() == 0
                    &&& t.base_domain@.len() == 0
                },
            *final(self) == (ScanOption { targets: final(self).targets, ..*old(self) }),
    {
        let ip = match parse_ipv4(v.as_str()) {
            Some(ip) => ip,
            None => {
                return ;
            },
        };
        let prefix = if prefix_len <= 32 {
            prefix_len
        } else {
            24
        };
        let hosts = hosts_in_network(ip, prefix);
        let ghost base = self.targets@.len() as int;
        let mut i: usize = 0;
        while i < hosts.len()
            invariant
                0 <= base <= self.targets@.len(),
                i <= hosts@.len(),
                hosts@ == spec_network_targets(v@, prefix_len),
                self.targets@.len() == base + i,
                forall|j: int| 0 <= j < base ==> self.targets@[j] == old(self).targets@[j],
                forall|j: int|
                    base <= j < self.targets@.len() ==> {
                        let t = #[trigger] self.targets@[j];
                        &&& t.ip_addr == hosts@[j - base]
                        &&& t.host_name@.len() == 0
                        &&& t.ports@.len() == 0
                        &&& t.base_uri@.len() == 0
                        &&& t.base_domain@.len() == 0
                    },
                *self == (ScanOption { targets: self.targets, ..*old(self) }),
            decreases hosts@.len() - i,
        {
            let ghost before = self.targets@;
            let nt = TargetInfo::new_with_ip_addr(hosts[i]);
            self.targets.push(nt);
            proof {
                assert(self.targets@ == before.push(nt));
                assert(self.targets@.len() == base + i + 1);
                assert forall|j: int|
                    base <= j < self.targets@.len() implies {
                        let t = #[trigger] self.targets@[j];
                        &&& t.ip_addr == hosts@[j - base]
                        &&& t.host_name@.len() == 0
                        &&& t.ports@.len() == 0
                        &&& t.base_uri@.len() == 0
                        &&& t.base_domain@.len() == 0
                    } by {
                    if j < base + i {
                        assert(before.push(nt)[j] == before[j]);
                        assert(self.targets@[j] == before[j]);
                        assert({
                            let t = before[j];
                            &&& t.ip_addr == hosts@[j - base]
                            &&& t.host_name@.len() == 0
                            &&& t.ports@.len() == 0
                            &&& t.base_uri@.len() == 0
                            &&& t.base_domain@.len() == 0
                        });
                    } else {
                        assert(j == base + i);
                        assert(self.targets@[j] == before.push(
                            self.targets@[base + i as int],
                        ).last());
                    }
                }
            }
            i += 1;
        }
    }

    /// Adds one target per line of host-list text.  A line that is an
    /// IPv4 literal resolves directly; any other line is given to the
    /// system name resolver and skipped when that fails.
    pub fn set_dst_hosts_from_list(&mut self, v: String)
        ensures
            old(self).targets@.len() <= final(self).targets@.len(),
            forall|i: int|
                0 <= i < old(self).targets@.len() ==> final(self).targets@[i] == old(
                    self,
                ).targets@[i],
            forall|i: int|
                old(self).targets@.len() <= i < final(self).targets@.len() ==> {
                    let t = #[trigger] final(self).targets@[i];
                    &&& t.ports@.len() == 0
                    &&& t.base_uri@.len() == 0
                    &&& t.base_domain@.len() == 0
                },
            spec_all_ipv4_tokens(v@, '\n') ==> {
                &&& final(self).targets@.len() == old(self).targets@.len() + spec_ip_list(
                    v@,
                    '\n',
                ).len()
                &&& forall|i: int|
                    old(self).targets@.len() <= i < final(self).targets@.len() ==> (
                    #[trigger] final(self).targets@[i]).ip_addr == spec_ip_list(v@, '\n')[i - old(
                        self,
                    ).targets@.len()]
            },
            *final(self) == (ScanOption { targets: final(self).targets, ..*old(self) }),
    {
        let mut more = resolve_host_list(v.as_str(), '\n');
        self.targets.append(&mut more);
    }
}

/// Port-scan configuration exposed to embedders, with every field a
/// plain value.
#[derive(Clone, Debug)]
pub struct PortOption {
    pub src_ip: String,
    pub src_port: u16,
    pub dst_ip_addr: String,
    pub dst_host_name: String,
    pub dst_ports: Vec<u16>,
    pub scan_type: String,
    pub timeout: u64,
    pub wait_time: u64,
    pub send_rate: u64,
    pub service_detection: bool,
    pub default_scan: bool,
    pub accept_invalid_certs: bool,
    pub save_file_path: String,
    pub async_scan: bool,
    pub os_detection: bool,
}

impl PortOption {
    pub fn new() -> (r: PortOption)
        ensures
            r.src_ip@.len() == 0,
            r.src_port == 53443,
            r.dst_ip_addr@.len() == 0,
            r.dst_host_name@.len() == 0,
            r.dst_ports@.len() == 0,
            r.scan_type@ == "SYN"@,
            r.timeout == 30000,
            r.wait_time == 200,
            r.send_rate == 0,
            r.service_detection == false,
            r.default_scan == false,
            r.accept_invalid_certs == false,
            r.save_file_path@.len() == 0,
            r.async_scan == false,
            r.os_detection == false,
    {
        PortOption {
            src_ip: String::new(),
            src_port: 53443,
            dst_ip_addr: String::new(),
            dst_host_name: String::new(),
            dst_ports: Vec::new(),
            scan_type: String::from_str("SYN"),
            timeout: 30000,
            wait_time: 200,
            send_rate: 0,
            service_detection: false,
            default_scan: false,
            accept_invalid_certs: false,
            save_file_path: String::new(),
            async_scan: false,
            os_detection: false,
        }
    }

    pub fn set_src_port(&mut self, v: u16)
        ensures
            final(self).src_port == v,
            *final(self) == (PortOption { src_port: v, ..*old(self) }),
    {
        self.src_port = v;
    }

    pub fn set_dst_ip_addr(&mut self, v: String)
        ensures
            final(self).dst_ip_addr == v,
            *final(self) == (PortOption { dst_ip_addr: final(self).dst_ip_addr, ..*old(self) }),
    {
        self.dst_ip_addr = v;
    }

    pub fn set_dst_host_name(&mut self, v: String)
        ensures
            final(self).dst_host_name == v,
            *final(self) == (PortOption { dst_host_name: final(self).dst_host_name, ..*old(self) }),
    {
        self.dst_host_name = v;
    }

    pub fn set_dst_ports(&mut self, v: Vec<u16>)
        ensures
            final(self).dst_ports == v,
            *final(self) == (PortOption { dst_ports: final(self).dst_ports, ..*old(self) }),
    {
        self.dst_ports = v;
    }

    /// Appends every port of the inclusive-exclusive range `[from_v, to_v)`.
    pub fn set_dst_ports_from_range(&mut self, from_v: u16, to_v: u16)
        ensures
            final(self).dst_ports@ == old(self).dst_ports@ + spec_range_ports(from_v, to_v),
            *final(self) == (PortOption { dst_ports: final(self).dst_ports, ..*old(self) }),
    {
        let mut more = ports_of_range(from_v, to_v);
        self.dst_ports.append(&mut more);
    }

    /// Appends the ports named in comma-separated text, skipping entries
    /// that do not parse.
    pub fn set_dst_ports_from_csv(&mut self, v: String)
        ensures
            final(self).dst_ports@ == old(self).dst_ports@ + spec_sep_ports(v@, ','),
            *final(self) == (PortOption { dst_ports: final(self).dst_ports, ..*old(self) }),
    {
        let mut more = parse_ports_separated(v.as_str(), ',');
        self.dst_ports.append(&mut more);
    }

    /// Appends the ports named in line-separated list text, skipping
    /// entries that do not parse.
    pub fn set_dst_ports_from_list(&mut self, v: String)
        ensures
            final(self).dst_ports@ == old(self).dst_ports@ + spec_sep_ports(v@, '\n'),
            *final(self) == (PortOption { dst_ports: final(self).dst_ports, ..*old(self) }),
    {
        let mut more = parse_ports_separated(v.as_str(), '\n');
        self.dst_ports.append(&mut more);
    }

    pub fn set_timeout(&mut self, v: u64)
        ensures
            final(self).timeout == v,
            *final(self) == (PortOption { timeout: v, ..*old(self) }),
    {
        self.timeout = v;
    }

    pub fn set_wait_time(&mut self, v: u64)
        ensures
            final(self).wait_time == v,
            *final(self) == (PortOption { wait_time: v, ..*old(self) }),
    {
        self.wait_time = v;
    }

    pub fn set_send_rate(&mut self, v: u64)
        ensures
            final(self).send_rate == v,
            *final(self) == (PortOption { send_rate: v, ..*old(self) }),
    {
        self.send_rate = v;
    }

    pub fn set_service_detection(&mut self, v: bool)
        ensures
            final(self).service_detection == v,
            *final(self) == (PortOption { service_detection: v, ..*old(self) }),
    {
        self.service_detection = v;
    }

    pub fn set_default_scan(&mut self, v: bool)
        ensures
            final(self).default_scan == v,
            *final(self) == (PortOption { default_scan: v, ..*old(self) }),
    {
        self.default_scan = v;
    }

    pub fn set_src_ip(&mut self, v: String)
        ensures
            final(self).src_ip == v,
            *final(self) == (PortOption { src_ip: final(self).src_ip, ..*old(self) }),
    {
        self.src_ip = v;
    }

    pub fn set_accept_invalid_certs(&mut self, v: bool)
        ensures
            final(self).accept_invalid_certs == v,
            *final(self) == (PortOption { accept_invalid_certs: v, ..*old(self) }),
    {
        self.accept_invalid_certs = v;
    }

    pub fn set_save_file_path(&mut self, v: String)
        ensures
            final(self).save_file_path == v,
            *final(self) == (PortOption { save_file_path: final(self).save_file_path, ..*old(self) }),
    {
        self.save_file_path = v;
    }

    pub fn set_async_scan(&mut self, async_scan: bool)
        ensures
            final(self).async_scan == async_scan,
            *final(self) == (PortOption { async_scan: async_scan, ..*old(self) }),
    {
        self.async_scan = async_scan;
    }

    pub fn set_os_detection(&mut self, os_detection: bool)
        ensures
            final(self).os_detection == os_detection,
            *final(self) == (PortOption { os_detection: os_detection, ..*old(self) }),
    {
        self.os_detection = os_detection;
    }
}

/// Result record handed back to embedders.
#[derive(Clone, Debug)]
pub struct TestResult {
    pub ip_addr: String,
    pub ports: Vec<u16>,
}

/// Reads a protocol flag value, accepting each name in upper or lower
/// case.
pub fn parse_protocol(s: &str) -> (r: Option<Protocol>)
    ensures
        (r == Option::Some(Protocol::TCP)) <==> (s@ == "TCP"@ || s@ == "tcp"@),
        (r == Option::Some(Protocol::UDP)) <==> (s@ == "UDP"@ || s@ == "udp"@),
        (r == Option::Some(Protocol::ICMPv4)) <==> (s@ == "ICMPv4"@ || s@ == "icmpv4"@),
        (r == Option::Some(Protocol::ICMPv6)) <==> (s@ == "ICMPv6"@ || s@ == "icmpv6"@),
{
    proof {
        reveal_strlit("TCP");
        reveal_strlit("tcp");
        reveal_strlit("UDP");
        reveal_strlit("udp");
        reveal_strlit("ICMPv4");
        reveal_strlit("icmpv4");
        reveal_strlit("ICMPv6");
        reveal_strlit("icmpv6");
        assert("TCP"@.len() == 3 && "TCP"@[0] == 'T');
        assert("tcp"@.len() == 3 && "tcp"@[0] == 't');
        assert("UDP"@.len() == 3 && "UDP"@[0] == 'U');
        assert("udp"@.len() == 3 && "udp"@[0] == 'u');
        assert("ICMPv4"@.len() == 6 && "ICMPv4"@[0] == 'I' && "ICMPv4"@[5] == '4');
        assert("icmpv4"@.len() == 6 && "icmpv4"@[0] == 'i' && "icmpv4"@[5] == '4');
        assert("ICMPv6"@.len() == 6 && "ICMPv6"@[0] == 'I' && "ICMPv6"@[5] == '6');
        assert("icmpv6"@.len() == 6 && "icmpv6"@[0] == 'i' && "icmpv6"@[5] == '6');
    }
    if str_eq(s, "TCP") || str_eq(s, "tcp") {
        Some(Protocol::TCP)
    } else if str_eq(s, "UDP") || str_eq(s, "udp") {
        Some(Protocol::UDP)
    } else if str_eq(s, "ICMPv4") || str_eq(s, "icmpv4") {
        Some(Protocol::ICMPv4)
    } else if str_eq(s, "ICMPv6") || str_eq(s, "icmpv6") {
        Some(Protocol::ICMPv6)
    } else {
        None
    }
}

/// Reads a scan-type flag value as a port-scan probe kind.
pub fn parse_port_scan_type(s: &str) -> (r: Option<ScanType>)
    ensures
        (r == Option::Some(ScanType::TcpSynScan)) <==> (s@ == "SYN"@ || s@ == "syn"@),
        (r == Option::Some(ScanType::TcpConnectScan)) <==> (s@ == "CONNECT"@ || s@ == "connect"@),
        r is Some ==> (r == Option::Some(ScanType::TcpSynScan) || r == Option::Some(
            ScanType::TcpConnectScan,
        )),
{
    proof {
        reveal_strlit("SYN");
        reveal_strlit("syn");
        reveal_strlit("CONNECT");
        reveal_strlit("connect");
        assert("SYN"@.len() == 3 && "SYN"@[0] == 'S');
        assert("syn"@.len() == 3 && "syn"@[0] == 's');
        assert("CONNECT"@.len() == 7 && "CONNECT"@[0] == 'C');
        assert("connect"@.len() == 7 && "connect"@[0] == 'c');
    }
    if str_eq(s, "SYN") || str_eq(s, "syn") {
        Some(ScanType::TcpSynScan)
    } else if str_eq(s, "CONNECT") || str_eq(s, "connect") {
        Some(ScanType::TcpConnectScan)
    } else {
        None
    }
}

/// Reads a scan-type flag value as a host-scan probe kind.
pub fn parse_host_scan_type(s: &str) -> (r: Option<ScanType>)
    ensures
        (r == Option::Some(ScanType::IcmpPingScan)) <==> (s@ == "ICMPv4"@ || s@ == "icmpv4"@ || s@
            == "ICMPv6"@ || s@ == "icmpv6"@),
        (r == Option::Some(ScanType::TcpPingScan)) <==> (s@ == "TCP"@ || s@ == "tcp"@),
        (r == Option::Some(ScanType::UdpPingScan)) <==> (s@ == "UDP"@ || s@ == "udp"@),
        r is Some ==> (r == Option::Some(ScanType::IcmpPingScan) || r == Option::Some(
            ScanType::TcpPingScan,
        ) || r == Option::Some(ScanType::UdpPingScan)),
{
    proof {
        reveal_strlit("ICMPv4");
        reveal_strlit("icmpv4");
        reveal_strlit("ICMPv6");
        reveal_strlit("icmpv6");
        reveal_strlit("TCP");
        reveal_strlit("tcp");
        reveal_strlit("UDP");
        reveal_strlit("udp");
        assert("TCP"@.len() == 3 && "TCP"@[0] == 'T');
        assert("tcp"@.len() == 3 && "tcp"@[0] == 't');
        assert("UDP"@.len() == 3 && "UDP"@[0] == 'U');
        assert("udp"@.len() == 3 && "udp"@[0] == 'u');
        assert("ICMPv4"@.len() == 6 && "ICMPv4"@[0] == 'I' && "ICMPv4"@[5] == '4');
        assert("icmpv4"@.len() == 6 && "icmpv4"@[0] == 'i' && "icmpv4"@[5] == '4');
        assert("ICMPv6"@.len() == 6 && "ICMPv6"@[0] == 'I' && "ICMPv6"@[5] == '6');
        assert("icmpv6"@.len() == 6 && "icmpv6"@[0] == 'i' && "icmpv6"@[5] == '6');
    }
    if str_eq(s, "ICMPv4") || str_eq(s, "icmpv4") || str_eq(s, "ICMPv6") || str_eq(s, "icmpv6") {
        Some(ScanType::IcmpPingScan)
    } else if str_eq(s, "TCP") || str_eq(s, "tcp") {
        Some(ScanType::TcpPingScan)
    } else if str_eq(s, "UDP") || str_eq(s, "udp") {
        Some(ScanType::UdpPingScan)
    } else {
        None
    }
}

/// Numeric value of a character after ASCII upper-casing.
pub open spec fn char_upper_val(c: char) -> u32 {
    if 97 <= c as u32 && c as u32 <= 122 {
        (c as u32 - 32) as u32
    } else {
        c as u32
    }
}

/// The characters of a string after ASCII upper-casing, as numeric
/// values.
pub open spec fn spec_upper_vals(s: Seq<char>) -> Seq<u32> {
    s.map_values(|c: char| char_upper_val(c))
}

/// Whether a request-method flag selects the POST method, compared
/// without regard to case; any other value selects GET.
pub fn request_method_is_post(s: &str) -> (r: bool)
    ensures
        r == (spec_upper_vals(s@) == spec_upper_vals("POST"@)),
{
    proof {
        reveal_strlit("POST");
    }
    let len = s.unicode_len();
    if len != 4 {
        proof {
            assert(spec_upper_vals(s@).len() == s@.len());
            assert(spec_upper_vals("POST"@).len() == 4);
        }
        return false;
    }
    let expect = ['P', 'O', 'S', 'T'];
    let mut i: usize = 0;
    while i < 4
        invariant
            i <= 4,
            len == s@.len(),
            len == 4,
            expect@ =~= seq!['P', 'O', 'S', 'T'],
            "POST"@ =~= seq!['P', 'O', 'S', 'T'],
            forall|j: int| 0 <= j < i ==> char_upper_val(s@[j]) == char_upper_val("POST"@[j]),
        decreases 4 - i,
    {
        let c = s.get_char(i);
        let cv = c as u32;
        let ucv = if 97 <= cv && cv <= 122 {
            cv - 32
        } else {
            cv
        };
        let e = expect[i] as u32;
        if ucv != e {
            proof {
                assert(char_upper_val("POST"@[i as int]) == e);
                assert(spec_upper_vals(s@)[i as int] != spec_upper_vals("POST"@)[i as int]);
            }
            return false;
        }
        i += 1;
    }
    proof {
        assert forall|j: int| 0 <= j < 4 implies spec_upper_vals(s@)[j] == spec_upper_vals(
            "POST"@,
        )[j] by {}
        assert(spec_upper_vals(s@) =~= spec_upper_vals("POST"@));
    }
    true
}

} // verus!
