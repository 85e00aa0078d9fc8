//! Stage pipeline orchestration and result aggregation.
//!
//! A scan run is a sequence of dependent probe stages.  The probe engines
//! that put packets on the wire are external: the caller runs them and
//! hands their outputs back here.  This module decides which stage may
//! run and on which targets (service detection and OS fingerprinting are
//! scoped to exactly the confirmed-open ports of the port scan), defines
//! the progress protocol spoken over the caller's channel, and folds the
//! stage outputs and durations into the final result records.

use vstd::prelude::*;
use vstd::string::StringSliceAdditionalSpecFns;
use crate::addr::{format_ipv4, spec_format_ipv4};
use crate::fingerprint::{spec_best_index, SignatureEntry, TcpFingerprint, verify_fingerprints};
use crate::option::{Protocol, ScanOption, TargetInfo};
use crate::resolver::lookup_reverse_name;
use crate::result::{
    HostInfo,
    HostScanResult,
    Node,
    PingResult,
    PingStat,
    PortInfo,
    PortScanResult,
    ProbeStatus,
    TraceResult,
};

verus! {

/// One probe stage with progress markers on the channel.
#[derive(Clone, Copy, Debug, PartialEq, Eq, Structural)]
pub enum ScanStage {
    PortScan,
    ServiceDetection,
    OsDetection,
    HostScan,
    ArpScan,
}

impl ScanStage {
    /// Channel text announcing entry into the stage.
    pub open spec fn spec_start_marker(self) -> Seq<char> {
        match self {
            ScanStage::PortScan => "START_PORTSCAN"@,
            ScanStage::ServiceDetection => "START_SERVICEDETECTION"@,
            ScanStage::OsDetection => "START_OSDETECTION"@,
            ScanStage::HostScan => "START_HOSTSCAN"@,
            ScanStage::ArpScan => "START_ARPSCAN"@,
        }
    }

    /// Channel text announcing that the stage has concluded.
    pub open spec fn spec_end_marker(self) -> Seq<char> {
        match self {
            ScanStage::PortScan => "END_PORTSCAN"@,
            ScanStage::ServiceDetection => "END_SERVICEDETECTION"@,
            ScanStage::OsDetection => "END_OSDETECTION"@,
            ScanStage::HostScan => "END_HOSTSCAN"@,
            ScanStage::ArpScan => "END_ARPSCAN"@,
        }
    }

    pub fn start_marker(&self) -> (r: String)
        ensures
            r@ == self.spec_start_marker(),
    {
        match *self {
            ScanStage::PortScan => String::from_str("START_PORTSCAN"),
            ScanStage::ServiceDetection => String::from_str("START_SERVICEDETECTION"),
            ScanStage::OsDetection => String::from_str("START_OSDETECTION"),
            ScanStage::HostScan => String::from_str("START_HOSTSCAN"),
            ScanStage::ArpScan => String::from_str("START_ARPSCAN"),
        }
    }

    pub fn end_marker(&self) -> (r: String)
        ensures
            r@ == self.spec_end_marker(),
    {
        match *self {
            ScanStage::PortScan => String::from_str("END_PORTSCAN"),
            ScanStage::ServiceDetection => String::from_str("END_SERVICEDETECTION"),
            ScanStage::OsDetection => String::from_str("END_OSDETECTION"),
            ScanStage::HostScan => String::from_str("END_HOSTSCAN"),
            ScanStage::ArpScan => String::from_str("END_ARPSCAN"),
        }
    }
}

/// One message of the progress protocol: a stage transition or a
/// free-form per-probe update line.
#[derive(Clone, Debug)]
pub enum ProgressMessage {
    StageStarted(ScanStage),
    StageFinished(ScanStage),
    ProbeUpdate(String),
}

impl ProgressMessage {
    /// The channel text of the message.
    pub fn text(self) -> (r: String)
        ensures
            match self {
                ProgressMessage::StageStarted(st) => r@ == st.spec_start_marker(),
                ProgressMessage::StageFinished(st) => r@ == st.spec_end_marker(),
                ProgressMessage::ProbeUpdate(t) => r == t,
            },
    {
        match self {
            ProgressMessage::StageStarted(st) => st.start_marker(),
            ProgressMessage::StageFinished(st) => st.end_marker(),
            ProgressMessage::ProbeUpdate(t) => t,
        }
    }

    /// Reads channel text back into a message: a recognized marker
    /// becomes the matching stage transition, any other line a free-form
    /// probe update.
    pub fn from_text(s: String) -> (r: ProgressMessage)
        ensures
            match r {
                ProgressMessage::StageStarted(st) => s@ == st.spec_start_marker(),
                ProgressMessage::StageFinished(st) => s@ == st.spec_end_marker(),
                ProgressMessage::ProbeUpdate(t) => t == s && (forall|st: ScanStage|
                    s@ != #[trigger] st.spec_start_marker() && s@ != st.spec_end_marker()),
            },
    {
        let stages = [
            ScanStage::PortScan,
            ScanStage::ServiceDetection,
            ScanStage::OsDetection,
            ScanStage::HostScan,
            ScanStage::ArpScan,
        ];
        let mut i: usize = 0;
        while i < 5
            invariant
                i <= 5,
                stages@ =~= seq![
                    ScanStage::PortScan,
                    ScanStage::ServiceDetection,
                    ScanStage::OsDetection,
                    ScanStage::HostScan,
                    ScanStage::ArpScan,
                ],
                forall|j: int|
                    0 <= j < i ==> s@ != (#[trigger] stages@[j]).spec_start_marker() && s@
                        != stages@[j].spec_end_marker(),
            decreases 5 - i,
        {
            let st = stages[i];
            if s == st.start_marker() {
                return ProgressMessage::StageStarted(st);
            }
            if s == st.end_marker() {
                return ProgressMessage::StageFinished(st);
            }
            i += 1;
        }
        proof {
            assert forall|st: ScanStage|
                s@ != #[trigger] st.spec_start_marker() && s@ != st.spec_end_marker() by {
                assert(st == ScanStage::PortScan || st == ScanStage::ServiceDetection || st
                    == ScanStage::OsDetection || st == ScanStage::HostScan || st
                    == ScanStage::ArpScan);
                if st == ScanStage::PortScan {
                    assert(stages@[0] == st);
                } else if st == ScanStage::ServiceDetection {
                    assert(stages@[1] == st);
                } else if st == ScanStage::OsDetection {
                    assert(stages@[2] == st);
                } else if st == ScanStage::HostScan {
                    assert(stages@[3] == st);
                } else {
                    assert(stages@[4] == st);
                }
            }
        }
        ProgressMessage::ProbeUpdate(s)
    }
}

/// State of one scanned port as the port-scan engine reported it.
#[derive(Clone, Copy, Debug, PartialEq, Eq, Structural)]
pub enum PortState {
    Open,
    Closed,
    Filtered,
    Unknown,
}

impl PortState {
    pub open spec fn spec_name(self) -> Seq<char> {
        match self {
            PortState::Open => "Open"@,
            PortState::Closed => "Closed"@,
            PortState::Filtered => "Filtered"@,
            PortState::Unknown => "Unknown"@,
        }
    }

    pub fn name(&self) -> (r: String)
        ensures
            r@ == self.spec_name(),
    {
        match *self {
            PortState::Open => String::from_str("Open"),
            PortState::Closed => String::from_str("Closed"),
            PortState::Filtered => String::from_str("Filtered"),
            PortState::Unknown => String::from_str("Unknown"),
        }
    }
}

/// One (port, state) pair reported by the port-scan engine.
#[derive(Clone, Copy, Debug, PartialEq, Eq, Structural)]
pub struct PortResult {
    pub port: u16,
    pub state: PortState,
}

/// The port results of one destination.
#[derive(Clone, Debug)]
pub struct TargetPortResults {
    pub ip_addr: u32,
    pub ports: Vec<PortResult>,
}

/// What the port-scan probe engine returned: a status, the per-target
/// port results, and the stage's wall-clock duration in milliseconds.
#[derive(Clone, Debug)]
pub struct PortScanStageOutput {
    pub status: ProbeStatus,
    pub results: Vec<TargetPortResults>,
    pub scan_time: u64,
}

/// The ports reported open, in report order.
pub open spec fn spec_open_ports(ps: Seq<PortResult>) -> Seq<u16>
    decreases ps.len(),
{
    if ps.len() == 0 {
        Seq::empty()
    } else {
        spec_open_ports(ps.drop_last()) + (if ps.last().state == PortState::Open {
            seq![ps.last().port]
        } else {
            Seq::empty()
        })
    }
}

/// Every port in the open list was reported open.
pub proof fn lemma_open_ports_are_open(ps: Seq<PortResult>)
    ensures
        forall|i: int|
            0 <= i < spec_open_ports(ps).len() ==> exists|k: int|
                0 <= k < ps.len() && (#[trigger] spec_open_ports(ps)[i]) == ps[k].port && ps[k].state
                    == PortState::Open,
    decreases ps.len(),
{
    if ps.len() > 0 {
        lemma_open_ports_are_open(ps.drop_last());
        assert forall|i: int|
            0 <= i < spec_open_ports(ps).len() implies exists|k: int|
                0 <= k < ps.len() && (#[trigger] spec_open_ports(ps)[i]) == ps[k].port && ps[k].state
                    == PortState::Open by {
            let pre = spec_open_ports(ps.drop_last());
            if i < pre.len() {
                let k = choose|k: int|
                    0 <= k < ps.drop_last().len() && pre[i] == ps.drop_last()[k].port
                        && ps.drop_last()[k].state == PortState::Open;
                assert(ps[k] == ps.drop_last()[k]);
            } else {
                assert(ps.last().state == PortState::Open);
                assert(spec_open_ports(ps)[i] == ps.last().port);
                assert(ps[ps.len() - 1] == ps.last());
            }
        }
    }
}

/// Collects the ports reported open.
pub fn open_ports(ps: &Vec<PortResult>) -> (r: Vec<u16>)
    ensures
        r@ == spec_open_ports(ps@),
{
    let mut r: Vec<u16> = Vec::new();
    let mut i: usize = 0;
    while i < ps.len()
        invariant
            i <= ps@.len(),
            r@ == spec_open_ports(ps@.subrange(0, i as int)),
        decreases ps@.len() - i,
    {
        proof {
            assert(ps@.subrange(0, i + 1).drop_last() =~= ps@.subrange(0, i as int));
        }
        if ps[i].state == PortState::Open {
            r.push(ps[i].port);
        }
        i += 1;
    }
    assert(ps@.subrange(0, i as int) =~= ps@);
    r
}

/// The destinations that have at least one confirmed-open port, each
/// paired with exactly its open ports, in report order.
pub open spec fn spec_open_targets(rs: Seq<TargetPortResults>) -> Seq<(u32, Seq<u16>)>
    decreases rs.len(),
{
    if rs.len() == 0 {
        Seq::empty()
    } else {
        spec_open_targets(rs.drop_last()) + (if spec_open_ports(rs.last().ports@).len() > 0 {
            seq![(rs.last().ip_addr, spec_open_ports(rs.last().ports@))]
        } else {
            Seq::empty()
        })
    }
}

/// What the detection-stage scoping guarantees: every scoped target has
/// at least one port, and its address and port list come from one
/// destination of the port-scan report, the ports being exactly the ones
/// reported open there.
pub proof fn lemma_detection_scope(rs: Seq<TargetPortResults>)
    ensures
        forall|i: int|
            0 <= i < spec_open_targets(rs).len() ==> (#[trigger] spec_open_targets(
                rs,
            )[i]).1.len() > 0,
        forall|i: int|
            0 <= i < spec_open_targets(rs).len() ==> exists|k: int|
                0 <= k < rs.len() && (#[trigger] spec_open_targets(rs)[i]).0 == rs[k].ip_addr
                    && spec_open_targets(rs)[i].1 == spec_open_ports(rs[k].ports@),
    decreases rs.len(),
{
    if rs.len() > 0 {
        lemma_detection_scope(rs.drop_last());
        assert forall|i: int|
            0 <= i < spec_open_targets(rs).len() implies exists|k: int|
                0 <= k < rs.len() && (#[trigger] spec_open_targets(rs)[i]).0 == rs[k].ip_addr
                    && spec_open_targets(rs)[i].1 == spec_open_ports(rs[k].ports@) by {
            let pre = spec_open_targets(rs.drop_last());
            if i < pre.len() {
                let k = choose|k: int|
                    0 <= k < rs.drop_last().len() && pre[i].0 == rs.drop_last()[k].ip_addr
                        && pre[i].1 == spec_open_ports(rs.drop_last()[k].ports@);
                assert(rs[k] == rs.drop_last()[k]);
            } else {
                assert(rs[rs.len() - 1] == rs.last());
            }
        }
    }
}

/// Builds the target list for the service-detection and OS-fingerprint
/// stages: one target per destination with a confirmed-open port, scoped
/// to exactly those open ports.  The probe engines are never handed a
/// target that the port scan reported without open ports.
pub fn detection_targets(ps: &PortScanStageOutput) -> (r: Vec<TargetInfo>)
    ensures
        r@.len() == spec_open_targets(ps.results@).len(),
        forall|i: int|
            0 <= i < r@.len() ==> {
                let t = #[trigger] r@[i];
                &&& t.ip_addr == spec_open_targets(ps.results@)[i].0
                &&& t.ports@ == spec_open_targets(ps.results@)[i].1
                &&& t.ports@.len() > 0
                &&& t.host_name@.len() == 0
                &&& t.base_uri@.len() == 0
                &&& t.base_domain@.len() == 0
            },
{
    let mut r: Vec<TargetInfo> = Vec::new();
    let mut i: usize = 0;
    while i < ps.results.len()
        invariant
            i <= ps.results@.len(),
            r@.len() == spec_open_targets(ps.results@.subrange(0, i as int)).len(),
            forall|j: int|
                0 <= j < r@.len() ==> {
                    let t = #[trigger] r@[j];
                    &&& t.ip_addr == spec_open_targets(ps.results@.subrange(0, i as int))[j].0
                    &&& t.ports@ == spec_open_targets(ps.results@.subrange(0, i as int))[j].1
                    &&& t.ports@.len() > 0
                    &&& t.host_name@.len() == 0
                    &&& t.base_uri@.len() == 0
                    &&& t.base_domain@.len() == 0
                },
        decreases ps.results@.len() - i,
    {
        let ghost pre = ps.results@.subrange(0, i as int);
        proof {
            assert(ps.results@.subrange(0, i + 1).drop_last() =~= pre);
            assert(ps.results@.subrange(0, i + 1).last() == ps.results@[i as int]);
        }
        let open = open_ports(&ps.results[i].ports);
        if open.len() > 0 {
            let mut t = TargetInfo::new_with_ip_addr(ps.results[i].ip_addr);
            t.ports = open;
            r.push(t);
        }
        i += 1;
        proof {
            let cur = ps.results@.subrange(0, i as int);
            assert forall|j: int|
                0 <= j < r@.len() implies {
                    let t = #[trigger] r@[j];
                    &&& t.ip_addr == spec_open_targets(cur)[j].0
                    &&& t.ports@ == spec_open_targets(cur)[j].1
                    &&& t.ports@.len() > 0
                    &&& t.host_name@.len() == 0
                    &&& t.base_uri@.len() == 0
                    &&& t.base_domain@.len() == 0
                } by {
                if j < spec_open_targets(pre).len() {
                    assert(spec_open_targets(cur)[j] == spec_open_targets(pre)[j]);
                }
            }
        }
    }
    assert(ps.results@.subrange(0, i as int) =~= ps.results@);
    r
}

/// Whether the service-detection stage may run: it is enabled and the
/// port scan confirmed at least one open port on some destination.
pub fn should_run_service_detection(opt: &ScanOption, ps: &PortScanStageOutput) -> (b: bool)
    ensures
        b == (opt.service_detection && spec_open_targets(ps.results@).len() > 0),
{
    opt.service_detection && has_open_target(ps)
}

/// Whether the OS-fingerprint stage may run: it is enabled and the port
/// scan confirmed at least one open port on some destination.
pub fn should_run_os_detection(opt: &ScanOption, ps: &PortScanStageOutput) -> (b: bool)
    ensures
        b == (opt.os_detection && spec_open_targets(ps.results@).len() > 0),
{
    opt.os_detection && has_open_target(ps)
}

/// Whether any destination has a confirmed-open port.
fn has_open_target(ps: &PortScanStageOutput) -> (b: bool)
    ensures
        b == (spec_open_targets(ps.results@).len() > 0),
{
    let ts = detection_targets(ps);
    ts.len() > 0
}

/// View of a port-keyed label table.
pub open spec fn spec_label_table(t: Seq<(u16, String)>) -> Seq<(u16, Seq<char>)> {
    t.map_values(|p: (u16, String)| (p.0, p.1@))
}

/// The label of the first table row with the given port, if any.
pub open spec fn spec_lookup_port(table: Seq<(u16, Seq<char>)>, port: u16) -> Option<Seq<char>>
    decreases table.len(),
{
    if table.len() == 0 {
        Option::None
    } else if table[0].0 == port {
        Option::Some(table[0].1)
    } else {
        spec_lookup_port(table.drop_first(), port)
    }
}

/// Finds the label of the first table row with the given port.
fn lookup_port_label(table: &Vec<(u16, String)>, port: u16) -> (r: Option<String>)
    ensures
        match spec_lookup_port(spec_label_table(table@), port) {
            Option::Some(v) => r matches Some(s) && s@ == v,
            Option::None => r is None,
        },
{
    let ghost whole = spec_label_table(table@);
    proof {
        assert(whole.subrange(0, whole.len() as int) =~= whole);
    }
    let mut i: usize = 0;
    while i < table.len()
        invariant
            i <= table@.len(),
            whole == spec_label_table(table@),
            spec_lookup_port(whole, port) == spec_lookup_port(
                whole.subrange(i as int, whole.len() as int),
                port,
            ),
        decreases table@.len() - i,
    {
        let ghost rest = whole.subrange(i as int, whole.len() as int);
        proof {
            assert(rest[0] == whole[i as int]);
            assert(rest.drop_first() =~= whole.subrange(i + 1, whole.len() as int));
        }
        if table[i].0 == port {
            let label = table[i].1.clone();
            return Some(label);
        }
        i += 1;
    }
    proof {
        assert(whole.subrange(i as int, whole.len() as int) =~= Seq::<(u16, Seq<char>)>::empty());
    }
    None
}

/// The service name shown for a port: what the service-detection stage
/// found for it when it did, else the known-service reference table
/// entry, else empty.
pub open spec fn spec_service_name(
    table: Seq<(u16, Seq<char>)>,
    detected: Seq<(u16, Seq<char>)>,
    port: u16,
) -> Seq<char> {
    match spec_lookup_port(detected, port) {
        Option::Some(v) => v,
        Option::None => match spec_lookup_port(table, port) {
            Option::Some(v) => v,
            Option::None => Seq::empty(),
        },
    }
}

/// The service version shown for a port: what the service-detection
/// stage found, else empty.
pub open spec fn spec_service_version(detected: Seq<(u16, Seq<char>)>, port: u16) -> Seq<char> {
    match spec_lookup_port(detected, port) {
        Option::Some(v) => v,
        Option::None => Seq::empty(),
    }
}

/// The port records of a result match the port-scan report: one record
/// per reported port, in order, with its state name and the service
/// labels resolved against the reference table and the detection output.
pub open spec fn ports_match(
    ports: Seq<PortInfo>,
    entries: Seq<PortResult>,
    table: Seq<(u16, Seq<char>)>,
    detected: Seq<(u16, Seq<char>)>,
) -> bool {
    &&& ports.len() == entries.len()
    &&& forall|i: int|
        0 <= i < entries.len() ==> {
            let p = #[trigger] ports[i];
            &&& p.port_number == entries[i].port
            &&& p.port_status@ == entries[i].state.spec_name()
            &&& p.service_name@ == spec_service_name(table, detected, entries[i].port)
            &&& p.service_version@ == spec_service_version(detected, entries[i].port)
            &&& p.remark@.len() == 0
        }
}

/// Folds one destination's port results and the stage durations into the
/// final port-scan record.  The total duration is exactly the sum of the
/// three stage durations.
pub fn build_port_scan_result(
    entries: &Vec<PortResult>,
    service_table: &Vec<(u16, String)>,
    service_map: &Vec<(u16, String)>,
    ip_text: String,
    host_name: String,
    os_name: String,
    cpe: String,
    port_scan_time: u64,
    service_detection_time: u64,
    os_detection_time: u64,
) -> (r: PortScanResult)
    requires
        port_scan_time + service_detection_time + os_detection_time <= u64::MAX,
    ensures
        ports_match(
            r.ports@,
            entries@,
            spec_label_table(service_table@),
            spec_label_table(service_map@),
        ),
        r.host.ip_addr == ip_text,
        r.host.host_name == host_name,
        r.host.mac_addr@.len() == 0,
        r.host.vendor_info@.len() == 0,
        r.host.os_name == os_name,
        r.host.cpe == cpe,
        r.port_scan_time == port_scan_time,
        r.service_detection_time == service_detection_time,
        r.os_detection_time == os_detection_time,
        r.total_scan_time == port_scan_time + service_detection_time + os_detection_time,
{
    let mut ports: Vec<PortInfo> = Vec::new();
    let mut i: usize = 0;
    while i < entries.len()
        invariant
            i <= entries@.len(),
            ports_match(
                ports@,
                entries@.subrange(0, i as int),
                spec_label_table(service_table@),
                spec_label_table(service_map@),
            ),
        decreases entries@.len() - i,
    {
        let port = entries[i].port;
        let service_version = match lookup_port_label(service_map, port) {
            Some(v) => v,
            None => String::new(),
        };
        let service_name = match lookup_port_label(service_map, port) {
            Some(v) => v,
            None => match lookup_port_label(service_table, port) {
                Some(v) => v,
                None => String::new(),
            },
        };
        ports.push(
            PortInfo {
                port_number: port,
                port_status: entries[i].state.name(),
                service_name,
                service_version,
                remark: String::new(),
            },
        );
        i += 1;
        proof {
            assert(entries@.subrange(0, i as int)[i - 1] == entries@[i - 1]);
            assert forall|j: int|
                0 <= j < i implies entries@.subrange(0, i as int)[j] == entries@.subrange(
                0,
                i as int,
            )[j] by {}
            assert forall|j: int| 0 <= j < i - 1 implies #[trigger] entries@.subrange(
                0,
                i as int,
            )[j] == entries@.subrange(0, i - 1)[j] by {}
        }
    }
    assert(entries@.subrange(0, i as int) =~= entries@);
    let host = HostInfo {
        ip_addr: ip_text,
        host_name,
        mac_addr: String::new(),
        vendor_info: String::new(),
        os_name,
        cpe,
    };
    PortScanResult {
        ports,
        host,
        port_scan_time,
        service_detection_time,
        os_detection_time,
        total_scan_time: port_scan_time + service_detection_time + os_detection_time,
    }
}

/// Output of the service-detection stage: the service labels found for
/// the scanned destination's open ports, and the stage's wall-clock
/// duration in milliseconds.
pub struct ServiceDetectionOutput {
    pub services: Vec<(u16, String)>,
    pub detection_time: u64,
}

/// Output of the OS-fingerprint stage: the fingerprint captured from the
/// scanned destination, and the stage's wall-clock duration in
/// milliseconds.
pub struct OsDetectionOutput {
    pub fingerprint: TcpFingerprint,
    pub detection_time: u64,
}

/// Whether a stage ran or was skipped, so that callers can tell an empty
/// contribution from a stage that never started.
#[derive(Clone, Copy, Debug, PartialEq, Eq, Structural)]
pub enum StageOutcome {
    Ran,
    Skipped,
}

/// How each stage of the port-scan pipeline concluded.
#[derive(Clone, Copy, Debug, PartialEq, Eq, Structural)]
pub struct PortPipelineReport {
    pub port_scan_status: ProbeStatus,
    pub service_detection: StageOutcome,
    pub os_detection: StageOutcome,
}

/// Duration of an optional service-detection stage; a skipped stage
/// contributes exactly zero.
pub open spec fn spec_sd_time(sd: Option<ServiceDetectionOutput>) -> u64 {
    match sd {
        Option::Some(s) => s.detection_time,
        Option::None => 0,
    }
}

/// Duration of an optional OS-fingerprint stage; a skipped stage
/// contributes exactly zero.
pub open spec fn spec_od_time(od: Option<OsDetectionOutput>) -> u64 {
    match od {
        Option::Some(o) => o.detection_time,
        Option::None => 0,
    }
}

/// Service labels of an optional service-detection stage.
pub open spec fn spec_sd_services(sd: Option<ServiceDetectionOutput>) -> Seq<(u16, Seq<char>)> {
    match sd {
        Option::Some(s) => spec_label_table(s.services@),
        Option::None => Seq::empty(),
    }
}

/// Folds the port-scan pipeline's stage outputs into the final record
/// and a report of how each stage concluded.  The scanned destination is
/// the last one the port-scan engine reported, as the engines report a
/// single destination per run; a pipeline that reported no destination
/// yields the empty record.  The total duration is exactly the sum of
/// the durations of the stages that ran, a skipped stage contributing
/// zero.
pub fn compose_port_scan_result(
    ps: &PortScanStageOutput,
    sd: &Option<ServiceDetectionOutput>,
    od: &Option<OsDetectionOutput>,
    signature_db: &Vec<SignatureEntry>,
    service_table: &Vec<(u16, String)>,
) -> (r: (PortScanResult, PortPipelineReport))
    requires
        ps.scan_time + spec_sd_time(*sd) + spec_od_time(*od) <= u64::MAX,
    ensures
        r.1.port_scan_status == ps.status,
        r.1.service_detection == (if sd is Some {
            StageOutcome::Ran
        } else {
            StageOutcome::Skipped
        }),
        r.1.os_detection == (if od is Some {
            StageOutcome::Ran
        } else {
            StageOutcome::Skipped
        }),
        ps.results@.len() == 0 ==> {
            &&& r.0.ports@.len() == 0
            &&& r.0.port_scan_time == 0
            &&& r.0.service_detection_time == 0
            &&& r.0.os_detection_time == 0
            &&& r.0.total_scan_time == 0
        },
        ps.results@.len() > 0 ==> {
            &&& ports_match(
                r.0.ports@,
                ps.results@.last().ports@,
                spec_label_table(service_table@),
                spec_sd_services(*sd),
            )
            &&& r.0.host.ip_addr@ == spec_format_ipv4(ps.results@.last().ip_addr)
            &&& r.0.host.mac_addr@.len() == 0
            &&& r.0.host.vendor_info@.len() == 0
            &&& match *od {
                Option::Some(o) => match spec_best_index(
                    o.fingerprint,
                    signature_db@,
                    signature_db@.len() as int,
                ) {
                    Option::Some(j) => r.0.host.os_name@ == signature_db@[j].os_name@
                        && r.0.host.cpe@ == signature_db@[j].cpe@,
                    Option::None => r.0.host.os_name@.len() == 0 && r.0.host.cpe@.len() == 0,
                },
                Option::None => r.0.host.os_name@.len() == 0 && r.0.host.cpe@.len() == 0,
            }
            &&& r.0.port_scan_time == ps.scan_time
            &&& r.0.service_detection_time == spec_sd_time(*sd)
            &&& r.0.os_detection_time == spec_od_time(*od)
            &&& r.0.total_scan_time == ps.scan_time + spec_sd_time(*sd) + spec_od_time(*od)
        },
{
    let report = PortPipelineReport {
        port_scan_status: ps.status,
        service_detection: match sd {
            Some(_) => StageOutcome::Ran,
            None => StageOutcome::Skipped,
        },
        os_detection: match od {
            Some(_) => StageOutcome::Ran,
            None => StageOutcome::Skipped,
        },
    };
    if ps.results.len() == 0 {
        let empty = PortScanResult::new();
        return (empty, report);
    }
    let last = &ps.results[ps.results.len() - 1];
    proof {
        assert(ps.results@[ps.results@.len() - 1] == ps.results@.last());
    }
    let ip_text = format_ipv4(last.ip_addr);
    let host_name = match lookup_reverse_name(ip_text.as_str()) {
        Some(n) => n,
        None => String::new(),
    };
    let (os_name, cpe) = match od {
        Some(o) => {
            match verify_fingerprints(&o.fingerprint, signature_db) {
                Some(entry) => (entry.os_name, entry.cpe),
                None => (String::new(), String::new()),
            }
        },
        None => (String::new(), String::new()),
    };
    let empty_services: Vec<(u16, String)> = Vec::new();
    let services: &Vec<(u16, String)> = match sd {
        Some(s) => &s.services,
        None => &empty_services,
    };
    proof {
        assert(spec_label_table(empty_services@) =~= Seq::<(u16, Seq<char>)>::empty());
    }
    let sd_time = match sd {
        Some(s) => s.detection_time,
        None => 0,
    };
    let od_time = match od {
        Some(o) => o.detection_time,
        None => 0,
    };
    let result = build_port_scan_result(
        &last.ports,
        service_table,
        services,
        ip_text,
        host_name,
        os_name,
        cpe,
        ps.scan_time,
        sd_time,
        od_time,
    );
    (result, report)
}

/// One echo reply handed back by the ping engine.
#[derive(Clone, Debug)]
pub struct EchoReply {
    pub seq: u8,
    pub ip_addr: String,
    pub host_name: String,
    pub ttl: u8,
    pub hop: u8,
    pub rtt: u64,
}

/// Smallest round-trip time of the replies; zero with no reply.
pub open spec fn spec_min_rtt(rs: Seq<EchoReply>) -> u64
    decreases rs.len(),
{
    if rs.len() == 0 {
        0
    } else if rs.len() == 1 {
        rs[0].rtt
    } else {
        let m = spec_min_rtt(rs.drop_last());
        if rs.last().rtt < m {
            rs.last().rtt
        } else {
            m
        }
    }
}

/// Largest round-trip time of the replies; zero with no reply.
pub open spec fn spec_max_rtt(rs: Seq<EchoReply>) -> u64
    decreases rs.len(),
{
    if rs.len() == 0 {
        0
    } else if rs.len() == 1 {
        rs[0].rtt
    } else {
        let m = spec_max_rtt(rs.drop_last());
        if rs.last().rtt > m {
            rs.last().rtt
        } else {
            m
        }
    }
}

/// Sum of the round-trip times of the replies.
pub open spec fn spec_rtt_total(rs: Seq<EchoReply>) -> int
    decreases rs.len(),
{
    if rs.len() == 0 {
        0
    } else {
        spec_rtt_total(rs.drop_last()) + rs.last().rtt
    }
}

/// The round-trip total is bounded by count times maximum.
proof fn lemma_rtt_total_le(rs: Seq<EchoReply>)
    ensures
        0 <= spec_rtt_total(rs),
        spec_rtt_total(rs) <= rs.len() * spec_max_rtt(rs),
    decreases rs.len(),
{
    if rs.len() > 0 {
        let pre = rs.drop_last();
        lemma_rtt_total_le(pre);
        let n = pre.len() as int;
        let mp = spec_max_rtt(pre) as int;
        let m = spec_max_rtt(rs) as int;
        let last = rs.last().rtt as int;
        assert(rs.len() == 1 || mp <= m);
        assert(last <= m);
        if rs.len() == 1 {
            assert(spec_rtt_total(rs) == spec_rtt_total(pre) + last);
            assert(spec_rtt_total(pre) == 0);
        } else {
            assert(n * mp <= n * m) by (nonlinear_arith)
                requires
                    0 <= n,
                    mp <= m,
            ;
            assert((n + 1) * m == n * m + m) by (nonlinear_arith);
        }
    }
}

/// Folds the echo replies of a ping run into its statistics.  The
/// transmitted count is the configured probe count; the received count
/// is the number of replies; minimum, average and maximum round-trip
/// times are computed over the replies alone, and a run with no reply
/// yields zero for all three rather than failing.
pub fn build_ping_stat(
    replies: &Vec<EchoReply>,
    transmitted_count: usize,
    probe_time: u64,
    protocol: Protocol,
    port_number: Option<u16>,
) -> (r: PingStat)
    ensures
        r.probe_time == probe_time,
        r.transmitted_count == transmitted_count,
        r.received_count == replies@.len(),
        r.ping_results@.len() == replies@.len(),
        forall|i: int|
            0 <= i < replies@.len() ==> {
                let p = #[trigger] r.ping_results@[i];
                &&& p.seq == replies@[i].seq
                &&& p.ip_addr@ == replies@[i].ip_addr@
                &&& p.host_name@ == replies@[i].host_name@
                &&& p.port_number == port_number
                &&& p.ttl == replies@[i].ttl
                &&& p.hop == replies@[i].hop
                &&& p.rtt == replies@[i].rtt
                &&& p.status == ProbeStatus::Done
                &&& p.protocol@ == protocol.spec_name()
            },
        replies@.len() == 0 ==> r.min == 0 && r.avg == 0 && r.max == 0,
        replies@.len() > 0 ==> {
            &&& r.min == spec_min_rtt(replies@)
            &&& r.max == spec_max_rtt(replies@)
            &&& r.avg == spec_rtt_total(replies@) / replies@.len() as int
        },
{
    let mut results: Vec<PingResult> = Vec::new();
    let mut mn: u64 = 0;
    let mut mx: u64 = 0;
    let mut total: u128 = 0;
    let mut i: usize = 0;
    while i < replies.len()
        invariant
            i <= replies@.len(),
            results@.len() == i,
            forall|j: int|
                0 <= j < i ==> {
                    let p = #[trigger] results@[j];
                    &&& p.seq == replies@[j].seq
                    &&& p.ip_addr@ == replies@[j].ip_addr@
                    &&& p.host_name@ == replies@[j].host_name@
                    &&& p.port_number == port_number
                    &&& p.ttl == replies@[j].ttl
                    &&& p.hop == replies@[j].hop
                    &&& p.rtt == replies@[j].rtt
                    &&& p.status == ProbeStatus::Done
                    &&& p.protocol@ == protocol.spec_name()
                },
            i == 0 ==> mn == 0 && mx == 0,
            i > 0 ==> mn == spec_min_rtt(replies@.subrange(0, i as int)),
            i > 0 ==> mx == spec_max_rtt(replies@.subrange(0, i as int)),
            total == spec_rtt_total(replies@.subrange(0, i as int)),
            total <= (i as int) * (u64::MAX as int),
        decreases replies@.len() - i,
    {
        let reply = &replies[i];
        results.push(
            PingResult {
                seq: reply.seq,
                ip_addr: reply.ip_addr.clone(),
                host_name: reply.host_name.clone(),
                port_number,
                ttl: reply.ttl,
                hop: reply.hop,
                rtt: reply.rtt,
                status: ProbeStatus::Done,
                protocol: protocol.name(),
            },
        );
        proof {
            assert(replies@.subrange(0, i + 1).drop_last() =~= replies@.subrange(0, i as int));
            assert(replies@.subrange(0, i + 1).last() == replies@[i as int]);
        }
        if i == 0 {
            mn = reply.rtt;
            mx = reply.rtt;
        } else {
            if reply.rtt < mn {
                mn = reply.rtt;
            }
            if reply.rtt > mx {
                mx = reply.rtt;
            }
        }
        total = total + reply.rtt as u128;
        i += 1;
    }
    assert(replies@.subrange(0, i as int) =~= replies@);
    let count = replies.len();
    let avg: u64 = if count == 0 {
        0
    } else {
        proof {
            lemma_rtt_total_le(replies@);
            assert(total as int / count as int <= spec_max_rtt(replies@)) by (nonlinear_arith)
                requires
                    total as int <= count as int * spec_max_rtt(replies@),
                    0 <= total,
                    count > 0,
            ;
        }
        (total / count as u128) as u64
    };
    PingStat {
        ping_results: results,
        probe_time,
        transmitted_count,
        received_count: count,
        min: mn,
        avg,
        max: mx,
    }
}

/// One reachable host as the host-discovery engine reported it.
#[derive(Clone, Copy, Debug, PartialEq, Eq, Structural)]
pub struct DiscoveredHost {
    pub ip_addr: u32,
    pub ttl: u8,
}

/// ASCII uppercase of one byte.
pub open spec fn spec_upper_byte(b: u8) -> u8 {
    if 97 <= b && b <= 122 {
        (b - 32) as u8
    } else {
        b
    }
}

/// The dictionary key for a vendor lookup: a MAC address longer than 16
/// bytes is truncated to its 8-byte OUI prefix, upper-cased; a shorter
/// one is looked up verbatim.
pub open spec fn spec_oui_key(mac: Seq<u8>) -> Seq<u8> {
    if mac.len() > 16 {
        mac.subrange(0, 8).map_values(|b: u8| spec_upper_byte(b))
    } else {
        mac
    }
}

/// View of the OUI-to-vendor table.
pub open spec fn spec_oui_table(t: Seq<(Vec<u8>, String)>) -> Seq<(Seq<u8>, Seq<char>)> {
    t.map_values(|p: (Vec<u8>, String)| (p.0@, p.1@))
}

/// The vendor name of the first table row with the given key, or empty.
pub open spec fn spec_lookup_vendor(oui: Seq<(Seq<u8>, Seq<char>)>, key: Seq<u8>) -> Seq<char>
    decreases oui.len(),
{
    if oui.len() == 0 {
        Seq::empty()
    } else if oui[0].0 == key {
        oui[0].1
    } else {
        spec_lookup_vendor(oui.drop_first(), key)
    }
}

/// View of the TTL-to-OS table.
pub open spec fn spec_ttl_table(t: Seq<(u8, String)>) -> Seq<(u8, Seq<char>)> {
    t.map_values(|p: (u8, String)| (p.0, p.1@))
}

/// The OS name of the first table row with the given TTL, or empty.
pub open spec fn spec_lookup_ttl(t: Seq<(u8, Seq<char>)>, ttl: u8) -> Seq<char>
    decreases t.len(),
{
    if t.len() == 0 {
        Seq::empty()
    } else if t[0].0 == ttl {
        t[0].1
    } else {
        spec_lookup_ttl(t.drop_first(), ttl)
    }
}

/// View of the address-to-MAC table.
pub open spec fn spec_mac_table(t: Seq<(u32, String)>) -> Seq<(u32, Seq<char>)> {
    t.map_values(|p: (u32, String)| (p.0, p.1@))
}

/// The MAC address of the first table row with the given address, or
/// empty.
pub open spec fn spec_lookup_mac(t: Seq<(u32, Seq<char>)>, ip: u32) -> Seq<char>
    decreases t.len(),
{
    if t.len() == 0 {
        Seq::empty()
    } else if t[0].0 == ip {
        t[0].1
    } else {
        spec_lookup_mac(t.drop_first(), ip)
    }
}

/// True when two byte strings are equal.
fn bytes_eq(a: &Vec<u8>, b: &Vec<u8>) -> (r: bool)
    ensures
        r == (a@ == b@),
{
    if a.len() != b.len() {
        assert(a@ != b@);
        return false;
    }
    let mut i: usize = 0;
    while i < a.len()
        invariant
            i <= a@.len(),
            a@.len() == b@.len(),
            forall|j: int| 0 <= j < i ==> a@[j] == b@[j],
        decreases a@.len() - i,
    {
        if a[i] != b[i] {
            return false;
        }
        i += 1;
    }
    assert(a@ =~= b@);
    true
}

/// Computes the vendor-lookup key of a MAC address.
fn oui_key(mac: &str) -> (r: Vec<u8>)
    ensures
        r@ == spec_oui_key(mac.spec_bytes()),
{
    let bytes = mac.as_bytes_vec();
    if bytes.len() > 16 {
        let mut key: Vec<u8> = Vec::new();
        let mut i: usize = 0;
        while i < 8
            invariant
                i <= 8,
                bytes@.len() > 16,
                bytes@ == mac.spec_bytes(),
                key@.len() == i,
                forall|j: int| 0 <= j < i ==> key@[j] == spec_upper_byte(bytes@[j]),
            decreases 8 - i,
        {
            let b = bytes[i];
            if 97 <= b && b <= 122 {
                key.push(b - 32);
            } else {
                key.push(b);
            }
            i += 1;
        }
        assert(key@ =~= spec_oui_key(mac.spec_bytes()));
        key
    } else {
        assert(bytes@ =~= spec_oui_key(mac.spec_bytes()));
        bytes
    }
}

/// Finds the vendor name for a MAC address in the OUI table.
fn lookup_vendor(oui_map: &Vec<(Vec<u8>, String)>, mac: &str) -> (r: String)
    ensures
        r@ == spec_lookup_vendor(spec_oui_table(oui_map@), spec_oui_key(mac.spec_bytes())),
{
    let key = oui_key(mac);
    let ghost whole = spec_oui_table(oui_map@);
    proof {
        assert(whole.subrange(0, whole.len() as int) =~= whole);
    }
    let mut i: usize = 0;
    while i < oui_map.len()
        invariant
            i <= oui_map@.len(),
            whole == spec_oui_table(oui_map@),
            key@ == spec_oui_key(mac.spec_bytes()),
            spec_lookup_vendor(whole, key@) == spec_lookup_vendor(
                whole.subrange(i as int, whole.len() as int),
                key@,
            ),
        decreases oui_map@.len() - i,
    {
        let ghost rest = whole.subrange(i as int, whole.len() as int);
        proof {
            assert(rest[0] == whole[i as int]);
            assert(rest.drop_first() =~= whole.subrange(i + 1, whole.len() as int));
        }
        if bytes_eq(&oui_map[i].0, &key) {
            return oui_map[i].1.clone();
        }
        i += 1;
    }
    proof {
        assert(whole.subrange(i as int, whole.len() as int) =~= Seq::<(Seq<u8>, Seq<char>)>::empty());
    }
    String::new()
}

/// Finds the OS name for a TTL in the TTL table.
fn lookup_ttl(ttl_map: &Vec<(u8, String)>, ttl: u8) -> (r: String)
    ensures
        r@ == spec_lookup_ttl(spec_ttl_table(ttl_map@), ttl),
{
    let ghost whole = spec_ttl_table(ttl_map@);
    proof {
        assert(whole.subrange(0, whole.len() as int) =~= whole);
    }
    let mut i: usize = 0;
    while i < ttl_map.len()
        invariant
            i <= ttl_map@.len(),
            whole == spec_ttl_table(ttl_map@),
            spec_lookup_ttl(whole, ttl) == spec_lookup_ttl(
                whole.subrange(i as int, whole.len() as int),
                ttl,
            ),
        decreases ttl_map@.len() - i,
    {
        let ghost rest = whole.subrange(i as int, whole.len() as int);
        proof {
            assert(rest[0] == whole[i as int]);
            assert(rest.drop_first() =~= whole.subrange(i + 1, whole.len() as int));
        }
        if ttl_map[i].0 == ttl {
            return ttl_map[i].1.clone();
        }
        i += 1;
    }
    proof {
        assert(whole.subrange(i as int, whole.len() as int) =~= Seq::<(u8, Seq<char>)>::empty());
    }
    String::new()
}

/// Finds the MAC address for a host address in the MAC table.
fn lookup_mac(mac_map: &Vec<(u32, String)>, ip: u32) -> (r: String)
    ensures
        r@ == spec_lookup_mac(spec_mac_table(mac_map@), ip),
{
    let ghost whole = spec_mac_table(mac_map@);
    proof {
        assert(whole.subrange(0, whole.len() as int) =~= whole);
    }
    let mut i: usize = 0;
    while i < mac_map.len()
        invariant
            i <= mac_map@.len(),
            whole == spec_mac_table(mac_map@),
            spec_lookup_mac(whole, ip) == spec_lookup_mac(
                whole.subrange(i as int, whole.len() as int),
                ip,
            ),
        decreases mac_map@.len() - i,
    {
        let ghost rest = whole.subrange(i as int, whole.len() as int);
        proof {
            assert(rest[0] == whole[i as int]);
            assert(rest.drop_first() =~= whole.subrange(i + 1, whole.len() as int));
        }
        if mac_map[i].0 == ip {
            return mac_map[i].1.clone();
        }
        i += 1;
    }
    proof {
        assert(whole.subrange(i as int, whole.len() as int) =~= Seq::<(u32, Seq<char>)>::empty());
    }
    String::new()
}

/// Builds one host record: address text, the given host name, the MAC
/// address with its vendor looked up by OUI prefix, and the OS guessed
/// from the TTL table.
pub fn build_host_info(
    ip_text: String,
    host_name: String,
    mac_addr: String,
    oui_map: &Vec<(Vec<u8>, String)>,
    ttl_map: &Vec<(u8, String)>,
    ttl: u8,
) -> (r: HostInfo)
    ensures
        r.ip_addr == ip_text,
        r.host_name == host_name,
        r.mac_addr == mac_addr,
        r.vendor_info@ == spec_lookup_vendor(
            spec_oui_table(oui_map@),
            spec_oui_key(vstd::utf8::encode_utf8(mac_addr@)),
        ),
        r.os_name@ == spec_lookup_ttl(spec_ttl_table(ttl_map@), ttl),
        r.cpe@.len() == 0,
{
    let vendor_info = lookup_vendor(oui_map, mac_addr.as_str());
    let os_name = lookup_ttl(ttl_map, ttl);
    HostInfo { ip_addr: ip_text, host_name, mac_addr, vendor_info, os_name, cpe: String::new() }
}

/// Folds the discovered hosts and the enrichment tables into the final
/// host-scan record: one host record per discovered host, in order,
/// with reverse-resolved name, MAC and vendor, and TTL-based OS guess.
/// The total duration is exactly the sum of the stage durations.
pub fn compose_host_scan_result(
    hosts: &Vec<DiscoveredHost>,
    mac_map: &Vec<(u32, String)>,
    oui_map: &Vec<(Vec<u8>, String)>,
    ttl_map: &Vec<(u8, String)>,
    host_scan_time: u64,
    os_detection_time: u64,
) -> (r: HostScanResult)
    requires
        host_scan_time + os_detection_time <= u64::MAX,
    ensures
        r.hosts@.len() == hosts@.len(),
        forall|i: int|
            0 <= i < hosts@.len() ==> {
                let h = #[trigger] r.hosts@[i];
                &&& h.ip_addr@ == spec_format_ipv4(hosts@[i].ip_addr)
                &&& h.mac_addr@ == spec_lookup_mac(spec_mac_table(mac_map@), hosts@[i].ip_addr)
                &&& h.vendor_info@ == spec_lookup_vendor(
                    spec_oui_table(oui_map@),
                    spec_oui_key(vstd::utf8::encode_utf8(h.mac_addr@)),
                )
                &&& h.os_name@ == spec_lookup_ttl(spec_ttl_table(ttl_map@), hosts@[i].ttl)
                &&& h.cpe@.len() == 0
            },
        r.host_scan_time == host_scan_time,
        r.os_detection_time == os_detection_time,
        r.total_scan_time == host_scan_time + os_detection_time,
{
    let mut out: Vec<HostInfo> = Vec::new();
    let mut i: usize = 0;
    while i < hosts.len()
        invariant
            i <= hosts@.len(),
            out@.len() == i,
            forall|j: int|
                0 <= j < i ==> {
                    let h = #[trigger] out@[j];
                    &&& h.ip_addr@ == spec_format_ipv4(hosts@[j].ip_addr)
                    &&& h.mac_addr@ == spec_lookup_mac(spec_mac_table(mac_map@), hosts@[j].ip_addr)
                    &&& h.vendor_info@ == spec_lookup_vendor(
                        spec_oui_table(oui_map@),
                        spec_oui_key(vstd::utf8::encode_utf8(h.mac_addr@)),
                    )
                    &&& h.os_name@ == spec_lookup_ttl(spec_ttl_table(ttl_map@), hosts@[j].ttl)
                    &&& h.cpe@.len() == 0
                },
        decreases hosts@.len() - i,
    {
        let host = &hosts[i];
        let ip_text = format_ipv4(host.ip_addr);
        let host_name = match lookup_reverse_name(ip_text.as_str()) {
            Some(n) => n,
            None => String::new(),
        };
        let mac_addr = lookup_mac(mac_map, host.ip_addr);
        let info = build_host_info(ip_text, host_name, mac_addr, oui_map, ttl_map, host.ttl);
        out.push(info);
        i += 1;
    }
    HostScanResult {
        hosts: out,
        host_scan_time,
        os_detection_time,
        total_scan_time: host_scan_time + os_detection_time,
    }
}

/// Folds a traced route into the final traceroute record.
pub fn build_trace_result(nodes: Vec<Node>, status: ProbeStatus, probe_time: u64) -> (r:
    TraceResult)
    ensures
        r.nodes == nodes,
        r.status == status,
        r.probe_time == probe_time,
{
    TraceResult { nodes, status, probe_time }
}

} // verus!
