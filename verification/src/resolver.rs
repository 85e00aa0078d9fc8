//! Target resolver.
//!
//! Turns raw target and port specifications into concrete probe targets:
//! port lists from range (`a-b`) and comma-separated forms, host sets from
//! network notation (`address/prefix`), and host lists from comma- or
//! line-separated text.  Name resolution goes through the system resolver;
//! everything else is computed here.

use vstd::prelude::*;
use crate::addr::{
    all_digits,
    char_find,
    dec_val,
    find_char_from,
    hosts_in_network,
    lemma_char_find_is_first,
    lemma_char_find_props,
    parse_ipv4,
    spec_parse_ipv4,
    spec_usable_hosts,
};
use crate::option::{CommandType, TargetInfo};

verus! {

/// Parse of a decimal port number: digits only, value at most 65535.
pub open spec fn spec_parse_u16(s: Seq<char>) -> Option<u16> {
    if s.len() >= 1 && all_digits(s) && dec_val(s) <= 65535 {
        Option::Some(dec_val(s) as u16)
    } else {
        Option::None
    }
}

/// A longer digit string never has a smaller value than its prefix.
proof fn lemma_dec_val_extend(s: Seq<char>, i: int)
    requires
        0 <= i <= s.len(),
    ensures
        dec_val(s) >= dec_val(s.take(i)),
    decreases s.len() - i,
{
    if i < s.len() {
        assert(s.take(i + 1).drop_last() =~= s.take(i));
        assert(dec_val(s.take(i + 1)) == dec_val(s.take(i)) * 10 + crate::addr::digit_val(
            s.take(i + 1).last(),
        ));
        lemma_dec_val_extend(s, i + 1);
    } else {
        assert(s.take(i) =~= s);
    }
}

/// Parses the characters of `s` in `[lo, hi)` as a port number.
fn parse_u16_range(s: &str, lo: usize, hi: usize) -> (r: Option<u16>)
    requires
        lo <= hi <= s@.len(),
    ensures
        r == spec_parse_u16(s@.subrange(lo as int, hi as int)),
{
    let ghost t = s@.subrange(lo as int, hi as int);
    if lo == hi {
        return None;
    }
    let mut val: u32 = 0;
    let mut i = lo;
    while i < hi
        invariant
            lo <= i <= hi <= s@.len(),
            t == s@.subrange(lo as int, hi as int),
            all_digits(s@.subrange(lo as int, i as int)),
            val == dec_val(s@.subrange(lo as int, i as int)),
            val <= 65535,
        decreases hi - i,
    {
        let c = s.get_char(i);
        let cv = c as u32;
        if cv < '0' as u32 || cv > '9' as u32 {
            assert(t[i - lo] == c);
            assert(!crate::addr::is_digit(t[i - lo]));
            return None;
        }
        proof {
            let pre = s@.subrange(lo as int, i as int);
            let post = s@.subrange(lo as int, i + 1);
            assert(post =~= pre.push(s@[i as int]));
            assert(post.drop_last() =~= pre);
        }
        let nv = val * 10 + (cv - '0' as u32);
        if nv > 65535 {
            proof {
                let post = s@.subrange(lo as int, i + 1);
                assert(post =~= t.take(i + 1 - lo));
                assert(dec_val(t.take(i + 1 - lo)) == nv);
                lemma_dec_val_extend(t, i + 1 - lo);
            }
            return None;
        }
        val = nv;
        i += 1;
    }
    assert(s@.subrange(lo as int, i as int) =~= t);
    Some(val as u16)
}

/// Port numbers read from `sep`-separated text, unparsable entries
/// skipped.
pub open spec fn spec_sep_ports(s: Seq<char>, sep: char) -> Seq<u16>
    decreases s.len(),
    via spec_sep_ports_dec
{
    let i = char_find(s, sep);
    if i >= s.len() {
        match spec_parse_u16(s) {
            Option::Some(p) => seq![p],
            Option::None => Seq::empty(),
        }
    } else {
        (match spec_parse_u16(s.subrange(0, i)) {
            Option::Some(p) => seq![p],
            Option::None => Seq::empty(),
        }) + spec_sep_ports(s.subrange(i + 1, s.len() as int), sep)
    }
}

#[via_fn]
proof fn spec_sep_ports_dec(s: Seq<char>, sep: char) {
    lemma_char_find_props(s, sep);
}

/// Reads port numbers out of `sep`-separated text, skipping entries that
/// do not parse.
pub fn parse_ports_separated(s: &str, sep: char) -> (r: Vec<u16>)
    ensures
        r@ == spec_sep_ports(s@, sep),
{
    let len = s.unicode_len();
    let mut r: Vec<u16> = Vec::new();
    let mut pos: usize = 0;
    proof {
        assert(s@.subrange(0, s@.len() as int) =~= s@);
    }
    loop
        invariant
            pos <= len,
            len == s@.len(),
            spec_sep_ports(s@, sep) == r@ + spec_sep_ports(
                s@.subrange(pos as int, len as int),
                sep,
            ),
        decreases len - pos,
    {
        let ghost rest = s@.subrange(pos as int, len as int);
        let e = find_char_from(s, pos, sep);
        proof {
            assert forall|m: int| 0 <= m < e - pos implies rest[m] != sep by {
                assert(rest[m] == s@[pos + m]);
            }
            if e < len {
                assert(rest[e - pos] == s@[e as int]);
            }
            lemma_char_find_is_first(rest, sep, e - pos);
        }
        let tok = parse_u16_range(s, pos, e);
        proof {
            assert(s@.subrange(pos as int, e as int) =~= rest.subrange(0, e - pos));
        }
        match tok {
            Some(p) => {
                r.push(p);
            },
            None => {},
        }
        if e == len {
            proof {
                assert(rest.subrange(0, e - pos) =~= rest);
            }
            return r;
        }
        proof {
            assert(rest.subrange(e - pos + 1, rest.len() as int) =~= s@.subrange(
                e + 1,
                len as int,
            ));
        }
        pos = e + 1;
    }
}

/// Ports of the inclusive-exclusive range `[from, to)`; empty when the
/// range is reversed or void.
pub open spec fn spec_range_ports(from: u16, to: u16) -> Seq<u16> {
    if from < to {
        Seq::new((to - from) as nat, |i: int| (from + i) as u16)
    } else {
        Seq::empty()
    }
}

/// Resolution of one port specification.  A dash denotes the
/// inclusive-exclusive range `[a, b)`, applied only when `a < b` and
/// neither bound is zero; otherwise the specification is dropped and the
/// default port list is used.  Any other text is read as a comma list of
/// port numbers, with unparsable entries skipped; a comma list that
/// yields nothing also falls back to the default list.  The second
/// component tells whether the default list was used.
pub open spec fn spec_port_spec(s: Seq<char>, default_ports: Seq<u16>) -> (Seq<u16>, bool) {
    let i = char_find(s, '-');
    if i < s.len() {
        match (
            spec_parse_u16(s.subrange(0, i)),
            spec_parse_u16(s.subrange(i + 1, s.len() as int)),
        ) {
            (Option::Some(a), Option::Some(b)) => if a != 0 && b != 0 && a < b {
                (spec_range_ports(a, b), false)
            } else {
                (default_ports, true)
            },
            _ => (default_ports, true),
        }
    } else {
        let ports = spec_sep_ports(s, ',');
        if ports.len() > 0 {
            (ports, false)
        } else {
            (default_ports, true)
        }
    }
}

/// Copy of a port list.
fn copy_ports(v: &Vec<u16>) -> (r: Vec<u16>)
    ensures
        r@ == v@,
{
    let mut r: Vec<u16> = Vec::new();
    let mut i: usize = 0;
    while i < v.len()
        invariant
            i <= v@.len(),
            r@ == v@.subrange(0, i as int),
        decreases v@.len() - i,
    {
        r.push(v[i]);
        i += 1;
        assert(r@ =~= v@.subrange(0, i as int));
    }
    assert(r@ =~= v@);
    r
}

/// The ports of the range `[from, to)`, in ascending order.
pub fn ports_of_range(from: u16, to: u16) -> (r: Vec<u16>)
    ensures
        r@ == spec_range_ports(from, to),
{
    let mut r: Vec<u16> = Vec::new();
    let mut p = from;
    if from >= to {
        assert(r@ =~= spec_range_ports(from, to));
        return r;
    }
    while p < to
        invariant
            from <= p <= to,
            from < to,
            r@.len() == p - from,
            forall|i: int| 0 <= i < r@.len() ==> r@[i] == from + i,
        decreases to - p,
    {
        r.push(p);
        p += 1;
    }
    assert(r@ =~= spec_range_ports(from, to));
    r
}

/// Resolves a port specification, falling back to the default port list
/// when the specification is unusable.  The second result tells whether
/// the default list was used.
pub fn resolve_port_spec(s: &str, default_ports: &Vec<u16>) -> (r: (Vec<u16>, bool))
    ensures
        r.0@ == spec_port_spec(s@, default_ports@).0,
        r.1 == spec_port_spec(s@, default_ports@).1,
{
    let len = s.unicode_len();
    proof {
        assert(s@.subrange(0, s@.len() as int) =~= s@);
    }
    let dash = find_char_from(s, 0, '-');
    if dash < len {
        let a = parse_u16_range(s, 0, dash);
        let b = parse_u16_range(s, dash + 1, len);
        match (a, b) {
            (Some(av), Some(bv)) => {
                if av != 0 && bv != 0 && av < bv {
                    (ports_of_range(av, bv), false)
                } else {
                    (copy_ports(default_ports), true)
                }
            },
            _ => (copy_ports(default_ports), true),
        }
    } else {
        let ports = parse_ports_separated(s, ',');
        if ports.len() > 0 {
            (ports, false)
        } else {
            (copy_ports(default_ports), true)
        }
    }
}

/// Addresses of the IPv4-literal tokens of `sep`-separated text, in
/// order; other tokens contribute nothing.
pub open spec fn spec_ip_list(s: Seq<char>, sep: char) -> Seq<u32>
    decreases s.len(),
    via spec_ip_list_dec
{
    let i = char_find(s, sep);
    if i >= s.len() {
        match spec_parse_ipv4(s) {
            Option::Some(ip) => seq![ip],
            Option::None => Seq::empty(),
        }
    } else {
        (match spec_parse_ipv4(s.subrange(0, i)) {
            Option::Some(ip) => seq![ip],
            Option::None => Seq::empty(),
        }) + spec_ip_list(s.subrange(i + 1, s.len() as int), sep)
    }
}

#[via_fn]
proof fn spec_ip_list_dec(s: Seq<char>, sep: char) {
    lemma_char_find_props(s, sep);
}

/// True when every token of `sep`-separated text is an IPv4 literal.
pub open spec fn spec_all_ipv4_tokens(s: Seq<char>, sep: char) -> bool
    decreases s.len(),
    via spec_all_ipv4_tokens_dec
{
    let i = char_find(s, sep);
    if i >= s.len() {
        spec_parse_ipv4(s) is Some
    } else {
        spec_parse_ipv4(s.subrange(0, i)) is Some && spec_all_ipv4_tokens(
            s.subrange(i + 1, s.len() as int),
            sep,
        )
    }
}

#[via_fn]
proof fn spec_all_ipv4_tokens_dec(s: Seq<char>, sep: char) {
    lemma_char_find_props(s, sep);
}

/// Relies on dns_lookup::lookup_host: forward name resolution through
/// the system resolver.  Which addresses come back, and in what order,
/// depends on the environment, so nothing is promised of the result.
#[verifier::external_body]
fn lookup_host_addresses(name: &str) -> (r: Option<Vec<String>>) {
    match dns_lookup::lookup_host(name) {
        Ok(addrs) => Some(addrs.into_iter().map(|a| a.to_string()).collect()),
        Err(_) => None,
    }
}

/// Relies on dns_lookup::lookup_addr: reverse name resolution of an
/// address given in text form.  The name that comes back depends on the
/// environment, so nothing is promised of the result.
#[verifier::external_body]
pub(crate) fn lookup_reverse_name(ip_text: &str) -> (r: Option<String>) {
    match ip_text.parse() {
        Ok(a) => dns_lookup::lookup_addr(&a).ok(),
        Err(_) => None,
    }
}

/// The address of the first entry that is an IPv4 literal, if any.
pub open spec fn spec_first_ipv4(addrs: Seq<Seq<char>>) -> Option<u32>
    decreases addrs.len(),
{
    if addrs.len() == 0 {
        Option::None
    } else {
        match spec_parse_ipv4(addrs[0]) {
            Option::Some(ip) => Option::Some(ip),
            Option::None => spec_first_ipv4(addrs.drop_first()),
        }
    }
}

/// Applies the resolution policy to a name resolver's answer: the first
/// entry that is an IPv4 literal is selected, every other entry is
/// passed over.  IPv6 text never parses as a dotted quad, so this
/// prefers IPv4 over IPv6 whatever order the resolver answered in.
pub fn first_ipv4_address(addrs: &Vec<String>) -> (r: Option<u32>)
    ensures
        r == spec_first_ipv4(addrs@.map_values(|a: String| a@)),
{
    let ghost whole = addrs@.map_values(|a: String| a@);
    proof {
        assert(whole.subrange(0, whole.len() as int) =~= whole);
    }
    let mut i: usize = 0;
    while i < addrs.len()
        invariant
            i <= addrs@.len(),
            whole == addrs@.map_values(|a: String| a@),
            spec_first_ipv4(whole) == spec_first_ipv4(
                whole.subrange(i as int, whole.len() as int),
            ),
        decreases addrs@.len() - i,
    {
        let ghost rest = whole.subrange(i as int, whole.len() as int);
        proof {
            assert(rest[0] == whole[i as int]);
            assert(rest.drop_first() =~= whole.subrange(i + 1, whole.len() as int));
        }
        match parse_ipv4(addrs[i].as_str()) {
            Some(ip) => {
                return Some(ip);
            },
            None => {},
        }
        i += 1;
    }
    proof {
        assert(whole.subrange(i as int, whole.len() as int) =~= Seq::<Seq<char>>::empty());
    }
    None
}

/// Resolves one host token: an IPv4 literal resolves to its address
/// directly; any other token is given to the system name resolver, and
/// `first_ipv4_address` picks the first IPv4 result of its answer, with
/// the token kept as the host name.
pub fn resolve_host_token(tok: &str) -> (r: Option<TargetInfo>)
    ensures
        spec_parse_ipv4(tok@) is Some ==> r is Some,
        r matches Some(t) ==> {
            &&& t.ports@.len() == 0
            &&& t.base_uri@.len() == 0
            &&& t.base_domain@.len() == 0
            &&& match spec_parse_ipv4(tok@) {
                Option::Some(ip) => t.ip_addr == ip && t.host_name@.len() == 0,
                Option::None => t.host_name@ == tok@,
            }
        },
{
    match parse_ipv4(tok) {
        Some(ip) => Some(TargetInfo::new_with_ip_addr(ip)),
        None => {
            let addrs = match lookup_host_addresses(tok) {
                Some(addrs) => addrs,
                None => {
                    return None;
                },
            };
            match first_ipv4_address(&addrs) {
                Some(ip) => {
                    let mut t = TargetInfo::new_with_ip_addr(ip);
                    t.host_name = tok.to_owned();
                    Some(t)
                },
                None => None,
            }
        },
    }
}

/// Resolves `sep`-separated host-list text into targets, one per token
/// that resolves; tokens that resolve neither as a literal nor through
/// the name resolver are skipped.  When every token is an IPv4 literal
/// the result is exactly the token list, in order.
pub fn resolve_host_list(s: &str, sep: char) -> (r: Vec<TargetInfo>)
    ensures
        forall|i: int|
            0 <= i < r@.len() ==> {
                let t = #[trigger] r@[i];
                &&& t.ports@.len() == 0
                &&& t.base_uri@.len() == 0
                &&& t.base_domain@.len() == 0
            },
        spec_all_ipv4_tokens(s@, sep) ==> {
            &&& r@.len() == spec_ip_list(s@, sep).len()
            &&& forall|i: int|
                0 <= i < r@.len() ==> (#[trigger] r@[i]).ip_addr == spec_ip_list(s@, sep)[i]
                    && r@[i].host_name@.len() == 0
        },
{
    let len = s.unicode_len();
    let mut r: Vec<TargetInfo> = Vec::new();
    let mut pos: usize = 0;
    proof {
        assert(s@.subrange(0, s@.len() as int) =~= s@);
    }
    loop
        invariant
            pos <= len,
            len == s@.len(),
            forall|i: int|
                0 <= i < r@.len() ==> {
                    let t = #[trigger] r@[i];
                    &&& t.ports@.len() == 0
                    &&& t.base_uri@.len() == 0
                    &&& t.base_domain@.len() == 0
                },
            spec_all_ipv4_tokens(s@, sep) ==> {
                &&& spec_all_ipv4_tokens(s@.subrange(pos as int, len as int), sep)
                &&& spec_ip_list(s@, sep) == r@.map_values(|t: TargetInfo| t.ip_addr)
                    + spec_ip_list(s@.subrange(pos as int, len as int), sep)
                &&& forall|i: int|
                    0 <= i < r@.len() ==> (#[trigger] r@[i]).host_name@.len() == 0
            },
        decreases len - pos,
    {
        let ghost rest = s@.subrange(pos as int, len as int);
        let e = find_char_from(s, pos, sep);
        proof {
            assert forall|m: int| 0 <= m < e - pos implies rest[m] != sep by {
                assert(rest[m] == s@[pos + m]);
            }
            if e < len {
                assert(rest[e - pos] == s@[e as int]);
            }
            lemma_char_find_is_first(rest, sep, e - pos);
        }
        let tok = s.substring_char(pos, e);
        proof {
            assert(tok@ =~= rest.subrange(0, e - pos));
            if e == len {
                assert(rest.subrange(0, e - pos) =~= rest);
            }
        }
        let resolved = resolve_host_token(tok);
        let ghost r_before = r@;
        match resolved {
            Some(t) => {
                r.push(t);
            },
            None => {},
        }
        proof {
            if spec_all_ipv4_tokens(s@, sep) {
                assert(r@.map_values(|t: TargetInfo| t.ip_addr) =~= r_before.map_values(
                    |t: TargetInfo| t.ip_addr,
                ) + seq![r@.last().ip_addr]);
            }
        }
        if e == len {
            return r;
        }
        proof {
            assert(rest.subrange(e - pos + 1, rest.len() as int) =~= s@.subrange(
                e + 1,
                len as int,
            ));
        }
        pos = e + 1;
    }
}

/// Why a target specification failed to resolve.
#[derive(Clone, Copy, Debug, PartialEq, Eq, Structural)]
pub enum ResolutionError {
    /// The specification names no resolvable target.
    BadTargetSpecification,
    /// A host name could not be resolved to an address.
    NameResolutionFailed,
    /// A host-list file path does not exist.  Callers that accept file
    /// paths check this before resolution starts.
    FileNotFound,
}

/// The host part of a `host:ports` specification: the text before the
/// first colon, or all of it when there is none.
pub open spec fn spec_host_part(s: Seq<char>) -> Seq<char> {
    let i = char_find(s, ':');
    if i < s.len() {
        s.subrange(0, i)
    } else {
        s
    }
}

/// The resolved ports of a `host:ports` specification, with the flag
/// telling whether the default list was used; an absent port part falls
/// back to the default list and marks the run as a default scan.
pub open spec fn spec_ports_part(s: Seq<char>, default_ports: Seq<u16>) -> (Seq<u16>, bool) {
    let i = char_find(s, ':');
    if i < s.len() {
        spec_port_spec(s.subrange(i + 1, s.len() as int), default_ports)
    } else {
        (default_ports, true)
    }
}

/// Resolves a `host:ports` port-scan target.  A host part that is an
/// IPv4 literal resolves directly; any other host part is given to the
/// system name resolver, and failure there leaves no target.  The second
/// result tells whether the default port list was used.
pub fn resolve_port_target(s: &str, default_ports: &Vec<u16>) -> (r: (Option<TargetInfo>, bool))
    ensures
        r.1 == spec_ports_part(s@, default_ports@).1,
        match spec_parse_ipv4(spec_host_part(s@)) {
            Option::Some(ip) => r.0 matches Some(t) && t.ip_addr == ip && t.host_name@.len() == 0
                && t.ports@ == spec_ports_part(s@, default_ports@).0 && t.base_uri@.len() == 0
                && t.base_domain@.len() == 0,
            Option::None => r.0 matches Some(t) ==> (t.host_name@ == spec_host_part(s@) && t.ports@
                == spec_ports_part(s@, default_ports@).0 && t.base_uri@.len() == 0
                && t.base_domain@.len() == 0),
        },
{
    let len = s.unicode_len();
    proof {
        assert(s@.subrange(0, s@.len() as int) =~= s@);
    }
    let colon = find_char_from(s, 0, ':');
    let host = s.substring_char(0, colon);
    proof {
        if colon == len {
            assert(host@ =~= s@);
        }
    }
    let (ports, used_default) = if colon < len {
        let rest = s.substring_char(colon + 1, len);
        proof {
            assert(rest@ =~= s@.subrange(colon + 1, s@.len() as int));
        }
        resolve_port_spec(rest, default_ports)
    } else {
        (copy_ports(default_ports), true)
    };
    match resolve_host_token(host) {
        Some(mut t) => {
            t.ports = ports;
            (Some(t), used_default)
        },
        None => (None, used_default),
    }
}

/// The network named by `address/prefix` text: the address text before
/// the slash and the prefix length after it.  A missing or malformed
/// prefix length, or one over 32, falls back to 24.
pub open spec fn spec_network_parts(s: Seq<char>) -> (Seq<char>, u8) {
    let i = char_find(s, '/');
    if i < s.len() {
        (s.subrange(0, i), spec_prefix_len(s.subrange(i + 1, s.len() as int)))
    } else {
        (s, 24)
    }
}

/// A prefix length read from text, falling back to 24 when malformed or
/// over 32.
pub open spec fn spec_prefix_len(s: Seq<char>) -> u8 {
    match spec_parse_u16(s) {
        Option::Some(v) => if v <= 32 {
            v as u8
        } else {
            24
        },
        Option::None => 24,
    }
}

/// The usable host addresses named by `address/prefix` network text;
/// empty when the address part is not an IPv4 literal.
pub open spec fn spec_network_hosts(s: Seq<char>) -> Seq<u32> {
    match spec_parse_ipv4(spec_network_parts(s).0) {
        Option::Some(ip) => spec_usable_hosts(ip, spec_network_parts(s).1),
        Option::None => Seq::empty(),
    }
}

/// Enumerates the usable hosts of the network named by `address/prefix`
/// text, one target per host.
pub fn resolve_network_targets(s: &str) -> (r: Vec<TargetInfo>)
    ensures
        r@.len() == spec_network_hosts(s@).len(),
        forall|i: int|
            0 <= i < r@.len() ==> {
                let t = #[trigger] r@[i];
                &&& t.ip_addr == spec_network_hosts(s@)[i]
                &&& t.host_name@.len() == 0
                &&& t.ports@.len() == 0
                &&& t.base_uri@.len() == 0
                &&& t.base_domain@.len() == 0
            },
{
    let len = s.unicode_len();
    proof {
        assert(s@.subrange(0, s@.len() as int) =~= s@);
    }
    let slash = find_char_from(s, 0, '/');
    let head = s.substring_char(0, slash);
    proof {
        if slash == len {
            assert(head@ =~= s@);
        }
    }
    let prefix: u8 = if slash < len {
        match parse_u16_range(s, slash + 1, len) {
            Some(v) => {
                if v <= 32 {
                    v as u8
                } else {
                    24
                }
            },
            None => 24,
        }
    } else {
        24
    };
    let ip = match parse_ipv4(head) {
        Some(ip) => ip,
        None => {
            let r: Vec<TargetInfo> = Vec::new();
            return r;
        },
    };
    let hosts = hosts_in_network(ip, prefix);
    let mut r: Vec<TargetInfo> = Vec::new();
    let mut i: usize = 0;
    while i < hosts.len()
        invariant
            i <= hosts@.len(),
            hosts@ == spec_network_hosts(s@),
            r@.len() == i,
            forall|j: int|
                0 <= j < i ==> {
                    let t = #[trigger] r@[j];
                    &&& t.ip_addr == spec_network_hosts(s@)[j]
                    &&& t.host_name@.len() == 0
                    &&& t.ports@.len() == 0
                    &&& t.base_uri@.len() == 0
                    &&& t.base_domain@.len() == 0
                },
        decreases hosts@.len() - i,
    {
        r.push(TargetInfo::new_with_ip_addr(hosts[i]));
        i += 1;
    }
    r
}

/// Resolves the raw target specification of one run into probe targets.
/// A port scan takes a `host:ports` form; a host scan takes network
/// notation when its head is an IPv4 literal and a comma list of hosts
/// otherwise; ping and traceroute take a single host; URI and domain
/// scans carry their base text through.  The second result tells whether
/// the default port list was used.
pub fn resolve_targets(kind: CommandType, spec: &str, default_ports: &Vec<u16>) -> (r: Result<
    (Vec<TargetInfo>, bool),
    ResolutionError,
>)
    ensures
        kind == CommandType::PortScan ==> match spec_parse_ipv4(spec_host_part(spec@)) {
            Option::Some(ip) => r matches Ok(p) && p.0@.len() == 1 && p.0@[0].ip_addr == ip
                && p.0@[0].host_name@.len() == 0 && p.0@[0].ports@ == spec_ports_part(
                spec@,
                default_ports@,
            ).0 && p.1 == spec_ports_part(spec@, default_ports@).1,
            Option::None => r matches Ok(p) ==> (p.0@.len() == 1 && p.0@[0].host_name@
                == spec_host_part(spec@) && p.0@[0].ports@ == spec_ports_part(
                spec@,
                default_ports@,
            ).0),
        },
        (kind == CommandType::PortScan && r is Err) ==> (r matches Err(e) && e
            == ResolutionError::NameResolutionFailed && spec_parse_ipv4(spec_host_part(spec@))
            is None),
        kind == CommandType::HostScan ==> r is Ok,
        kind == CommandType::HostScan && spec_parse_ipv4(spec_network_parts(spec@).0)
            is Some ==> match r {
            Result::Ok(p) => {
                &&& p.0@.len() == spec_network_hosts(spec@).len()
                &&& forall|i: int|
                    0 <= i < p.0@.len() ==> (#[trigger] p.0@[i]).ip_addr == spec_network_hosts(
                        spec@,
                    )[i] && p.0@[i].host_name@.len() == 0 && p.0@[i].ports@.len() == 0
                &&& p.1 == false
            },
            Result::Err(_) => false,
        },
        kind == CommandType::HostScan && spec_parse_ipv4(spec_network_parts(spec@).0) is None
            && spec_all_ipv4_tokens(spec@, ',') ==> match r {
            Result::Ok(p) => {
                &&& p.0@.len() == spec_ip_list(spec@, ',').len()
                &&& forall|i: int|
                    0 <= i < p.0@.len() ==> (#[trigger] p.0@[i]).ip_addr == spec_ip_list(
                        spec@,
                        ',',
                    )[i] && p.0@[i].ports@.len() == 0
                &&& p.1 == false
            },
            Result::Err(_) => false,
        },
        (kind == CommandType::Ping || kind == CommandType::Traceroute) ==> match spec_parse_ipv4(
            spec@,
        ) {
            Option::Some(ip) => r matches Ok(p) && p.0@.len() == 1 && p.0@[0].ip_addr == ip
                && p.0@[0].ports@.len() == 0 && p.1 == false,
            Option::None => r is Err || (r matches Ok(p) && p.0@.len() == 1 && p.0@[0].host_name@
                == spec@),
        },
        kind == CommandType::UriScan ==> (r matches Ok(p) && p.0@.len() == 1 && p.0@[0].base_uri@
            == spec@ && p.0@[0].ports@.len() == 0 && p.1 == false),
        kind == CommandType::DomainScan ==> (r matches Ok(p) && p.0@.len() == 1
            && p.0@[0].base_domain@ == spec@ && p.0@[0].ports@.len() == 0 && p.1 == false),
        (kind == CommandType::BatchScan || kind == CommandType::PassiveScan) ==> (r matches Ok(p)
            && p.0@.len() == 0 && p.1 == false),
{
    match kind {
        CommandType::PortScan => {
            let (t, used_default) = resolve_port_target(spec, default_ports);
            match t {
                Some(t) => {
                    let mut ts: Vec<TargetInfo> = Vec::new();
                    ts.push(t);
                    Ok((ts, used_default))
                },
                None => Err(ResolutionError::NameResolutionFailed),
            }
        },
        CommandType::HostScan => {
            let len = spec.unicode_len();
            proof {
                assert(spec@.subrange(0, spec@.len() as int) =~= spec@);
            }
            let slash = find_char_from(spec, 0, '/');
            let head = spec.substring_char(0, slash);
            proof {
                if slash == len {
                    assert(head@ =~= spec@);
                }
            }
            match parse_ipv4(head) {
                Some(_) => Ok((resolve_network_targets(spec), false)),
                None => Ok((resolve_host_list(spec, ','), false)),
            }
        },
        CommandType::Ping | CommandType::Traceroute => {
            match resolve_host_token(spec) {
                Some(t) => {
                    let mut ts: Vec<TargetInfo> = Vec::new();
                    ts.push(t);
                    Ok((ts, false))
                },
                None => Err(ResolutionError::BadTargetSpecification),
            }
        },
        CommandType::UriScan => {
            let mut ts: Vec<TargetInfo> = Vec::new();
            ts.push(TargetInfo::new_with_base_uri(spec.to_owned()));
            Ok((ts, false))
        },
        CommandType::DomainScan => {
            let mut ts: Vec<TargetInfo> = Vec::new();
            ts.push(TargetInfo::new_with_base_domain(spec.to_owned()));
            Ok((ts, false))
        },
        CommandType::BatchScan | CommandType::PassiveScan => {
            let ts: Vec<TargetInfo> = Vec::new();
            Ok((ts, false))
        },
    }
}

/// A run of the port-target resolver on a literal specification, seen as
/// the plain values it determines: the address, the port list and the
/// default-list flag.
pub open spec fn is_literal_port_resolution(
    s: Seq<char>,
    default_ports: Seq<u16>,
    out: (u32, Seq<u16>, bool),
) -> bool {
    match spec_parse_ipv4(spec_host_part(s)) {
        Option::Some(ip) => out.0 == ip && out.1 == spec_ports_part(s, default_ports).0 && out.2
            == spec_ports_part(s, default_ports).1,
        Option::None => false,
    }
}

/// Resolution is idempotent: with no name-service state change between
/// the calls, resolving the same target specification twice yields the
/// same ordered target set.  The resolver's contracts pin a literal
/// resolution to a function of the specification text and the default
/// port list alone, so any two outcomes of the same text agree; the same
/// holds of network enumeration, whose outcome is `spec_network_hosts`
/// of the text.
pub proof fn lemma_resolution_idempotent(
    s: Seq<char>,
    default_ports: Seq<u16>,
    first: (u32, Seq<u16>, bool),
    second: (u32, Seq<u16>, bool),
)
    requires
        is_literal_port_resolution(s, default_ports, first),
        is_literal_port_resolution(s, default_ports, second),
    ensures
        first == second,
{
}

/// Network enumeration is idempotent: two runs over the same network
/// text see the same host sequence.
pub proof fn lemma_network_resolution_idempotent(s: Seq<char>, first: Seq<u32>, second: Seq<u32>)
    requires
        first == spec_network_hosts(s),
        second == spec_network_hosts(s),
    ensures
        first == second,
{
}

} // verus!
