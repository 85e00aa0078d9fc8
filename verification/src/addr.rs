//! IPv4 address model.
//!
//! Addresses are carried as `u32` values in network order.  This module
//! parses dotted-quad text into that form, formats it back, and enumerates
//! the usable host addresses of a network given by address and prefix
//! length (excluding the network and broadcast addresses).

use vstd::prelude::*;
use vstd::arithmetic::div_mod::{lemma_div_denominator, lemma_fundamental_div_mod, lemma_mod_decreases};
use vstd::arithmetic::power2::{
    pow2,
    lemma2_to64,
    lemma_pow2_adds,
    lemma_pow2_pos,
    lemma_pow2_strictly_increases,
    lemma_pow2_unfold,
};

verus! {

/// True of a decimal digit character.
pub open spec fn is_digit(c: char) -> bool {
    '0' as u32 <= c as u32 && c as u32 <= '9' as u32
}

/// Numeric value of a decimal digit character.
pub open spec fn digit_val(c: char) -> nat {
    (c as u32 - '0' as u32) as nat
}

/// True when every character of `s` is a decimal digit.
pub open spec fn all_digits(s: Seq<char>) -> bool {
    forall|i: int| 0 <= i < s.len() ==> is_digit(#[trigger] s[i])
}

/// Value of a digit string read as a decimal number.
pub open spec fn dec_val(s: Seq<char>) -> nat
    decreases s.len(),
{
    if s.len() == 0 {
        0
    } else {
        dec_val(s.drop_last()) * 10 + digit_val(s.last())
    }
}

/// Index of the first occurrence of `c` in `s`, or `s.len()` if absent.
pub open spec fn char_find(s: Seq<char>, c: char) -> int
    decreases s.len(),
{
    if s.len() == 0 {
        0
    } else if s[0] == c {
        0
    } else {
        1 + char_find(s.subrange(1, s.len() as int), c)
    }
}

/// What `char_find` returns: an index within bounds, pointing at the
/// character when it occurs, with nothing equal to it earlier.
pub proof fn lemma_char_find_props(s: Seq<char>, c: char)
    ensures
        0 <= char_find(s, c) <= s.len(),
        char_find(s, c) < s.len() ==> s[char_find(s, c)] == c,
        forall|m: int| 0 <= m < char_find(s, c) ==> s[m] != c,
    decreases s.len(),
{
    if s.len() == 0 {
    } else if s[0] == c {
    } else {
        let t = s.subrange(1, s.len() as int);
        lemma_char_find_props(t, c);
        assert forall|m: int| 0 <= m < char_find(s, c) implies s[m] != c by {
            if m > 0 {
                assert(t[m - 1] == s[m]);
            }
        }
    }
}

/// The first occurrence characterizes `char_find` uniquely.
pub proof fn lemma_char_find_is_first(s: Seq<char>, c: char, i: int)
    requires
        0 <= i <= s.len(),
        forall|m: int| 0 <= m < i ==> s[m] != c,
        i < s.len() ==> s[i] == c,
    ensures
        char_find(s, c) == i,
    decreases s.len(),
{
    if s.len() == 0 {
    } else if s[0] == c {
        assert(i == 0);
    } else {
        let t = s.subrange(1, s.len() as int);
        assert(i >= 1);
        assert forall|m: int| 0 <= m < i - 1 implies t[m] != c by {
            assert(t[m] == s[m + 1]);
        }
        assert(i - 1 < t.len() ==> t[i - 1] == s[i]);
        lemma_char_find_is_first(t, c, i - 1);
    }
}

/// Number of digits bounds the decimal value: `dec_val(s) < 10^len`.
pub proof fn lemma_dec_val_bound(s: Seq<char>)
    requires
        all_digits(s),
    ensures
        s.len() == 0 ==> dec_val(s) == 0,
        s.len() == 1 ==> dec_val(s) <= 9,
        s.len() == 2 ==> dec_val(s) <= 99,
        s.len() == 3 ==> dec_val(s) <= 999,
    decreases s.len(),
{
    if s.len() > 0 {
        let s1 = s.drop_last();
        assert forall|i: int| 0 <= i < s1.len() implies is_digit(#[trigger] s1[i]) by {
            assert(s1[i] == s[i]);
        }
        lemma_dec_val_bound(s1);
        assert(is_digit(s[s.len() - 1]));
        assert(digit_val(s.last()) <= 9);
    }
}

/// Appending a digit multiplies the value by ten and adds the digit.
proof fn lemma_dec_val_push(s: Seq<char>, c: char)
    ensures
        dec_val(s.push(c)) == dec_val(s) * 10 + digit_val(c),
{
    assert(s.push(c).drop_last() =~= s);
    assert(s.push(c).last() == c);
}

/// Text form of an IPv4 octet: one to three digits, no leading zero,
/// value at most 255.
pub open spec fn is_octet_text(s: Seq<char>) -> bool {
    &&& 1 <= s.len() <= 3
    &&& all_digits(s)
    &&& (s.len() > 1 ==> s[0] != '0')
    &&& dec_val(s) <= 255
}

/// Parse of one octet of a dotted quad.
pub open spec fn spec_parse_octet(s: Seq<char>) -> Option<u8> {
    if is_octet_text(s) {
        Option::Some(dec_val(s) as u8)
    } else {
        Option::None
    }
}

/// Parse of `n` further dot-separated octets from `s`, which must be
/// consumed completely.
pub open spec fn spec_parse_parts(s: Seq<char>, n: nat) -> Option<Seq<u8>>
    decreases n,
{
    if n <= 1 {
        match spec_parse_octet(s) {
            Option::Some(o) => Option::Some(seq![o]),
            Option::None => Option::None,
        }
    } else {
        let i = char_find(s, '.');
        if i >= s.len() {
            Option::None
        } else {
            match spec_parse_octet(s.subrange(0, i)) {
                Option::Some(o) => match spec_parse_parts(
                    s.subrange(i + 1, s.len() as int),
                    (n - 1) as nat,
                ) {
                    Option::Some(rest) => Option::Some(seq![o] + rest),
                    Option::None => Option::None,
                },
                Option::None => Option::None,
            }
        }
    }
}

/// Address value from four octets.
pub open spec fn spec_ipv4_from_octets(a: nat, b: nat, c: nat, d: nat) -> nat {
    a * 0x1000000 + b * 0x10000 + c * 0x100 + d
}

/// Strict dotted-quad parse of an IPv4 address.
pub open spec fn spec_parse_ipv4(s: Seq<char>) -> Option<u32> {
    match spec_parse_parts(s, 4) {
        Option::Some(o) => Option::Some(
            spec_ipv4_from_octets(o[0] as nat, o[1] as nat, o[2] as nat, o[3] as nat) as u32,
        ),
        Option::None => Option::None,
    }
}

/// First index at or after `from` where `c` occurs in `s`, or the length
/// of `s` when it does not occur there.
pub fn find_char_from(s: &str, from: usize, c: char) -> (r: usize)
    requires
        from <= s@.len(),
    ensures
        from <= r <= s@.len(),
        r - from == char_find(s@.subrange(from as int, s@.len() as int), c),
        r < s@.len() ==> s@[r as int] == c,
        forall|m: int| from <= m < r ==> s@[m] != c,
{
    let len = s.unicode_len();
    let mut i = from;
    while i < len
        invariant
            from <= i <= len,
            len == s@.len(),
            forall|m: int| from <= m < i ==> s@[m] != c,
        decreases len - i,
    {
        if s.get_char(i) == c {
            proof {
                let t = s@.subrange(from as int, s@.len() as int);
                assert forall|m: int| 0 <= m < i - from implies t[m] != c by {
                    assert(t[m] == s@[from + m]);
                }
                assert(t[i - from] == s@[i as int]);
                lemma_char_find_is_first(t, c, i - from);
            }
            return i;
        }
        i += 1;
    }
    proof {
        let t = s@.subrange(from as int, s@.len() as int);
        assert forall|m: int| 0 <= m < t.len() implies t[m] != c by {
            assert(t[m] == s@[from + m]);
        }
        lemma_char_find_is_first(t, c, t.len() as int);
    }
    len
}

/// Parses the characters of `s` in `[lo, hi)` as one dotted-quad octet.
fn parse_octet_at(s: &str, lo: usize, hi: usize) -> (r: Option<u8>)
    requires
        lo <= hi <= s@.len(),
    ensures
        r == spec_parse_octet(s@.subrange(lo as int, hi as int)),
{
    let ghost t = s@.subrange(lo as int, hi as int);
    let n = hi - lo;
    if n == 0 || n > 3 {
        return None;
    }
    if n > 1 && s.get_char(lo) == '0' {
        assert(t[0] == '0');
        return None;
    }
    let mut val: u32 = 0;
    let mut i = lo;
    while i < hi
        invariant
            lo <= i <= hi <= s@.len(),
            hi - lo <= 3,
            t == s@.subrange(lo as int, hi as int),
            all_digits(s@.subrange(lo as int, i as int)),
            val == dec_val(s@.subrange(lo as int, i as int)),
            val <= 999,
        decreases hi - i,
    {
        let c = s.get_char(i);
        let cv = c as u32;
        if cv < '0' as u32 || cv > '9' as u32 {
            assert(t[i - lo] == c);
            assert(!is_digit(t[i - lo]));
            return None;
        }
        proof {
            let pre = s@.subrange(lo as int, i as int);
            let post = s@.subrange(lo as int, i + 1);
            assert(post =~= pre.push(s@[i as int]));
            lemma_dec_val_push(pre, s@[i as int]);
            lemma_dec_val_bound(pre);
            assert(pre.len() <= 2);
        }
        val = val * 10 + (cv - '0' as u32);
        i += 1;
    }
    assert(s@.subrange(lo as int, i as int) =~= t);
    if val > 255 {
        return None;
    }
    assert(is_octet_text(t));
    Some(val as u8)
}

/// Parses a strict dotted-quad IPv4 address such as `192.168.1.10`.
#[verifier::rlimit(100)]
pub fn parse_ipv4(s: &str) -> (r: Option<u32>)
    ensures
        r == spec_parse_ipv4(s@),
{
    let len = s.unicode_len();
    let ghost whole = s@;
    proof {
        reveal_with_fuel(spec_parse_parts, 5);
        assert(whole.subrange(0, whole.len() as int) =~= whole);
    }
    let d1 = find_char_from(s, 0, '.');
    if d1 == len {
        return None;
    }
    let a = match parse_octet_at(s, 0, d1) {
        Some(v) => v,
        None => {
            return None;
        },
    };
    let ghost rest1 = whole.subrange(d1 + 1, whole.len() as int);
    let d2 = find_char_from(s, d1 + 1, '.');
    proof {
        let t = whole.subrange(d1 + 1, whole.len() as int);
        assert(t =~= rest1);
        assert forall|m: int| 0 <= m < d2 - (d1 + 1) implies rest1[m] != '.' by {
            assert(rest1[m] == whole[d1 + 1 + m]);
        }
        if d2 < len {
            assert(rest1[d2 - (d1 + 1)] == whole[d2 as int]);
        }
        lemma_char_find_is_first(rest1, '.', d2 - (d1 + 1));
    }
    if d2 == len {
        return None;
    }
    let b = match parse_octet_at(s, d1 + 1, d2) {
        Some(v) => v,
        None => {
            assert(whole.subrange(d1 + 1, d2 as int) =~= rest1.subrange(0, d2 - (d1 + 1)));
            return None;
        },
    };
    assert(whole.subrange(d1 + 1, d2 as int) =~= rest1.subrange(0, d2 - (d1 + 1)));
    let ghost rest2 = rest1.subrange(d2 - d1, rest1.len() as int);
    proof {
        assert(rest2 =~= whole.subrange(d2 + 1, whole.len() as int));
    }
    let d3 = find_char_from(s, d2 + 1, '.');
    proof {
        assert forall|m: int| 0 <= m < d3 - (d2 + 1) implies rest2[m] != '.' by {
            assert(rest2[m] == whole[d2 + 1 + m]);
        }
        if d3 < len {
            assert(rest2[d3 - (d2 + 1)] == whole[d3 as int]);
        }
        lemma_char_find_is_first(rest2, '.', d3 - (d2 + 1));
    }
    if d3 == len {
        return None;
    }
    let c = match parse_octet_at(s, d2 + 1, d3) {
        Some(v) => v,
        None => {
            assert(whole.subrange(d2 + 1, d3 as int) =~= rest2.subrange(0, d3 - (d2 + 1)));
            return None;
        },
    };
    assert(whole.subrange(d2 + 1, d3 as int) =~= rest2.subrange(0, d3 - (d2 + 1)));
    let ghost rest3 = rest2.subrange(d3 - d2, rest2.len() as int);
    proof {
        assert(rest3 =~= whole.subrange(d3 + 1, whole.len() as int));
    }
    let d = match parse_octet_at(s, d3 + 1, len) {
        Some(v) => v,
        None => {
            assert(whole.subrange(d3 + 1, len as int) =~= rest3);
            return None;
        },
    };
    assert(whole.subrange(d3 + 1, len as int) =~= rest3);
    let value: u32 = (a as u32) * 0x1000000 + (b as u32) * 0x10000 + (c as u32) * 0x100
        + (d as u32);
    proof {
        let parts = spec_parse_parts(whole, 4);
        assert(parts == Option::Some(seq![a] + (seq![b] + (seq![c] + seq![d]))));
        assert((seq![a] + (seq![b] + (seq![c] + seq![d])))[0] == a);
        assert((seq![a] + (seq![b] + (seq![c] + seq![d])))[1] == b);
        assert((seq![a] + (seq![b] + (seq![c] + seq![d])))[2] == c);
        assert((seq![a] + (seq![b] + (seq![c] + seq![d])))[3] == d);
    }
    Some(value)
}

/// Character for one decimal digit value.
pub open spec fn digit_char(n: nat) -> char {
    if n == 0 {
        '0'
    } else if n == 1 {
        '1'
    } else if n == 2 {
        '2'
    } else if n == 3 {
        '3'
    } else if n == 4 {
        '4'
    } else if n == 5 {
        '5'
    } else if n == 6 {
        '6'
    } else if n == 7 {
        '7'
    } else if n == 8 {
        '8'
    } else {
        '9'
    }
}

/// Decimal text of a number, without leading zeros.
pub open spec fn dec_text(n: nat) -> Seq<char>
    decreases n,
{
    if n < 10 {
        seq![digit_char(n)]
    } else {
        dec_text(n / 10).push(digit_char(n % 10))
    }
}

/// Dotted-quad text of an address value.
pub open spec fn spec_format_ipv4(v: u32) -> Seq<char> {
    dec_text((v / 0x1000000) as nat) + seq!['.'] + dec_text(((v / 0x10000) % 0x100) as nat)
        + seq!['.'] + dec_text(((v / 0x100) % 0x100) as nat) + seq!['.'] + dec_text((v % 0x100) as nat)
}

/// Text of one decimal digit.
fn digit_str(d: u8) -> (r: &'static str)
    requires
        d <= 9,
    ensures
        r@ == seq![digit_char(d as nat)],
{
    proof {
        reveal_strlit("0");
        reveal_strlit("1");
        reveal_strlit("2");
        reveal_strlit("3");
        reveal_strlit("4");
        reveal_strlit("5");
        reveal_strlit("6");
        reveal_strlit("7");
        reveal_strlit("8");
        reveal_strlit("9");
    }
    let r = match d {
        0 => "0",
        1 => "1",
        2 => "2",
        3 => "3",
        4 => "4",
        5 => "5",
        6 => "6",
        7 => "7",
        8 => "8",
        _ => "9",
    };
    assert(r@ =~= seq![digit_char(d as nat)]);
    r
}

/// Decimal text of a byte value.
pub fn format_u8(n: u8) -> (r: String)
    ensures
        r@ == dec_text(n as nat),
{
    if n < 10 {
        String::from_str(digit_str(n))
    } else if n < 100 {
        proof {
            reveal_with_fuel(dec_text, 3);
        }
        let mut r = String::from_str(digit_str(n / 10));
        r.append(digit_str(n % 10));
        assert(r@ =~= dec_text(n as nat));
        r
    } else {
        proof {
            reveal_with_fuel(dec_text, 4);
            lemma_div_denominator(n as int, 10, 10);
        }
        let mut r = String::from_str(digit_str(n / 100));
        r.append(digit_str((n / 10) % 10));
        r.append(digit_str(n % 10));
        assert(dec_text((n / 10) as nat) == dec_text((n as nat / 10) / 10).push(
            digit_char((n as nat / 10) % 10),
        ));
        assert(r@ =~= dec_text(n as nat));
        r
    }
}

/// Formats an address value as dotted-quad text.
pub fn format_ipv4(v: u32) -> (r: String)
    ensures
        r@ == spec_format_ipv4(v),
{
    proof {
        reveal_strlit(".");
    }
    let a = (v / 0x1000000) as u8;
    let b = ((v / 0x10000) % 0x100) as u8;
    let c = ((v / 0x100) % 0x100) as u8;
    let d = (v % 0x100) as u8;
    let mut r = format_u8(a);
    r.append(".");
    let sb = format_u8(b);
    r.append(sb.as_str());
    r.append(".");
    let sc = format_u8(c);
    r.append(sc.as_str());
    r.append(".");
    let sd = format_u8(d);
    r.append(sd.as_str());
    assert(r@ =~= spec_format_ipv4(v));
    r
}

/// Size of the address block of a network with the given prefix length.
pub open spec fn spec_block_size(prefix: u8) -> nat {
    pow2((32 - prefix) as nat)
}

/// Network address of the block that `addr` belongs to.
pub open spec fn spec_network_addr(addr: u32, prefix: u8) -> int {
    addr - (addr as int % spec_block_size(prefix) as int)
}

/// Two raised to the exponent `e`.
fn pow2_u64(e: u8) -> (r: u64)
    requires
        e <= 32,
    ensures
        r == pow2(e as nat),
        r >= 1,
{
    let mut r: u64 = 1;
    let mut i: u8 = 0;
    proof {
        lemma2_to64();
    }
    while i < e
        invariant
            i <= e <= 32,
            r == pow2(i as nat),
        decreases e - i,
    {
        proof {
            lemma2_to64();
            if (i as nat) < 32 {
                lemma_pow2_strictly_increases(i as nat, 32);
            }
            lemma_pow2_unfold((i + 1) as nat);
        }
        r = r * 2;
        i = i + 1;
    }
    proof {
        lemma_pow2_pos(e as nat);
    }
    r
}

/// The usable host addresses of a network, in ascending order.
pub open spec fn spec_usable_hosts(addr: u32, prefix: u8) -> Seq<u32> {
    if prefix <= 30 {
        Seq::new(
            (spec_block_size(prefix) - 2) as nat,
            |i: int| (spec_network_addr(addr, prefix) + 1 + i) as u32,
        )
    } else {
        Seq::empty()
    }
}

/// Enumerates the usable host addresses of the network that `addr` falls
/// in under the given prefix length: every address strictly between the
/// network address and the broadcast address, in ascending order.  A
/// prefix of 31 or 32 leaves no usable host.
pub fn hosts_in_network(addr: u32, prefix: u8) -> (r: Vec<u32>)
    requires
        prefix <= 32,
    ensures
        r@ == spec_usable_hosts(addr, prefix),
        prefix <= 30 ==> r@.len() == spec_block_size(prefix) - 2,
        prefix > 30 ==> r@.len() == 0,
        forall|i: int| 0 <= i < r@.len() ==> r@[i] == spec_network_addr(addr, prefix) + 1 + i,
{
    let block = pow2_u64(32 - prefix);
    proof {
        lemma_mod_decreases(addr as nat, block as nat);
    }
    let network = (addr as u64) - ((addr as u64) % block);
    proof {
        lemma_pow2_adds((32 - prefix) as nat, prefix as nat);
        lemma2_to64();
        lemma_fundamental_div_mod(addr as int, block as int);
        let bi = block as int;
        let q = addr as int / bi;
        let s = pow2(prefix as nat) as int;
        lemma_pow2_pos(prefix as nat);
        assert(network == bi * q);
        assert(network + bi <= bi * s) by (nonlinear_arith)
            requires
                network == bi * q,
                network <= addr < bi * s,
                bi >= 1,
        ;
        assert(bi * s == pow2(32));
    }
    let mut r: Vec<u32> = Vec::new();
    if block < 4 {
        proof {
            lemma2_to64();
            if prefix <= 30 {
                if ((32 - prefix) as nat) > 2 {
                    lemma_pow2_strictly_increases(2, (32 - prefix) as nat);
                }
                assert(false);
            }
        }
        assert(r@ =~= spec_usable_hosts(addr, prefix));
        return r;
    }
    proof {
        lemma2_to64();
        if prefix > 30 {
            if ((32 - prefix) as nat) < 2 {
                lemma_pow2_strictly_increases((32 - prefix) as nat, 2);
            }
            assert(false);
        }
    }
    let mut k: u64 = 1;
    while k < block - 1
        invariant
            1 <= k <= block - 1,
            block >= 4,
            network + block <= 0x1_0000_0000,
            network == spec_network_addr(addr, prefix),
            block == spec_block_size(prefix),
            r@.len() == k - 1,
            forall|i: int| 0 <= i < r@.len() ==> r@[i] == spec_network_addr(addr, prefix) + 1 + i,
        decreases block - k,
    {
        r.push((network + k) as u32);
        k += 1;
    }
    assert(r@ =~= spec_usable_hosts(addr, prefix));
    r
}

/// True when two strings hold the same characters.
pub fn str_eq(a: &str, b: &str) -> (r: bool)
    ensures
        r == (a@ == b@),
{
    let la = a.unicode_len();
    let lb = b.unicode_len();
    if la != lb {
        assert(a@ != b@);
        return false;
    }
    let mut i: usize = 0;
    while i < la
        invariant
            i <= la,
            la == a@.len(),
            a@.len() == b@.len(),
            forall|j: int| 0 <= j < i ==> a@[j] == b@[j],
        decreases la - i,
    {
        if a.get_char(i) != b.get_char(i) {
            return false;
        }
        i += 1;
    }
    assert(a@ =~= b@);
    true
}

/// Every usable host address of a network appears exactly once in the
/// enumeration, strictly between the network and broadcast addresses.
pub proof fn lemma_usable_hosts(addr: u32, prefix: u8, hosts: Seq<u32>)
    requires
        prefix <= 30,
        hosts.len() == spec_block_size(prefix) - 2,
        forall|i: int| 0 <= i < hosts.len() ==> hosts[i] == spec_network_addr(addr, prefix) + 1 + i,
    ensures
        forall|i: int, j: int| 0 <= i < j < hosts.len() ==> hosts[i] != hosts[j],
        forall|i: int|
            0 <= i < hosts.len() ==> spec_network_addr(addr, prefix) < #[trigger] hosts[i]
                < spec_network_addr(addr, prefix) + spec_block_size(prefix) - 1,
{
}

} // verus!
