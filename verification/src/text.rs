use vstd::prelude::*;
use vstd::string::StringExecFns;

use crate::parser::wrapers::{Ipv4Address, Ipv6Address, MacAddress};

verus! {

/// The character for one digit value in base 10 or 16, lower case.
pub open spec fn spec_digit(d: int) -> char {
    if d == 0 {
        '0'
    } else if d == 1 {
        '1'
    } else if d == 2 {
        '2'
    } else if d == 3 {
        '3'
    } else if d == 4 {
        '4'
    } else if d == 5 {
        '5'
    } else if d == 6 {
        '6'
    } else if d == 7 {
        '7'
    } else if d == 8 {
        '8'
    } else if d == 9 {
        '9'
    } else if d == 10 {
        'a'
    } else if d == 11 {
        'b'
    } else if d == 12 {
        'c'
    } else if d == 13 {
        'd'
    } else if d == 14 {
        'e'
    } else {
        'f'
    }
}

/// The decimal numeral of `n`, without leading zeros (a single `'0'` for 0).
pub open spec fn spec_dec(n: nat) -> Seq<char>
    decreases n,
{
    if n < 10 {
        seq![spec_digit(n as int)]
    } else {
        spec_dec(n / 10).push(spec_digit((n % 10) as int))
    }
}

/// The hexadecimal numeral of `n`, lower case, without leading zeros (a
/// single `'0'` for 0).
pub open spec fn spec_hex(n: nat) -> Seq<char>
    decreases n,
{
    if n < 16 {
        seq![spec_digit(n as int)]
    } else {
        spec_hex(n / 16).push(spec_digit((n % 16) as int))
    }
}

/// The two-digit hexadecimal numeral of an octet, lower case.
pub open spec fn spec_hex2(n: nat) -> Seq<char>
    recommends
        n < 256,
{
    seq![spec_digit((n / 16) as int), spec_digit((n % 16) as int)]
}

/// A hardware address as text: six two-digit hexadecimal octets joined by
/// colons.
pub open spec fn spec_mac_str(s: Seq<u8>) -> Seq<char>
    recommends
        s.len() == 6,
{
    spec_hex2(s[0] as nat) + seq![':'] + spec_hex2(s[1] as nat) + seq![':'] + spec_hex2(
        s[2] as nat,
    ) + seq![':'] + spec_hex2(s[3] as nat) + seq![':'] + spec_hex2(s[4] as nat) + seq![':']
        + spec_hex2(s[5] as nat)
}

/// An IPv4 address as text: four decimal octets joined by dots.
pub open spec fn spec_ipv4_str(s: Seq<u8>) -> Seq<char>
    recommends
        s.len() == 4,
{
    spec_dec(s[0] as nat) + seq!['.'] + spec_dec(s[1] as nat) + seq!['.'] + spec_dec(
        s[2] as nat,
    ) + seq!['.'] + spec_dec(s[3] as nat)
}

/// An IPv6 address as text: its eight hexadecimal groups joined by colons,
/// lower case, without leading zeros within a group and without group
/// compression.
pub open spec fn spec_ipv6_str(g: Seq<u16>) -> Seq<char>
    recommends
        g.len() == 8,
{
    spec_hex(g[0] as nat) + seq![':'] + spec_hex(g[1] as nat) + seq![':'] + spec_hex(
        g[2] as nat,
    ) + seq![':'] + spec_hex(g[3] as nat) + seq![':'] + spec_hex(g[4] as nat) + seq![':']
        + spec_hex(g[5] as nat) + seq![':'] + spec_hex(g[6] as nat) + seq![':'] + spec_hex(
        g[7] as nat,
    )
}

/// The one-character text of one digit value.
fn digit_str(d: u8) -> (c: &'static str)
    requires
        d < 16,
    ensures
        c@ == seq![spec_digit(d as int)],
{
    let c: &'static str = if d == 0 {
        "0"
    } else if d == 1 {
        "1"
    } else if d == 2 {
        "2"
    } else if d == 3 {
        "3"
    } else if d == 4 {
        "4"
    } else if d == 5 {
        "5"
    } else if d == 6 {
        "6"
    } else if d == 7 {
        "7"
    } else if d == 8 {
        "8"
    } else if d == 9 {
        "9"
    } else if d == 10 {
        "a"
    } else if d == 11 {
        "b"
    } else if d == 12 {
        "c"
    } else if d == 13 {
        "d"
    } else if d == 14 {
        "e"
    } else {
        "f"
    };
    proof {
        reveal_strlit("0");
        reveal_strlit("1");
        reveal_strlit("2");
        reveal_strlit("3");
        reveal_strlit("4");
        reveal_strlit("5");
        reveal_strlit("6");
        reveal_strlit("7");
        reveal_strlit("8");
        reveal_strlit("9");
        reveal_strlit("a");
        reveal_strlit("b");
        reveal_strlit("c");
        reveal_strlit("d");
        reveal_strlit("e");
        reveal_strlit("f");
        assert(c@ =~= seq![spec_digit(d as int)]);
    }
    c
}

/// The decimal numeral of `n` as a fresh string.
pub fn dec_string(n: usize) -> (s: String)
    ensures
        s@ == spec_dec(n as nat),
    decreases n,
{
    if n < 10 {
        let mut s = String::new();
        s.append(digit_str(n as u8));
        proof {
            assert(s@ =~= spec_dec(n as nat));
        }
        s
    } else {
        let mut s = dec_string(n / 10);
        s.append(digit_str((n % 10) as u8));
        proof {
            assert(s@ =~= spec_dec(n as nat));
        }
        s
    }
}

/// The hexadecimal numeral of `n` as a fresh string, lower case.
pub fn hex_string(n: u16) -> (s: String)
    ensures
        s@ == spec_hex(n as nat),
    decreases n,
{
    if n < 16 {
        let mut s = String::new();
        s.append(digit_str(n as u8));
        proof {
            assert(s@ =~= spec_hex(n as nat));
        }
        s
    } else {
        let mut s = hex_string(n / 16);
        s.append(digit_str((n % 16) as u8));
        proof {
            assert(s@ =~= spec_hex(n as nat));
        }
        s
    }
}

/// Append the two-digit hexadecimal numeral of one octet.
fn push_hex2(s: &mut String, v: u8)
    ensures
        final(s)@ == old(s)@ + spec_hex2(v as nat),
{
    s.append(digit_str(v / 16));
    s.append(digit_str(v % 16));
    proof {
        assert(final(s)@ =~= old(s)@ + spec_hex2(v as nat));
    }
}

/// A hardware address as colon-joined two-digit hexadecimal octets.
pub fn mac_string(m: &MacAddress) -> (s: String)
    ensures
        s@ == spec_mac_str(m@),
{
    let mut s = String::new();
    push_hex2(&mut s, m.0);
    s.append(":");
    push_hex2(&mut s, m.1);
    s.append(":");
    push_hex2(&mut s, m.2);
    s.append(":");
    push_hex2(&mut s, m.3);
    s.append(":");
    push_hex2(&mut s, m.4);
    s.append(":");
    push_hex2(&mut s, m.5);
    proof {
        reveal_strlit(":");
        assert(s@ =~= spec_mac_str(m@));
    }
    s
}

/// An IPv4 address as dot-joined decimal octets.
pub fn ipv4_string(a: &Ipv4Address) -> (s: String)
    ensures
        s@ == spec_ipv4_str(a@),
{
    let mut s = dec_string(a.0 as usize);
    s.append(".");
    let part1 = dec_string(a.1 as usize);
    s.append(part1.as_str());
    s.append(".");
    let part2 = dec_string(a.2 as usize);
    s.append(part2.as_str());
    s.append(".");
    let part3 = dec_string(a.3 as usize);
    s.append(part3.as_str());
    proof {
        reveal_strlit(".");
        assert(s@ =~= spec_ipv4_str(a@));
    }
    s
}

/// An IPv6 address as colon-joined hexadecimal groups.
pub fn ipv6_string(a: &Ipv6Address) -> (s: String)
    ensures
        s@ == spec_ipv6_str(a@),
{
    let mut s = hex_string(a.0);
    s.append(":");
    let part1 = hex_string(a.1);
    s.append(part1.as_str());
    s.append(":");
    let part2 = hex_string(a.2);
    s.append(part2.as_str());
    s.append(":");
    let part3 = hex_string(a.3);
    s.append(part3.as_str());
    s.append(":");
    let part4 = hex_string(a.4);
    s.append(part4.as_str());
    s.append(":");
    let part5 = hex_string(a.5);
    s.append(part5.as_str());
    s.append(":");
    let part6 = hex_string(a.6);
    s.append(part6.as_str());
    s.append(":");
    let part7 = hex_string(a.7);
    s.append(part7.as_str());
    proof {
        reveal_strlit(":");
        assert(s@ =~= spec_ipv6_str(a@));
    }
    s
}

} // verus!
