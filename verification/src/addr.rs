//! The peer address of a connection, held as plain values, and its
//! human-readable rendering.
//!
//! The serving layer captures the remote socket address at connection time
//! and converts it into an [`IpEndpoint`]; the library renders it without
//! further help from the transport. An IPv6 address is rendered the
//! customary way: lower-case hexadecimal groups without leading zeros, the
//! leftmost longest run of two or more zero groups elided as `::`, and an
//! IPv4-mapped address written with its dotted tail (`::ffff:a.b.c.d`).

use vstd::prelude::*;

use crate::text::{fmt_dec_u16, fmt_hex_u16, push_char, push_str, spec_dec, spec_hex};

verus! {

/// A peer's socket address: an IPv4 or IPv6 address together with a port.
#[derive(Clone, Copy, Debug, PartialEq, Eq, Structural)]
pub enum IpEndpoint {
    /// An IPv4 address `a.b.c.d` with its port.
    V4 { a: u8, b: u8, c: u8, d: u8, port: u16 },
    /// An IPv6 address given by its eight 16-bit groups, with its port.
    V6 { s0: u16, s1: u16, s2: u16, s3: u16, s4: u16, s5: u16, s6: u16, s7: u16, port: u16 },
}

/// The length of the run of zero groups that starts at position `i` of `g`.
pub open spec fn zero_run_at(g: Seq<u16>, i: int) -> nat
    decreases g.len() - i,
{
    if i < 0 || i >= g.len() || g[i] != 0 {
        0
    } else {
        (zero_run_at(g, i + 1) + 1) as nat
    }
}

/// The length of the longest run of zero groups that starts at or after `i`.
pub open spec fn max_zero_run_from(g: Seq<u16>, i: int) -> nat
    decreases g.len() - i,
{
    if i < 0 || i >= g.len() {
        0
    } else if zero_run_at(g, i) >= max_zero_run_from(g, i + 1) {
        zero_run_at(g, i)
    } else {
        max_zero_run_from(g, i + 1)
    }
}

/// The length of the longest run of zero groups of `g`.
pub open spec fn max_zero_run(g: Seq<u16>) -> nat {
    max_zero_run_from(g, 0)
}

/// The first position at or after `i` whose zero run is the longest of `g`
/// (`g.len()` if there is none).
pub open spec fn first_max_start_from(g: Seq<u16>, i: int) -> int
    decreases g.len() - i,
{
    if i < 0 || i >= g.len() {
        g.len() as int
    } else if zero_run_at(g, i) == max_zero_run(g) {
        i
    } else {
        first_max_start_from(g, i + 1)
    }
}

/// The start of the leftmost longest run of zero groups of `g`.
pub open spec fn first_max_start(g: Seq<u16>) -> int {
    first_max_start_from(g, 0)
}

/// Whether the eight groups are an IPv4-mapped address, `::ffff:a.b.c.d`.
pub open spec fn is_ipv4_mapped(g: Seq<u16>) -> bool {
    g.len() == 8 && g[0] == 0 && g[1] == 0 && g[2] == 0 && g[3] == 0 && g[4] == 0 && g[5]
        == 0xffff
}

/// The groups of `g` in lower-case hexadecimal, joined by `:`.
pub open spec fn spec_hex_groups(g: Seq<u16>) -> Seq<char>
    decreases g.len(),
{
    if g.len() == 0 {
        Seq::empty()
    } else if g.len() == 1 {
        spec_hex(g[0] as nat)
    } else {
        spec_hex_groups(g.drop_last()) + seq![':'] + spec_hex(g.last() as nat)
    }
}

/// The dotted-decimal tail of an IPv4-mapped address, taken from its last
/// two groups.
pub open spec fn spec_mapped_tail(s6: u16, s7: u16) -> Seq<char> {
    spec_dec(s6 as nat / 256) + seq!['.'] + spec_dec(s6 as nat % 256) + seq!['.'] + spec_dec(
        s7 as nat / 256,
    ) + seq!['.'] + spec_dec(s7 as nat % 256)
}

/// The rendering of eight IPv6 groups: the IPv4-mapped form where it
/// applies, else the groups in hexadecimal with the leftmost longest run of
/// two or more zero groups elided as `::`.
pub open spec fn spec_v6_groups(g: Seq<u16>) -> Seq<char> {
    if is_ipv4_mapped(g) {
        "::ffff:"@ + spec_mapped_tail(g[6], g[7])
    } else if max_zero_run(g) > 1 {
        spec_hex_groups(g.subrange(0, first_max_start(g))) + seq![':'] + seq![':']
            + spec_hex_groups(g.subrange(first_max_start(g) + max_zero_run(g) as int, g.len() as int))
    } else {
        spec_hex_groups(g)
    }
}

/// The group sequence of an IPv6 address.
pub open spec fn v6_groups(
    s0: u16,
    s1: u16,
    s2: u16,
    s3: u16,
    s4: u16,
    s5: u16,
    s6: u16,
    s7: u16,
) -> Seq<u16> {
    seq![s0, s1, s2, s3, s4, s5, s6, s7]
}

/// The rendering of an endpoint: `a.b.c.d:port` for IPv4 and
/// `[groups]:port` for IPv6, the groups rendered by [`spec_v6_groups`].
pub open spec fn spec_format_endpoint(e: IpEndpoint) -> Seq<char> {
    match e {
        IpEndpoint::V4 { a, b, c, d, port } => spec_dec(a as nat) + seq!['.'] + spec_dec(
            b as nat,
        ) + seq!['.'] + spec_dec(c as nat) + seq!['.'] + spec_dec(d as nat) + seq![':'] + spec_dec(
            port as nat,
        ),
        IpEndpoint::V6 { s0, s1, s2, s3, s4, s5, s6, s7, port } => seq!['['] + spec_v6_groups(
            v6_groups(s0, s1, s2, s3, s4, s5, s6, s7),
        ) + seq![']'] + seq![':'] + spec_dec(port as nat),
    }
}

/// A zero run starting at `i` stays within `g`.
proof fn lemma_zero_run_within(g: Seq<u16>, i: int)
    requires
        0 <= i <= g.len(),
    ensures
        zero_run_at(g, i) <= g.len() - i,
    decreases g.len() - i,
{
    if i < g.len() && g[i] == 0 {
        lemma_zero_run_within(g, i + 1);
    }
}

/// A positive longest run is attained at some position.
proof fn lemma_max_run_attained(g: Seq<u16>, i: int)
    requires
        0 <= i <= g.len(),
        max_zero_run_from(g, i) > 0,
    ensures
        exists|j: int| i <= j < g.len() && zero_run_at(g, j) == max_zero_run_from(g, i),
    decreases g.len() - i,
{
    if i < g.len() {
        if zero_run_at(g, i) >= max_zero_run_from(g, i + 1) {
            assert(i <= i < g.len() && zero_run_at(g, i) == max_zero_run_from(g, i));
        } else {
            lemma_max_run_attained(g, i + 1);
            let j = choose|j: int|
                i + 1 <= j < g.len() && zero_run_at(g, j) == max_zero_run_from(g, i + 1);
            assert(i <= j < g.len() && zero_run_at(g, j) == max_zero_run_from(g, i));
        }
    }
}

/// Where some position at or after `i` attains the longest run, the first
/// such position lies within `g` and attains it.
proof fn lemma_first_max_found(g: Seq<u16>, i: int)
    requires
        0 <= i <= g.len(),
        exists|j: int| i <= j < g.len() && zero_run_at(g, j) == max_zero_run(g),
    ensures
        i <= first_max_start_from(g, i) < g.len(),
        zero_run_at(g, first_max_start_from(g, i)) == max_zero_run(g),
    decreases g.len() - i,
{
    let j = choose|j: int| i <= j < g.len() && zero_run_at(g, j) == max_zero_run(g);
    if zero_run_at(g, i) != max_zero_run(g) {
        assert(i + 1 <= j < g.len() && zero_run_at(g, j) == max_zero_run(g));
        lemma_first_max_found(g, i + 1);
    }
}

/// The length of the run of zero groups of `g` starting at `i`.
fn run_len_at(g: &Vec<u16>, i: usize) -> (r: usize)
    requires
        g@.len() == 8,
        i <= 8,
    ensures
        r == zero_run_at(g@, i as int),
        r <= 8 - i,
    decreases 8 - i,
{
    if i == 8 {
        0
    } else if g[i] != 0 {
        0
    } else {
        1 + run_len_at(g, i + 1)
    }
}

/// The length of the longest run of zero groups of `g` at or after `i`.
fn max_run_from(g: &Vec<u16>, i: usize) -> (r: usize)
    requires
        g@.len() == 8,
        i <= 8,
    ensures
        r == max_zero_run_from(g@, i as int),
    decreases 8 - i,
{
    if i == 8 {
        0
    } else {
        let a = run_len_at(g, i);
        let b = max_run_from(g, i + 1);
        if a >= b {
            a
        } else {
            b
        }
    }
}

/// The first position at or after `i` whose zero run has length `m`, the
/// longest of `g`.
fn first_max_from(g: &Vec<u16>, i: usize, m: usize) -> (r: usize)
    requires
        g@.len() == 8,
        i <= 8,
        m == max_zero_run(g@),
    ensures
        r == first_max_start_from(g@, i as int),
        r <= 8,
    decreases 8 - i,
{
    if i == 8 {
        8
    } else if run_len_at(g, i) == m {
        i
    } else {
        first_max_from(g, i + 1, m)
    }
}

/// Appends the groups `g[start..end]` in hexadecimal, joined by `:`.
fn push_hex_groups(s: &mut String, g: &Vec<u16>, start: usize, end: usize)
    requires
        start <= end,
        end <= g@.len(),
    ensures
        final(s)@ == old(s)@ + spec_hex_groups(g@.subrange(start as int, end as int)),
    decreases end - start,
{
    if start == end {
        assert(s@ =~= s@ + spec_hex_groups(g@.subrange(start as int, end as int)));
    } else {
        push_hex_groups(s, g, start, end - 1);
        if end - 1 > start {
            push_char(s, ':');
        }
        push_str(s, fmt_hex_u16(g[end - 1]).as_str());
        proof {
            let whole = g@.subrange(start as int, end as int);
            assert(whole.drop_last() =~= g@.subrange(start as int, end as int - 1));
            assert(whole.last() == g@[end - 1]);
            assert(s@ =~= old(s)@ + spec_hex_groups(whole));
        }
    }
}

/// Renders the endpoint in its human-readable form.
pub fn format_endpoint(e: &IpEndpoint) -> (r: String)
    ensures
        r@ == spec_format_endpoint(*e),
{
    match *e {
        IpEndpoint::V4 { a, b, c, d, port } => {
            let mut s = String::new();
            push_str(&mut s, fmt_dec_u16(a as u16).as_str());
            push_char(&mut s, '.');
            push_str(&mut s, fmt_dec_u16(b as u16).as_str());
            push_char(&mut s, '.');
            push_str(&mut s, fmt_dec_u16(c as u16).as_str());
            push_char(&mut s, '.');
            push_str(&mut s, fmt_dec_u16(d as u16).as_str());
            push_char(&mut s, ':');
            push_str(&mut s, fmt_dec_u16(port).as_str());
            assert(s@ =~= spec_format_endpoint(*e));
            s
        },
        IpEndpoint::V6 { s0, s1, s2, s3, s4, s5, s6, s7, port } => {
            let mut g: Vec<u16> = Vec::new();
            g.push(s0);
            g.push(s1);
            g.push(s2);
            g.push(s3);
            g.push(s4);
            g.push(s5);
            g.push(s6);
            g.push(s7);
            proof {
                assert(g@ =~= v6_groups(s0, s1, s2, s3, s4, s5, s6, s7));
            }
            let mut s = String::new();
            push_char(&mut s, '[');
            if s0 == 0 && s1 == 0 && s2 == 0 && s3 == 0 && s4 == 0 && s5 == 0xffff {
                push_str(&mut s, "::ffff:");
                push_str(&mut s, fmt_dec_u16(s6 / 256).as_str());
                push_char(&mut s, '.');
                push_str(&mut s, fmt_dec_u16(s6 % 256).as_str());
                push_char(&mut s, '.');
                push_str(&mut s, fmt_dec_u16(s7 / 256).as_str());
                push_char(&mut s, '.');
                push_str(&mut s, fmt_dec_u16(s7 % 256).as_str());
                assert(s@ =~= seq!['['] + spec_v6_groups(g@));
            } else {
                let m = max_run_from(&g, 0);
                if m > 1 {
                    let start = first_max_from(&g, 0, m);
                    proof {
                        lemma_max_run_attained(g@, 0);
                        lemma_first_max_found(g@, 0);
                        lemma_zero_run_within(g@, first_max_start(g@));
                    }
                    push_hex_groups(&mut s, &g, 0, start);
                    push_char(&mut s, ':');
                    push_char(&mut s, ':');
                    push_hex_groups(&mut s, &g, start + m, 8);
                    assert(s@ =~= seq!['['] + spec_v6_groups(g@));
                } else {
                    push_hex_groups(&mut s, &g, 0, 8);
                    proof {
                        assert(g@.subrange(0, 8) =~= g@);
                        assert(s@ =~= seq!['['] + spec_v6_groups(g@));
                    }
                }
            }
            push_char(&mut s, ']');
            push_char(&mut s, ':');
            push_str(&mut s, fmt_dec_u16(port).as_str());
            assert(s@ =~= spec_format_endpoint(*e));
            s
        },
    }
}

} // verus!
