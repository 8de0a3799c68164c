use ws_demo::addr::{format_endpoint, IpEndpoint};
use ws_demo::text::{fmt_dec_u16, fmt_hex_u16};

#[test]
fn decimal_rendering() {
    assert_eq!(fmt_dec_u16(0), "0");
    assert_eq!(fmt_dec_u16(7), "7");
    assert_eq!(fmt_dec_u16(10), "10");
    assert_eq!(fmt_dec_u16(255), "255");
    assert_eq!(fmt_dec_u16(8888), "8888");
    assert_eq!(fmt_dec_u16(65535), "65535");
}

#[test]
fn hexadecimal_rendering() {
    assert_eq!(fmt_hex_u16(0), "0");
    assert_eq!(fmt_hex_u16(1), "1");
    assert_eq!(fmt_hex_u16(10), "a");
    assert_eq!(fmt_hex_u16(0xdb8), "db8");
    assert_eq!(fmt_hex_u16(0x2001), "2001");
    assert_eq!(fmt_hex_u16(0xffff), "ffff");
}

fn v6(groups: [u16; 8], port: u16) -> IpEndpoint {
    IpEndpoint::V6 {
        s0: groups[0],
        s1: groups[1],
        s2: groups[2],
        s3: groups[3],
        s4: groups[4],
        s5: groups[5],
        s6: groups[6],
        s7: groups[7],
        port,
    }
}

#[test]
fn endpoint_rendering() {
    let v4 = IpEndpoint::V4 { a: 1, b: 2, c: 3, d: 4, port: 8888 };
    assert_eq!(format_endpoint(&v4), "1.2.3.4:8888");
    let link_local = v6([0xfe80, 0, 0, 0, 0x1ff, 0xfe23, 0x4567, 0x890a], 17);
    assert_eq!(format_endpoint(&link_local), "[fe80::1ff:fe23:4567:890a]:17");
}

#[test]
fn zero_run_compression() {
    // A lone zero group is not elided.
    let single = v6([0x2001, 0xdb8, 0, 1, 1, 1, 1, 1], 1);
    assert_eq!(format_endpoint(&single), "[2001:db8:0:1:1:1:1:1]:1");
    // Of two equally long runs, the leftmost is elided.
    let tie = v6([1, 0, 0, 2, 0, 0, 3, 4], 1);
    assert_eq!(format_endpoint(&tie), "[1::2:0:0:3:4]:1");
    // A longer run to the right beats a shorter one to the left.
    let longer_right = v6([0, 0, 1, 0, 0, 0, 1, 1], 1);
    assert_eq!(format_endpoint(&longer_right), "[0:0:1::1:1]:1");
    // A run may reach the end of the groups.
    let trailing = v6([1, 2, 3, 4, 5, 6, 0, 0], 1);
    assert_eq!(format_endpoint(&trailing), "[1:2:3:4:5:6::]:1");
    // An IPv4-mapped address keeps its dotted tail.
    let mapped = v6([0, 0, 0, 0, 0, 0xffff, 0x7f00, 0x0001], 1);
    assert_eq!(format_endpoint(&mapped), "[::ffff:127.0.0.1]:1");
}
