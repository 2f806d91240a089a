use bim_core::address::{get_address_with_fallback, IpAddress, SocketAddress};

fn v4(n: u32) -> SocketAddress {
    SocketAddress { ip: IpAddress::V4(n), port: 80 }
}

fn v6(n: u128) -> SocketAddress {
    SocketAddress { ip: IpAddress::V6(n), port: 80 }
}

#[test]
fn prefers_ipv4_by_default() {
    let c = vec![v6(1), v6(2), v4(3), v4(4)];
    assert_eq!(get_address_with_fallback(&c, false, false), Some(v4(3)));
}

#[test]
fn falls_back_to_ipv6() {
    let c = vec![v6(1), v6(2)];
    assert_eq!(get_address_with_fallback(&c, false, false), Some(v6(1)));
}

#[test]
fn forced_ipv4() {
    let c = vec![v6(1), v4(3)];
    assert_eq!(get_address_with_fallback(&c, true, false), Some(v4(3)));
    assert_eq!(get_address_with_fallback(&vec![v6(1)], true, false), None);
}

#[test]
fn forced_ipv6() {
    let c = vec![v4(3), v6(1), v6(2)];
    assert_eq!(get_address_with_fallback(&c, false, true), Some(v6(1)));
    assert_eq!(get_address_with_fallback(&vec![v4(1)], false, true), None);
}

#[test]
fn forcing_both_means_ipv4() {
    let c = vec![v6(1), v4(3)];
    assert_eq!(get_address_with_fallback(&c, true, true), Some(v4(3)));
}

#[test]
fn nothing_resolved() {
    assert_eq!(get_address_with_fallback(&vec![], false, false), None);
}
