use udp_obfuscat::addr::SocketAddress;
use udp_obfuscat::dns::{filter_ips, resolve_and_filter_ips, Lookup, ResolveError, ResolveOptions};

const LOCALHOST: u32 = 0x7f00_0001;
const LOCALHOST6: u128 = 1;

fn any() -> ResolveOptions {
    ResolveOptions::default()
}

fn ipv4_only() -> ResolveOptions {
    ResolveOptions {
        ipv4_only: true,
        ..Default::default()
    }
}

fn ipv6_only() -> ResolveOptions {
    ResolveOptions {
        ipv6_only: true,
        ..Default::default()
    }
}

/// What resolving `localhost` with the given port gives.
fn found_localhost(port: u16) -> Lookup {
    Lookup::Found(vec![
        SocketAddress::v6(LOCALHOST6, port),
        SocketAddress::v4(LOCALHOST, port),
    ])
}

#[test]
fn default_options_ask_for_no_family() {
    let options = ResolveOptions::default();
    assert!(!options.ipv4_only);
    assert!(!options.ipv6_only);
}

#[test]
fn options_are_set_one_by_one() {
    let options = ResolveOptions::default().set_ipv4_only(true);
    assert_eq!(options, ipv4_only());
    let options = ResolveOptions::default()
        .set_ipv4_only(false)
        .set_ipv6_only(true);
    assert_eq!(options, ipv6_only());
    let options = ipv4_only().set_ipv6_only(true).set_ipv4_only(false);
    assert_eq!(options, ipv6_only());
}

#[test]
fn all_addresses_are_kept_without_a_filter() {
    let ips = resolve_and_filter_ips(&vec![found_localhost(443)], &any()).unwrap();
    assert!(ips.contains(&SocketAddress::v4(LOCALHOST, 443)));
    assert!(ips.contains(&SocketAddress::v6(LOCALHOST6, 443)));
    assert_eq!(
        ips,
        [
            SocketAddress::v6(LOCALHOST6, 443),
            SocketAddress::v4(LOCALHOST, 443)
        ]
    );
}

#[test]
fn ipv4_only_keeps_ipv4() {
    let ips = resolve_and_filter_ips(&vec![found_localhost(443)], &ipv4_only()).unwrap();
    assert!(ips.contains(&SocketAddress::v4(LOCALHOST, 443)));
    assert!(!ips.contains(&SocketAddress::v6(LOCALHOST6, 443)));
    assert_eq!(ips, [SocketAddress::v4(LOCALHOST, 443)]);
}

#[test]
fn ipv6_only_keeps_ipv6() {
    let ips = resolve_and_filter_ips(&vec![found_localhost(443)], &ipv6_only()).unwrap();
    assert!(!ips.contains(&SocketAddress::v4(LOCALHOST, 443)));
    assert!(ips.contains(&SocketAddress::v6(LOCALHOST6, 443)));
    assert_eq!(ips, [SocketAddress::v6(LOCALHOST6, 443)]);
}

#[test]
fn listeners_with_ipv4_only() {
    // Configured: "127.0.0.1:6062" and "[::1]:6062".
    let lookups = vec![
        Lookup::Found(vec![SocketAddress::v4(LOCALHOST, 6062)]),
        Lookup::Found(vec![SocketAddress::v6(LOCALHOST6, 6062)]),
    ];
    let ips = resolve_and_filter_ips(&lookups, &ipv4_only()).unwrap();
    assert_eq!(ips, [SocketAddress::v4(LOCALHOST, 6062)]);
}

#[test]
fn listeners_with_ipv6_only() {
    let lookups = vec![
        Lookup::Found(vec![SocketAddress::v4(LOCALHOST, 6062)]),
        Lookup::Found(vec![SocketAddress::v6(LOCALHOST6, 6062)]),
    ];
    let ips = resolve_and_filter_ips(&lookups, &ipv6_only()).unwrap();
    assert_eq!(ips, [SocketAddress::v6(LOCALHOST6, 6062)]);
}

#[test]
fn upstream_by_family() {
    // Configured: "localhost:7070".
    let ips = resolve_and_filter_ips(&vec![found_localhost(7070)], &ipv4_only()).unwrap();
    assert_eq!(ips, [SocketAddress::v4(LOCALHOST, 7070)]);
    let ips = resolve_and_filter_ips(&vec![found_localhost(7070)], &ipv6_only()).unwrap();
    assert_eq!(ips, [SocketAddress::v6(LOCALHOST6, 7070)]);
}

#[test]
fn addresses_come_in_the_order_of_the_names() {
    let lookups = vec![
        Lookup::Found(vec![SocketAddress::v4(3, 1), SocketAddress::v6(3, 1)]),
        Lookup::Found(vec![]),
        Lookup::Found(vec![SocketAddress::v4(1, 1)]),
        Lookup::Found(vec![SocketAddress::v6(2, 1), SocketAddress::v4(2, 1)]),
    ];
    assert_eq!(
        resolve_and_filter_ips(&lookups, &any()).unwrap(),
        [
            SocketAddress::v4(3, 1),
            SocketAddress::v6(3, 1),
            SocketAddress::v4(1, 1),
            SocketAddress::v6(2, 1),
            SocketAddress::v4(2, 1)
        ]
    );
    assert_eq!(
        resolve_and_filter_ips(&lookups, &ipv4_only()).unwrap(),
        [
            SocketAddress::v4(3, 1),
            SocketAddress::v4(1, 1),
            SocketAddress::v4(2, 1)
        ]
    );
    assert_eq!(
        resolve_and_filter_ips(&lookups, &ipv6_only()).unwrap(),
        [SocketAddress::v6(3, 1), SocketAddress::v6(2, 1)]
    );
}

#[test]
fn an_address_found_twice_is_kept_twice() {
    let lookups = vec![found_localhost(53), found_localhost(53)];
    assert_eq!(
        resolve_and_filter_ips(&lookups, &ipv4_only()).unwrap(),
        [
            SocketAddress::v4(LOCALHOST, 53),
            SocketAddress::v4(LOCALHOST, 53)
        ]
    );
}

#[test]
fn no_names_is_an_error() {
    for options in [any(), ipv4_only(), ipv6_only()] {
        assert_eq!(
            resolve_and_filter_ips(&vec![], &options),
            Err(ResolveError::EmptyInput)
        );
    }
}

#[test]
fn a_name_that_does_not_resolve_is_an_error() {
    let lookups = vec![found_localhost(443), Lookup::Failed, found_localhost(444)];
    assert_eq!(
        resolve_and_filter_ips(&lookups, &any()),
        Err(ResolveError::Unresolved { index: 1 })
    );
    assert_eq!(
        resolve_and_filter_ips(&vec![Lookup::Failed], &ipv4_only()),
        Err(ResolveError::Unresolved { index: 0 })
    );
}

#[test]
fn the_first_name_that_does_not_resolve_is_reported() {
    let lookups = vec![
        found_localhost(443),
        Lookup::Found(vec![]),
        Lookup::Failed,
        Lookup::Failed,
    ];
    assert_eq!(
        resolve_and_filter_ips(&lookups, &ipv6_only()),
        Err(ResolveError::Unresolved { index: 2 })
    );
}

#[test]
fn names_without_any_address_are_an_error() {
    let lookups = vec![Lookup::Found(vec![]), Lookup::Found(vec![])];
    for options in [any(), ipv4_only(), ipv6_only()] {
        assert_eq!(
            resolve_and_filter_ips(&lookups, &options),
            Err(ResolveError::NoAddresses)
        );
    }
}

#[test]
fn a_family_that_was_not_found_is_an_error() {
    let only_v6 = vec![Lookup::Found(vec![SocketAddress::v6(LOCALHOST6, 443)])];
    assert_eq!(
        resolve_and_filter_ips(&only_v6, &ipv4_only()),
        Err(ResolveError::NoIpv4)
    );
    let only_v4 = vec![Lookup::Found(vec![SocketAddress::v4(LOCALHOST, 443)])];
    assert_eq!(
        resolve_and_filter_ips(&only_v4, &ipv6_only()),
        Err(ResolveError::NoIpv6)
    );
}

#[test]
fn both_families_at_once_let_nothing_through() {
    let both = ResolveOptions {
        ipv4_only: true,
        ipv6_only: true,
    };
    assert_eq!(
        resolve_and_filter_ips(&vec![found_localhost(443)], &both),
        Err(ResolveError::NoFamily)
    );
    assert!(filter_ips(
        &vec![
            SocketAddress::v4(LOCALHOST, 443),
            SocketAddress::v6(LOCALHOST6, 443)
        ],
        &both
    )
    .is_empty());
}

#[test]
fn filter_keeps_flow_information_and_scope() {
    let scoped = SocketAddress::V6 {
        ip: 0xfe80_0000_0000_0000_0000_0000_0000_0001,
        port: 9,
        flowinfo: 7,
        scope_id: 3,
    };
    assert_eq!(
        filter_ips(&vec![SocketAddress::v4(1, 9), scoped], &ipv6_only()),
        [scoped]
    );
}
