use udp_obfuscat::addr::SocketAddress;
use udp_obfuscat::conntrack::{ConnTrackMap, ConntrackKey, ConntrackValue, CONNTRACK_TIMEOUT};

fn key(port: u16, listener_id: usize) -> ConntrackKey {
    ConntrackKey {
        peer_addr: SocketAddress::v4(0x7f00_0001, port),
        listener_id,
    }
}

#[test]
fn timeout_is_two_minutes() {
    assert_eq!(CONNTRACK_TIMEOUT, 120);
}

#[test]
fn keys_are_equal_on_both_fields() {
    assert_eq!(key(4000, 0), key(4000, 0));
    assert_ne!(key(4000, 0), key(4001, 0));
    assert_ne!(key(4000, 0), key(4000, 1));
    assert_ne!(
        ConntrackKey {
            peer_addr: SocketAddress::v4(1, 4000),
            listener_id: 0
        },
        ConntrackKey {
            peer_addr: SocketAddress::v6(1, 4000),
            listener_id: 0
        }
    );
}

#[test]
fn addresses_tell_their_family_and_port() {
    let v4 = SocketAddress::v4(0x7f00_0001, 443);
    let v6 = SocketAddress::v6(1, 8443);
    assert!(v4.is_ipv4());
    assert!(!v4.is_ipv6());
    assert!(v6.is_ipv6());
    assert!(!v6.is_ipv4());
    assert_eq!(v4.port(), 443);
    assert_eq!(v6.port(), 8443);
    assert_eq!(
        v6,
        SocketAddress::V6 {
            ip: 1,
            port: 8443,
            flowinfo: 0,
            scope_id: 0
        }
    );
}

#[test]
fn empty_table_holds_nothing() {
    let table: ConnTrackMap<u8> = ConnTrackMap::new();
    assert_eq!(table.get(&key(4000, 0)), None);
}

#[test]
fn vacant_key_is_created() {
    let mut table: ConnTrackMap<&str> = ConnTrackMap::new();
    assert_eq!(table.get_or_create(key(4000, 0), "first"), (&"first", true));
    assert_eq!(table.get(&key(4000, 0)), Some(&"first"));
    assert_eq!(table.get(&key(4001, 0)), None);
}

#[test]
fn occupied_key_keeps_its_entry() {
    let mut table: ConnTrackMap<&str> = ConnTrackMap::new();
    assert_eq!(table.get_or_create(key(4000, 0), "first"), (&"first", true));
    assert_eq!(table.get_or_create(key(4000, 0), "second"), (&"first", false));
    assert_eq!(table.get_or_create(key(4000, 0), "third"), (&"first", false));
    assert_eq!(table.get(&key(4000, 0)), Some(&"first"));
}

#[test]
fn each_key_is_created_once_among_many_callers() {
    let mut table: ConnTrackMap<usize> = ConnTrackMap::new();
    let mut created = 0;
    for caller in 0..100 {
        let (entry, is_new) = table.get_or_create(key(4000, 0), caller);
        assert_eq!(*entry, 0);
        if is_new {
            created += 1;
        }
    }
    assert_eq!(created, 1);
    assert_eq!(table.get(&key(4000, 0)), Some(&0));
}

#[test]
fn same_peer_on_another_listener_is_another_flow() {
    let mut table: ConnTrackMap<&str> = ConnTrackMap::new();
    assert!(table.get_or_create(key(4000, 0), "on the first listener").1);
    assert!(table.get_or_create(key(4000, 1), "on the second listener").1);
    assert_eq!(table.get(&key(4000, 0)), Some(&"on the first listener"));
    assert_eq!(table.get(&key(4000, 1)), Some(&"on the second listener"));
}

#[test]
fn removed_key_is_gone_and_the_others_stay() {
    let mut table: ConnTrackMap<u16> = ConnTrackMap::new();
    for port in 4000..4005 {
        assert_eq!(table.get_or_create(key(port, 0), port), (&port, true));
    }
    assert_eq!(table.remove(&key(4002, 0)), Some(4002));
    assert_eq!(table.get(&key(4002, 0)), None);
    for port in [4000, 4001, 4003, 4004] {
        assert_eq!(table.get(&key(port, 0)), Some(&port));
    }
    assert_eq!(table.remove(&key(4000, 0)), Some(4000));
    assert_eq!(table.remove(&key(4004, 0)), Some(4004));
    assert_eq!(table.get(&key(4001, 0)), Some(&4001));
    assert_eq!(table.get(&key(4003, 0)), Some(&4003));
}

#[test]
fn removing_a_vacant_key_changes_nothing() {
    let mut table: ConnTrackMap<u16> = ConnTrackMap::new();
    assert_eq!(table.remove(&key(4000, 0)), None);
    assert!(table.get_or_create(key(4000, 0), 1).1);
    assert_eq!(table.remove(&key(4001, 0)), None);
    assert_eq!(table.remove(&key(4000, 1)), None);
    assert_eq!(table.get(&key(4000, 0)), Some(&1));
}

#[test]
fn removed_key_can_be_created_again() {
    let mut table: ConnTrackMap<&str> = ConnTrackMap::new();
    assert_eq!(table.get_or_create(key(4000, 0), "first"), (&"first", true));
    assert_eq!(table.remove(&key(4000, 0)), Some("first"));
    assert_eq!(table.remove(&key(4000, 0)), None);
    assert_eq!(table.get_or_create(key(4000, 0), "second"), (&"second", true));
    assert_eq!(table.get(&key(4000, 0)), Some(&"second"));
}

#[test]
fn counters_start_at_zero() {
    let value = ConntrackValue::new();
    assert_eq!(value.num_packets_in(), 0);
    assert_eq!(value.num_packets_out(), 0);
    assert!(!value.is_assured());
}

#[test]
fn counters_count_their_own_direction() {
    let mut value = ConntrackValue::new();
    value.inc_packets_in();
    value.inc_packets_in();
    value.inc_packets_out();
    assert_eq!(value.num_packets_in(), 2);
    assert_eq!(value.num_packets_out(), 1);
}

#[test]
fn flow_is_assured_by_traffic_both_ways() {
    let counted = |packets_in: u32, packets_out: u32| {
        let mut value = ConntrackValue::new();
        for _ in 0..packets_in {
            value.inc_packets_in();
        }
        for _ in 0..packets_out {
            value.inc_packets_out();
        }
        value.is_assured()
    };
    assert!(!counted(0, 0));
    assert!(!counted(1, 0));
    assert!(!counted(0, 1));
    assert!(!counted(5, 0));
    assert!(!counted(0, 5));
    assert!(!counted(1, 1));
    assert!(counted(2, 1));
    assert!(counted(1, 2));
    assert!(counted(2, 2));
    assert!(counted(7, 1));
}
