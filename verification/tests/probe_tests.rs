use ipv6_watch::addr::Ipv6Address;
use ipv6_watch::probe::filter_global_v6;
use ipv6_watch::probe::probe;
use ipv6_watch::probe::EntryAddr;
use ipv6_watch::probe::IfaceEntry;

const GLOBAL_ONE: u128 = 0x2001_0db8_0000_0000_0000_0000_0000_0001;
const GLOBAL_TWO: u128 = 0x2a00_1450_0000_0000_0000_0000_0000_002e;
const LOOPBACK: u128 = 0x0000_0000_0000_0000_0000_0000_0000_0001;
const LINK_LOCAL: u128 = 0xfe80_0000_0000_0000_0000_0000_0000_0001;
const UNIQUE_LOCAL: u128 = 0xfd00_0000_0000_0000_0000_0000_0000_0001;
const MULTICAST: u128 = 0xff02_0000_0000_0000_0000_0000_0000_0001;
const UNSPECIFIED: u128 = 0x0000_0000_0000_0000_0000_0000_0000_0000;

fn v6_entry(name: &str, bits: u128) -> IfaceEntry {
    IfaceEntry { name: name.to_string(), addr: EntryAddr::V6(Ipv6Address { bits }) }
}

#[test]
fn classification_of_each_address_kind() {
    assert!(Ipv6Address { bits: GLOBAL_ONE }.classify_global());
    assert!(Ipv6Address { bits: GLOBAL_TWO }.classify_global());
    assert!(!Ipv6Address { bits: LOOPBACK }.classify_global());
    assert!(!Ipv6Address { bits: LINK_LOCAL }.classify_global());
    assert!(!Ipv6Address { bits: UNIQUE_LOCAL }.classify_global());
    assert!(!Ipv6Address { bits: MULTICAST }.classify_global());
    assert!(!Ipv6Address { bits: UNSPECIFIED }.classify_global());
}

#[test]
fn filter_keeps_only_the_global_address() {
    let entries = vec![
        v6_entry("eth0", LOOPBACK),
        v6_entry("eth0", LINK_LOCAL),
        v6_entry("eth0", UNIQUE_LOCAL),
        v6_entry("eth0", GLOBAL_ONE),
    ];
    let r = filter_global_v6(&entries, &"eth0".to_string());
    assert_eq!(r.len(), 1);
    assert_eq!(r[0].bits, GLOBAL_ONE);
}

#[test]
fn filter_excludes_multicast_unspecified_and_v4() {
    let entries = vec![
        v6_entry("eth0", MULTICAST),
        v6_entry("eth0", UNSPECIFIED),
        IfaceEntry { name: "eth0".to_string(), addr: EntryAddr::V4 },
        v6_entry("eth0", GLOBAL_TWO),
    ];
    let r = filter_global_v6(&entries, &"eth0".to_string());
    assert_eq!(r.len(), 1);
    assert_eq!(r[0].bits, GLOBAL_TWO);
}

#[test]
fn filter_excludes_other_interfaces() {
    let entries = vec![
        v6_entry("eth0", GLOBAL_ONE),
        v6_entry("eth1", GLOBAL_TWO),
    ];
    let r = filter_global_v6(&entries, &"eth0".to_string());
    assert_eq!(r.len(), 1);
    assert_eq!(r[0].bits, GLOBAL_ONE);
    let r1 = filter_global_v6(&entries, &"eth1".to_string());
    assert_eq!(r1.len(), 1);
    assert_eq!(r1[0].bits, GLOBAL_TWO);
}

#[test]
fn filter_keeps_enumeration_order() {
    let entries = vec![
        v6_entry("eth0", GLOBAL_TWO),
        v6_entry("eth0", LINK_LOCAL),
        v6_entry("eth0", GLOBAL_ONE),
    ];
    let r = filter_global_v6(&entries, &"eth0".to_string());
    assert_eq!(r.len(), 2);
    assert_eq!(r[0].bits, GLOBAL_TWO);
    assert_eq!(r[1].bits, GLOBAL_ONE);
}

#[test]
fn filter_of_empty_enumeration_is_empty() {
    let entries: Vec<IfaceEntry> = vec![];
    let r = filter_global_v6(&entries, &"eth0".to_string());
    assert!(r.is_empty());
}

#[test]
fn probe_of_unknown_interface_yields_empty_set() {
    match probe(&"no_such_interface_0".to_string()) {
        Ok(addrs) => assert!(addrs.is_empty()),
        Err(e) => panic!("address enumeration failed: {}", e.describe()),
    }
}
