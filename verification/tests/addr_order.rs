//! Tests for the family-first ordering of resolved addresses.

use mdns_sessions::AddrEntry;
use mdns_sessions::sort_v4_first;

fn entry(v4: bool, text: &str) -> AddrEntry {
    AddrEntry::new(v4, text.to_string())
}

#[test]
fn t0_ipv4_sorted_first() {
    let input = vec![
        entry(false, "fe80::1"),
        entry(true, "192.168.1.42"),
        entry(false, "::1"),
        entry(true, "10.0.0.1"),
    ];
    let sorted = sort_v4_first(input);
    assert_eq!(sorted.len(), 4);
    assert!(sorted[0].v4, "first address should be IPv4");
    assert!(sorted[1].v4, "second address should be IPv4");
    assert_eq!(sorted[0].text, "192.168.1.42");
    assert_eq!(sorted[1].text, "10.0.0.1");
    assert_eq!(sorted[2].text, "fe80::1");
    assert_eq!(sorted[3].text, "::1");
    println!("[t0] PASS — sorted: {:?}", sorted);
}

#[test]
fn sort_keeps_all_v4_order() {
    let input = vec![entry(true, "10.0.0.1"), entry(true, "10.0.0.2"), entry(true, "10.0.0.3")];
    let sorted = sort_v4_first(input);
    let texts: Vec<&str> = sorted.iter().map(|a| a.text.as_str()).collect();
    assert_eq!(texts, vec!["10.0.0.1", "10.0.0.2", "10.0.0.3"]);
}

#[test]
fn sort_keeps_all_v6_order() {
    let input = vec![entry(false, "::1"), entry(false, "fe80::2"), entry(false, "fe80::3")];
    let sorted = sort_v4_first(input);
    let texts: Vec<&str> = sorted.iter().map(|a| a.text.as_str()).collect();
    assert_eq!(texts, vec!["::1", "fe80::2", "fe80::3"]);
}

#[test]
fn sort_of_empty_list_is_empty() {
    let sorted = sort_v4_first(Vec::new());
    assert!(sorted.is_empty());
}

#[test]
fn sort_interleaved_families() {
    let input = vec![
        entry(true, "1.1.1.1"),
        entry(false, "::2"),
        entry(true, "2.2.2.2"),
        entry(false, "::4"),
        entry(true, "3.3.3.3"),
    ];
    let sorted = sort_v4_first(input);
    let texts: Vec<&str> = sorted.iter().map(|a| a.text.as_str()).collect();
    assert_eq!(texts, vec!["1.1.1.1", "2.2.2.2", "3.3.3.3", "::2", "::4"]);
}
