use acorn_zomes::dna_help::{
    entries_only, entry_and_hash_from_element, fetch_links, get_header_hash, latest_header_hash,
    latest_update_index, wire_entries, Details, ElementSummary, EntryDetails, EntryDhtStatus,
    HashedWireEntry, HeaderKind, SignedHeaderHashed,
};
use acorn_zomes::hashes::{bytes_equal, AgentPubKey, EntryHash, HeaderHash};

fn hh(b: u8) -> HeaderHash {
    HeaderHash { bytes: vec![b, b] }
}

fn eh(b: u8) -> EntryHash {
    EntryHash { bytes: vec![b] }
}

fn signed(b: u8, timestamp: i64) -> SignedHeaderHashed {
    SignedHeaderHashed { header_hash: hh(b), timestamp }
}

fn details(status: EntryDhtStatus, headers: Vec<SignedHeaderHashed>, updates: Vec<SignedHeaderHashed>) -> Option<Details> {
    Some(Details::Entry(EntryDetails { headers, updates, entry_dht_status: status }))
}

#[test]
fn it_works() {
    assert_eq!(2 + 2, 4);
}

#[test]
fn header_hash_of_signed_header() {
    assert_eq!(get_header_hash(signed(7, 3)).bytes, vec![7, 7]);
}

#[test]
fn live_entry_without_updates_gives_first_header() {
    let d = details(EntryDhtStatus::Live, vec![signed(1, 10), signed(2, 5)], vec![]);
    assert_eq!(latest_header_hash(d).unwrap().bytes, vec![1, 1]);
}

#[test]
fn live_entry_with_updates_gives_latest_update() {
    let d = details(
        EntryDhtStatus::Live,
        vec![signed(1, 10)],
        vec![signed(3, 20), signed(4, 50), signed(5, 30)],
    );
    assert_eq!(latest_header_hash(d).unwrap().bytes, vec![4, 4]);
}

#[test]
fn equal_timestamps_give_the_last_one() {
    let updates = vec![signed(3, 50), signed(4, 10), signed(5, 50), signed(6, 49)];
    assert_eq!(latest_update_index(&updates), 2);
    let d = details(EntryDhtStatus::Live, vec![signed(1, 1)], updates);
    assert_eq!(latest_header_hash(d).unwrap().bytes, vec![5, 5]);
}

#[test]
fn negative_timestamps_are_ordered() {
    let updates = vec![signed(3, -5), signed(4, -50)];
    assert_eq!(latest_update_index(&updates), 0);
}

#[test]
fn dead_or_missing_entries_give_nothing() {
    assert!(latest_header_hash(details(EntryDhtStatus::Dead, vec![signed(1, 1)], vec![])).is_none());
    assert!(latest_header_hash(details(EntryDhtStatus::Pending, vec![signed(1, 1)], vec![signed(2, 2)])).is_none());
    assert!(latest_header_hash(details(EntryDhtStatus::Rejected, vec![signed(1, 1)], vec![])).is_none());
    assert!(latest_header_hash(Some(Details::Element)).is_none());
    assert!(latest_header_hash(None).is_none());
}

#[test]
fn update_element_returns_original_header() {
    let summary = ElementSummary {
        header: HeaderKind::Update { original_header_address: hh(9) },
        header_address: hh(8),
        entry_hash: Some(eh(3)),
    };
    let (entry, address, entry_hash) = entry_and_hash_from_element(Some((summary, Some("x")))).unwrap();
    assert_eq!(entry, "x");
    assert_eq!(address.bytes, vec![9, 9]);
    assert_eq!(entry_hash.bytes, vec![3]);
}

#[test]
fn create_element_returns_its_header() {
    let summary = ElementSummary { header: HeaderKind::Create, header_address: hh(8), entry_hash: Some(eh(3)) };
    let (entry, address, entry_hash) = entry_and_hash_from_element(Some((summary, Some(42u32)))).unwrap();
    assert_eq!(entry, 42);
    assert_eq!(address.bytes, vec![8, 8]);
    assert_eq!(entry_hash.bytes, vec![3]);
}

#[test]
fn element_without_entry_gives_nothing() {
    let summary = ElementSummary { header: HeaderKind::Create, header_address: hh(8), entry_hash: Some(eh(3)) };
    assert!(entry_and_hash_from_element::<u32>(Some((summary, None))).is_none());
    assert!(entry_and_hash_from_element::<u32>(None).is_none());
}

#[test]
fn fetch_links_keeps_found_entries_in_order() {
    let results: Vec<Result<Option<(u32, HeaderHash, EntryHash)>, String>> = vec![
        Ok(Some((1, hh(1), eh(1)))),
        Err("bad".to_string()),
        Ok(None),
        Ok(Some((4, hh(4), eh(4)))),
        Ok(Some((5, hh(5), eh(5)))),
    ];
    let kept = fetch_links(results);
    let entries: Vec<u32> = kept.iter().map(|e| e.0).collect();
    assert_eq!(entries, vec![1, 4, 5]);
    assert_eq!(kept[1].1.bytes, vec![4, 4]);
    assert_eq!(kept[2].2.bytes, vec![5]);
}

#[test]
fn fetch_links_of_nothing_is_empty() {
    let results: Vec<Result<Option<(u32, HeaderHash, EntryHash)>, ()>> = vec![Err(()), Ok(None)];
    assert!(fetch_links(results).is_empty());
}

#[test]
fn wire_entries_keep_hashes() {
    let wires: Vec<HashedWireEntry<u32>> = wire_entries(vec![(7, hh(1), eh(2)), (8, hh(3), eh(4))]);
    assert_eq!(wires.len(), 2);
    assert_eq!(wires[0].entry, 7);
    assert_eq!(wires[0].address.0.bytes, vec![1, 1]);
    assert_eq!(wires[1].entry_address.0.bytes, vec![4]);
    let single = HashedWireEntry::from((9u32, hh(5), eh(6)));
    assert_eq!(single.entry, 9);
    assert_eq!(single.address.0.bytes, vec![5, 5]);
    assert_eq!(single.entry_address.0.bytes, vec![6]);
}

#[test]
fn entries_only_drops_hashes() {
    assert_eq!(entries_only(vec![(7u32, hh(1), eh(2)), (8, hh(3), eh(4))]), vec![7, 8]);
}

#[test]
fn byte_equality() {
    assert!(bytes_equal(&vec![1, 2, 3], &vec![1, 2, 3]));
    assert!(!bytes_equal(&vec![1, 2, 3], &vec![1, 2, 4]));
    assert!(!bytes_equal(&vec![1, 2], &vec![1, 2, 3]));
    let a = AgentPubKey { bytes: vec![5] };
    assert!(a.same_key(&a.clone()));
    assert!(!a.same_key(&AgentPubKey { bytes: vec![6] }));
    assert_eq!(hh(3).clone().bytes, vec![3, 3]);
}

#[test]
fn all_found_all_kept() {
    let results: Vec<Result<Option<(u32, HeaderHash, EntryHash)>, ()>> =
        vec![Ok(Some((1, hh(1), eh(1)))), Ok(Some((2, hh(2), eh(2))))];
    let kept = fetch_links(results);
    assert_eq!(kept.iter().map(|e| e.0).collect::<Vec<u32>>(), vec![1, 2]);
}
