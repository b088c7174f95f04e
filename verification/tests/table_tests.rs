use hodgey_chess::ttable::{
    TranspositionTable, TranspositionTableData, TranspositionTableFlag,
};

#[test]
fn empty_slot_is_cold() {
    let slot = TranspositionTableData::empty();
    assert_eq!(slot.hash, 0);
    assert_eq!(slot.score, 0);
    assert_eq!(slot.depth, 0);
    assert_eq!(slot.flag, TranspositionTableFlag::Unset);
}

#[test]
fn fresh_table_never_hits() {
    let table = TranspositionTable::new(64);
    for hash in [0u64, 1, 63, 64, 0xdead_beef_dead_beef] {
        assert!(table.probe(hash, 0).is_none());
    }
}

#[test]
fn stored_entry_is_found() {
    let mut table = TranspositionTable::new(64);
    table.store(0x1234, -250, 3, TranspositionTableFlag::Exact);
    let hit = table.probe(0x1234, 3).expect("stored entry should be probed");
    assert_eq!(hit.score, -250);
    assert_eq!(hit.depth, 3);
    assert_eq!(hit.flag, TranspositionTableFlag::Exact);
    // A deeper request is not served by a shallower entry.
    assert!(table.probe(0x1234, 4).is_none());
    // A shallower request is.
    assert!(table.probe(0x1234, 1).is_some());
}

#[test]
fn full_hash_must_match() {
    let mut table = TranspositionTable::new(64);
    table.store(0x40, 77, 2, TranspositionTableFlag::Lowerbound);
    // 0x80 masks to the same slot of the 64-entry table but differs in full
    // hash, so the probe misses instead of returning the alien entry.
    assert!(table.probe(0x80, 1).is_none());
}

#[test]
fn replacement_is_depth_preferred() {
    let mut table = TranspositionTable::new(64);
    table.store(0x11, 500, 5, TranspositionTableFlag::Exact);
    // A shallower result for the same slot must not evict the deeper one.
    table.store(0x11, -500, 2, TranspositionTableFlag::Exact);
    let hit = table.probe(0x11, 5).expect("deep entry should survive");
    assert_eq!(hit.score, 500);
    // A deeper result replaces it.
    table.store(0x11, 123, 7, TranspositionTableFlag::Upperbound);
    let hit = table.probe(0x11, 7).expect("deeper entry should replace");
    assert_eq!(hit.score, 123);
    assert_eq!(hit.flag, TranspositionTableFlag::Upperbound);
}

#[test]
fn disabled_table_stays_silent() {
    let mut table = TranspositionTable::new(0);
    table.store(0x11, 1, 1, TranspositionTableFlag::Exact);
    assert!(table.probe(0x11, 1).is_none());
}
