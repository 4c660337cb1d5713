use acorn_zomes::dna_help::{ActionType, HashedWireEntry, ZomeError};
use acorn_zomes::hashes::{AgentPubKey, EntryHash, HeaderHash, WrappedAgentPubKey, WrappedEntryHash, WrappedHeaderHash};
use acorn_zomes::projects::profile::{
    agent_signal_entry_type, create_whoami, update_whoami, whoami, whoami_target, Link, Profile,
    SignalData, Status, WireEntry, AGENTS_PATH,
};
use acorn_zomes::projects::project_meta::{
    fetch_project_meta, inner_create_project_meta, inner_fetch_project_metas, ProjectMeta,
    VecProjectMetaWireEntry, PROJECT_META_PATH,
};
use acorn_zomes::projects::trx::{
    convert_to_receiver_signal, inner_create_trx, inner_fetch_trxs, Trx, TrxSignal, TrxSignalData, TRX_PATH,
};
use acorn_zomes::projects::{get_peers, SignalType};

fn key(b: u8) -> AgentPubKey {
    AgentPubKey { bytes: vec![b; 3] }
}

fn profile(handle: &str, b: u8) -> Profile {
    Profile {
        created_at: 1.5f64.to_bits(),
        handle: handle.to_string(),
        avatar_url: format!("https://example.org/{}.png", handle),
        address: WrappedAgentPubKey(key(b)),
    }
}

fn trx(amount: f64) -> Trx {
    Trx {
        from: WrappedAgentPubKey(key(1)),
        to: WrappedAgentPubKey(key(2)),
        created_at: 100.0f64.to_bits(),
        amount: amount.to_bits(),
    }
}

#[test]
fn paths() {
    assert_eq!(AGENTS_PATH, "agents");
    assert_eq!(TRX_PATH, "TRX_PATH");
    assert_eq!(PROJECT_META_PATH, "PROJECT_META_PATH");
}

#[test]
fn status_reads_from_text() {
    assert!(matches!(Status::from_string(&"Online".to_string()), Status::Online));
    assert!(matches!(Status::from_string(&"Away".to_string()), Status::Away));
    assert!(matches!(Status::from_string(&"Offline".to_string()), Status::Offline));
    assert!(matches!(Status::from_string(&"online".to_string()), Status::Offline));
    assert!(matches!(Status::from_string(&"".to_string()), Status::Offline));
}

#[test]
fn status_writes_its_name() {
    assert_eq!(Status::Online.as_str(), "Online");
    assert_eq!(Status::Away.as_str(), "Away");
    assert_eq!(Status::Offline.as_str(), "Offline");
}

#[test]
fn status_round_trip() {
    for s in [Status::Online, Status::Away, Status::Offline] {
        let back = Status::from_string(&s.as_str().to_string());
        assert_eq!(back.as_str(), s.as_str());
    }
}

#[test]
fn peers_leave_out_the_caller() {
    let profiles = vec![profile("a", 1), profile("me", 9), profile("b", 2), profile("me2", 9)];
    let peers = get_peers(profiles, &key(9));
    let bytes: Vec<Vec<u8>> = peers.into_iter().map(|k| k.bytes).collect();
    assert_eq!(bytes, vec![vec![1u8; 3], vec![2u8; 3]]);
}

#[test]
fn peers_of_strangers_are_all_of_them() {
    let peers = get_peers(vec![profile("a", 1), profile("b", 2)], &key(9));
    assert_eq!(peers.len(), 2);
    assert!(get_peers(vec![], &key(9)).is_empty());
}

#[test]
fn profile_conversions() {
    let p = profile("a", 4);
    assert_eq!(AgentPubKey::from(p.clone()).bytes, vec![4u8; 3]);
    let back = Profile::from((p, HeaderHash { bytes: vec![1] }, EntryHash { bytes: vec![2] }));
    assert_eq!(back.handle, "a");
    let w = WireEntry::from((back, HeaderHash { bytes: vec![1] }, EntryHash { bytes: vec![2] }));
    assert_eq!(w.address.0.bytes, vec![1]);
    assert_eq!(f64::from_bits(w.entry.created_at), 1.5);
}

fn full_key(b: u8) -> AgentPubKey {
    let mut bytes = vec![0x84, 0x20, 0x24];
    bytes.extend(vec![b; 36]);
    AgentPubKey { bytes }
}

#[test]
fn agent_entry_hash_takes_the_entry_prefix() {
    let key = full_key(7);
    let mut expected = vec![0x84, 0x21, 0x24];
    expected.extend(vec![7u8; 36]);
    assert_eq!(key.entry_hash().bytes, expected);
}

#[test]
fn create_whoami_links_and_signals_a_create() {
    assert_eq!(agent_signal_entry_type(), "agent");
    let me = full_key(9);
    let (links, wire, signal) = create_whoami(
        profile("a", 4),
        HeaderHash { bytes: vec![7] },
        EntryHash { bytes: vec![8] },
        EntryHash { bytes: vec![1, 2] },
        &me,
    );
    assert_eq!(links.len(), 2);
    assert_eq!(links[0].base.bytes, vec![1, 2]);
    assert_eq!(links[0].target.bytes, vec![8]);
    assert_eq!(links[1].base.bytes, me.entry_hash().bytes);
    assert_eq!(links[1].target.bytes, vec![8]);
    assert_eq!(wire.entry.handle, "a");
    assert_eq!(wire.address.0.bytes, vec![7]);
    assert_eq!(signal.entry_type, "agent");
    assert!(matches!(signal.action, ActionType::Create));
    match signal.data {
        SignalData::Create(w) => {
            assert_eq!(w.entry.handle, "a");
            assert_eq!(w.address.0.bytes, vec![7]);
        }
        SignalData::Update(_) => panic!("expected a create signal"),
    }
}

#[test]
fn update_whoami_signals_an_update() {
    let update = WireEntry { entry: profile("b", 5), address: WrappedHeaderHash(HeaderHash { bytes: vec![8] }) };
    let (wire, signal) = update_whoami(update);
    assert_eq!(wire.entry.handle, "b");
    assert!(matches!(signal.action, ActionType::Update));
    match signal.data {
        SignalData::Update(w) => assert_eq!(w.address.0.bytes, vec![8]),
        SignalData::Create(_) => panic!("expected an update signal"),
    }
}

#[test]
fn whoami_follows_the_last_link() {
    let links = vec![Link { target: EntryHash { bytes: vec![1] } }, Link { target: EntryHash { bytes: vec![2] } }];
    assert_eq!(whoami_target(links).unwrap().bytes, vec![2]);
    assert!(whoami_target(vec![]).is_none());
    let out = whoami(Some((profile("c", 3), HeaderHash { bytes: vec![4] }, EntryHash { bytes: vec![5] })));
    let w = out.0.unwrap();
    assert_eq!(w.entry.handle, "c");
    assert_eq!(w.address.0.bytes, vec![4]);
    assert!(whoami(None).0.is_none());
}

fn meta(pass: &str) -> ProjectMeta {
    ProjectMeta { creator_address: WrappedAgentPubKey(key(1)), created_at: 2.0f64.to_bits(), passphrase: pass.to_string() }
}

#[test]
fn project_meta_first_or_error() {
    let first = inner_create_project_meta(meta("one"), HeaderHash { bytes: vec![1] }, EntryHash { bytes: vec![2] });
    assert_eq!(first.address.0.bytes, vec![1]);
    assert_eq!(first.entry_address.0.bytes, vec![2]);
    let second = inner_create_project_meta(meta("two"), HeaderHash { bytes: vec![3] }, EntryHash { bytes: vec![4] });
    let got = fetch_project_meta(VecProjectMetaWireEntry(vec![first, second])).ok().unwrap();
    assert_eq!(got.entry.passphrase, "one");
    match fetch_project_meta(VecProjectMetaWireEntry(vec![])) {
        Err(ZomeError::Zome(msg)) => assert_eq!(msg, "no project meta exists"),
        Ok(_) => panic!("expected an error"),
    }
}

#[test]
fn project_metas_fetched_in_order() {
    let results: Vec<Result<Option<(ProjectMeta, HeaderHash, EntryHash)>, ()>> = vec![
        Ok(None),
        Ok(Some((meta("a"), HeaderHash { bytes: vec![1] }, EntryHash { bytes: vec![2] }))),
        Err(()),
    ];
    let out = inner_fetch_project_metas(results);
    assert_eq!(out.0.len(), 1);
    assert_eq!(out.0[0].entry.passphrase, "a");
}

#[test]
fn trx_with_signal() {
    let (wire, signal) = inner_create_trx(trx(3.25), HeaderHash { bytes: vec![1] }, EntryHash { bytes: vec![2] }, true);
    assert_eq!(f64::from_bits(wire.entry.amount), 3.25);
    assert_eq!(wire.address.0.bytes, vec![1]);
    assert_eq!(wire.entry_address.0.bytes, vec![2]);
    match signal {
        Some(SignalType::Trx(TrxSignal { entry_type, action, data: TrxSignalData::Create(w) })) => {
            assert_eq!(entry_type, "trx");
            assert!(matches!(action, ActionType::Create));
            assert_eq!(f64::from_bits(w.entry.amount), 3.25);
            assert_eq!(w.entry_address.0.bytes, vec![2]);
        }
        _ => panic!("expected a trx signal"),
    }
}

#[test]
fn trx_without_signal() {
    let (wire, signal) = inner_create_trx(trx(1.0), HeaderHash { bytes: vec![1] }, EntryHash { bytes: vec![2] }, false);
    assert_eq!(wire.entry.to.0.bytes, vec![2u8; 3]);
    assert!(signal.is_none());
}

#[test]
fn trx_signal_is_wrapped() {
    let w = HashedWireEntry {
        entry: trx(2.0),
        address: WrappedHeaderHash(HeaderHash { bytes: vec![1] }),
        entry_address: WrappedEntryHash(EntryHash { bytes: vec![2] }),
    };
    let s = TrxSignal { entry_type: "trx".to_string(), action: ActionType::Create, data: TrxSignalData::Create(w) };
    assert!(matches!(convert_to_receiver_signal(s), SignalType::Trx(_)));
}

#[test]
fn trxs_fetched_in_order() {
    let results: Vec<Result<Option<(Trx, HeaderHash, EntryHash)>, String>> = vec![
        Ok(Some((trx(1.0), HeaderHash { bytes: vec![1] }, EntryHash { bytes: vec![1] }))),
        Ok(Some((trx(2.0), HeaderHash { bytes: vec![2] }, EntryHash { bytes: vec![2] }))),
    ];
    let out = inner_fetch_trxs(results);
    assert_eq!(out.0.len(), 2);
    assert_eq!(f64::from_bits(out.0[1].entry.amount), 2.0);
}

#[test]
fn peers_twice_are_peers_once() {
    let all = vec![profile("a", 1), profile("me", 9), profile("b", 2)];
    let once: Vec<Vec<u8>> = get_peers(all, &key(9)).into_iter().map(|k| k.bytes).collect();
    let others = vec![profile("a", 1), profile("b", 2)];
    let twice: Vec<Vec<u8>> = get_peers(others, &key(9)).into_iter().map(|k| k.bytes).collect();
    assert_eq!(once, twice);
}
