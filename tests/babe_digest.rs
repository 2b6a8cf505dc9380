use manual_seal_babe::babe::{
    Authority, Config, ConsensusLog, DigestItem, Epoch, EpochChanges, EpochDescriptor, EpochIdentifier,
    EpochIdentifierPosition, PreDigest, BABE_ENGINE_ID, DEV_AUTHORITY_ID, DEV_AUTHORITY_WEIGHT,
};
use manual_seal_babe::clock::{provide_slot_inherent, SlotTimestampProvider};
use manual_seal_babe::error::Error;
use manual_seal_babe::import::{intermediate_key, BlockImportParams};
use manual_seal_babe::inherents::{
    decode_u64, encode_u64, InherentData, BABE_INHERENT_IDENTIFIER, TIMESTAMP_INHERENT_IDENTIFIER,
};
use manual_seal_babe::provider::{BabeConsensusDataProvider, Header, InherentDataProviders};

const T0: u128 = 1_600_000_000_000;

fn key(b: u8) -> [u8; 32] {
    [b; 32]
}

fn config() -> Config {
    Config {
        slot_duration: 6000,
        epoch_length: 200,
        genesis_authorities: vec![Authority { id: key(7), weight: 1 }],
        randomness: [9u8; 32],
    }
}

fn provider() -> BabeConsensusDataProvider {
    let mut providers = InherentDataProviders::new();
    let clock = SlotTimestampProvider::from_millis(T0, 6000);
    BabeConsensusDataProvider::with_clock(config(), clock, &mut providers).unwrap()
}

fn slot_data(slot: u64) -> InherentData {
    let mut data = InherentData::new();
    data.put_data(BABE_INHERENT_IDENTIFIER, slot).unwrap();
    data
}

fn genesis_parent() -> Header {
    Header { hash: [0u8; 32], number: 0 }
}

fn primary(slot: u64) -> PreDigest {
    PreDigest::Primary { authority_index: 0, slot_number: slot, vrf_output: [1u8; 32], vrf_proof: [2u8; 64] }
}

#[test]
fn clock_hands_out_slots_apart() {
    let mut clock = SlotTimestampProvider::from_millis(T0, 6000);
    let t0 = T0 as u64;
    assert_eq!(clock.next_timestamp(), t0);
    assert_eq!(clock.next_timestamp(), t0 + 6000);
    assert_eq!(clock.next_timestamp(), t0 + 12000);
}

#[test]
fn clock_writes_timestamps_into_inherent_data() {
    let mut clock = SlotTimestampProvider::from_millis(T0, 6000);
    let mut seen = Vec::new();
    for _ in 0..3 {
        let mut data = InherentData::new();
        clock.provide_inherent_data(&mut data).unwrap();
        seen.push(data.get_u64(&TIMESTAMP_INHERENT_IDENTIFIER).unwrap().unwrap());
    }
    let t0 = T0 as u64;
    assert_eq!(seen, vec![t0, t0 + 6000, t0 + 12000]);
}

#[test]
fn clock_never_repeats_over_many_calls() {
    let mut clock = SlotTimestampProvider::from_millis(5, 3);
    let mut last = clock.next_timestamp();
    for _ in 0..1000 {
        let t = clock.next_timestamp();
        assert_eq!(t, last + 3);
        last = t;
    }
}

#[test]
fn clock_wraps_at_the_top() {
    let mut clock = SlotTimestampProvider::from_millis(u64::MAX as u128, 2);
    assert_eq!(clock.next_timestamp(), u64::MAX);
    assert_eq!(clock.next_timestamp(), 1);
}

#[test]
fn clock_start_is_truncated_to_64_bits() {
    let clock = SlotTimestampProvider::from_millis((1u128 << 64) + 42, 1);
    assert_eq!(clock.time, 42);
}

#[test]
fn clock_from_wall_time_starts_after_2020() {
    let clock = SlotTimestampProvider::new(6000).unwrap();
    assert!(clock.time > 1_577_836_800_000);
    assert_eq!(clock.slot_duration, 6000);
    assert_eq!(clock.inherent_identifier(), TIMESTAMP_INHERENT_IDENTIFIER);
}

#[test]
fn clock_write_twice_fails() {
    let mut clock = SlotTimestampProvider::from_millis(T0, 6000);
    let mut data = InherentData::new();
    clock.provide_inherent_data(&mut data).unwrap();
    let r = clock.provide_inherent_data(&mut data);
    assert!(matches!(r, Err(Error::InherentDataExists(id)) if id == TIMESTAMP_INHERENT_IDENTIFIER));
    assert_eq!(clock.time, T0 as u64 + 12000);
}

#[test]
fn u64_encoding_is_little_endian() {
    assert_eq!(encode_u64(0x0102030405060708), vec![8, 7, 6, 5, 4, 3, 2, 1]);
    assert_eq!(decode_u64(&[8, 7, 6, 5, 4, 3, 2, 1, 99]), Some(0x0102030405060708));
    assert_eq!(decode_u64(&[1, 2, 3]), None);
}

#[test]
fn malformed_slot_is_an_error() {
    let mut data = InherentData::new();
    data.entries.push(manual_seal_babe::inherents::InherentEntry {
        identifier: BABE_INHERENT_IDENTIFIER,
        data: vec![1, 2],
    });
    let p = provider();
    let r = p.create_digest(&EpochChanges::new(), &genesis_parent(), &data, None, None);
    assert!(matches!(r, Err(Error::InherentDataMalformed(id)) if id == BABE_INHERENT_IDENTIFIER));
}

#[test]
fn missing_slot_is_an_error() {
    let p = provider();
    let data = InherentData::new();
    let r = p.create_digest(&EpochChanges::new(), &genesis_parent(), &data, None, None);
    assert!(matches!(r, Err(Error::InherentDataNotFound(id)) if id == BABE_INHERENT_IDENTIFIER));
    let mut params = BlockImportParams::new();
    let r = p.append_block_import(&genesis_parent(), &mut params, &data, None);
    assert!(matches!(r, Err(Error::InherentDataNotFound(_))));
    assert!(params.intermediates.is_empty());
}

#[test]
fn slot_provider_divides_timestamp() {
    let mut data = InherentData::new();
    data.put_data(TIMESTAMP_INHERENT_IDENTIFIER, 6000 * 7 + 5999).unwrap();
    provide_slot_inherent(6000, &mut data).unwrap();
    assert_eq!(data.get_u64(&BABE_INHERENT_IDENTIFIER).unwrap(), Some(7));
}

#[test]
fn slot_provider_needs_timestamp() {
    let mut data = InherentData::new();
    let r = provide_slot_inherent(6000, &mut data);
    assert!(matches!(r, Err(Error::InherentDataNotFound(id)) if id == TIMESTAMP_INHERENT_IDENTIFIER));
}

#[test]
fn providers_collect_timestamp_and_slot() {
    let mut providers = InherentDataProviders::new();
    let clock = SlotTimestampProvider::from_millis(60_000, 6000);
    let p = BabeConsensusDataProvider::with_clock(config(), clock, &mut providers).unwrap();
    assert_eq!(p.fallback_authority.id, DEV_AUTHORITY_ID);
    assert_eq!(p.fallback_authority.weight, DEV_AUTHORITY_WEIGHT);
    let first = providers.create_inherent_data().unwrap();
    let second = providers.create_inherent_data().unwrap();
    assert_eq!(first.get_u64(&TIMESTAMP_INHERENT_IDENTIFIER).unwrap(), Some(60_000));
    assert_eq!(first.get_u64(&BABE_INHERENT_IDENTIFIER).unwrap(), Some(10));
    assert_eq!(second.get_u64(&TIMESTAMP_INHERENT_IDENTIFIER).unwrap(), Some(66_000));
    assert_eq!(second.get_u64(&BABE_INHERENT_IDENTIFIER).unwrap(), Some(11));
}

#[test]
fn registering_twice_fails() {
    let mut providers = InherentDataProviders::new();
    let clock = SlotTimestampProvider::from_millis(T0, 6000);
    BabeConsensusDataProvider::with_clock(config(), clock, &mut providers).unwrap();
    let clock = SlotTimestampProvider::from_millis(T0, 6000);
    let r = BabeConsensusDataProvider::with_clock(config(), clock, &mut providers);
    assert!(matches!(r, Err(Error::ProviderAlreadyRegistered(id)) if id == TIMESTAMP_INHERENT_IDENTIFIER));

    let mut providers = InherentDataProviders::new();
    providers.register_babe_provider(6000).unwrap();
    let clock = SlotTimestampProvider::from_millis(T0, 6000);
    let r = BabeConsensusDataProvider::with_clock(config(), clock, &mut providers);
    assert!(matches!(r, Err(Error::ProviderAlreadyRegistered(id)) if id == BABE_INHERENT_IDENTIFIER));
    assert!(providers.timestamp.is_some());
}

#[test]
fn new_registers_a_running_clock() {
    let mut providers = InherentDataProviders::new();
    let p = BabeConsensusDataProvider::new(config(), &mut providers).unwrap();
    assert_eq!(p.config.slot_duration, 6000);
    assert_eq!(providers.slot_duration, Some(6000));
    let data = providers.create_inherent_data().unwrap();
    let ts = data.get_u64(&TIMESTAMP_INHERENT_IDENTIFIER).unwrap().unwrap();
    assert_eq!(data.get_u64(&BABE_INHERENT_IDENTIFIER).unwrap(), Some(ts / 6000));
}

#[test]
fn genesis_claim_gives_single_predigest() {
    let p = provider();
    let d = p.create_digest(&EpochChanges::new(), &genesis_parent(), &slot_data(42), None, Some(primary(42))).unwrap();
    assert_eq!(d.logs.len(), 1);
    assert!(matches!(d.logs[0], DigestItem::PreRuntime(e, PreDigest::Primary { slot_number: 42, .. }) if e == BABE_ENGINE_ID));
}

#[test]
fn secondary_vrf_claim_is_kept() {
    let p = provider();
    let claim = PreDigest::SecondaryVRF { authority_index: 3, slot_number: 8, vrf_output: [4u8; 32], vrf_proof: [5u8; 64] };
    let d = p.create_digest(&EpochChanges::new(), &genesis_parent(), &slot_data(8), None, Some(claim)).unwrap();
    assert_eq!(d.logs.len(), 1);
    assert!(matches!(d.logs[0], DigestItem::PreRuntime(_, PreDigest::SecondaryVRF { authority_index: 3, slot_number: 8, .. })));
}

#[test]
fn genesis_without_claim_installs_fallback_authority() {
    let p = provider();
    let d = p.create_digest(&EpochChanges::new(), &genesis_parent(), &slot_data(42), None, None).unwrap();
    assert_eq!(d.logs.len(), 2);
    assert!(matches!(
        d.logs[0],
        DigestItem::PreRuntime(e, PreDigest::SecondaryPlain { authority_index: 0, slot_number: 42 }) if e == BABE_ENGINE_ID
    ));
    match &d.logs[1] {
        DigestItem::Consensus(e, ConsensusLog::NextEpochData(next)) => {
            assert_eq!(*e, BABE_ENGINE_ID);
            assert_eq!(next.authorities.len(), 1);
            assert_eq!(next.authorities[0].id, DEV_AUTHORITY_ID);
            assert_eq!(next.authorities[0].weight, 1000);
            assert_eq!(next.randomness, [9u8; 32]);
        }
        _ => panic!("expected a next-epoch announcement"),
    }
}

#[test]
fn missing_descriptor_fails_both_calls() {
    let p = provider();
    let parent = Header { hash: [3u8; 32], number: 5 };
    let data = slot_data(42);
    let r = p.create_digest(&EpochChanges::new(), &parent, &data, None, None);
    assert!(matches!(r, Err(Error::InvalidAuthoritiesSet)));
    let mut params = BlockImportParams::new();
    let r = p.append_block_import(&parent, &mut params, &data, None);
    assert!(matches!(r, Err(Error::InvalidAuthoritiesSet)));
    assert!(params.intermediates.is_empty());
}

fn signaled_tree() -> (EpochChanges, EpochIdentifier) {
    let id = EpochIdentifier { position: EpochIdentifierPosition::Regular, hash: [4u8; 32], number: 9 };
    let mut tree = EpochChanges::new();
    tree.import(
        EpochIdentifier { position: EpochIdentifierPosition::Genesis0, hash: [4u8; 32], number: 9 },
        Epoch { epoch_index: 0, start_slot: 0, duration: 200, authorities: vec![], randomness: [1u8; 32] },
    );
    tree.import(
        id,
        Epoch {
            epoch_index: 3,
            start_slot: 600,
            duration: 200,
            authorities: vec![Authority { id: key(8), weight: 5 }],
            randomness: [6u8; 32],
        },
    );
    (tree, id)
}

#[test]
fn signaled_epoch_randomness_is_carried_over() {
    let p = provider();
    let (tree, id) = signaled_tree();
    let parent = Header { hash: [3u8; 32], number: 10 };
    let d = p.create_digest(&tree, &parent, &slot_data(650), Some(EpochDescriptor::Signaled(id)), None).unwrap();
    match &d.logs[1] {
        DigestItem::Consensus(_, ConsensusLog::NextEpochData(next)) => assert_eq!(next.randomness, [6u8; 32]),
        _ => panic!("expected a next-epoch announcement"),
    }
}

#[test]
fn viable_epoch_looks_up_signaled_epochs() {
    let (tree, id) = signaled_tree();
    let e = tree.viable_epoch(&EpochDescriptor::Signaled(id), &config()).unwrap();
    assert_eq!(e.epoch_index, 3);
    assert_eq!(e.start_slot, 600);
    assert_eq!(e.authorities[0].id, key(8));
    let other = EpochIdentifier { position: EpochIdentifierPosition::Regular, hash: [5u8; 32], number: 9 };
    assert!(tree.viable_epoch(&EpochDescriptor::Signaled(other), &config()).is_none());
}

#[test]
fn empty_tree_synthesizes_genesis_epoch() {
    let tree = EpochChanges::new();
    let e = tree.viable_epoch(&EpochDescriptor::UnimportedGenesis(77), &config()).unwrap();
    assert_eq!(e.epoch_index, 0);
    assert_eq!(e.start_slot, 77);
    assert_eq!(e.duration, 200);
    assert_eq!(e.authorities.len(), 1);
    assert_eq!(e.authorities[0].id, key(7));
    assert_eq!(e.randomness, [9u8; 32]);
}

#[test]
fn unknown_signaled_epoch_fails_digest_only() {
    let p = provider();
    let parent = Header { hash: [3u8; 32], number: 10 };
    let other = EpochIdentifier { position: EpochIdentifierPosition::Regular, hash: [5u8; 32], number: 9 };
    let data = slot_data(650);
    let r = p.create_digest(&EpochChanges::new(), &parent, &data, Some(EpochDescriptor::Signaled(other)), None);
    assert!(matches!(r, Err(Error::InvalidAuthoritiesSet)));
    let mut params = BlockImportParams::new();
    p.append_block_import(&parent, &mut params, &data, Some(EpochDescriptor::Signaled(other))).unwrap();
    assert_eq!(params.intermediates.len(), 1);
}

#[test]
fn block_import_records_descriptor_under_key() {
    let p = provider();
    let data = slot_data(42);
    let mut params = BlockImportParams::new();
    p.append_block_import(&genesis_parent(), &mut params, &data, None).unwrap();
    assert_eq!(params.intermediates.len(), 1);
    assert_eq!(params.intermediates[0].key, b"babe1".to_vec());
    assert!(matches!(params.intermediates[0].epoch_descriptor, EpochDescriptor::UnimportedGenesis(42)));
    // a second insertion replaces the first
    let (_, id) = signaled_tree();
    let parent = Header { hash: [3u8; 32], number: 10 };
    p.append_block_import(&parent, &mut params, &data, Some(EpochDescriptor::Signaled(id))).unwrap();
    assert_eq!(params.intermediates.len(), 1);
    assert!(matches!(params.intermediates[0].epoch_descriptor, EpochDescriptor::Signaled(i) if i.number == 9));
    assert_eq!(intermediate_key(), b"babe1".to_vec());
}

#[test]
fn digest_and_import_agree_on_descriptor() {
    let p = provider();
    let data = slot_data(42);
    let d = p.create_digest(&EpochChanges::new(), &genesis_parent(), &data, None, None).unwrap();
    let mut params = BlockImportParams::new();
    p.append_block_import(&genesis_parent(), &mut params, &data, None).unwrap();
    let (slot, desc) = p.resolve_descriptor(&genesis_parent(), &data, None).unwrap();
    assert_eq!(slot, 42);
    assert!(matches!(desc, EpochDescriptor::UnimportedGenesis(42)));
    assert!(matches!(params.intermediates[0].epoch_descriptor, EpochDescriptor::UnimportedGenesis(42)));
    assert!(matches!(d.logs[0], DigestItem::PreRuntime(_, PreDigest::SecondaryPlain { slot_number: 42, .. })));
}

#[test]
fn identifiers_are_the_expected_bytes() {
    assert_eq!(&TIMESTAMP_INHERENT_IDENTIFIER, b"timstap0");
    assert_eq!(&BABE_INHERENT_IDENTIFIER, b"babeslot");
    assert_eq!(&BABE_ENGINE_ID, b"BABE");
}
