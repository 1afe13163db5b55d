use nucleus_dashboard_api::address::ss58_text;
use nucleus_dashboard_api::config::VERISENSE_PREFIX;
use nucleus_dashboard_api::nucleus::{
    account_info, block_info, issuance_text, listed_nucleus, node_info, nucleus_by_id,
    nucleus_id_from_key, nucleus_info, validator_counts, AccountBalance, RawNucleus,
};

fn raw() -> RawNucleus {
    RawNucleus {
        name: b"demo".to_vec(),
        manager: [1u8; 32],
        wasm_hash: [0xab; 32],
        wasm_version: 3,
        wasm_location: Some(vec![0x12, 0x34]),
        energy: (1u128 << 64) + 5,
        current_event: 42,
        root_state: [0u8; 32],
        capacity: 7,
    }
}

#[test]
fn nucleus_info_shows_each_field() {
    let info = nucleus_info("id-1".to_string(), &raw());
    assert_eq!(info.id, "id-1");
    assert_eq!(info.name, "demo");
    assert_eq!(info.manager, ss58_text(&[1u8; 32], VERISENSE_PREFIX));
    assert_eq!(info.wasm_hash, format!("0x{}", "ab".repeat(32)));
    assert_eq!(info.wasm_version, 3);
    assert_eq!(info.wasm_location, "1234");
    assert_eq!(info.energy, 5);
    assert_eq!(info.current_event, 42);
    assert_eq!(info.root_state, format!("0x{}", "00".repeat(32)));
    assert_eq!(info.capacity, 7);
}

#[test]
fn wide_counters_are_narrowed_as_shown() {
    let mut r = raw();
    r.current_event = (1u128 << 64) + 9;
    r.capacity = (1u128 << 32) + 3;
    let info = nucleus_info("w".to_string(), &r);
    assert_eq!(info.current_event, 9);
    assert_eq!(info.capacity, 3);
}

#[test]
fn nucleus_without_location_or_utf8_name() {
    let mut r = raw();
    r.wasm_location = None;
    r.name = vec![0xc3, 0x28];
    let info = nucleus_info("x".to_string(), &r);
    assert_eq!(info.wasm_location, "");
    assert_eq!(info.name, "Invalid UTF-8: [195, 40]");
}

#[test]
fn listed_nucleus_id_comes_from_key_tail() {
    let mut key = vec![9u8; 16];
    key.extend_from_slice(&[2u8; 32]);
    assert_eq!(nucleus_id_from_key(&key), ss58_text(&[2u8; 32], VERISENSE_PREFIX));
    let info = listed_nucleus(&key, &raw());
    assert_eq!(info.id, ss58_text(&[2u8; 32], VERISENSE_PREFIX));
}

#[test]
fn short_key_id_is_byte_list() {
    assert_eq!(nucleus_id_from_key(&[1, 2, 3]), "[1, 2, 3]");
}

#[test]
fn nucleus_by_id_keeps_asked_id() {
    let found = nucleus_by_id("5Abc", Some(raw())).unwrap();
    assert_eq!(found, nucleus_info("5Abc".to_string(), &raw()));
    assert_eq!(found.id, "5Abc");
    assert_eq!(found.name, "demo");
    assert_eq!(nucleus_by_id("5Abc", None), None);
}

#[test]
fn account_info_with_and_without_record() {
    let a = account_info("5Acc", Some(AccountBalance { free: 1_000_000_000_000, nonce: 4 }));
    assert_eq!(a.address, "5Acc");
    assert_eq!(a.balance, "1000000000000");
    assert_eq!(a.nonce, 4);
    let b = account_info("5Acc", None);
    assert_eq!(b.balance, "0");
    assert_eq!(b.nonce, 0);
}

#[test]
fn block_info_renders_hashes() {
    let b = block_info(12, &[0x11; 32], &[0xff; 32], 1_700_000_000);
    assert_eq!(b.number, 12);
    assert_eq!(b.hash, format!("0x{}", "11".repeat(32)));
    assert_eq!(b.parent_hash, format!("0x{}", "ff".repeat(32)));
    assert_eq!(b.timestamp, 1_700_000_000);
}

#[test]
fn node_info_renders_version() {
    let n = node_info("verisense", 105, 9, 8);
    assert_eq!(n.spec_name, "verisense");
    assert_eq!(n.spec_version, "105");
    assert_eq!(n.best_block, 9);
    assert_eq!(n.finalized_block, 8);
}

#[test]
fn issuance_and_validators_default_to_zero() {
    assert_eq!(issuance_text(None), "0");
    assert_eq!(issuance_text(Some(123456789012345678901234567890)), "123456789012345678901234567890");
    assert_eq!(validator_counts(None), (0, 0));
    assert_eq!(validator_counts(Some(4)), (4, 4));
}
