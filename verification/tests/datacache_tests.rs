use zkwasm::datacache::{
    le_bytes_to_words, words_to_le_bytes, CacheAction, CacheContext, FETCH_MODE, STORE_MODE,
};

#[test]
fn store_flow_emits_store_action_on_fourth_limb() {
    let mut ctx = CacheContext::new();
    ctx.set_mode(STORE_MODE);
    ctx.store_data(11);
    ctx.store_data(22);
    assert!(ctx.set_data_hash(1).is_none());
    assert!(ctx.set_data_hash(2).is_none());
    assert!(ctx.set_data_hash(3).is_none());
    match ctx.set_data_hash(4) {
        Some(CacheAction::Store { hash, data }) => {
            assert_eq!(hash, vec![1, 2, 3, 4]);
            assert_eq!(data, vec![11, 22]);
        },
        _ => panic!("expected a store action"),
    }
}

#[test]
fn store_flow_with_no_data_emits_nothing() {
    let mut ctx = CacheContext::new();
    ctx.set_mode(STORE_MODE);
    for limb in [5, 6, 7] {
        assert!(ctx.set_data_hash(limb).is_none());
    }
    assert!(ctx.set_data_hash(8).is_none());
}

#[test]
fn fetch_flow_reads_length_then_words_in_order() {
    let mut ctx = CacheContext::new();
    ctx.set_mode(FETCH_MODE);
    for limb in [9, 9, 9] {
        assert!(ctx.set_data_hash(limb).is_none());
    }
    match ctx.set_data_hash(9) {
        Some(CacheAction::Fetch { hash }) => assert_eq!(hash, vec![9, 9, 9, 9]),
        _ => panic!("expected a fetch action"),
    }
    ctx.provide_fetched(vec![100, 200, 300]);
    assert_eq!(ctx.fetch_data(), 3);
    assert_eq!(ctx.fetch_data(), 100);
    assert_eq!(ctx.fetch_data(), 200);
    assert_eq!(ctx.fetch_data(), 300);
}

#[test]
fn set_mode_drops_buffered_data() {
    let mut ctx = CacheContext::new();
    ctx.set_mode(STORE_MODE);
    ctx.store_data(1);
    ctx.set_mode(STORE_MODE);
    for limb in [1, 1, 1] {
        assert!(ctx.set_data_hash(limb).is_none());
    }
    // the buffer was dropped, so no store action is owed
    assert!(ctx.set_data_hash(1).is_none());
}

#[test]
fn record_bytes_round_trip() {
    let words: Vec<u64> = vec![0, 1, 0x0123_4567_89ab_cdef, u64::MAX];
    let bytes = words_to_le_bytes(&words);
    assert_eq!(bytes.len(), 32);
    assert_eq!(&bytes[16..24], &[0xef, 0xcd, 0xab, 0x89, 0x67, 0x45, 0x23, 0x01]);
    assert_eq!(le_bytes_to_words(&bytes), words);
    let empty: Vec<u64> = vec![];
    assert_eq!(le_bytes_to_words(&words_to_le_bytes(&empty)), empty);
}
