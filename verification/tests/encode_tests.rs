use zkwasm::encode::{
    decode_jump_key, decode_memory_key, JumpLookupKey, LocationType, MemoryLookupKey,
};

#[test]
fn memory_key_round_trip_simple() {
    let key = MemoryLookupKey {
        location: LocationType::Stack,
        address: 5,
        eid: 7,
        is_i32: true,
        value: 42,
    };
    let packed = key.encode();
    assert_eq!(decode_memory_key(packed), Some(key));
}

#[test]
fn memory_key_round_trip_extremes() {
    let key = MemoryLookupKey {
        location: LocationType::Global,
        address: 0x0fff_ffff,
        eid: 0x0fff_ffff,
        is_i32: false,
        value: u64::MAX,
    };
    let packed = key.encode();
    assert_eq!(decode_memory_key(packed), Some(key));
    let key0 = MemoryLookupKey {
        location: LocationType::Heap,
        address: 0,
        eid: 0,
        is_i32: false,
        value: 0,
    };
    assert_eq!(decode_memory_key(key0.encode()), Some(key0));
}

#[test]
fn memory_key_rejects_bad_location_tag() {
    // location tag zero encodes no location kind
    assert_eq!(decode_memory_key(0), None);
}

#[test]
fn jump_key_round_trip_simple() {
    let key = JumpLookupKey { eid: 10, frame_id: 3, index: 4, fid: 9, iid: 6 };
    let packed = key.encode();
    assert_eq!(decode_jump_key(packed), Some(key));
}

#[test]
fn jump_key_round_trip_extremes() {
    let key = JumpLookupKey {
        eid: 0x0fff_ffff,
        frame_id: 0x0fff_ffff,
        index: 0x00ff_ffff,
        fid: 0x00ff_ffff,
        iid: 0x00ff_ffff,
    };
    let packed = key.encode();
    assert_eq!(decode_jump_key(packed), Some(key));
    let key0 = JumpLookupKey { eid: 0, frame_id: 0, index: 0, fid: 0, iid: 0 };
    assert_eq!(decode_jump_key(key0.encode()), Some(key0));
}

#[test]
fn distinct_memory_keys_pack_differently() {
    let a = MemoryLookupKey {
        location: LocationType::Stack,
        address: 1,
        eid: 2,
        is_i32: false,
        value: 3,
    };
    let b = MemoryLookupKey {
        location: LocationType::Stack,
        address: 2,
        eid: 1,
        is_i32: false,
        value: 3,
    };
    assert_ne!(a.encode(), b.encode());
}
