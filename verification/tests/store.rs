use tracker_core::fix::GeoFix;
use tracker_core::sleep_store::{DeepSleepStore, REGION_SIZE};

#[test]
fn cold_region_loads_invalid() {
    let store = DeepSleepStore::new_cold();
    let rec = store.load();
    assert!(!rec.valid);
    assert_eq!(rec.lat_e7, 0);
    assert_eq!(rec.lon_e7, 0);
}

#[test]
fn indeterminate_region_loads_invalid() {
    // A cold boot leaves arbitrary bytes; without the tag they are discarded.
    let junk = vec![0xABu8; REGION_SIZE];
    let store = DeepSleepStore::from_raw(junk);
    let rec = store.load();
    assert!(!rec.valid);
    assert_eq!(rec.lat_e7, 0);
    assert_eq!(rec.lon_e7, 0);
}

#[test]
fn save_load_round_trip() {
    let mut store = DeepSleepStore::new_cold();
    let f = GeoFix {
        lat_e7: 370_000_000,
        lon_e7: -1_220_000_000,
    };
    store.save(f);
    let rec = store.load();
    assert!(rec.valid);
    assert_eq!(rec.lat_e7, f.lat_e7);
    assert_eq!(rec.lon_e7, f.lon_e7);
}

#[test]
fn load_is_idempotent() {
    let mut store = DeepSleepStore::new_cold();
    store.save(GeoFix {
        lat_e7: -50_000_000,
        lon_e7: 1_790_000_000,
    });
    let first = store.load();
    let second = store.load();
    assert_eq!(first, second);

    let cold = DeepSleepStore::new_cold();
    assert_eq!(cold.load(), cold.load());
}

#[test]
fn corrupted_tag_yields_invalid_not_payload() {
    let mut store = DeepSleepStore::new_cold();
    let f = GeoFix {
        lat_e7: 370_000_000,
        lon_e7: -1_220_000_000,
    };
    store.save(f);

    let mut bytes = store.raw_bytes();
    bytes[0] ^= 0xFF;
    let corrupted = DeepSleepStore::from_raw(bytes);
    let rec = corrupted.load();
    assert!(!rec.valid);
    // The payload bytes are still in the region, but a mismatched tag must
    // never let them through.
    assert_eq!(rec.lat_e7, 0);
    assert_eq!(rec.lon_e7, 0);
}

#[test]
fn each_tag_byte_guards_the_record() {
    let f = GeoFix {
        lat_e7: 123_456_789,
        lon_e7: -987_654_321,
    };
    for i in 0..4 {
        let mut store = DeepSleepStore::new_cold();
        store.save(f);
        let mut bytes = store.raw_bytes();
        bytes[i] = bytes[i].wrapping_add(1);
        let rec = DeepSleepStore::from_raw(bytes).load();
        assert!(!rec.valid);
        assert_eq!(rec.lat_e7, 0);
        assert_eq!(rec.lon_e7, 0);
    }
}

#[test]
fn second_save_overwrites_first() {
    let mut store = DeepSleepStore::new_cold();
    store.save(GeoFix {
        lat_e7: 1,
        lon_e7: 2,
    });
    store.save(GeoFix {
        lat_e7: -3,
        lon_e7: -4,
    });
    let rec = store.load();
    assert!(rec.valid);
    assert_eq!(rec.lat_e7, -3);
    assert_eq!(rec.lon_e7, -4);
}

#[test]
fn saved_region_survives_a_byte_copy() {
    // Models the region surviving the sleep transition: the bytes written
    // back before sleep, read again on wake, decode to the same record.
    let mut store = DeepSleepStore::new_cold();
    let f = GeoFix {
        lat_e7: 55_500_000,
        lon_e7: 377_700_000,
    };
    store.save(f);
    let preserved = store.raw_bytes();

    let rewoken = DeepSleepStore::from_raw(preserved);
    let rec = rewoken.load();
    assert!(rec.valid);
    assert_eq!(rec.lat_e7, f.lat_e7);
    assert_eq!(rec.lon_e7, f.lon_e7);
}

#[test]
fn extreme_coordinates_round_trip() {
    let mut store = DeepSleepStore::new_cold();
    let f = GeoFix {
        lat_e7: i32::MIN,
        lon_e7: i32::MAX,
    };
    store.save(f);
    let rec = store.load();
    assert!(rec.valid);
    assert_eq!(rec.lat_e7, i32::MIN);
    assert_eq!(rec.lon_e7, i32::MAX);
}
