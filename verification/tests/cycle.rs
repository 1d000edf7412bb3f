use tracker_core::cycle::{sleep_duration_micros, CyclePhase, SleepCycleOrchestrator};
use tracker_core::decide::Decision;
use tracker_core::fix::GeoFix;
use tracker_core::pin_hold::{PinHoldController, PinHoldState};
use tracker_core::sleep_store::DeepSleepStore;

fn store_with_baseline(lat_e7: i32, lon_e7: i32) -> DeepSleepStore {
    let mut store = DeepSleepStore::new_cold();
    store.save(GeoFix { lat_e7, lon_e7 });
    store
}

#[test]
fn first_cycle_adopts_the_fix_as_baseline() {
    // Scenario: cold store, fix (37.0000, -122.0000): NoPreviousData, and
    // the store becomes that fix, valid.
    let mut cycle = SleepCycleOrchestrator::new(DeepSleepStore::new_cold());
    cycle.release_holds();
    let baseline = cycle.load_baseline();
    assert!(!baseline.valid);

    let current = GeoFix {
        lat_e7: 370_000_000,
        lon_e7: -1_220_000_000,
    };
    let d = cycle.process_fix(Some(current));
    assert_eq!(d, Decision::NoPreviousData);

    let rec = DeepSleepStore::from_raw(cycle.region_snapshot()).load();
    assert!(rec.valid);
    assert_eq!(rec.lat_e7, current.lat_e7);
    assert_eq!(rec.lon_e7, current.lon_e7);
}

#[test]
fn stationary_cycle_keeps_the_store_unchanged() {
    // Scenario: baseline (37.0000, -122.0000), fix (37.00005, -122.0000):
    // below threshold, Stationary, store untouched.
    let store = store_with_baseline(370_000_000, -1_220_000_000);
    let before = store.raw_bytes();

    let mut cycle = SleepCycleOrchestrator::new(store);
    cycle.release_holds();
    let baseline = cycle.load_baseline();
    assert!(baseline.valid);

    let d = cycle.process_fix(Some(GeoFix {
        lat_e7: 370_000_500,
        lon_e7: -1_220_000_000,
    }));
    assert_eq!(d, Decision::Stationary);
    assert_eq!(cycle.region_snapshot(), before);
}

#[test]
fn moved_cycle_saves_the_new_baseline() {
    // Scenario: baseline (37.0000, -122.0000), fix (37.0002, -122.0000):
    // above threshold, Moved, store becomes the new fix.
    let store = store_with_baseline(370_000_000, -1_220_000_000);
    let mut cycle = SleepCycleOrchestrator::new(store);
    cycle.release_holds();
    cycle.load_baseline();

    let current = GeoFix {
        lat_e7: 370_002_000,
        lon_e7: -1_220_000_000,
    };
    let d = cycle.process_fix(Some(current));
    assert_eq!(d, Decision::Moved);

    let rec = DeepSleepStore::from_raw(cycle.region_snapshot()).load();
    assert!(rec.valid);
    assert_eq!(rec.lat_e7, current.lat_e7);
    assert_eq!(rec.lon_e7, current.lon_e7);
}

#[test]
fn cycle_without_fix_sleeps_immediately() {
    // Scenario: no fix acquired: ImmediateSleep, and no store write beyond
    // the initial load.
    let store = store_with_baseline(370_000_000, -1_220_000_000);
    let before = store.raw_bytes();

    let mut cycle = SleepCycleOrchestrator::new(store);
    cycle.release_holds();
    cycle.load_baseline();
    let d = cycle.process_fix(None);
    assert_eq!(d, Decision::ImmediateSleep);
    assert_eq!(cycle.region_snapshot(), before);
}

#[test]
fn full_cycle_walks_every_phase_and_latches_the_pins() {
    let mut cycle = SleepCycleOrchestrator::new(DeepSleepStore::new_cold());
    assert_eq!(cycle.phase(), CyclePhase::Start);
    cycle.release_holds();
    assert_eq!(cycle.phase(), CyclePhase::HoldsReleased);
    cycle.load_baseline();
    assert_eq!(cycle.phase(), CyclePhase::BaselineLoaded);
    cycle.process_fix(Some(GeoFix {
        lat_e7: 10,
        lon_e7: 20,
    }));
    assert_eq!(cycle.phase(), CyclePhase::Decided);
    cycle.prepare_for_sleep();
    assert_eq!(cycle.phase(), CyclePhase::ReadyForSleep);
}

#[test]
fn pin_controller_walks_the_hold_cycle() {
    let mut pin = PinHoldController::new();
    assert_eq!(pin.current_state(), PinHoldState::Held);
    pin.disable_hold();
    assert_eq!(pin.current_state(), PinHoldState::Disabled);
    pin.drive_low();
    assert_eq!(pin.current_state(), PinHoldState::Driven);
    pin.enable_hold();
    assert_eq!(pin.current_state(), PinHoldState::Held);
}

#[test]
fn wake_timer_duration_is_ten_seconds() {
    assert_eq!(sleep_duration_micros(), 10_000_000);
}
