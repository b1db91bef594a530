use plant_relay::command::{CommandReply, CommandStore};
use plant_relay::relay::Relay;
use plant_relay::snapshot::SnapshotStore;

#[test]
fn absent_before_first_write() {
    let store = SnapshotStore::new();
    assert!(store.read().is_none());

    let relay = Relay::new();
    assert!(relay.latest().is_none());
}

#[test]
fn zero_valued_snapshot_is_present_not_absent() {
    let mut store = SnapshotStore::new();
    store.write(0, 0, false, false, String::from("1970-01-01T00:00:00+00:00"));
    let got = store.read().unwrap();
    assert_eq!(got.soil, 0);
    assert_eq!(got.light, 0);
    assert!(!got.is_watering);
    assert!(!got.auto_enabled);
}

#[test]
fn write_stores_fields_verbatim() {
    let mut store = SnapshotStore::new();
    store.write(417, 88, true, true, String::from("2024-01-02T03:04:05+00:00"));
    let got = store.read().unwrap();
    assert_eq!(got.soil, 417);
    assert_eq!(got.light, 88);
    assert!(got.is_watering);
    assert!(got.auto_enabled);
    assert_eq!(got.captured_at, "2024-01-02T03:04:05+00:00");
}

#[test]
fn out_of_range_values_stored_verbatim() {
    let mut store = SnapshotStore::new();
    store.write(-5, -1000, false, true, String::from("2024-01-02T03:04:05+00:00"));
    let got = store.read().unwrap();
    assert_eq!(got.soil, -5);
    assert_eq!(got.light, -1000);
}

#[test]
fn latest_wins() {
    let mut store = SnapshotStore::new();
    store.write(10, 1, false, true, String::from("2024-01-02T03:04:05+00:00"));
    store.write(20, 2, true, false, String::from("2024-01-02T03:04:06+00:00"));
    let got = store.read().unwrap();
    assert_eq!(got.soil, 20);
    assert_eq!(got.light, 2);
    assert!(got.is_watering);
    assert!(!got.auto_enabled);
    assert_eq!(got.captured_at, "2024-01-02T03:04:06+00:00");
}

#[test]
fn command_store_starts_idle_with_automation_on() {
    let mut cmd = CommandStore::new();
    assert!(cmd.auto_enabled());
    let reply = cmd.consume_command();
    assert_eq!(reply, CommandReply { water_now: false, auto_enabled: true });
}

#[test]
fn at_most_once_delivery() {
    let mut cmd = CommandStore::new();
    cmd.trigger_manual_water();
    let mut seen = 0;
    for _ in 0..5 {
        if cmd.consume_command().water_now {
            seen += 1;
        }
    }
    assert_eq!(seen, 1);
}

#[test]
fn trigger_is_idempotent() {
    let mut cmd = CommandStore::new();
    cmd.trigger_manual_water();
    cmd.trigger_manual_water();
    assert!(cmd.consume_command().water_now);
    assert!(!cmd.consume_command().water_now);
}

#[test]
fn trigger_can_rearm_after_consumption() {
    let mut cmd = CommandStore::new();
    cmd.trigger_manual_water();
    assert!(cmd.consume_command().water_now);
    cmd.trigger_manual_water();
    assert!(cmd.consume_command().water_now);
    assert!(!cmd.consume_command().water_now);
}

#[test]
fn set_auto_enabled_overwrites_and_persists() {
    let mut cmd = CommandStore::new();
    cmd.set_auto_enabled(false);
    assert!(!cmd.auto_enabled());
    assert!(!cmd.consume_command().auto_enabled);
    assert!(!cmd.consume_command().auto_enabled);
    cmd.set_auto_enabled(true);
    assert!(cmd.auto_enabled());
}

#[test]
fn set_auto_enabled_leaves_pending_flag_alone() {
    let mut cmd = CommandStore::new();
    cmd.trigger_manual_water();
    cmd.set_auto_enabled(false);
    let reply = cmd.consume_command();
    assert_eq!(reply, CommandReply { water_now: true, auto_enabled: false });
}

#[test]
fn snapshot_embeds_mode_at_capture_time() {
    let mut relay = Relay::new();
    relay.receive_sensor(5, 5, false);
    relay.set_auto_enabled(false);
    let got = relay.latest().unwrap();
    assert!(got.auto_enabled);
    assert!(!relay.consume_command().auto_enabled);
}

#[test]
fn relay_push_replaces_reading_and_leaves_command_alone() {
    let mut relay = Relay::new();
    relay.trigger_manual_water();
    relay.receive_sensor(10, 1, false);
    relay.receive_sensor(20, 2, true);
    let got = relay.latest().unwrap();
    assert_eq!(got.soil, 20);
    assert_eq!(got.light, 2);
    assert!(got.is_watering);
    let reply = relay.consume_command();
    assert!(reply.water_now);
}

#[test]
fn end_to_end_scenario() {
    let mut relay = Relay::new();
    relay.set_auto_enabled(false);
    relay.trigger_manual_water();
    let first = relay.consume_command();
    assert_eq!(first, CommandReply { water_now: true, auto_enabled: false });
    let second = relay.consume_command();
    assert_eq!(second, CommandReply { water_now: false, auto_enabled: false });
}
