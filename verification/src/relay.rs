//! The relay: one snapshot cell and one command cell, wired together the way
//! the device and dashboard see them. A sensor push reads the automation
//! mode at that instant and embeds it, together with a clock timestamp, in
//! the stored reading.

use vstd::prelude::*;

use crate::command::{
    after_consume, after_set_auto, after_trigger, consume_reply, initial_command_state,
    CommandReply, CommandStore,
};
use crate::snapshot::{
    after_write, initial_snapshot_store, SensorSnapshot, SnapshotStore,
};

verus! {

/// The whole synchronization core: the latest-reading cell and the command
/// cell. The two are independent except for one flow — a sensor push copies
/// the command cell's current automation mode into the snapshot it stores.
pub struct Relay {
    pub snapshot: SnapshotStore,
    pub command: CommandStore,
}

/// The relay after a sensor push that was stamped `captured_at`: the command
/// cell is untouched, and the snapshot cell holds the new reading with the
/// automation mode copied from the command cell at that moment.
pub open spec fn relay_after_receive(
    r: Relay,
    soil: i32,
    light: i32,
    is_watering: bool,
    captured_at: String,
) -> Relay {
    Relay {
        snapshot: after_write(
            r.snapshot,
            SensorSnapshot {
                soil,
                light,
                is_watering,
                auto_enabled: r.command.auto_enabled,
                captured_at,
            },
        ),
        command: r.command,
    }
}

/// The relay after the operator arms a manual watering.
pub open spec fn relay_after_trigger(r: Relay) -> Relay {
    Relay { snapshot: r.snapshot, command: after_trigger(r.command) }
}

/// The relay after the operator sets the automation mode.
pub open spec fn relay_after_set_auto(r: Relay, enabled: bool) -> Relay {
    Relay { snapshot: r.snapshot, command: after_set_auto(r.command, enabled) }
}

/// The relay after a device poll consumed the pending command.
pub open spec fn relay_after_consume(r: Relay) -> Relay {
    Relay { snapshot: r.snapshot, command: after_consume(r.command) }
}

/// Relies on chrono's `Utc::now` and `DateTime::to_rfc3339` for the current
/// instant as an RFC 3339 timestamp. The result depends on the system
/// clock, so nothing is promised of it.
#[verifier::external_body]
fn now_rfc3339() -> String {
    chrono::Utc::now().to_rfc3339()
}

impl Relay {
    /// A fresh relay: no reading yet, nothing pending, automation on.
    pub fn new() -> (r: Self)
        ensures
            r.snapshot == initial_snapshot_store(),
            r.command == initial_command_state(),
    {
        Relay { snapshot: SnapshotStore::new(), command: CommandStore::new() }
    }

    /// Accept a sensor push: stamp it with the clock, embed the automation
    /// mode as it is right now, and replace the stored reading. The command
    /// cell is read, never changed. Only the timestamp is left open — it is
    /// whatever the clock said.
    pub fn receive_sensor(&mut self, soil: i32, light: i32, is_watering: bool)
        ensures
            exists|ts: String|
                *final(self) == relay_after_receive(*old(self), soil, light, is_watering, ts),
    {
        let auto_enabled = self.command.auto_enabled();
        let captured_at = now_rfc3339();
        let ghost ts = captured_at;
        self.snapshot.write(soil, light, is_watering, auto_enabled, captured_at);
        proof {
            assert(*self == relay_after_receive(*old(self), soil, light, is_watering, ts));
        }
    }

    /// The latest reading, or `None` if no push has ever arrived.
    pub fn latest(&self) -> (r: Option<SensorSnapshot>)
        ensures
            r == self.snapshot.latest,
    {
        self.snapshot.read()
    }

    /// Arm a manual watering for the next device poll.
    pub fn trigger_manual_water(&mut self)
        ensures
            *final(self) == relay_after_trigger(*old(self)),
    {
        self.command.trigger_manual_water();
    }

    /// Set the automation mode. The stored snapshot is untouched: the mode
    /// it embeds is the one captured when it was written.
    pub fn set_auto_enabled(&mut self, enabled: bool)
        ensures
            *final(self) == relay_after_set_auto(*old(self), enabled),
    {
        self.command.set_auto_enabled(enabled);
    }

    /// Device poll: atomically take the pending command and the current mode,
    /// clearing the pending flag in the same step.
    pub fn consume_command(&mut self) -> (r: CommandReply)
        ensures
            r == consume_reply(old(self).command),
            *final(self) == relay_after_consume(*old(self)),
    {
        self.command.consume_command()
    }
}

/// A snapshot embeds the automation mode at capture time, not a live link:
/// after a push and then a mode change, the stored reading still carries the
/// mode the command cell had when the push arrived — while a poll now
/// reports the new mode.
pub proof fn lemma_mode_captured_not_live(
    r: Relay,
    soil: i32,
    light: i32,
    is_watering: bool,
    captured_at: String,
    enabled: bool,
)
    ensures
        ({
            let pushed = relay_after_receive(r, soil, light, is_watering, captured_at);
            let switched = relay_after_set_auto(pushed, enabled);
            &&& switched.snapshot == pushed.snapshot
            &&& switched.snapshot.latest
                == Some(
                SensorSnapshot {
                    soil,
                    light,
                    is_watering,
                    auto_enabled: r.command.auto_enabled,
                    captured_at,
                },
            )
            &&& consume_reply(switched.command).auto_enabled == enabled
        }),
{
}

} // verus!
