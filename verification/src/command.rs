//! The command cell: an edge-triggered manual-watering flag and a persistent
//! automation-mode toggle, shared between the operator and the polling device.

use vstd::prelude::*;

verus! {

/// Operator-controlled command state.
///
/// `manual_water_pending` is armed by [`CommandStore::trigger_manual_water`]
/// and cleared only by [`CommandStore::consume_command`]; it never clears
/// itself any other way. `auto_enabled` persists until explicitly changed.
#[derive(Clone, Copy, Debug, PartialEq, Eq, Structural)]
pub struct CommandStore {
    pub manual_water_pending: bool,
    pub auto_enabled: bool,
}

/// What a single device poll is told: whether to water now, and whether
/// autonomous watering is currently enabled.
#[derive(Clone, Copy, Debug, PartialEq, Eq, Structural)]
pub struct CommandReply {
    pub water_now: bool,
    pub auto_enabled: bool,
}

/// The command state at process start: nothing pending, automation on.
pub open spec fn initial_command_state() -> CommandStore {
    CommandStore { manual_water_pending: false, auto_enabled: true }
}

/// The state after the operator arms a manual watering.
pub open spec fn after_trigger(s: CommandStore) -> CommandStore {
    CommandStore { manual_water_pending: true, auto_enabled: s.auto_enabled }
}

/// The state after the operator sets the automation mode to `enabled`.
pub open spec fn after_set_auto(s: CommandStore, enabled: bool) -> CommandStore {
    CommandStore { manual_water_pending: s.manual_water_pending, auto_enabled: enabled }
}

/// What a poll arriving in state `s` is told.
pub open spec fn consume_reply(s: CommandStore) -> CommandReply {
    CommandReply { water_now: s.manual_water_pending, auto_enabled: s.auto_enabled }
}

/// The state a poll leaves behind: the pending flag is cleared, the mode kept.
pub open spec fn after_consume(s: CommandStore) -> CommandStore {
    CommandStore { manual_water_pending: false, auto_enabled: s.auto_enabled }
}

/// The replies that `n` successive polls receive, starting from state `s`,
/// with no operator action in between: `true` at an index means that poll
/// was told to water.
pub open spec fn consume_replies(s: CommandStore, n: nat) -> Seq<bool>
    decreases n,
{
    if n == 0 {
        Seq::empty()
    } else {
        seq![consume_reply(s).water_now] + consume_replies(after_consume(s), (n - 1) as nat)
    }
}

impl CommandStore {
    /// A fresh command cell in its start state.
    pub fn new() -> (s: Self)
        ensures
            s == initial_command_state(),
    {
        CommandStore { manual_water_pending: false, auto_enabled: true }
    }

    /// Arm a manual watering. Re-arming while one is already pending changes
    /// nothing: commands are not queued or counted.
    pub fn trigger_manual_water(&mut self)
        ensures
            *final(self) == after_trigger(*old(self)),
    {
        self.manual_water_pending = true;
    }

    /// Set the automation mode, leaving the pending flag alone.
    pub fn set_auto_enabled(&mut self, enabled: bool)
        ensures
            *final(self) == after_set_auto(*old(self), enabled),
    {
        self.auto_enabled = enabled;
    }

    /// Atomically read and clear: report whether a manual watering was
    /// pending together with the current mode, and reset the pending flag in
    /// the same step, so a command is delivered to at most one poll.
    pub fn consume_command(&mut self) -> (r: CommandReply)
        ensures
            r == consume_reply(*old(self)),
            *final(self) == after_consume(*old(self)),
    {
        let r = CommandReply { water_now: self.manual_water_pending, auto_enabled: self.auto_enabled };
        self.manual_water_pending = false;
        r
    }

    /// The current automation mode, read without side effect.
    pub fn auto_enabled(&self) -> (b: bool)
        ensures
            b == self.auto_enabled,
    {
        self.auto_enabled
    }
}

/// In a state with nothing pending, polls report no work however many arrive.
proof fn lemma_quiescent_consumes(s: CommandStore, n: nat)
    requires
        !s.manual_water_pending,
    ensures
        consume_replies(s, n).len() == n,
        forall|i: int| 0 <= i < n ==> !consume_replies(s, n)[i],
    decreases n,
{
    if n > 0 {
        lemma_quiescent_consumes(after_consume(s), (n - 1) as nat);
    }
}

/// At-most-once delivery: after a single trigger, of any number of successive
/// polls exactly the first is told to water; every later one is told nothing,
/// so the command is never delivered twice.
pub proof fn lemma_at_most_once_delivery(s: CommandStore, n: nat)
    requires
        1 <= n,
    ensures
        consume_replies(after_trigger(s), n).len() == n,
        consume_replies(after_trigger(s), n)[0],
        forall|i: int| 1 <= i < n ==> !consume_replies(after_trigger(s), n)[i],
{
    lemma_quiescent_consumes(after_consume(after_trigger(s)), (n - 1) as nat);
}

/// Idempotent trigger: arming twice is the same state as arming once, and a
/// poll after a double trigger is told to water exactly once — the next poll
/// is told nothing.
pub proof fn lemma_trigger_idempotent(s: CommandStore)
    ensures
        after_trigger(after_trigger(s)) == after_trigger(s),
        consume_reply(after_trigger(after_trigger(s))).water_now,
        !consume_reply(after_consume(after_trigger(after_trigger(s)))).water_now,
{
}

} // verus!
