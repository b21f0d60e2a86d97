//! The lifecycle of one synchronization pass.
//!
//! A pass moves through connecting, migrating the remote schema, syncing the
//! tables one by one in dependency order, and advancing the watermark.  Any
//! failure drops the pass into its terminal failed state, from which no
//! event leads anywhere else — in particular, never to the watermark stage.
//! That is the pass's sole atomicity guarantee: table writes made before a
//! failure are not rolled back, but the watermark is only ever written after
//! every table has succeeded.

use vstd::prelude::*;

verus! {

/// How many tables one pass synchronizes.
pub const SYNCED_TABLE_COUNT: usize = 10;

/// Where a pass stands.
#[derive(Clone, Copy, Debug, PartialEq, Eq, Structural)]
pub enum PassPhase {
    /// Nothing has happened yet.
    Idle,
    /// The URL was accepted and the connection is being opened.
    Connecting,
    /// The remote schema is being brought current.
    MigratingRemote,
    /// Table `0..SYNCED_TABLE_COUNT` is being synchronized.
    SyncingTable(usize),
    /// All tables succeeded; the watermark is being persisted.
    AdvancingWatermark,
    /// The pass completed and the watermark was advanced.
    Done,
    /// The pass aborted; the watermark was not advanced.
    Failed,
}

/// What can happen to a pass.
#[derive(Clone, Copy, Debug, PartialEq, Eq, Structural)]
pub enum PassEvent {
    UrlAccepted,
    UrlRejected,
    Connected,
    ConnectFailed,
    MigratedRemote,
    MigrateFailed,
    TableSynced,
    TableFailed,
    WatermarkSaved,
    WatermarkSaveFailed,
}

/// The transition relation of a pass: the stages advance strictly in order,
/// and any event that is not the current stage's success moves the pass to
/// `Failed`, which absorbs everything.
pub open spec fn phase_step_spec(p: PassPhase, e: PassEvent) -> PassPhase {
    match (p, e) {
        (PassPhase::Idle, PassEvent::UrlAccepted) => PassPhase::Connecting,
        (PassPhase::Connecting, PassEvent::Connected) => PassPhase::MigratingRemote,
        (PassPhase::MigratingRemote, PassEvent::MigratedRemote) => PassPhase::SyncingTable(0),
        (PassPhase::SyncingTable(i), PassEvent::TableSynced) => if i + 1
            == SYNCED_TABLE_COUNT {
            PassPhase::AdvancingWatermark
        } else if i + 1 < SYNCED_TABLE_COUNT {
            PassPhase::SyncingTable((i + 1) as usize)
        } else {
            PassPhase::Failed
        },
        (PassPhase::AdvancingWatermark, PassEvent::WatermarkSaved) => PassPhase::Done,
        _ => PassPhase::Failed,
    }
}

/// Advance a pass by one event.
pub fn advance_phase(p: PassPhase, e: PassEvent) -> (r: PassPhase)
    ensures
        r == phase_step_spec(p, e),
{
    match (p, e) {
        (PassPhase::Idle, PassEvent::UrlAccepted) => PassPhase::Connecting,
        (PassPhase::Connecting, PassEvent::Connected) => PassPhase::MigratingRemote,
        (PassPhase::MigratingRemote, PassEvent::MigratedRemote) => PassPhase::SyncingTable(0),
        (PassPhase::SyncingTable(i), PassEvent::TableSynced) => {
            if i >= SYNCED_TABLE_COUNT - 1 {
                if i == SYNCED_TABLE_COUNT - 1 {
                    PassPhase::AdvancingWatermark
                } else {
                    PassPhase::Failed
                }
            } else {
                PassPhase::SyncingTable(i + 1)
            }
        },
        (PassPhase::AdvancingWatermark, PassEvent::WatermarkSaved) => PassPhase::Done,
        _ => PassPhase::Failed,
    }
}

/// The phase a pass reaches after the given events, starting idle.
pub open spec fn run_phases(events: Seq<PassEvent>) -> PassPhase
    decreases events.len(),
{
    if events.len() == 0 {
        PassPhase::Idle
    } else {
        phase_step_spec(run_phases(events.drop_last()), events.last())
    }
}

/// How many of the events equal `e`.
pub open spec fn count_event(events: Seq<PassEvent>, e: PassEvent) -> int
    decreases events.len(),
{
    if events.len() == 0 {
        0
    } else {
        count_event(events.drop_last(), e) + if events.last() == e {
            1int
        } else {
            0int
        }
    }
}

/// Whether `e` reports a failure.
pub open spec fn is_failure_event(e: PassEvent) -> bool {
    match e {
        PassEvent::UrlRejected => true,
        PassEvent::ConnectFailed => true,
        PassEvent::MigrateFailed => true,
        PassEvent::TableFailed => true,
        PassEvent::WatermarkSaveFailed => true,
        _ => false,
    }
}

/// How many of the events report a failure.
pub open spec fn count_failures(events: Seq<PassEvent>) -> int
    decreases events.len(),
{
    if events.len() == 0 {
        0
    } else {
        count_failures(events.drop_last()) + if is_failure_event(events.last()) {
            1int
        } else {
            0int
        }
    }
}

/// The watermark stage is reached only after full success: whenever a run of
/// events brings a pass to `AdvancingWatermark` or `Done`, exactly all
/// tables were synchronized and nothing failed — a failed table stage can
/// never be followed by a watermark write.
pub proof fn watermark_only_after_full_success(events: Seq<PassEvent>)
    ensures
        run_phases(events) == PassPhase::AdvancingWatermark || run_phases(events)
            == PassPhase::Done ==> count_event(events, PassEvent::TableSynced)
            == SYNCED_TABLE_COUNT && count_failures(events) == 0,
        forall|i: usize| #![auto]
            run_phases(events) == PassPhase::SyncingTable(i) ==> count_event(
                events,
                PassEvent::TableSynced,
            ) == i && i < SYNCED_TABLE_COUNT && count_failures(events) == 0,
        run_phases(events) == PassPhase::Idle || run_phases(events) == PassPhase::Connecting
            || run_phases(events) == PassPhase::MigratingRemote ==> count_event(
            events,
            PassEvent::TableSynced,
        ) == 0 && count_failures(events) == 0,
    decreases events.len(),
{
    if events.len() > 0 {
        watermark_only_after_full_success(events.drop_last());
    }
}

} // verus!
