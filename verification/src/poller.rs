//! The decisions of the polling loop. The loop itself, with its waiting and
//! its file access, belongs to the caller: it fetches, hands the outcome to
//! `Poller::step`, and carries out the action that comes back.

use crate::api::FetchError;
use crate::config::Config;
use crate::data::snapshot;
use crate::data::snapshot_of;
use crate::data::CarbonIntensity;
use crate::data::SnapshotEntry;
use crate::data::SnapshotEntryView;
use vstd::prelude::*;

verus! {

/// Where the loop stands between two cycles.
#[derive(Clone, Copy, Debug, PartialEq, Eq, Structural)]
pub enum PollerState {
    /// The next cycle is due.
    Running,
    /// A fetch failed, and the loop is over.
    Terminated(FetchError),
}

/// What the caller is to do at the end of a cycle.
#[derive(Clone, Debug, PartialEq, Eq)]
pub enum CycleAction {
    /// Replace the snapshot file by one that holds `entries`: remove the
    /// old file first where `remove_existing` says so, then create the file
    /// and write it. After that sleep for `sleep_seconds` and start the next
    /// cycle.
    Persist { remove_existing: bool, entries: Vec<SnapshotEntry>, sleep_seconds: u64 },
    /// End the process with this exit code, leaving the files as they are.
    Exit { code: i32 },
}

/// A `CycleAction` as a mathematical value.
pub enum CycleActionView {
    Persist { remove_existing: bool, entries: Seq<SnapshotEntryView>, sleep_seconds: u64 },
    Exit { code: i32 },
}

impl View for CycleAction {
    type V = CycleActionView;

    open spec fn view(&self) -> CycleActionView {
        match self {
            CycleAction::Persist { remove_existing, entries, sleep_seconds } => {
                CycleActionView::Persist {
                    remove_existing: *remove_existing,
                    entries: entries.deep_view(),
                    sleep_seconds: *sleep_seconds,
                }
            },
            CycleAction::Exit { code } => CycleActionView::Exit { code: *code },
        }
    }
}

/// The name of the snapshot file inside the data directory.
pub open spec fn snapshot_name() -> Seq<char> {
    "data.json"@
}

/// The exit code of a process that ends in `state`: zero while nothing has
/// failed, one after a failed fetch.
pub open spec fn exit_code_of(state: PollerState) -> i32 {
    match state {
        PollerState::Running => 0i32,
        PollerState::Terminated(_) => 1i32,
    }
}

/// The outcome of a fetch as a mathematical value.
pub open spec fn outcome_of(fetched: Result<Vec<CarbonIntensity>, FetchError>) -> Result<
    Seq<CarbonIntensity>,
    FetchError,
> {
    match fetched {
        Ok(records) => Ok(records@),
        Err(error) => Err(error),
    }
}

/// The state after a cycle that began in `state` and whose fetch ended in
/// `outcome`. Only a failed fetch ends a running loop, and nothing starts an
/// ended one again.
pub open spec fn next_state(state: PollerState, outcome: Result<Seq<CarbonIntensity>, FetchError>) -> PollerState {
    match (state, outcome) {
        (PollerState::Running, Ok(_)) => PollerState::Running,
        (PollerState::Running, Err(error)) => PollerState::Terminated(error),
        (PollerState::Terminated(error), _) => PollerState::Terminated(error),
    }
}

/// The action at the end of that cycle, where `refresh_time` is the
/// configured refresh time and `snapshot_present` says whether the snapshot
/// file was there when the fetch came back. The sleep lasts as many seconds
/// as the refresh time counts: the number is handed on as it is.
pub open spec fn next_action(
    state: PollerState,
    refresh_time: u64,
    outcome: Result<Seq<CarbonIntensity>, FetchError>,
    snapshot_present: bool,
) -> CycleActionView {
    match (state, outcome) {
        (PollerState::Running, Ok(records)) => CycleActionView::Persist {
            remove_existing: snapshot_present,
            entries: snapshot_of(records),
            sleep_seconds: refresh_time,
        },
        _ => CycleActionView::Exit { code: exit_code_of(next_state(state, outcome)) },
    }
}

/// A directory as a mathematical value, from the name of each file to the
/// snapshot that it holds, after `action` has been carried out on it.
pub open spec fn carried_out(
    directory: Map<Seq<char>, Seq<SnapshotEntryView>>,
    action: CycleActionView,
) -> Map<Seq<char>, Seq<SnapshotEntryView>> {
    match action {
        CycleActionView::Persist { remove_existing, entries, .. } => {
            let cleared = if remove_existing {
                directory.remove(snapshot_name())
            } else {
                directory
            };
            cleared.insert(snapshot_name(), entries)
        },
        CycleActionView::Exit { .. } => directory,
    }
}

/// The directory after one cycle of a running loop whose fetch gave
/// `records`, the caller having looked for the snapshot file in `directory`.
pub open spec fn after_cycle(
    directory: Map<Seq<char>, Seq<SnapshotEntryView>>,
    refresh_time: u64,
    records: Seq<CarbonIntensity>,
) -> Map<Seq<char>, Seq<SnapshotEntryView>> {
    carried_out(
        directory,
        next_action(
            PollerState::Running,
            refresh_time,
            Ok(records),
            directory.dom().contains(snapshot_name()),
        ),
    )
}

/// The polling loop between two cycles.
#[derive(Debug)]
pub struct Poller {
    state: PollerState,
    refresh_time: u64,
}

impl Poller {
    /// Where the loop stands.
    pub closed spec fn spec_state(&self) -> PollerState {
        self.state
    }

    /// The configured refresh time.
    pub closed spec fn spec_refresh_time(&self) -> u64 {
        self.refresh_time
    }

    /// A loop that is about to run its first cycle under `config`.
    pub fn new(config: &Config) -> (poller: Poller)
        ensures
            poller.state() == PollerState::Running,
            poller.refresh_time() == config@.refresh_time,
    {
        Poller { state: PollerState::Running, refresh_time: config.refresh_time() }
    }

    /// Where the loop stands.
    #[verifier::when_used_as_spec(spec_state)]
    pub fn state(&self) -> (state: PollerState)
        ensures
            state == self.state(),
    {
        self.state
    }

    /// The configured refresh time.
    #[verifier::when_used_as_spec(spec_refresh_time)]
    pub fn refresh_time(&self) -> (time: u64)
        ensures
            time == self.refresh_time(),
    {
        self.refresh_time
    }

    /// The exit code of a process that ends now.
    pub fn exit_code(&self) -> (code: i32)
        ensures
            code == exit_code_of(self.state()),
    {
        match self.state {
            PollerState::Running => 0,
            PollerState::Terminated(_) => 1,
        }
    }

    /// Ends one cycle: takes the outcome of its fetch, and whether the
    /// snapshot file is there, and says what to do. After a fetch that gave
    /// records the loop stays running and the snapshot is replaced; after a
    /// failed fetch the loop is over, nothing is written, and the process is
    /// to end with exit code one.
    pub fn step(
        &mut self,
        fetched: Result<Vec<CarbonIntensity>, FetchError>,
        snapshot_present: bool,
    ) -> (action: CycleAction)
        ensures
            final(self).state() == next_state(old(self).state(), outcome_of(fetched)),
            final(self).refresh_time() == old(self).refresh_time(),
            action@ == next_action(
                old(self).state(),
                old(self).refresh_time(),
                outcome_of(fetched),
                snapshot_present,
            ),
    {
        match self.state {
            PollerState::Running => match fetched {
                Ok(records) => CycleAction::Persist {
                    remove_existing: snapshot_present,
                    entries: snapshot(&records),
                    sleep_seconds: self.refresh_time,
                },
                Err(error) => {
                    self.state = PollerState::Terminated(error);
                    CycleAction::Exit { code: 1 }
                },
            },
            PollerState::Terminated(_) => CycleAction::Exit { code: 1 },
        }
    }
}

/// The name of the snapshot file inside the data directory.
pub fn snapshot_file() -> (name: &'static str)
    ensures
        name@ == snapshot_name(),
{
    "data.json"
}

/// A cycle whose fetch gave records leaves the snapshot file holding the
/// snapshot of those records and every other file as it was, whether or not
/// a snapshot file was there before.
pub proof fn cycle_replaces_snapshot(
    directory: Map<Seq<char>, Seq<SnapshotEntryView>>,
    refresh_time: u64,
    records: Seq<CarbonIntensity>,
)
    ensures
        after_cycle(directory, refresh_time, records) == directory.insert(
            snapshot_name(),
            snapshot_of(records),
        ),
        after_cycle(directory, refresh_time, records).dom() == directory.dom().insert(
            snapshot_name(),
        ),
        after_cycle(directory, refresh_time, records)[snapshot_name()] == snapshot_of(records),
{
    assert(directory.remove(snapshot_name()).insert(snapshot_name(), snapshot_of(records))
        =~= directory.insert(snapshot_name(), snapshot_of(records)));
}

/// Two cycles in a row whose fetches gave the same records leave the
/// directory as the first of them left it: one snapshot file that holds the
/// snapshot of those records, and no file that was not there before.
pub proof fn persistence_is_idempotent(
    directory: Map<Seq<char>, Seq<SnapshotEntryView>>,
    refresh_time: u64,
    records: Seq<CarbonIntensity>,
)
    ensures
        next_state(PollerState::Running, Ok(records)) == PollerState::Running,
        after_cycle(after_cycle(directory, refresh_time, records), refresh_time, records)
            == after_cycle(directory, refresh_time, records),
        after_cycle(after_cycle(directory, refresh_time, records), refresh_time, records).dom()
            == directory.dom().insert(snapshot_name()),
        after_cycle(after_cycle(directory, refresh_time, records), refresh_time, records)[snapshot_name()]
            == snapshot_of(records),
{
    let once = after_cycle(directory, refresh_time, records);
    cycle_replaces_snapshot(directory, refresh_time, records);
    cycle_replaces_snapshot(once, refresh_time, records);
    assert(once.insert(snapshot_name(), snapshot_of(records)) =~= once);
}

/// The loop runs on exactly as long as it was running and the fetch gave
/// records, and it is then, and only then, that the snapshot is replaced.
/// Every other cycle ends the process with exit code one.
pub proof fn loop_runs_while_fetches_succeed(
    state: PollerState,
    refresh_time: u64,
    outcome: Result<Seq<CarbonIntensity>, FetchError>,
    snapshot_present: bool,
)
    ensures
        next_state(state, outcome) is Running <==> state is Running && outcome is Ok,
        next_action(state, refresh_time, outcome, snapshot_present) is Persist <==> state
            is Running && outcome is Ok,
        !(state is Running && outcome is Ok) ==> next_action(
            state,
            refresh_time,
            outcome,
            snapshot_present,
        ) == (CycleActionView::Exit { code: 1 }),
{
}

/// A failed fetch ends the loop and leaves every file as it was.
pub proof fn failure_ends_the_loop(
    directory: Map<Seq<char>, Seq<SnapshotEntryView>>,
    refresh_time: u64,
    error: FetchError,
    snapshot_present: bool,
)
    ensures
        next_state(PollerState::Running, Err(error)) == PollerState::Terminated(error),
        next_action(PollerState::Running, refresh_time, Err(error), snapshot_present)
            == (CycleActionView::Exit { code: 1 }),
        carried_out(
            directory,
            next_action(PollerState::Running, refresh_time, Err(error), snapshot_present),
        ) == directory,
{
}

} // verus!
