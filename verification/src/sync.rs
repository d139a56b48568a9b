//! The decisions of syncing an account: which options apply, whether a full
//! sync is due, and the order of the network work.
use vstd::prelude::*;

use crate::error::WalletError;

verus! {

/// Milliseconds within which a second sync only recomputes the balance.
pub const MIN_SYNC_INTERVAL: u128 = 5;

/// The options of a sync that its decisions read.
#[derive(Debug, Clone, Copy, PartialEq, Eq)]
pub struct SyncOptions {
    /// Sync even if the last sync was within `MIN_SYNC_INTERVAL`.
    pub force_syncing: bool,
    /// Fetch the transactions that created newly found unspent outputs.
    pub sync_incoming_transactions: bool,
    /// Check the state of pending transactions after the outputs.
    pub sync_pending_transactions: bool,
    /// Fetch the foundry outputs of the native tokens held.
    pub sync_native_token_foundries: bool,
}

/// The sync state of an account: the fallback options, and when (in Unix
/// milliseconds) it was last fully synced.
#[derive(Debug, Clone, Copy, PartialEq, Eq)]
pub struct AccountSyncState {
    pub default_sync_options: SyncOptions,
    pub last_synced: u128,
}

impl AccountSyncState {
    pub fn new(default_sync_options: SyncOptions) -> (r: AccountSyncState)
        ensures
            r.default_sync_options == default_sync_options,
            r.last_synced == 0,
    {
        AccountSyncState { default_sync_options, last_synced: 0 }
    }

    /// Sets the fallback options of later syncs, once persisting them has
    /// succeeded (`saved`; without storage there is nothing to persist and it
    /// is `Ok`). A failed save is handed on and leaves the fallback as it was.
    pub fn set_default_sync_options(&mut self, options: SyncOptions, saved: Result<(), WalletError>) -> (r: Result<
        (),
        WalletError,
    >)
        ensures
            r == saved,
            final(self).default_sync_options == (if saved is Ok {
                options
            } else {
                old(self).default_sync_options
            }),
            final(self).last_synced == old(self).last_synced,
    {
        if saved.is_ok() {
            self.default_sync_options = options;
        }
        saved
    }

    /// The options used when a sync is given none.
    pub fn default_sync_options(&self) -> (r: SyncOptions)
        ensures
            r == self.default_sync_options,
    {
        self.default_sync_options
    }

    /// The options of a sync: the given ones, else the fallback.
    pub open spec fn options_for(&self, options: Option<SyncOptions>) -> SyncOptions {
        match options {
            Some(o) => o,
            None => self.default_sync_options,
        }
    }

    /// The options of a sync: the given ones, else the fallback.
    pub fn sync_options(&self, options: Option<SyncOptions>) -> (r: SyncOptions)
        ensures
            r == self.options_for(options),
    {
        match options {
            Some(o) => o,
            None => self.default_sync_options(),
        }
    }

    /// Records the end of a full sync.
    pub fn record_sync(&mut self, time_now: u128)
        ensures
            final(self).last_synced == time_now,
            final(self).default_sync_options == old(self).default_sync_options,
    {
        self.last_synced = time_now;
    }
}

/// Where a sync stands.
#[derive(Debug, Clone, Copy, PartialEq, Eq)]
pub enum SyncState {
    /// Not started.
    Idle,
    /// Fetching the outputs of the account's addresses; the second round
    /// comes after a pending transaction was confirmed whose output was
    /// not known yet.
    SyncingOutputs { second_round: bool },
    /// Checking the pending transactions.
    SyncingPending,
    /// Computing the balance; after a full sync its time is recorded.
    ComputingBalance { full: bool },
    /// Done.
    Finished,
}

/// What happened outside.
#[derive(Debug, Clone, Copy, PartialEq, Eq)]
pub enum SyncEvent {
    /// A sync was asked for at `time_now`; the account was last synced at `last_synced`.
    Begin { time_now: u128, last_synced: u128 },
    /// The outputs were fetched and stored.
    OutputsSynced,
    /// The pending transactions were checked.
    PendingSynced { confirmed_with_unknown_output: bool },
    /// The balance was computed at `time_now`.
    BalanceComputed { time_now: u128 },
}

/// What to do next.
#[derive(Debug, Clone, Copy, PartialEq, Eq)]
pub enum SyncAction {
    SyncOutputs,
    SyncPendingTransactions,
    ComputeBalance,
    /// Return the balance, recording the given time as the last sync first.
    Finish { record_time: Option<u128> },
    /// The event does not belong to this state; nothing happens.
    Ignore,
}

/// A sync is due: it is forced, or the last one is at least
/// `MIN_SYNC_INTERVAL` milliseconds ago.
pub open spec fn sync_due(force_syncing: bool, time_now: u128, last_synced: u128) -> bool {
    force_syncing || time_now - last_synced >= MIN_SYNC_INTERVAL
}

/// One step of a sync.
pub open spec fn sync_next(options: SyncOptions, state: SyncState, event: SyncEvent) -> (SyncState, SyncAction) {
    match (state, event) {
        (SyncState::Idle, SyncEvent::Begin { time_now, last_synced }) => if sync_due(
            options.force_syncing,
            time_now,
            last_synced,
        ) {
            (SyncState::SyncingOutputs { second_round: false }, SyncAction::SyncOutputs)
        } else {
            (SyncState::ComputingBalance { full: false }, SyncAction::ComputeBalance)
        },
        (SyncState::SyncingOutputs { second_round }, SyncEvent::OutputsSynced) => if !second_round
            && options.sync_pending_transactions {
            (SyncState::SyncingPending, SyncAction::SyncPendingTransactions)
        } else {
            (SyncState::ComputingBalance { full: true }, SyncAction::ComputeBalance)
        },
        (SyncState::SyncingPending, SyncEvent::PendingSynced { confirmed_with_unknown_output }) => if confirmed_with_unknown_output {
            (SyncState::SyncingOutputs { second_round: true }, SyncAction::SyncOutputs)
        } else {
            (SyncState::ComputingBalance { full: true }, SyncAction::ComputeBalance)
        },
        (SyncState::ComputingBalance { full }, SyncEvent::BalanceComputed { time_now }) => (
            SyncState::Finished,
            SyncAction::Finish { record_time: if full { Some(time_now) } else { None } },
        ),
        _ => (state, SyncAction::Ignore),
    }
}

/// The clock did not go back since the last sync, where that is read.
pub open spec fn sync_event_readable(options: SyncOptions, state: SyncState, event: SyncEvent) -> bool {
    match (state, event) {
        (SyncState::Idle, SyncEvent::Begin { time_now, last_synced }) => options.force_syncing || last_synced
            <= time_now,
        _ => true,
    }
}

/// Decides the next step of a sync.
pub fn sync_step(options: &SyncOptions, state: SyncState, event: SyncEvent) -> (r: (SyncState, SyncAction))
    requires
        sync_event_readable(*options, state, event),
    ensures
        r == sync_next(*options, state, event),
{
    match (state, event) {
        (SyncState::Idle, SyncEvent::Begin { time_now, last_synced }) => {
            if !options.force_syncing && time_now - last_synced < MIN_SYNC_INTERVAL {
                (SyncState::ComputingBalance { full: false }, SyncAction::ComputeBalance)
            } else {
                (SyncState::SyncingOutputs { second_round: false }, SyncAction::SyncOutputs)
            }
        },
        (SyncState::SyncingOutputs { second_round }, SyncEvent::OutputsSynced) => {
            if !second_round && options.sync_pending_transactions {
                (SyncState::SyncingPending, SyncAction::SyncPendingTransactions)
            } else {
                (SyncState::ComputingBalance { full: true }, SyncAction::ComputeBalance)
            }
        },
        (SyncState::SyncingPending, SyncEvent::PendingSynced { confirmed_with_unknown_output }) => {
            if confirmed_with_unknown_output {
                (SyncState::SyncingOutputs { second_round: true }, SyncAction::SyncOutputs)
            } else {
                (SyncState::ComputingBalance { full: true }, SyncAction::ComputeBalance)
            }
        },
        (SyncState::ComputingBalance { full }, SyncEvent::BalanceComputed { time_now }) => {
            let record_time = if full {
                Some(time_now)
            } else {
                None
            };
            (SyncState::Finished, SyncAction::Finish { record_time })
        },
        _ => (state, SyncAction::Ignore),
    }
}

/// The state and the actions after a run of events.
pub open spec fn sync_run(options: SyncOptions, state: SyncState, events: Seq<SyncEvent>) -> (SyncState, Seq<SyncAction>)
    decreases events.len(),
{
    if events.len() == 0 {
        (state, Seq::empty())
    } else {
        let (next, action) = sync_next(options, state, events[0]);
        let (last, actions) = sync_run(options, next, events.drop_first());
        (last, seq![action] + actions)
    }
}

/// How often the outputs are fetched in a run of actions.
pub open spec fn output_syncs(actions: Seq<SyncAction>) -> nat
    decreases actions.len(),
{
    if actions.len() == 0 {
        0
    } else {
        (if actions[0] == SyncAction::SyncOutputs { 1nat } else { 0nat }) + output_syncs(actions.drop_first())
    }
}

/// How many more output rounds a state allows.
pub open spec fn output_rounds_left(state: SyncState) -> nat {
    match state {
        SyncState::Idle => 2,
        SyncState::SyncingOutputs { second_round } => if second_round { 0 } else { 1 },
        SyncState::SyncingPending => 1,
        _ => 0,
    }
}

proof fn lemma_output_rounds_bounded(options: SyncOptions, state: SyncState, events: Seq<SyncEvent>)
    ensures
        output_syncs(sync_run(options, state, events).1) <= output_rounds_left(state),
    decreases events.len(),
{
    if events.len() > 0 {
        let (next, action) = sync_next(options, state, events[0]);
        lemma_output_rounds_bounded(options, next, events.drop_first());
        let actions = sync_run(options, state, events).1;
        assert(actions.drop_first() =~= sync_run(options, next, events.drop_first()).1);
    }
}

/// A sync fetches the outputs at most twice, whatever happens outside.
pub proof fn lemma_sync_fetches_outputs_at_most_twice(options: SyncOptions, events: Seq<SyncEvent>)
    ensures
        output_syncs(sync_run(options, SyncState::Idle, events).1) <= 2,
{
    lemma_output_rounds_bounded(options, SyncState::Idle, events);
}

/// A run gives one action for each event.
pub proof fn lemma_sync_run_len(options: SyncOptions, state: SyncState, events: Seq<SyncEvent>)
    ensures
        sync_run(options, state, events).1.len() == events.len(),
    decreases events.len(),
{
    if events.len() > 0 {
        let (next, action) = sync_next(options, state, events[0]);
        lemma_sync_run_len(options, next, events.drop_first());
    }
}

/// The states reached after a sync that was not due.
pub open spec fn balance_only(state: SyncState) -> bool {
    state == SyncState::ComputingBalance { full: false } || state == SyncState::Finished
}

proof fn lemma_balance_only_stays(options: SyncOptions, state: SyncState, events: Seq<SyncEvent>, i: int)
    requires
        balance_only(state),
        0 <= i < events.len(),
    ensures
        ({
            let a = sync_run(options, state, events).1[i];
            a != SyncAction::SyncOutputs && a != SyncAction::SyncPendingTransactions && !(a matches SyncAction::Finish {
                record_time: Some(_),
            })
        }),
    decreases events.len(),
{
    let (next, action) = sync_next(options, state, events[0]);
    let rest = sync_run(options, next, events.drop_first()).1;
    lemma_sync_run_len(options, next, events.drop_first());
    assert(sync_run(options, state, events).1 == seq![action] + rest);
    if i > 0 {
        lemma_balance_only_stays(options, next, events.drop_first(), i - 1);
        assert(sync_run(options, state, events).1[i] == rest[i - 1]);
    }
}

/// A sync that is not due fetches nothing and does not record a sync time:
/// it only computes the balance.
pub proof fn lemma_sync_not_due_only_computes_balance(
    options: SyncOptions,
    time_now: u128,
    last_synced: u128,
    events: Seq<SyncEvent>,
    i: int,
)
    requires
        !sync_due(options.force_syncing, time_now, last_synced),
        0 <= i < events.len(),
    ensures
        ({
            let a = sync_run(
                options,
                SyncState::Idle,
                seq![SyncEvent::Begin { time_now, last_synced }] + events,
            ).1[i + 1];
            a != SyncAction::SyncOutputs && a != SyncAction::SyncPendingTransactions && !(a matches SyncAction::Finish {
                record_time: Some(_),
            })
        }),
{
    let all = seq![SyncEvent::Begin { time_now, last_synced }] + events;
    assert(all.drop_first() =~= events);
    assert(all[0] == SyncEvent::Begin { time_now, last_synced });
    let rest = sync_run(options, SyncState::ComputingBalance { full: false }, events).1;
    lemma_sync_run_len(options, SyncState::ComputingBalance { full: false }, events);
    assert(sync_run(options, SyncState::Idle, all).1 == seq![SyncAction::ComputeBalance] + rest);
    assert(sync_run(options, SyncState::Idle, all).1[i + 1] == rest[i]);
    lemma_balance_only_stays(options, SyncState::ComputingBalance { full: false }, events, i);
}

/// Pending transactions are checked only where the options ask for it.
pub proof fn lemma_pending_sync_only_when_asked(options: SyncOptions, state: SyncState, event: SyncEvent)
    requires
        sync_next(options, state, event).1 == SyncAction::SyncPendingTransactions,
    ensures
        options.sync_pending_transactions,
{
}

/// A sync given no options uses the fallback options that were set last;
/// recording a sync does not change them.
pub proof fn lemma_sync_uses_default_set_last(state: AccountSyncState, options: SyncOptions, time_now: u128)
    ensures
        (AccountSyncState { default_sync_options: options, ..state }).options_for(None) == options,
        (AccountSyncState { last_synced: time_now, default_sync_options: options }).options_for(None) == options,
{
}


/// How a sync proceeds, step by step. It fetches outputs first exactly when
/// it is forced or the last sync lies at least `MIN_SYNC_INTERVAL` back, and
/// otherwise only computes the balance. After the first fetch it checks the
/// pending transactions exactly when the options ask for it; a transaction
/// confirmed with an unknown output makes it fetch once more. The sync time
/// is recorded exactly when the outputs were fetched.
pub proof fn lemma_sync_steps(options: SyncOptions, time_now: u128, last_synced: u128, second_round: bool, confirmed: bool, full: bool)
    ensures
        (sync_next(options, SyncState::Idle, SyncEvent::Begin { time_now, last_synced }).1 == SyncAction::SyncOutputs)
            == (options.force_syncing || time_now - last_synced >= MIN_SYNC_INTERVAL),
        sync_next(options, SyncState::Idle, SyncEvent::Begin { time_now, last_synced }).1 == SyncAction::SyncOutputs
            || sync_next(options, SyncState::Idle, SyncEvent::Begin { time_now, last_synced }) == (
            SyncState::ComputingBalance { full: false },
            SyncAction::ComputeBalance,
        ),
        options.force_syncing ==> sync_next(options, SyncState::Idle, SyncEvent::Begin { time_now, last_synced })
            == (SyncState::SyncingOutputs { second_round: false }, SyncAction::SyncOutputs),
        (sync_next(options, SyncState::SyncingOutputs { second_round }, SyncEvent::OutputsSynced).1
            == SyncAction::SyncPendingTransactions) == (!second_round && options.sync_pending_transactions),
        sync_next(options, SyncState::SyncingOutputs { second_round }, SyncEvent::OutputsSynced).1
            == SyncAction::SyncPendingTransactions || sync_next(
            options,
            SyncState::SyncingOutputs { second_round },
            SyncEvent::OutputsSynced,
        ) == (SyncState::ComputingBalance { full: true }, SyncAction::ComputeBalance),
        (sync_next(
            options,
            SyncState::SyncingPending,
            SyncEvent::PendingSynced { confirmed_with_unknown_output: confirmed },
        ).1 == SyncAction::SyncOutputs) == confirmed,
        confirmed ==> sync_next(
            options,
            SyncState::SyncingPending,
            SyncEvent::PendingSynced { confirmed_with_unknown_output: confirmed },
        ).0 == (SyncState::SyncingOutputs { second_round: true }),
        !confirmed ==> sync_next(
            options,
            SyncState::SyncingPending,
            SyncEvent::PendingSynced { confirmed_with_unknown_output: confirmed },
        ) == (SyncState::ComputingBalance { full: true }, SyncAction::ComputeBalance),
        sync_next(options, SyncState::ComputingBalance { full }, SyncEvent::BalanceComputed { time_now }) == (
            SyncState::Finished,
            SyncAction::Finish { record_time: if full { Some(time_now) } else { None } },
        ),
{
}

} // verus!
