//! Decisions of the Yellowstone gRPC datasource: per-window stream
//! statistics, what each streamed message leads to, how account and
//! transaction updates are turned into pipeline updates, and how the client
//! is configured.

use vstd::prelude::*;

use std::time::Instant;

use vstd::string::StringExecFns;

use crate::keys::{Pubkey, Signature, zeros};

verus! {

/// A reading of the standard library's monotonic clock
/// (`std::time::Instant`), carried as an opaque value.
#[verifier::external_type_specification]
#[verifier::external_body]
pub struct ExInstant(Instant);

/// Reads the monotonic clock (`std::time::Instant::now`). Nothing is
/// promised of the value it returns.
#[verifier::external_body]
fn instant_now() -> (t: Instant) {
    Instant::now()
}

/// Seconds between two statistics log lines.
pub const LOG_INTERVAL_SECS: u64 = 10;

/// Seconds without a message after which the stream is reported as stalled.
pub const STALL_WARN_SECS: u64 = 5;

/// What became of one update handed to the pipeline.
#[derive(Clone, Copy, Debug, PartialEq, Eq, Structural)]
pub enum SendStatus {
    Sent,
    DroppedFull,
    DroppedClosed,
    Skipped,
}

/// The outcome of dispatching one transaction: its send status and, once
/// decoding was attempted, how long decoding took.
#[derive(Clone, Copy, Debug, PartialEq, Eq)]
pub struct TxDispatchOutcome {
    pub status: SendStatus,
    pub decode_ns: Option<u128>,
}

/// One message of the subscription stream, reduced to what the statistics
/// and the dispatch decision read.
#[derive(Clone, Copy, Debug, PartialEq, Eq)]
pub enum StreamMessage {
    Account { slot: u64 },
    Transaction { slot: u64 },
    Block { slot: u64 },
    Ping,
    Other,
    Error,
}

/// What the stream loop does with a message.
#[derive(Clone, Copy, Debug, PartialEq, Eq)]
pub enum MessageAction {
    /// Dispatch the account update of the given slot.
    ForwardAccount { slot: u64 },
    /// Dispatch the transaction update of the given slot.
    ForwardTransaction { slot: u64 },
    /// Dispatch the transactions and accounts of the block of the given slot.
    ForwardBlock { slot: u64 },
    /// Answer the server's ping with a ping request of the given id.
    ReplyPing { id: i32 },
    /// Nothing to dispatch.
    Ignore,
    /// The stream failed: stop reading it.
    EndStream,
}

/// Statistics of the stream over the current logging window.
pub struct StreamLogState {
    pub last_log: Instant,
    pub last_msg: Instant,
    pub msg_count: u64,
    pub account_msgs: u64,
    pub transaction_msgs: u64,
    pub block_msgs: u64,
    pub ping_msgs: u64,
    pub updates_sent: u64,
    pub updates_dropped_full: u64,
    pub updates_dropped_closed: u64,
    pub updates_skipped: u64,
    pub tx_decode_count: u64,
    pub tx_decode_total_ns: u128,
    pub tx_decode_max_ns: u128,
    pub last_slot: Option<u64>,
}

/// The statistics of a finished window, as they stood when it closed.
#[derive(Clone, Copy, Debug)]
pub struct WindowReport {
    pub msg_count: u64,
    pub account_msgs: u64,
    pub transaction_msgs: u64,
    pub block_msgs: u64,
    pub ping_msgs: u64,
    pub updates_sent: u64,
    pub updates_dropped_full: u64,
    pub updates_dropped_closed: u64,
    pub updates_skipped: u64,
    pub tx_decode_count: u64,
    pub tx_decode_total_ns: u128,
    pub tx_decode_max_ns: u128,
    pub last_slot: u64,
    pub last_msg: Instant,
}

impl StreamLogState {
    /// A window that starts at `t`: both clocks at `t`, every count zero,
    /// and the last slot as given.
    pub open spec fn fresh(t: Instant, last_slot: Option<u64>) -> StreamLogState {
        StreamLogState {
            last_log: t,
            last_msg: t,
            msg_count: 0,
            account_msgs: 0,
            transaction_msgs: 0,
            block_msgs: 0,
            ping_msgs: 0,
            updates_sent: 0,
            updates_dropped_full: 0,
            updates_dropped_closed: 0,
            updates_skipped: 0,
            tx_decode_count: 0,
            tx_decode_total_ns: 0,
            tx_decode_max_ns: 0,
            last_slot,
        }
    }

    /// The state after one more update with the given send status.
    pub open spec fn with_send_recorded(self, status: SendStatus) -> StreamLogState {
        match status {
            SendStatus::Sent => StreamLogState { updates_sent: (self.updates_sent + 1) as u64, ..self },
            SendStatus::DroppedFull => StreamLogState {
                updates_dropped_full: (self.updates_dropped_full + 1) as u64,
                ..self
            },
            SendStatus::DroppedClosed => StreamLogState {
                updates_dropped_closed: (self.updates_dropped_closed + 1) as u64,
                ..self
            },
            SendStatus::Skipped => StreamLogState {
                updates_skipped: (self.updates_skipped + 1) as u64,
                ..self
            },
        }
    }

    /// The count that an update with the given send status adds to.
    pub open spec fn send_count(self, status: SendStatus) -> u64 {
        match status {
            SendStatus::Sent => self.updates_sent,
            SendStatus::DroppedFull => self.updates_dropped_full,
            SendStatus::DroppedClosed => self.updates_dropped_closed,
            SendStatus::Skipped => self.updates_skipped,
        }
    }

    /// The state after one more decoded transaction that took `ns`
    /// nanoseconds.
    pub open spec fn with_decode_recorded(self, ns: u128) -> StreamLogState {
        StreamLogState {
            tx_decode_count: (self.tx_decode_count + 1) as u64,
            tx_decode_total_ns: (self.tx_decode_total_ns + ns) as u128,
            tx_decode_max_ns: if ns > self.tx_decode_max_ns {
                ns
            } else {
                self.tx_decode_max_ns
            },
            ..self
        }
    }

    /// The state after a message of the given kind arrived at `now`.
    pub open spec fn after_message(self, now: Instant, msg: StreamMessage) -> StreamLogState {
        let s = StreamLogState { last_msg: now, msg_count: (self.msg_count + 1) as u64, ..self };
        match msg {
            StreamMessage::Account { slot } => StreamLogState {
                account_msgs: (s.account_msgs + 1) as u64,
                last_slot: Some(slot),
                ..s
            },
            StreamMessage::Transaction { slot } => StreamLogState {
                transaction_msgs: (s.transaction_msgs + 1) as u64,
                last_slot: Some(slot),
                ..s
            },
            StreamMessage::Block { slot } => StreamLogState {
                block_msgs: (s.block_msgs + 1) as u64,
                last_slot: Some(slot),
                ..s
            },
            StreamMessage::Ping => StreamLogState { ping_msgs: (s.ping_msgs + 1) as u64, ..s },
            StreamMessage::Other => s,
            StreamMessage::Error => s,
        }
    }

    /// The count that a message of the given kind adds to, besides the
    /// message count.
    pub open spec fn kind_count(self, msg: StreamMessage) -> u64 {
        match msg {
            StreamMessage::Account { .. } => self.account_msgs,
            StreamMessage::Transaction { .. } => self.transaction_msgs,
            StreamMessage::Block { .. } => self.block_msgs,
            StreamMessage::Ping => self.ping_msgs,
            _ => 0,
        }
    }

    /// What the stream loop does with a message of the given kind.
    pub open spec fn action_for(msg: StreamMessage) -> MessageAction {
        match msg {
            StreamMessage::Account { slot } => MessageAction::ForwardAccount { slot },
            StreamMessage::Transaction { slot } => MessageAction::ForwardTransaction { slot },
            StreamMessage::Block { slot } => MessageAction::ForwardBlock { slot },
            StreamMessage::Ping => MessageAction::ReplyPing { id: 1 },
            StreamMessage::Other => MessageAction::Ignore,
            StreamMessage::Error => MessageAction::EndStream,
        }
    }

    /// The report of the window as it stands.
    pub open spec fn report(self) -> WindowReport {
        WindowReport {
            msg_count: self.msg_count,
            account_msgs: self.account_msgs,
            transaction_msgs: self.transaction_msgs,
            block_msgs: self.block_msgs,
            ping_msgs: self.ping_msgs,
            updates_sent: self.updates_sent,
            updates_dropped_full: self.updates_dropped_full,
            updates_dropped_closed: self.updates_dropped_closed,
            updates_skipped: self.updates_skipped,
            tx_decode_count: self.tx_decode_count,
            tx_decode_total_ns: self.tx_decode_total_ns,
            tx_decode_max_ns: self.tx_decode_max_ns,
            last_slot: match self.last_slot {
                Some(s) => s,
                None => 0,
            },
            last_msg: self.last_msg,
        }
    }

    /// A first window, starting now, with no slot seen yet.
    pub fn new() -> (s: StreamLogState)
        ensures
            s == Self::fresh(s.last_log, None),
    {
        let now = instant_now();
        StreamLogState {
            last_log: now,
            last_msg: now,
            msg_count: 0,
            account_msgs: 0,
            transaction_msgs: 0,
            block_msgs: 0,
            ping_msgs: 0,
            updates_sent: 0,
            updates_dropped_full: 0,
            updates_dropped_closed: 0,
            updates_skipped: 0,
            tx_decode_count: 0,
            tx_decode_total_ns: 0,
            tx_decode_max_ns: 0,
            last_slot: None,
        }
    }

    /// Starts a new window now: every count back to zero; the last slot seen
    /// is kept.
    pub fn reset_window(&mut self)
        ensures
            *final(self) == Self::fresh(final(self).last_log, old(self).last_slot),
    {
        let now = instant_now();
        self.last_log = now;
        self.last_msg = now;
        self.msg_count = 0;
        self.account_msgs = 0;
        self.transaction_msgs = 0;
        self.block_msgs = 0;
        self.ping_msgs = 0;
        self.updates_sent = 0;
        self.updates_dropped_full = 0;
        self.updates_dropped_closed = 0;
        self.updates_skipped = 0;
        self.tx_decode_count = 0;
        self.tx_decode_total_ns = 0;
        self.tx_decode_max_ns = 0;
    }

    /// Counts one update with the given send status.
    pub fn record_send_status(&mut self, status: SendStatus)
        requires
            old(self).send_count(status) < u64::MAX,
        ensures
            *final(self) == old(self).with_send_recorded(status),
    {
        match status {
            SendStatus::Sent => self.updates_sent += 1,
            SendStatus::DroppedFull => self.updates_dropped_full += 1,
            SendStatus::DroppedClosed => self.updates_dropped_closed += 1,
            SendStatus::Skipped => self.updates_skipped += 1,
        }
    }

    /// Counts one decoded transaction that took `decode_ns` nanoseconds,
    /// adding to the total and raising the maximum where it is exceeded.
    pub fn record_decode_ns(&mut self, decode_ns: u128)
        requires
            old(self).tx_decode_count < u64::MAX,
            old(self).tx_decode_total_ns + decode_ns <= u128::MAX,
        ensures
            *final(self) == old(self).with_decode_recorded(decode_ns),
    {
        self.tx_decode_count += 1;
        self.tx_decode_total_ns += decode_ns;
        if decode_ns > self.tx_decode_max_ns {
            self.tx_decode_max_ns = decode_ns;
        }
    }

    /// Counts a message that arrived at `now` and says what to do with it:
    /// account, transaction and block messages are forwarded for their slot,
    /// which becomes the last slot seen; a ping is answered with ping id 1;
    /// a stream error ends the stream.
    pub fn record_message(&mut self, now: Instant, msg: StreamMessage) -> (a: MessageAction)
        requires
            old(self).msg_count < u64::MAX,
            old(self).kind_count(msg) < u64::MAX,
        ensures
            *final(self) == old(self).after_message(now, msg),
            a == Self::action_for(msg),
            final(self).last_msg == now,
            final(self).last_log == old(self).last_log,
            final(self).msg_count == old(self).msg_count + 1,
            msg is Account ==> final(self).last_slot == Some(msg->Account_slot)
                && final(self).account_msgs == old(self).account_msgs + 1,
            msg is Transaction ==> final(self).last_slot == Some(msg->Transaction_slot)
                && final(self).transaction_msgs == old(self).transaction_msgs + 1,
            msg is Block ==> final(self).last_slot == Some(msg->Block_slot)
                && final(self).block_msgs == old(self).block_msgs + 1,
            msg is Ping ==> final(self).last_slot == old(self).last_slot
                && final(self).ping_msgs == old(self).ping_msgs + 1,
            (msg is Other || msg is Error) ==> final(self).last_slot == old(self).last_slot,
            (msg is Account) || final(self).account_msgs == old(self).account_msgs,
            (msg is Transaction) || final(self).transaction_msgs == old(self).transaction_msgs,
            (msg is Block) || final(self).block_msgs == old(self).block_msgs,
            (msg is Ping) || final(self).ping_msgs == old(self).ping_msgs,
            final(self).updates_sent == old(self).updates_sent,
            final(self).updates_skipped == old(self).updates_skipped,
            final(self).tx_decode_total_ns == old(self).tx_decode_total_ns,
            msg is Account ==> a == (MessageAction::ForwardAccount { slot: msg->Account_slot }),
            msg is Transaction ==> a == (MessageAction::ForwardTransaction {
                slot: msg->Transaction_slot,
            }),
            msg is Block ==> a == (MessageAction::ForwardBlock { slot: msg->Block_slot }),
            msg is Ping ==> a == (MessageAction::ReplyPing { id: 1 }),
            msg is Other ==> a is Ignore,
            msg is Error ==> a is EndStream,
    {
        self.last_msg = now;
        self.msg_count += 1;
        match msg {
            StreamMessage::Account { slot } => {
                self.account_msgs += 1;
                self.last_slot = Some(slot);
                MessageAction::ForwardAccount { slot }
            },
            StreamMessage::Transaction { slot } => {
                self.transaction_msgs += 1;
                self.last_slot = Some(slot);
                MessageAction::ForwardTransaction { slot }
            },
            StreamMessage::Block { slot } => {
                self.block_msgs += 1;
                self.last_slot = Some(slot);
                MessageAction::ForwardBlock { slot }
            },
            StreamMessage::Ping => {
                self.ping_msgs += 1;
                MessageAction::ReplyPing { id: 1 }
            },
            StreamMessage::Other => MessageAction::Ignore,
            StreamMessage::Error => MessageAction::EndStream,
        }
    }

    /// Closes the window once `elapsed_ns` (the time since the window
    /// started) reaches `log_interval_ns`: hands back the window's report
    /// and starts a new window. Before that, leaves the state as it is and
    /// returns `None`.
    pub fn take_report_if_due(&mut self, elapsed_ns: u128, log_interval_ns: u128) -> (r: Option<
        WindowReport,
    >)
        ensures
            elapsed_ns < log_interval_ns ==> r is None && *final(self) == *old(self),
            elapsed_ns >= log_interval_ns ==> r == Some(old(self).report()) && *final(self)
                == Self::fresh(final(self).last_log, old(self).last_slot),
            elapsed_ns >= log_interval_ns ==> (r matches Some(w) && w.last_slot == (match old(
                self,
            ).last_slot {
                Some(x) => x,
                None => 0,
            }) && w.msg_count == old(self).msg_count && w.account_msgs == old(self).account_msgs
                && w.transaction_msgs == old(self).transaction_msgs && w.block_msgs == old(
                self,
            ).block_msgs && w.ping_msgs == old(self).ping_msgs && w.updates_sent == old(
                self,
            ).updates_sent && w.updates_dropped_full == old(self).updates_dropped_full
                && w.updates_dropped_closed == old(self).updates_dropped_closed
                && w.updates_skipped == old(self).updates_skipped && w.tx_decode_count == old(
                self,
            ).tx_decode_count && w.tx_decode_total_ns == old(self).tx_decode_total_ns
                && w.tx_decode_max_ns == old(self).tx_decode_max_ns && w.last_msg == old(
                self,
            ).last_msg),
            elapsed_ns >= log_interval_ns ==> final(self).last_slot == old(self).last_slot
                && final(self).msg_count == 0 && final(self).last_log == final(self).last_msg,
    {
        if elapsed_ns < log_interval_ns {
            return None;
        }
        let report = WindowReport {
            msg_count: self.msg_count,
            account_msgs: self.account_msgs,
            transaction_msgs: self.transaction_msgs,
            block_msgs: self.block_msgs,
            ping_msgs: self.ping_msgs,
            updates_sent: self.updates_sent,
            updates_dropped_full: self.updates_dropped_full,
            updates_dropped_closed: self.updates_dropped_closed,
            updates_skipped: self.updates_skipped,
            tx_decode_count: self.tx_decode_count,
            tx_decode_total_ns: self.tx_decode_total_ns,
            tx_decode_max_ns: self.tx_decode_max_ns,
            last_slot: match self.last_slot {
                Some(s) => s,
                None => 0,
            },
            last_msg: self.last_msg,
        };
        self.reset_window();
        Some(report)
    }
}

/// Every update whose send status is recorded adds exactly one to the
/// window's total of sent, dropped and skipped updates.
pub proof fn lemma_send_recorded_once(s: StreamLogState, status: SendStatus)
    requires
        s.send_count(status) < u64::MAX,
    ensures
        dispatched_total(s.with_send_recorded(status)) == dispatched_total(s) + 1,
        s.with_send_recorded(status).send_count(status) == s.send_count(status) + 1,
{
}

/// The number of updates of the window whose send status was recorded.
pub open spec fn dispatched_total(s: StreamLogState) -> int {
    s.updates_sent + s.updates_dropped_full + s.updates_dropped_closed + s.updates_skipped
}

/// The slowest decode of a window never exceeds the window's total decode
/// time: true of a fresh window, and kept by every recorded decode.
pub proof fn lemma_decode_max_within_total(s: StreamLogState, ns: u128, t: Instant, slot: Option<u64>)
    requires
        s.tx_decode_max_ns <= s.tx_decode_total_ns,
        s.tx_decode_total_ns + ns <= u128::MAX,
    ensures
        StreamLogState::fresh(t, slot).tx_decode_max_ns <= StreamLogState::fresh(
            t,
            slot,
        ).tx_decode_total_ns,
        s.with_decode_recorded(ns).tx_decode_max_ns <= s.with_decode_recorded(
            ns,
        ).tx_decode_total_ns,
        s.with_decode_recorded(ns).tx_decode_max_ns >= ns,
{
}

/// One decode time folded into a running (count, total, maximum).
pub open spec fn decode_stats_step(acc: (int, int, int), d: u128) -> (int, int, int) {
    (acc.0 + 1, acc.1 + d, if d > acc.2 {
        d as int
    } else {
        acc.2
    })
}

/// The count, the sum and the largest (zero for none) of a run of decode
/// times.
pub open spec fn decode_stats(ds: Seq<u128>) -> (int, int, int) {
    ds.fold_left((0int, 0int, 0int), |acc: (int, int, int), d: u128| decode_stats_step(acc, d))
}

/// The state after recording the decode times of `ds`, in order.
pub open spec fn decodes_recorded(s: StreamLogState, ds: Seq<u128>) -> StreamLogState
    decreases ds.len(),
{
    if ds.len() == 0 {
        s
    } else {
        decodes_recorded(s, ds.drop_last()).with_decode_recorded(ds.last())
    }
}

/// The running statistics of a run: the count is the run's length, the
/// total is never below the maximum, and the maximum bounds every element
/// and is one of them (or zero for an empty run).
proof fn lemma_decode_stats_facts(ds: Seq<u128>)
    ensures
        decode_stats(ds).0 == ds.len(),
        0 <= decode_stats(ds).2 <= decode_stats(ds).1,
        forall|i: int| 0 <= i < ds.len() ==> ds[i] <= decode_stats(ds).2,
        ds.len() == 0 ==> decode_stats(ds).2 == 0,
        ds.len() > 0 ==> exists|i: int| 0 <= i < ds.len() && ds[i] == decode_stats(ds).2,
        ds.len() > 0 ==> decode_stats(ds) == decode_stats_step(
            decode_stats(ds.drop_last()),
            ds.last(),
        ),
    decreases ds.len(),
{
    if ds.len() > 0 {
        let pre = ds.drop_last();
        lemma_decode_stats_facts(pre);
        assert forall|i: int| 0 <= i < ds.len() implies ds[i] <= decode_stats(ds).2 by {
            if i < pre.len() {
                assert(pre[i] == ds[i]);
            }
        }
        if pre.len() > 0 && decode_stats(ds).2 == decode_stats(pre).2 {
            let j = choose|j: int| 0 <= j < pre.len() && pre[j] == decode_stats(pre).2;
            assert(ds[j] == pre[j]);
        } else {
            assert(ds[ds.len() - 1] == ds.last());
        }
    }
}

/// A run of decode times recorded into a fresh window leaves the count at
/// the run's length, the total at the sum of the times and the maximum at
/// the largest time (zero for an empty run); nothing else changes. Hence the
/// maximum never exceeds the total.
pub proof fn lemma_decode_run_from_fresh(t: Instant, slot: Option<u64>, ds: Seq<u128>)
    requires
        ds.len() <= u64::MAX,
        decode_stats(ds).1 <= u128::MAX,
    ensures
        decodes_recorded(StreamLogState::fresh(t, slot), ds) == (StreamLogState {
            tx_decode_count: ds.len() as u64,
            tx_decode_total_ns: decode_stats(ds).1 as u128,
            tx_decode_max_ns: decode_stats(ds).2 as u128,
            ..StreamLogState::fresh(t, slot)
        }),
        decode_stats(ds).1 == ds.fold_left(0int, |acc: int, d: u128| acc + d),
        forall|i: int| 0 <= i < ds.len() ==> ds[i] <= decode_stats(ds).2,
        ds.len() > 0 ==> exists|i: int| 0 <= i < ds.len() && ds[i] == decode_stats(ds).2,
        ds.len() == 0 ==> decode_stats(ds).2 == 0,
        decode_stats(ds).2 <= decode_stats(ds).1,
    decreases ds.len(),
{
    lemma_decode_stats_facts(ds);
    lemma_decode_sum(ds);
    if ds.len() > 0 {
        let pre = ds.drop_last();
        lemma_decode_stats_facts(pre);
        lemma_decode_run_from_fresh(t, slot, pre);
    }
}

/// The total of the running statistics is the plain sum of the run.
proof fn lemma_decode_sum(ds: Seq<u128>)
    ensures
        decode_stats(ds).1 == ds.fold_left(0int, |acc: int, d: u128| acc + d),
    decreases ds.len(),
{
    if ds.len() > 0 {
        lemma_decode_sum(ds.drop_last());
    }
}

/// Recording the same decode times in any order, from a fresh window, gives
/// the same state.
pub proof fn lemma_decode_run_order_free(
    t: Instant,
    slot: Option<u64>,
    ds1: Seq<u128>,
    ds2: Seq<u128>,
)
    requires
        ds1.to_multiset() == ds2.to_multiset(),
        ds1.len() <= u64::MAX,
        decode_stats(ds1).1 <= u128::MAX,
    ensures
        decodes_recorded(StreamLogState::fresh(t, slot), ds1) == decodes_recorded(
            StreamLogState::fresh(t, slot),
            ds2,
        ),
{
    let f = |acc: (int, int, int), d: u128| decode_stats_step(acc, d);
    assert(vstd::seq_lib::commutative_foldl(f));
    vstd::seq_lib::lemma_fold_left_permutation(ds1, ds2, f, (0int, 0int, 0int));
    assert(decode_stats(ds1) == decode_stats(ds2));
    lemma_decode_stats_facts(ds1);
    lemma_decode_stats_facts(ds2);
    lemma_decode_run_from_fresh(t, slot, ds1);
    lemma_decode_run_from_fresh(t, slot, ds2);
}

/// A message that carries a slot (account, transaction or block) makes
/// that slot the last one seen, whatever came before; a ping, another
/// message or a stream error leaves the last slot as it was. Every message
/// is counted once and moves the time of the last message to its arrival.
pub proof fn lemma_message_sets_last_slot(s: StreamLogState, now: Instant, slot: u64)
    ensures
        s.after_message(now, StreamMessage::Account { slot }).last_slot == Some(slot),
        s.after_message(now, StreamMessage::Transaction { slot }).last_slot == Some(slot),
        s.after_message(now, StreamMessage::Block { slot }).last_slot == Some(slot),
        s.after_message(now, StreamMessage::Ping).last_slot == s.last_slot,
        s.after_message(now, StreamMessage::Other).last_slot == s.last_slot,
        s.after_message(now, StreamMessage::Error).last_slot == s.last_slot,
        forall|m: StreamMessage|
            #![trigger s.after_message(now, m)]
            s.after_message(now, m).msg_count == s.msg_count + 1 || s.msg_count == u64::MAX,
        forall|m: StreamMessage| #![trigger s.after_message(now, m)] s.after_message(now, m).last_msg == now,
{
}

/// A window report carries the window's counts as they stood, and the last
/// slot seen (zero when none was seen): a slot recorded by any message
/// carrying one is the slot the next report shows.
pub proof fn lemma_report_shows_last_slot(s: StreamLogState, now: Instant, slot: u64)
    ensures
        s.after_message(now, StreamMessage::Transaction { slot }).report().last_slot == slot,
        s.after_message(now, StreamMessage::Account { slot }).report().last_slot == slot,
        s.after_message(now, StreamMessage::Block { slot }).report().last_slot == slot,
        s.last_slot is None ==> s.report().last_slot == 0,
        s.report().msg_count == s.msg_count,
        s.report().updates_sent == s.updates_sent,
        s.report().tx_decode_max_ns == s.tx_decode_max_ns,
{
}

/// The messages counted by kind never outnumber the messages counted: true
/// of a fresh window, and kept by every recorded message.
pub proof fn lemma_kind_counts_within_total(
    s: StreamLogState,
    now: Instant,
    msg: StreamMessage,
    t: Instant,
    slot: Option<u64>,
)
    requires
        kinds_total(s) <= s.msg_count,
        s.msg_count < u64::MAX,
        s.kind_count(msg) < u64::MAX,
    ensures
        kinds_total(StreamLogState::fresh(t, slot)) <= StreamLogState::fresh(t, slot).msg_count,
        kinds_total(s.after_message(now, msg)) <= s.after_message(now, msg).msg_count,
        s.after_message(now, msg).msg_count == s.msg_count + 1,
{
}

/// The number of messages of the window counted by kind.
pub open spec fn kinds_total(s: StreamLogState) -> int {
    s.account_msgs + s.transaction_msgs + s.block_msgs + s.ping_msgs
}

/// An account update as the stream delivers it, before any checking.
#[derive(Clone, Debug, PartialEq, Eq)]
pub struct SubscribeAccountInfo {
    pub pubkey: Vec<u8>,
    pub lamports: u64,
    pub owner: Vec<u8>,
    pub executable: bool,
    pub rent_epoch: u64,
    pub data: Vec<u8>,
    pub write_version: u64,
    pub txn_signature: Option<Vec<u8>>,
}

/// The state of an account.
#[derive(Clone, Debug, PartialEq, Eq)]
pub struct Account {
    pub lamports: u64,
    pub data: Vec<u8>,
    pub owner: Pubkey,
    pub executable: bool,
    pub rent_epoch: u64,
}

/// A new state of an account, observed at a slot.
#[derive(Clone, Debug, PartialEq, Eq)]
pub struct AccountUpdate {
    pub pubkey: Pubkey,
    pub account: Account,
    pub slot: u64,
    pub transaction_signature: Option<Signature>,
}

/// The closing of an account, observed at a slot.
#[derive(Clone, Debug, PartialEq, Eq)]
pub struct AccountDeletion {
    pub pubkey: Pubkey,
    pub slot: u64,
    pub transaction_signature: Option<Signature>,
}

/// Why an account update is not forwarded.
#[derive(Clone, Copy, Debug, PartialEq, Eq)]
pub enum AccountSkip {
    /// The message carried no account.
    MissingInfo,
    /// The account address is not 32 bytes long.
    InvalidPubkey,
    /// The owner address is not 32 bytes long.
    InvalidOwner,
}

/// What to do with a streamed account update.
#[derive(Clone, Debug, PartialEq, Eq)]
pub enum AccountPlan {
    /// Forward nothing; the update counts as skipped.
    Skip(AccountSkip),
    /// Forward the account's new state.
    Send(AccountUpdate),
    /// The account was closed: forward its deletion if the account is one
    /// whose deletions are tracked, and skip it otherwise.
    SendIfTracked(AccountDeletion),
}

/// The signature that the raw bytes stand for: present exactly when the
/// bytes are there and 64 bytes long.
pub open spec fn signature_from(raw: Option<Vec<u8>>, sig: Option<Signature>) -> bool {
    match raw {
        Some(v) => if v@.len() == 64 {
            sig matches Some(s) && s@ == v@
        } else {
            sig is None
        },
        None => sig is None,
    }
}

/// Whether an account in this state has been closed: no lamports, no data,
/// and owned by the system program.
pub open spec fn is_closed_account(lamports: u64, data: Seq<u8>, owner: Seq<u8>) -> bool {
    lamports == 0 && data.len() == 0 && owner == zeros(32)
}

/// Converts optional raw signature bytes: `Some` exactly when they are
/// present and 64 bytes long.
fn signature_of(raw: Option<Vec<u8>>) -> (sig: Option<Signature>)
    ensures
        signature_from(raw, sig),
{
    match raw {
        Some(v) => match Signature::try_from_vec(v) {
            Ok(s) => Some(s),
            Err(_) => None,
        },
        None => None,
    }
}

/// Decides what a streamed account update becomes. A missing account or an
/// address or owner that is not 32 bytes long is skipped; an account with no
/// lamports, no data and the system program as owner was closed and becomes
/// a deletion to forward if tracked; any other account becomes an update
/// with its state, the slot, and the transaction signature when its bytes
/// form one.
pub fn plan_account_update(info: Option<SubscribeAccountInfo>, slot: u64) -> (r: AccountPlan)
    ensures
        match info {
            None => r == AccountPlan::Skip(AccountSkip::MissingInfo),
            Some(i) => if i.pubkey@.len() != 32 {
                r == AccountPlan::Skip(AccountSkip::InvalidPubkey)
            } else if i.owner@.len() != 32 {
                r == AccountPlan::Skip(AccountSkip::InvalidOwner)
            } else if is_closed_account(i.lamports, i.data@, i.owner@) {
                r matches AccountPlan::SendIfTracked(d) && d.pubkey@ == i.pubkey@ && d.slot == slot
                    && signature_from(i.txn_signature, d.transaction_signature)
            } else {
                r matches AccountPlan::Send(u) && u.pubkey@ == i.pubkey@ && u.account.lamports
                    == i.lamports && u.account.data@ == i.data@ && u.account.owner@ == i.owner@
                    && u.account.executable == i.executable && u.account.rent_epoch == i.rent_epoch
                    && u.slot == slot && signature_from(i.txn_signature, u.transaction_signature)
            },
        },
{
    let account_info = match info {
        Some(i) => i,
        None => return AccountPlan::Skip(AccountSkip::MissingInfo),
    };
    let SubscribeAccountInfo {
        pubkey,
        lamports,
        owner,
        executable,
        rent_epoch,
        data,
        write_version: _,
        txn_signature,
    } = account_info;
    let account_pubkey = match Pubkey::try_from_vec(pubkey) {
        Ok(k) => k,
        Err(_) => return AccountPlan::Skip(AccountSkip::InvalidPubkey),
    };
    let account_owner_pubkey = match Pubkey::try_from_vec(owner) {
        Ok(k) => k,
        Err(_) => return AccountPlan::Skip(AccountSkip::InvalidOwner),
    };
    let transaction_signature = signature_of(txn_signature);
    let system_program = crate::keys::system_program_id();
    if lamports == 0 && data.len() == 0 && account_owner_pubkey.same_as(&system_program) {
        AccountPlan::SendIfTracked(
            AccountDeletion { pubkey: account_pubkey, slot, transaction_signature },
        )
    } else {
        let account = Account {
            lamports,
            data,
            owner: account_owner_pubkey,
            executable,
            rent_epoch,
        };
        AccountPlan::Send(
            AccountUpdate { pubkey: account_pubkey, account, slot, transaction_signature },
        )
    }
}

/// Whether a deletion is forwarded: only for an account whose deletions
/// are tracked; otherwise the update counts as skipped.
pub fn tracked_deletion(deletion: AccountDeletion, is_tracked: bool) -> (r: Option<AccountDeletion>)
    ensures
        r == (if is_tracked {
            Some(deletion)
        } else {
            None::<AccountDeletion>
        }),
{
    if is_tracked {
        Some(deletion)
    } else {
        None
    }
}

/// Whether the stream counts as stalled: more than the warning threshold
/// has passed since the previous message.
pub fn is_stalled(gap_ns: u128, stall_warn_ns: u128) -> (b: bool)
    ensures
        b == (gap_ns > stall_warn_ns),
{
    gap_ns > stall_warn_ns
}

/// How an attempt to hand an update to the pipeline's channel went.
#[derive(Clone, Copy, Debug, PartialEq, Eq)]
pub enum TrySendOutcome {
    Sent,
    Full,
    Closed,
}

/// The send status that a channel outcome counts as.
pub fn send_status_of(outcome: TrySendOutcome) -> (s: SendStatus)
    ensures
        s == (match outcome {
            TrySendOutcome::Sent => SendStatus::Sent,
            TrySendOutcome::Full => SendStatus::DroppedFull,
            TrySendOutcome::Closed => SendStatus::DroppedClosed,
        }),
{
    match outcome {
        TrySendOutcome::Sent => SendStatus::Sent,
        TrySendOutcome::Full => SendStatus::DroppedFull,
        TrySendOutcome::Closed => SendStatus::DroppedClosed,
    }
}

/// Counter that a dropped update increments.
pub const TRY_SEND_FULL_COUNTER: &'static str = "yellowstone_grpc_try_send_full";

/// Counter that an update dropped on a closed channel increments.
pub const TRY_SEND_CLOSED_COUNTER: &'static str = "yellowstone_grpc_try_send_closed";

/// Histogram of the time spent on one account update.
pub const ACCOUNT_PROCESS_TIME_HISTOGRAM: &'static str = "yellowstone_grpc_account_process_time_nanoseconds";

/// Counter of account updates handed to the pipeline.
pub const ACCOUNT_UPDATES_RECEIVED_COUNTER: &'static str = "yellowstone_grpc_account_updates_received";

/// Histogram of the time spent on one transaction update.
pub const TRANSACTION_PROCESS_TIME_HISTOGRAM: &'static str =
    "yellowstone_grpc_transaction_process_time_nanoseconds";

/// Counter of transaction updates handed to the pipeline.
pub const TRANSACTION_UPDATES_RECEIVED_COUNTER: &'static str =
    "yellowstone_grpc_transaction_updates_received";

/// The counter that a failed hand-over increments, if any.
pub fn drop_counter(status: SendStatus) -> (name: Option<&'static str>)
    ensures
        name == (match status {
            SendStatus::DroppedFull => Some(TRY_SEND_FULL_COUNTER),
            SendStatus::DroppedClosed => Some(TRY_SEND_CLOSED_COUNTER),
            _ => None::<&'static str>,
        }),
{
    match status {
        SendStatus::DroppedFull => Some(TRY_SEND_FULL_COUNTER),
        SendStatus::DroppedClosed => Some(TRY_SEND_CLOSED_COUNTER),
        _ => None,
    }
}

/// Whether the time spent on an account update is recorded: for every
/// update that was handed to the channel, whatever the channel answered.
pub fn account_metrics_recorded(status: SendStatus) -> (b: bool)
    ensures
        b == (status != SendStatus::Skipped),
{
    status != SendStatus::Skipped
}

/// Whether the time spent on a transaction update is recorded: only when
/// the channel took it.
pub fn transaction_metrics_recorded(status: SendStatus) -> (b: bool)
    ensures
        b == (status == SendStatus::Sent),
{
    status == SendStatus::Sent
}

/// A transaction update as the stream delivers it, before any checking. The
/// transaction and its status meta stay in the stream's own types.
#[derive(Clone, Debug, PartialEq, Eq)]
pub struct SubscribeTransactionInfo<Tx, Meta> {
    pub signature: Vec<u8>,
    pub is_vote: bool,
    pub transaction: Option<Tx>,
    pub meta: Option<Meta>,
    pub index: u64,
}

/// Why a transaction update is not forwarded before its conversion.
#[derive(Clone, Copy, Debug, PartialEq, Eq)]
pub enum TransactionSkip {
    /// The message carried no transaction.
    MissingInfo,
    /// The signature is not 64 bytes long.
    InvalidSignature,
    /// The transaction body is missing.
    MissingTransaction,
    /// The status meta is missing.
    MissingMeta,
}

/// What a transaction update is made of once its signature is checked and
/// its parts are present; the transaction and meta are converted next.
#[derive(Clone, Debug, PartialEq, Eq)]
pub struct TransactionParts<Tx, Meta> {
    pub signature: Signature,
    pub transaction: Tx,
    pub meta: Meta,
    pub is_vote: bool,
    pub slot: u64,
    pub index: Option<u64>,
    pub block_time: Option<i64>,
}

/// What to do with a streamed transaction update.
#[derive(Clone, Debug, PartialEq, Eq)]
pub enum TransactionPlan<Tx, Meta> {
    Skip(TransactionSkip),
    Decode(TransactionParts<Tx, Meta>),
}

/// Decides what a streamed transaction update becomes, checking in order:
/// that there is a transaction, that its signature is 64 bytes long, that
/// its body and its meta are present. A transaction that passes becomes the
/// parts of an update at the given slot and block time, with the stream's
/// index of the transaction.
pub fn plan_transaction_update<Tx, Meta>(
    info: Option<SubscribeTransactionInfo<Tx, Meta>>,
    slot: u64,
    block_time: Option<i64>,
) -> (r: TransactionPlan<Tx, Meta>)
    ensures
        match info {
            None => r == TransactionPlan::<Tx, Meta>::Skip(TransactionSkip::MissingInfo),
            Some(i) => if i.signature@.len() != 64 {
                r == TransactionPlan::<Tx, Meta>::Skip(TransactionSkip::InvalidSignature)
            } else if i.transaction is None {
                r == TransactionPlan::<Tx, Meta>::Skip(TransactionSkip::MissingTransaction)
            } else if i.meta is None {
                r == TransactionPlan::<Tx, Meta>::Skip(TransactionSkip::MissingMeta)
            } else {
                r matches TransactionPlan::Decode(p) && p.signature@ == i.signature@
                    && p.transaction == i.transaction.unwrap() && p.meta == i.meta.unwrap()
                    && p.is_vote == i.is_vote && p.slot == slot && p.index == Some(i.index)
                    && p.block_time == block_time
            },
        },
{
    let transaction_info = match info {
        Some(i) => i,
        None => return TransactionPlan::Skip(TransactionSkip::MissingInfo),
    };
    let SubscribeTransactionInfo { signature, is_vote, transaction, meta, index } =
        transaction_info;
    let signature = match Signature::try_from_vec(signature) {
        Ok(s) => s,
        Err(_) => return TransactionPlan::Skip(TransactionSkip::InvalidSignature),
    };
    let transaction = match transaction {
        Some(t) => t,
        None => return TransactionPlan::Skip(TransactionSkip::MissingTransaction),
    };
    let meta = match meta {
        Some(m) => m,
        None => return TransactionPlan::Skip(TransactionSkip::MissingMeta),
    };
    TransactionPlan::Decode(
        TransactionParts {
            signature,
            transaction,
            meta,
            is_vote,
            slot,
            index: Some(index),
            block_time,
        },
    )
}

/// The outcome of a transaction whose decoding took `decode_ns`
/// nanoseconds and which was then handed to the channel.
pub fn transaction_outcome(sent: TrySendOutcome, decode_ns: u128) -> (o: TxDispatchOutcome)
    ensures
        o.status == (match sent {
            TrySendOutcome::Sent => SendStatus::Sent,
            TrySendOutcome::Full => SendStatus::DroppedFull,
            TrySendOutcome::Closed => SendStatus::DroppedClosed,
        }),
        o.decode_ns == Some(decode_ns),
{
    TxDispatchOutcome { status: send_status_of(sent), decode_ns: Some(decode_ns) }
}

/// The outcome of a transaction skipped after `decode_ns` nanoseconds.
pub fn skipped_transaction(decode_ns: u128) -> (o: TxDispatchOutcome)
    ensures
        o.status == SendStatus::Skipped,
        o.decode_ns == Some(decode_ns),
{
    TxDispatchOutcome { status: SendStatus::Skipped, decode_ns: Some(decode_ns) }
}

/// Whether failed transactions of a block are forwarded: as configured, and
/// by default yes.
pub fn retain_failed_block_transactions(setting: Option<bool>) -> (b: bool)
    ensures
        b == (match setting {
            Some(v) => v,
            None => true,
        }),
{
    match setting {
        Some(v) => v,
        None => true,
    }
}

/// Whether a transaction of a block is forwarded. `succeeded` is `None`
/// when the transaction carries no meta, and otherwise whether the meta
/// records no error. Failed transactions, and those without meta, are
/// forwarded only when failed transactions are retained.
pub fn forwards_block_transaction(retain_failed: bool, succeeded: Option<bool>) -> (b: bool)
    ensures
        b == (retain_failed || succeeded == Some(true)),
{
    retain_failed || match succeeded {
        Some(ok) => ok,
        None => false,
    }
}

/// One dispatch of a block: its transaction or its account at the given
/// position.
#[derive(Clone, Copy, Debug, PartialEq, Eq)]
pub enum BlockStep {
    Transaction(usize),
    Account(usize),
}

/// The transactions of a block that are forwarded, by position, in block
/// order. `succeeded[i]` is what `forwards_block_transaction` reads for the
/// transaction at position `i`.
pub open spec fn spec_block_transactions(retain_failed: bool, succeeded: Seq<Option<bool>>) -> Seq<
    BlockStep,
>
    decreases succeeded.len(),
{
    if succeeded.len() == 0 {
        Seq::empty()
    } else {
        let last = (succeeded.len() - 1) as int;
        spec_block_transactions(retain_failed, succeeded.drop_last()) + if retain_failed
            || succeeded[last] == Some(true) {
            seq![BlockStep::Transaction(last as usize)]
        } else {
            Seq::empty()
        }
    }
}

/// Every account of a block, by position, in block order.
pub open spec fn spec_block_accounts(n_accounts: nat) -> Seq<BlockStep> {
    Seq::new(n_accounts, |i: int| BlockStep::Account(i as usize))
}

/// The order in which a block is dispatched: the forwarded transactions in
/// block order, then every account in block order.
pub fn plan_block(retain_failed: bool, succeeded: &Vec<Option<bool>>, n_accounts: usize) -> (steps:
    Vec<BlockStep>)
    ensures
        steps@ == spec_block_transactions(retain_failed, succeeded@) + spec_block_accounts(
            n_accounts as nat,
        ),
{
    let n: usize = succeeded.len();
    let mut steps: Vec<BlockStep> = Vec::new();
    let mut i: usize = 0;
    while i < n
        invariant
            i <= n,
            n == succeeded@.len(),
            steps@ == spec_block_transactions(retain_failed, succeeded@.take(i as int)),
        decreases n - i,
    {
        assert(succeeded@.take(i + 1).drop_last() =~= succeeded@.take(i as int));
        if forwards_block_transaction(retain_failed, succeeded[i]) {
            steps.push(BlockStep::Transaction(i));
        }
        proof {
            let t = succeeded@.take(i + 1);
            assert(t[i as int] == succeeded@[i as int]);
            if retain_failed || succeeded@[i as int] == Some(true) {
                assert(steps@ =~= spec_block_transactions(retain_failed, t.drop_last()) + seq![
                    BlockStep::Transaction(i),
                ]);
            } else {
                assert(steps@ =~= spec_block_transactions(retain_failed, t.drop_last()) + Seq::<
                    BlockStep,
                >::empty());
            }
        }
        i = i + 1;
    }
    assert(succeeded@.take(n as int) =~= succeeded@);
    let ghost txs = steps@;
    let mut j: usize = 0;
    while j < n_accounts
        invariant
            j <= n_accounts,
            steps@ == txs + spec_block_accounts(j as nat),
        decreases n_accounts - j,
    {
        steps.push(BlockStep::Account(j));
        assert(spec_block_accounts((j + 1) as nat) =~= spec_block_accounts(j as nat).push(
            BlockStep::Account(j),
        ));
        assert(steps@ =~= txs + spec_block_accounts((j + 1) as nat));
        j = j + 1;
    }
    steps
}

/// The name of the gauge that holds the last slot ingested by a
/// datasource.
pub open spec fn spec_ingest_slot_gauge_name(id: Seq<char>) -> Seq<char> {
    "datasource_ingest_last_slot_"@ + id
}

/// Builds the name of the gauge that holds the last slot ingested by the
/// datasource with the given id.
pub fn ingest_slot_gauge_name(id: &str) -> (name: String)
    ensures
        name@ == spec_ingest_slot_gauge_name(id@),
{
    let mut name = "datasource_ingest_last_slot_".to_owned();
    name.append(id);
    name
}

/// The kinds of update a datasource can deliver.
#[derive(Clone, Copy, Debug, PartialEq, Eq)]
pub enum UpdateType {
    AccountUpdate,
    Transaction,
    AccountDeletion,
}

/// The kinds of update the Yellowstone datasource delivers: account updates,
/// transactions and account deletions, in that order.
pub fn update_types() -> (v: Vec<UpdateType>)
    ensures
        v@ == seq![UpdateType::AccountUpdate, UpdateType::Transaction, UpdateType::AccountDeletion],
{
    let mut v: Vec<UpdateType> = Vec::new();
    v.push(UpdateType::AccountUpdate);
    v.push(UpdateType::Transaction);
    v.push(UpdateType::AccountDeletion);
    v
}

} // verus!
