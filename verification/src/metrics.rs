//! Bookkeeping of the log metrics: which well-known metric a name refers
//! to, and the counters kept under those names.

use vstd::prelude::*;

use crate::name_table::{NameTable, name_is};

verus! {

/// Where an increment of a counter goes.
#[derive(Clone, Copy, Debug, PartialEq, Eq, Structural)]
pub enum CounterTarget {
    UpdatesReceived,
    UpdatesProcessed,
    UpdatesSuccessful,
    UpdatesFailed,
    AccountUpdatesProcessed,
    TransactionUpdatesProcessed,
    AccountDeletionsProcessed,
    /// Any other name: a counter kept in the table of named counters.
    Named,
}

/// Where a gauge value goes.
#[derive(Clone, Copy, Debug, PartialEq, Eq, Structural)]
pub enum GaugeTarget {
    UpdatesQueued,
    /// Any other name: a gauge kept in the table of named gauges.
    Named,
}

/// Where a histogram sample goes.
#[derive(Clone, Copy, Debug, PartialEq, Eq, Structural)]
pub enum HistogramTarget {
    UpdatesProcessingTimes,
    /// Any other name: a histogram kept in the table of named histograms.
    Named,
}

/// The counter a name refers to.
pub open spec fn spec_counter_target(name: Seq<char>) -> CounterTarget {
    if name == "updates_received"@ {
        CounterTarget::UpdatesReceived
    } else if name == "updates_processed"@ {
        CounterTarget::UpdatesProcessed
    } else if name == "updates_successful"@ {
        CounterTarget::UpdatesSuccessful
    } else if name == "updates_failed"@ {
        CounterTarget::UpdatesFailed
    } else if name == "account_updates_processed"@ {
        CounterTarget::AccountUpdatesProcessed
    } else if name == "transaction_updates_processed"@ {
        CounterTarget::TransactionUpdatesProcessed
    } else if name == "account_deletions_processed"@ {
        CounterTarget::AccountDeletionsProcessed
    } else {
        CounterTarget::Named
    }
}

/// The gauge a name refers to.
pub open spec fn spec_gauge_target(name: Seq<char>) -> GaugeTarget {
    if name == "updates_queued"@ {
        GaugeTarget::UpdatesQueued
    } else {
        GaugeTarget::Named
    }
}

/// The histogram a name refers to.
pub open spec fn spec_histogram_target(name: Seq<char>) -> HistogramTarget {
    if name == "updates_processing_times"@ {
        HistogramTarget::UpdatesProcessingTimes
    } else {
        HistogramTarget::Named
    }
}

/// The names of the well-known counters are pairwise different.
proof fn lemma_counter_names_distinct()
    ensures
        "updates_received"@ != "updates_processed"@,
        "updates_received"@ != "updates_successful"@,
        "updates_received"@ != "updates_failed"@,
        "updates_received"@ != "account_updates_processed"@,
        "updates_received"@ != "transaction_updates_processed"@,
        "updates_received"@ != "account_deletions_processed"@,
        "updates_processed"@ != "updates_successful"@,
        "updates_processed"@ != "updates_failed"@,
        "updates_processed"@ != "account_updates_processed"@,
        "updates_processed"@ != "transaction_updates_processed"@,
        "updates_processed"@ != "account_deletions_processed"@,
        "updates_successful"@ != "updates_failed"@,
        "updates_successful"@ != "account_updates_processed"@,
        "updates_successful"@ != "transaction_updates_processed"@,
        "updates_successful"@ != "account_deletions_processed"@,
        "updates_failed"@ != "account_updates_processed"@,
        "updates_failed"@ != "transaction_updates_processed"@,
        "updates_failed"@ != "account_deletions_processed"@,
        "account_updates_processed"@ != "transaction_updates_processed"@,
        "account_updates_processed"@ != "account_deletions_processed"@,
        "transaction_updates_processed"@ != "account_deletions_processed"@,
{
    reveal_strlit("updates_received");
    assert("updates_received"@.len() == 16);
    reveal_strlit("updates_processed");
    assert("updates_processed"@.len() == 17);
    reveal_strlit("updates_successful");
    assert("updates_successful"@.len() == 18);
    reveal_strlit("updates_failed");
    assert("updates_failed"@.len() == 14);
    reveal_strlit("account_updates_processed");
    assert("account_updates_processed"@.len() == 25);
    reveal_strlit("transaction_updates_processed");
    assert("transaction_updates_processed"@.len() == 29);
    reveal_strlit("account_deletions_processed");
    assert("account_deletions_processed"@.len() == 27);
}

/// Each well-known metric is reached by its own name and by no other: a
/// name goes to a well-known counter, gauge or histogram exactly when it is
/// that metric's name, and every other name goes to the named tables.
pub proof fn lemma_targets_follow_exact_names(name: Seq<char>)
    ensures
        (spec_counter_target(name) == CounterTarget::UpdatesReceived) == (name == "updates_received"@),
        (spec_counter_target(name) == CounterTarget::UpdatesProcessed) == (name == "updates_processed"@),
        (spec_counter_target(name) == CounterTarget::UpdatesSuccessful) == (name == "updates_successful"@),
        (spec_counter_target(name) == CounterTarget::UpdatesFailed) == (name == "updates_failed"@),
        (spec_counter_target(name) == CounterTarget::AccountUpdatesProcessed) == (name == "account_updates_processed"@),
        (spec_counter_target(name) == CounterTarget::TransactionUpdatesProcessed) == (name == "transaction_updates_processed"@),
        (spec_counter_target(name) == CounterTarget::AccountDeletionsProcessed) == (name == "account_deletions_processed"@),
        (spec_counter_target(name) == CounterTarget::Named) == (name != "updates_received"@ && name != "updates_processed"@ && name != "updates_successful"@ && name != "updates_failed"@ && name != "account_updates_processed"@ && name != "transaction_updates_processed"@ && name != "account_deletions_processed"@),
        (spec_gauge_target(name) == GaugeTarget::UpdatesQueued) == (name == "updates_queued"@),
        (spec_gauge_target(name) == GaugeTarget::Named) == (name != "updates_queued"@),
        (spec_histogram_target(name) == HistogramTarget::UpdatesProcessingTimes) == (name
            == "updates_processing_times"@),
        (spec_histogram_target(name) == HistogramTarget::Named) == (name
            != "updates_processing_times"@),
{
    lemma_counter_names_distinct();
}

/// Finds the counter that a name refers to.
pub fn counter_target(name: &str) -> (t: CounterTarget)
    ensures
        t == spec_counter_target(name@),
        (t == CounterTarget::UpdatesReceived) == (name@ == "updates_received"@),
        (t == CounterTarget::UpdatesProcessed) == (name@ == "updates_processed"@),
        (t == CounterTarget::UpdatesSuccessful) == (name@ == "updates_successful"@),
        (t == CounterTarget::UpdatesFailed) == (name@ == "updates_failed"@),
        (t == CounterTarget::AccountUpdatesProcessed) == (name@ == "account_updates_processed"@),
        (t == CounterTarget::TransactionUpdatesProcessed) == (name@ == "transaction_updates_processed"@),
        (t == CounterTarget::AccountDeletionsProcessed) == (name@ == "account_deletions_processed"@),
        (t == CounterTarget::Named) == (name@ != "updates_received"@ && name@ != "updates_processed"@ && name@ != "updates_successful"@ && name@ != "updates_failed"@ && name@ != "account_updates_processed"@ && name@ != "transaction_updates_processed"@ && name@ != "account_deletions_processed"@),
{
    proof {
        lemma_counter_names_distinct();
    }
    if name_is(name, "updates_received") {
        CounterTarget::UpdatesReceived
    } else if name_is(name, "updates_processed") {
        CounterTarget::UpdatesProcessed
    } else if name_is(name, "updates_successful") {
        CounterTarget::UpdatesSuccessful
    } else if name_is(name, "updates_failed") {
        CounterTarget::UpdatesFailed
    } else if name_is(name, "account_updates_processed") {
        CounterTarget::AccountUpdatesProcessed
    } else if name_is(name, "transaction_updates_processed") {
        CounterTarget::TransactionUpdatesProcessed
    } else if name_is(name, "account_deletions_processed") {
        CounterTarget::AccountDeletionsProcessed
    } else {
        CounterTarget::Named
    }
}

/// Finds the gauge that a name refers to.
pub fn gauge_target(name: &str) -> (t: GaugeTarget)
    ensures
        t == spec_gauge_target(name@),
        (t == GaugeTarget::UpdatesQueued) == (name@ == "updates_queued"@),
        (t == GaugeTarget::Named) == (name@ != "updates_queued"@),
{
    if name_is(name, "updates_queued") {
        GaugeTarget::UpdatesQueued
    } else {
        GaugeTarget::Named
    }
}

/// Finds the histogram that a name refers to.
pub fn histogram_target(name: &str) -> (t: HistogramTarget)
    ensures
        t == spec_histogram_target(name@),
        (t == HistogramTarget::UpdatesProcessingTimes) == (name@ == "updates_processing_times"@),
        (t == HistogramTarget::Named) == (name@ != "updates_processing_times"@),
{
    if name_is(name, "updates_processing_times") {
        HistogramTarget::UpdatesProcessingTimes
    } else {
        HistogramTarget::Named
    }
}

/// The counters of the log metrics: seven well-known ones, and a table of
/// counters under any other name.
pub struct LogCounters {
    pub updates_received: u64,
    pub updates_processed: u64,
    pub updates_successful: u64,
    pub updates_failed: u64,
    pub account_updates_processed: u64,
    pub transaction_updates_processed: u64,
    pub account_deletions_processed: u64,
    pub counters: NameTable<u64>,
}

impl LogCounters {
    /// The well-known counters, in declaration order.
    pub open spec fn fixed(&self) -> Seq<u64> {
        seq![
            self.updates_received,
            self.updates_processed,
            self.updates_successful,
            self.updates_failed,
            self.account_updates_processed,
            self.transaction_updates_processed,
            self.account_deletions_processed,
        ]
    }

    /// The position among the well-known counters of the one a target
    /// names.
    pub open spec fn fixed_index(t: CounterTarget) -> int {
        match t {
            CounterTarget::UpdatesReceived => 0,
            CounterTarget::UpdatesProcessed => 1,
            CounterTarget::UpdatesSuccessful => 2,
            CounterTarget::UpdatesFailed => 3,
            CounterTarget::AccountUpdatesProcessed => 4,
            CounterTarget::TransactionUpdatesProcessed => 5,
            CounterTarget::AccountDeletionsProcessed => 6,
            CounterTarget::Named => -1,
        }
    }

    /// The value of the counter under `name`: a well-known counter's field,
    /// or the named counter's value, zero when it does not exist yet.
    pub open spec fn counter(&self, name: Seq<char>) -> u64 {
        let t = spec_counter_target(name);
        if t == CounterTarget::Named {
            self.counters.value_or_zero(name)
        } else {
            self.fixed()[Self::fixed_index(t)]
        }
    }

    /// The counters' invariant: the table of named counters is well formed.
    pub open spec fn wf(&self) -> bool {
        self.counters.wf()
    }

    /// All counters at zero, and no named counter.
    pub fn new() -> (c: LogCounters)
        ensures
            c.wf(),
            c.fixed() == seq![0u64, 0u64, 0u64, 0u64, 0u64, 0u64, 0u64],
            c.counters@ == Map::<Seq<char>, u64>::empty(),
    {
        LogCounters {
            updates_received: 0,
            updates_processed: 0,
            updates_successful: 0,
            updates_failed: 0,
            account_updates_processed: 0,
            transaction_updates_processed: 0,
            account_deletions_processed: 0,
            counters: NameTable::new(),
        }
    }

    /// Reads the counter under `name`.
    pub fn counter_value(&self, name: &str) -> (v: u64)
        requires
            self.wf(),
        ensures
            v == self.counter(name@),
    {
        match counter_target(name) {
            CounterTarget::UpdatesReceived => self.updates_received,
            CounterTarget::UpdatesProcessed => self.updates_processed,
            CounterTarget::UpdatesSuccessful => self.updates_successful,
            CounterTarget::UpdatesFailed => self.updates_failed,
            CounterTarget::AccountUpdatesProcessed => self.account_updates_processed,
            CounterTarget::TransactionUpdatesProcessed => self.transaction_updates_processed,
            CounterTarget::AccountDeletionsProcessed => self.account_deletions_processed,
            CounterTarget::Named => match self.counters.get(name) {
                Some(v) => *v,
                None => 0,
            },
        }
    }

    /// Adds `value` to the counter under `name`: the well-known counter of
    /// that name, or else the named counter, created at zero if needed.
    /// Every other counter stays as it is.
    pub fn increment_counter(&mut self, name: &str, value: u64)
        requires
            old(self).wf(),
            old(self).counter(name@) + value <= u64::MAX,
        ensures
            final(self).wf(),
            spec_counter_target(name@) == CounterTarget::Named ==> final(self).fixed() == old(
                self,
            ).fixed() && final(self).counters@ == old(self).counters@.insert(
                name@,
                (old(self).counter(name@) + value) as u64,
            ),
            spec_counter_target(name@) != CounterTarget::Named ==> final(self).counters@ == old(
                self,
            ).counters@ && final(self).fixed() == old(self).fixed().update(
                Self::fixed_index(spec_counter_target(name@)),
                (old(self).counter(name@) + value) as u64,
            ),
    {
        match counter_target(name) {
            CounterTarget::UpdatesReceived => {
                self.updates_received = self.updates_received + value;
            },
            CounterTarget::UpdatesProcessed => {
                self.updates_processed = self.updates_processed + value;
            },
            CounterTarget::UpdatesSuccessful => {
                self.updates_successful = self.updates_successful + value;
            },
            CounterTarget::UpdatesFailed => {
                self.updates_failed = self.updates_failed + value;
            },
            CounterTarget::AccountUpdatesProcessed => {
                self.account_updates_processed = self.account_updates_processed + value;
            },
            CounterTarget::TransactionUpdatesProcessed => {
                self.transaction_updates_processed = self.transaction_updates_processed + value;
            },
            CounterTarget::AccountDeletionsProcessed => {
                self.account_deletions_processed = self.account_deletions_processed + value;
            },
            CounterTarget::Named => {
                self.counters.add(name, value);
            },
        }
        proof {
            assert(self.fixed() =~= old(self).fixed().update(
                Self::fixed_index(spec_counter_target(name@)),
                (old(self).counter(name@) + value) as u64,
            ) || spec_counter_target(name@) == CounterTarget::Named);
        }
    }
}

/// Incrementing a counter adds the increment to the counter of that name
/// and to no other: read by name, every counter after the increment is the
/// counter before it, plus `value` for `name` alone.
pub proof fn lemma_increment_touches_only_its_counter(
    before: LogCounters,
    after: LogCounters,
    name: Seq<char>,
    value: u64,
)
    requires
        before.counter(name) + value <= u64::MAX,
        spec_counter_target(name) == CounterTarget::Named ==> after.fixed() == before.fixed()
            && after.counters@ == before.counters@.insert(
            name,
            (before.counter(name) + value) as u64,
        ),
        spec_counter_target(name) != CounterTarget::Named ==> after.counters@
            == before.counters@ && after.fixed() == before.fixed().update(
            LogCounters::fixed_index(spec_counter_target(name)),
            (before.counter(name) + value) as u64,
        ),
    ensures
        forall|n: Seq<char>|
            #[trigger] after.counter(n) == if n == name {
                before.counter(n) + value
            } else {
                before.counter(n) as int
            },
{
    assert forall|n: Seq<char>|
        #[trigger] after.counter(n) == if n == name {
            before.counter(n) + value
        } else {
            before.counter(n) as int
        } by {
        let tn = spec_counter_target(n);
        let t = spec_counter_target(name);
        if n != name && tn != CounterTarget::Named && t != CounterTarget::Named {
            assert(LogCounters::fixed_index(tn) != LogCounters::fixed_index(t));
        }
    }
}

} // verus!
