//! Waiting for data: until a file has been loaded, until the first live data arrives, and until the
//! last live data has arrived.
//!
//! Times are nanoseconds since the wait began.
use vstd::prelude::*;
use crate::clock::{elapsed, elapsed_between, TimeLimit};
use crate::error::RenderError;
use crate::history::{last_all, lemma_trailing_run, lemma_trailing_run_push, trailing_run};
use crate::producer::ProducerStatus;

verus! {

/// For how many looks in a row a recording has to be active, with no receiver left, before it
/// counts as loaded although no receiver was ever seen.
pub const SUSTAINED_READY_STEPS: u32 = 100;

/// What one look at a loading viewer shows.
#[derive(Debug, Clone, Copy, PartialEq, Eq, Structural)]
pub struct LoadLook {
    /// Are there no data sources that could still deliver?
    pub receivers_empty: bool,
    /// Is a recording active?
    pub recording_active: bool,
}

impl LoadLook {
    /// A recording is active, and nothing can be added to it.
    pub open spec fn ready(self) -> bool {
        self.recording_active && self.receivers_empty
    }
}

/// For each look: was the viewer ready?
pub open spec fn ready_answers(looks: Seq<LoadLook>) -> Seq<bool> {
    looks.map_values(|look: LoadLook| look.ready())
}

/// Was a data source seen at any look?
pub open spec fn saw_receiver(looks: Seq<LoadLook>) -> bool {
    exists|i: int| 0 <= i < looks.len() && !(#[trigger] looks[i]).receivers_empty
}

/// Is the recording loaded after these looks? The viewer is ready, and either a data source was
/// seen at some time, or it has been ready for so long that loading must be over: right at startup
/// it looks ready too, and a small file can be loaded before its source is ever seen.
pub open spec fn load_complete(looks: Seq<LoadLook>) -> bool {
    &&& looks.len() > 0
    &&& looks.last().ready()
    &&& saw_receiver(looks) || last_all(ready_answers(looks), SUSTAINED_READY_STEPS as int)
}

/// How the wait for a recording goes on.
#[derive(Debug, Clone, Copy, PartialEq, Eq, Structural)]
pub enum LoadVerdict {
    /// The active recording is complete.
    Loaded,
    /// It took too long.
    TimedOut,
    /// Look again after a moment.
    Wait,
}

/// The wait until the data source of a file has been read to its end.
pub struct LoadWait {
    saw_receiver: bool,
    steps_ready: u32,
    looks: Ghost<Seq<LoadLook>>,
}

impl LoadWait {
    /// The looks taken so far.
    pub closed spec fn looks(&self) -> Seq<LoadLook> {
        self.looks@
    }

    pub closed spec fn well_formed(&self) -> bool {
        &&& self.saw_receiver == saw_receiver(self.looks@)
        &&& self.steps_ready <= SUSTAINED_READY_STEPS
        &&& self.steps_ready < SUSTAINED_READY_STEPS ==> self.steps_ready == trailing_run(
            ready_answers(self.looks@),
        )
        &&& self.steps_ready == SUSTAINED_READY_STEPS ==> trailing_run(ready_answers(self.looks@))
            >= SUSTAINED_READY_STEPS
    }

    /// Before the first look.
    pub fn new() -> (wait: Self)
        ensures
            wait.well_formed(),
            wait.looks() == Seq::<LoadLook>::empty(),
    {
        LoadWait { saw_receiver: false, steps_ready: 0, looks: Ghost(Seq::empty()) }
    }

    /// Takes in one look at the viewer, `elapsed_nanos` after the wait began.
    pub fn look(&mut self, look: LoadLook, elapsed_nanos: u128, limit: TimeLimit) -> (verdict:
        LoadVerdict)
        requires
            old(self).well_formed(),
        ensures
            final(self).well_formed(),
            final(self).looks() == old(self).looks().push(look),
            verdict == if load_complete(final(self).looks()) {
                LoadVerdict::Loaded
            } else if elapsed_nanos > limit.spec_nanos() {
                LoadVerdict::TimedOut
            } else {
                LoadVerdict::Wait
            },
    {
        let ghost before = self.looks@;
        let ghost after = before.push(look);
        proof {
            self.looks@ = after;
            assert(ready_answers(after) == ready_answers(before).push(look.ready()));
            lemma_trailing_run_push(ready_answers(before), look.ready());
            lemma_trailing_run(ready_answers(after), SUSTAINED_READY_STEPS as int);
            assert(after.last() == look);
            if saw_receiver(before) {
                let i = choose|i: int|
                    0 <= i < before.len() && !(#[trigger] before[i]).receivers_empty;
                assert(after[i] == before[i]);
            }
            if saw_receiver(after) && look.receivers_empty {
                let i = choose|i: int| 0 <= i < after.len() && !(#[trigger] after[i]).receivers_empty;
                assert(before[i] == after[i]);
            }
        }
        if !look.receivers_empty {
            self.saw_receiver = true;
        }
        if look.recording_active && look.receivers_empty {
            if self.steps_ready < SUSTAINED_READY_STEPS {
                self.steps_ready = self.steps_ready + 1;
            }
            if self.saw_receiver || self.steps_ready >= SUSTAINED_READY_STEPS {
                return LoadVerdict::Loaded;
            }
        } else {
            self.steps_ready = 0;
        }
        if elapsed_nanos > limit.nanos() {
            LoadVerdict::TimedOut
        } else {
            LoadVerdict::Wait
        }
    }
}

/// Before any data source is seen, fewer than a hundred looks never make a recording count as
/// loaded, whatever they show.
pub proof fn startup_is_not_loaded(looks: Seq<LoadLook>)
    requires
        looks.len() < SUSTAINED_READY_STEPS,
        !saw_receiver(looks),
    ensures
        !load_complete(looks),
{
}

/// A recording does not count as loaded while a data source is there that could still deliver.
pub proof fn open_receivers_are_not_loaded(looks: Seq<LoadLook>)
    requires
        looks.len() > 0,
        !looks.last().receivers_empty,
    ensures
        !load_complete(looks),
{
}

/// After the producer disconnects, how long the store has to be quiet before what is in it is
/// trusted, in nanoseconds: the last messages can still be in flight.
pub const DISCONNECT_DRAIN_QUIET_NANOS: u128 = 250_000_000;

/// How long to wait for messages in flight at most, in nanoseconds.
pub const DISCONNECT_DRAIN_MAX_NANOS: u128 = 10_000_000_000;

/// What one look at a viewer shows that has not got any live data yet.
#[derive(Debug, Clone, Copy, PartialEq, Eq, Structural)]
pub struct FirstDataLook {
    pub status: ProducerStatus,
    pub now: u128,
}

/// For each look: was the producer gone?
pub open spec fn gone_answers(looks: Seq<FirstDataLook>) -> Seq<bool> {
    looks.map_values(|look: FirstDataLook| look.status == ProducerStatus::Disconnected)
}

/// Since when the producer has been gone without a break: the first look that found it gone, after
/// the last one that did not.
pub open spec fn gone_since(looks: Seq<FirstDataLook>) -> u128 {
    looks[looks.len() - trailing_run(gone_answers(looks))].now
}

/// How the wait for the first live data goes on.
#[derive(Debug, Clone, Copy, PartialEq, Eq, Structural)]
pub enum FirstDataVerdict {
    /// There is a recording.
    Arrived,
    /// The producer left, and nothing of it was in flight.
    NothingLogged,
    /// It took too long; see [`first_data_timeout`].
    TimedOut,
    /// Look again after a moment.
    Wait,
}

/// The verdict if there is still no recording at the last look.
pub open spec fn no_data_verdict(looks: Seq<FirstDataLook>, connect_nanos: nat) -> FirstDataVerdict {
    let last = looks.last();
    if last.status == ProducerStatus::Disconnected && elapsed_between(
        gone_since(looks) as nat,
        last.now as nat,
    ) > DISCONNECT_DRAIN_MAX_NANOS {
        FirstDataVerdict::NothingLogged
    } else if last.now > connect_nanos {
        FirstDataVerdict::TimedOut
    } else {
        FirstDataVerdict::Wait
    }
}

/// The wait until the first live data has arrived.
pub struct FirstDataWait {
    disconnected_since: Option<u128>,
    looks: Ghost<Seq<FirstDataLook>>,
}

impl FirstDataWait {
    /// The looks taken so far that did not show a recording.
    pub closed spec fn looks(&self) -> Seq<FirstDataLook> {
        self.looks@
    }

    pub closed spec fn well_formed(&self) -> bool {
        match self.disconnected_since {
            None => trailing_run(gone_answers(self.looks@)) == 0,
            Some(since) => {
                &&& trailing_run(gone_answers(self.looks@)) > 0
                &&& since == gone_since(self.looks@)
            },
        }
    }

    /// Before the first look.
    pub fn new() -> (wait: Self)
        ensures
            wait.well_formed(),
            wait.looks() == Seq::<FirstDataLook>::empty(),
    {
        FirstDataWait { disconnected_since: None, looks: Ghost(Seq::empty()) }
    }

    /// Takes in one look at the viewer: whether a recording is active, the producer's status, and
    /// the time since the wait began.
    pub fn look(
        &mut self,
        recording_active: bool,
        status: ProducerStatus,
        now: u128,
        connect_timeout: TimeLimit,
    ) -> (verdict: FirstDataVerdict)
        requires
            old(self).well_formed(),
        ensures
            final(self).well_formed(),
            recording_active ==> {
                &&& verdict == FirstDataVerdict::Arrived
                &&& final(self).looks() == old(self).looks()
            },
            !recording_active ==> {
                &&& final(self).looks() == old(self).looks().push(FirstDataLook { status, now })
                &&& verdict == no_data_verdict(final(self).looks(), connect_timeout.spec_nanos())
            },
    {
        if recording_active {
            return FirstDataVerdict::Arrived;
        }
        let ghost before = self.looks@;
        let ghost after = before.push(FirstDataLook { status, now });
        proof {
            self.looks@ = after;
            let gone = status == ProducerStatus::Disconnected;
            assert(gone_answers(after) == gone_answers(before).push(gone));
            lemma_trailing_run_push(gone_answers(before), gone);
            lemma_trailing_run(gone_answers(before), 0);
        }
        match status {
            ProducerStatus::Disconnected => {
                // The data of a producer that is gone may still be in flight.
                let since: u128 = match self.disconnected_since {
                    Some(since) => since,
                    None => now,
                };
                self.disconnected_since = Some(since);
                if elapsed(since, now) > DISCONNECT_DRAIN_MAX_NANOS {
                    return FirstDataVerdict::NothingLogged;
                }
            },
            ProducerStatus::NeverConnected | ProducerStatus::Connected => {
                self.disconnected_since = None;
            },
        }
        if now > connect_timeout.nanos() {
            FirstDataVerdict::TimedOut
        } else {
            FirstDataVerdict::Wait
        }
    }
}

/// The error of a wait that took too long, given the producer's status at that time.
pub fn first_data_timeout(status: ProducerStatus, connect_timeout: TimeLimit) -> (err: RenderError)
    ensures
        err == if status == ProducerStatus::NeverConnected {
            RenderError::ConnectTimeout { limit: connect_timeout }
        } else {
            RenderError::DataTimeout { limit: connect_timeout }
        },
{
    if status == ProducerStatus::NeverConnected {
        RenderError::ConnectTimeout { limit: connect_timeout }
    } else {
        RenderError::DataTimeout { limit: connect_timeout }
    }
}

/// A wait for a client that never connects ends with a timeout, and no later than the first look
/// after the time is over.
pub proof fn missing_client_times_out(looks: Seq<FirstDataLook>, connect_nanos: nat)
    requires
        looks.len() > 0,
        looks.last().status == ProducerStatus::NeverConnected,
    ensures
        no_data_verdict(looks, connect_nanos) == if looks.last().now > connect_nanos {
            FirstDataVerdict::TimedOut
        } else {
            FirstDataVerdict::Wait
        },
{
}

/// A count of the changes of a store: what was inserted, and what was collected as garbage.
#[derive(Debug, Clone, Copy, PartialEq, Eq, Structural)]
pub struct StoreGeneration {
    pub insertions: u64,
    pub collections: u64,
}

/// What one look at a store shows; the generation is `None` if there is no store.
#[derive(Debug, Clone, Copy, PartialEq, Eq, Structural)]
pub struct DrainLook {
    pub generation: Option<StoreGeneration>,
    pub now: u128,
}

/// The generation seen last.
pub open spec fn last_generation(looks: Seq<DrainLook>) -> Option<StoreGeneration> {
    if looks.len() == 0 {
        None
    } else {
        looks.last().generation
    }
}

/// Since when nothing has changed: the last look at which the generation was another one than
/// before, or the beginning.
pub open spec fn quiet_since(looks: Seq<DrainLook>) -> u128
    decreases looks.len(),
{
    if looks.len() == 0 {
        0
    } else if looks.last().generation != last_generation(looks.drop_last()) {
        looks.last().now
    } else {
        quiet_since(looks.drop_last())
    }
}

/// Has the store been quiet for long enough at the last look? Not if it has just changed.
pub open spec fn drained(looks: Seq<DrainLook>) -> bool {
    &&& looks.len() > 0
    &&& looks.last().generation == last_generation(looks.drop_last())
    &&& elapsed_between(quiet_since(looks) as nat, looks.last().now as nat)
        >= DISCONNECT_DRAIN_QUIET_NANOS
}

/// The wait until a producer's last messages have arrived.
pub struct DisconnectDrain {
    last_generation: Option<StoreGeneration>,
    quiet_since: u128,
    looks: Ghost<Seq<DrainLook>>,
}

impl DisconnectDrain {
    /// The looks taken so far.
    pub closed spec fn looks(&self) -> Seq<DrainLook> {
        self.looks@
    }

    pub closed spec fn well_formed(&self) -> bool {
        &&& self.last_generation == last_generation(self.looks@)
        &&& self.quiet_since == quiet_since(self.looks@)
    }

    /// Before the first look.
    pub fn new() -> (drain: Self)
        ensures
            drain.well_formed(),
            drain.looks() == Seq::<DrainLook>::empty(),
    {
        DisconnectDrain { last_generation: None, quiet_since: 0, looks: Ghost(Seq::empty()) }
    }

    /// Is there time for another look? If not, the store is still changing, and the tail of the
    /// recording may be missing.
    pub fn goes_on(&self, now: u128) -> (goes_on: bool)
        ensures
            goes_on == (now < DISCONNECT_DRAIN_MAX_NANOS),
    {
        now < DISCONNECT_DRAIN_MAX_NANOS
    }

    /// Takes in one look at the store. Tells whether the wait is over.
    pub fn look(&mut self, generation: Option<StoreGeneration>, now: u128) -> (done: bool)
        requires
            old(self).well_formed(),
        ensures
            final(self).well_formed(),
            final(self).looks() == old(self).looks().push(DrainLook { generation, now }),
            done == drained(final(self).looks()),
    {
        proof {
            let before = self.looks@;
            self.looks@ = before.push(DrainLook { generation, now });
            assert(self.looks@.drop_last() == before);
        }
        if generation != self.last_generation {
            self.last_generation = generation;
            self.quiet_since = now;
            false
        } else {
            elapsed(self.quiet_since, now) >= DISCONNECT_DRAIN_QUIET_NANOS
        }
    }
}

/// When a drain is over, every look in the quiet window has shown the same generation: nothing has
/// landed in the store during it.
pub proof fn drained_store_is_unchanged(looks: Seq<DrainLook>, i: int)
    requires
        drained(looks),
        0 <= i < looks.len(),
        forall|j: int, k: int|
            0 <= j <= k < looks.len() ==> (#[trigger] looks[j]).now <= (#[trigger] looks[k]).now,
        looks[i].now > quiet_since(looks),
    ensures
        looks[i].generation == looks.last().generation,
{
    lemma_unchanged_since(looks, i);
}

proof fn lemma_unchanged_since(looks: Seq<DrainLook>, i: int)
    requires
        0 <= i < looks.len(),
        forall|j: int, k: int|
            0 <= j <= k < looks.len() ==> (#[trigger] looks[j]).now <= (#[trigger] looks[k]).now,
        looks[i].now > quiet_since(looks),
    ensures
        looks[i].generation == looks.last().generation,
    decreases looks.len(),
{
    let before = looks.drop_last();
    if looks.last().generation != last_generation(before) {
        assert(looks[i].now <= looks[looks.len() - 1].now);
    } else if i < looks.len() - 1 {
        assert forall|j: int, k: int| 0 <= j <= k < before.len() implies (#[trigger] before[j]).now
            <= (#[trigger] before[k]).now by {
            assert(before[j] == looks[j] && before[k] == looks[k]);
        }
        lemma_unchanged_since(before, i);
    }
}

/// A recording counts as loaded exactly if it is active with no data source left at the last look, and
/// either a data source was there at some look or this has been so for the last hundred looks. Only
/// if it is not loaded the time counts: past the limit the wait is over, and up to it another look is
/// taken.
pub proof fn loaded_means_read_to_the_end(
    wait: &mut LoadWait,
    look: LoadLook,
    elapsed_nanos: u128,
    limit: TimeLimit,
    verdict: LoadVerdict,
)
    requires
        old(wait).well_formed(),
        call_ensures(LoadWait::look, (wait, look, elapsed_nanos, limit), verdict),
    ensures
        final(wait).well_formed(),
        final(wait).looks() == old(wait).looks().push(look),
        ({
            let looks = final(wait).looks();
            let seen = exists|i: int| 0 <= i < looks.len() && !(#[trigger] looks[i]).receivers_empty;
            let lasting = looks.len() >= 100 && forall|i: int|
                looks.len() - 100 <= i < looks.len() ==> (#[trigger] looks[i]).recording_active
                    && looks[i].receivers_empty;
            let loaded = look.recording_active && look.receivers_empty && (seen || lasting);
            &&& verdict == LoadVerdict::Loaded <==> loaded
            &&& verdict == LoadVerdict::TimedOut <==> !loaded && elapsed_nanos > limit.spec_nanos()
            &&& verdict == LoadVerdict::Wait <==> !loaded && elapsed_nanos <= limit.spec_nanos()
        }),
{
    loading_goes_by_what_was_seen(final(wait).looks());
}

/// When a recording counts as loaded goes by what was seen at the looks, and by nothing else.
pub proof fn loading_goes_by_what_was_seen(looks: Seq<LoadLook>)
    ensures
        load_complete(looks) <==> looks.len() > 0 && looks.last().recording_active
            && looks.last().receivers_empty && ((exists|i: int|
            0 <= i < looks.len() && !(#[trigger] looks[i]).receivers_empty) || (looks.len() >= 100
            && forall|i: int|
            looks.len() - 100 <= i < looks.len() ==> (#[trigger] looks[i]).recording_active
                && looks[i].receivers_empty)),
{
    let ready = ready_answers(looks);
    if last_all(ready, 100) {
        assert forall|i: int| looks.len() - 100 <= i < looks.len() implies (
        #[trigger] looks[i]).recording_active && looks[i].receivers_empty by {
            assert(ready[i] == looks[i].ready());
        }
    }
    if looks.len() >= 100 && forall|i: int|
        looks.len() - 100 <= i < looks.len() ==> (#[trigger] looks[i]).recording_active
            && looks[i].receivers_empty {
        assert forall|i: int| ready.len() - 100 <= i < ready.len() implies #[trigger] ready[i] by {
            assert(looks[i].recording_active);
        }
    }
}

/// Has the producer been gone at every look from the `from`-th one on, and not at the one before it?
pub open spec fn gone_from(looks: Seq<FirstDataLook>, from: int) -> bool {
    &&& 0 <= from < looks.len()
    &&& forall|i: int|
        from <= i < looks.len() ==> (#[trigger] looks[i]).status == ProducerStatus::Disconnected
    &&& from > 0 ==> looks[from - 1].status != ProducerStatus::Disconnected
}

/// Without a recording, the wait for live data ends when the producer has been gone for more than ten
/// seconds, counted from the first look that found it gone since it was last there; and otherwise when
/// the time limit for a connection is over. Until then another look is taken.
pub proof fn a_producer_that_left_is_given_ten_seconds(
    wait: &mut FirstDataWait,
    status: ProducerStatus,
    now: u128,
    connect_timeout: TimeLimit,
    verdict: FirstDataVerdict,
    from: int,
)
    requires
        old(wait).well_formed(),
        call_ensures(FirstDataWait::look, (wait, false, status, now, connect_timeout), verdict),
        status == ProducerStatus::Disconnected ==> gone_from(
            old(wait).looks().push(FirstDataLook { status, now }),
            from,
        ),
    ensures
        final(wait).well_formed(),
        final(wait).looks() == old(wait).looks().push(FirstDataLook { status, now }),
        ({
            let left = status == ProducerStatus::Disconnected && now - final(wait).looks()[from].now
                > 10_000_000_000;
            &&& verdict == FirstDataVerdict::NothingLogged <==> left
            &&& verdict == FirstDataVerdict::TimedOut <==> !left && now
                > connect_timeout.spec_nanos()
            &&& verdict == FirstDataVerdict::Wait <==> !left && now <= connect_timeout.spec_nanos()
        }),
{
    if status == ProducerStatus::Disconnected {
        lemma_gone_since(final(wait).looks(), from);
    }
}

proof fn lemma_gone_since(looks: Seq<FirstDataLook>, from: int)
    requires
        gone_from(looks, from),
    ensures
        gone_since(looks) == looks[from].now,
{
    let gone = gone_answers(looks);
    let n = looks.len() - from;
    assert forall|i: int| gone.len() - n <= i < gone.len() implies #[trigger] gone[i] by {
        assert(looks[i].status == ProducerStatus::Disconnected);
    }
    lemma_trailing_run(gone, n);
    lemma_trailing_run(gone, n + 1);
    if from > 0 && last_all(gone, n + 1) {
        assert(gone[from - 1]);
    }
}

/// The verdict without a recording goes by how long the producer has been gone, and by the time.
pub proof fn waiting_goes_by_the_producer_and_the_time(
    looks: Seq<FirstDataLook>,
    connect_nanos: nat,
    from: int,
)
    requires
        looks.len() > 0,
        looks.last().status == ProducerStatus::Disconnected ==> gone_from(looks, from),
    ensures
        ({
            let last = looks.last();
            let left = last.status == ProducerStatus::Disconnected && last.now - looks[from].now
                > 10_000_000_000;
            no_data_verdict(looks, connect_nanos) == if left {
                FirstDataVerdict::NothingLogged
            } else if last.now > connect_nanos {
                FirstDataVerdict::TimedOut
            } else {
                FirstDataVerdict::Wait
            }
        }),
{
    if looks.last().status == ProducerStatus::Disconnected {
        lemma_gone_since(looks, from);
    }
}

/// A recording ends the wait for live data at once, whatever became of the producer and however long it
/// took.
pub proof fn a_recording_ends_the_wait(
    wait: &mut FirstDataWait,
    status: ProducerStatus,
    now: u128,
    connect_timeout: TimeLimit,
    verdict: FirstDataVerdict,
)
    requires
        old(wait).well_formed(),
        call_ensures(FirstDataWait::look, (wait, true, status, now, connect_timeout), verdict),
    ensures
        verdict == FirstDataVerdict::Arrived,
        final(wait).looks() == old(wait).looks(),
{
}

/// Whether a client never connected or connected without logging anything is told apart; the time limit
/// is told as it is.
pub proof fn a_missing_client_is_told_from_a_silent_one(
    status: ProducerStatus,
    connect_timeout: TimeLimit,
    err: RenderError,
)
    requires
        call_ensures(first_data_timeout, (status, connect_timeout), err),
    ensures
        status == ProducerStatus::NeverConnected ==> err == (RenderError::ConnectTimeout {
            limit: connect_timeout,
        }),
        status != ProducerStatus::NeverConnected ==> err == (RenderError::DataTimeout {
            limit: connect_timeout,
        }),
{
}

/// Has the store shown the same generation at every look from the `from`-th one on, and another one, or
/// none, before it?
pub open spec fn unchanged_from(looks: Seq<DrainLook>, from: int) -> bool {
    &&& 0 <= from < looks.len()
    &&& forall|i: int|
        from <= i < looks.len() ==> (#[trigger] looks[i]).generation == looks[from].generation
    &&& from > 0 ==> looks[from - 1].generation != looks[from].generation
}

/// Since when a store has been quiet: since the look at which its present generation showed up. A store
/// that was never there has been quiet since the beginning.
proof fn lemma_quiet_since(looks: Seq<DrainLook>, from: int)
    requires
        unchanged_from(looks, from),
    ensures
        quiet_since(looks) == if from == 0 && looks[0].generation is None {
            0
        } else {
            looks[from].now
        },
    decreases looks.len(),
{
    reveal_with_fuel(quiet_since, 2);
    let before = looks.drop_last();
    if from < looks.len() - 1 {
        assert(before[from] == looks[from]);
        assert forall|i: int| from <= i < before.len() implies (#[trigger] before[i]).generation
            == before[from].generation by {
            assert(before[i] == looks[i]);
        }
        assert(looks[looks.len() - 2].generation == looks[from].generation);
        assert(looks[looks.len() - 1].generation == looks[from].generation);
        lemma_quiet_since(before, from);
    } else if from > 0 {
        assert(before.last() == looks[from - 1]);
    } else {
        assert(before.len() == 0);
    }
}

/// The last messages have arrived exactly if the store has shown the same generation for a quarter of
/// a second, counted from the look at which it showed up, and at that look itself not yet. A store
/// that was never there counts as unchanged since the beginning.
pub proof fn a_store_is_drained_once_it_is_quiet(
    drain: &mut DisconnectDrain,
    generation: Option<StoreGeneration>,
    now: u128,
    done: bool,
    from: int,
)
    requires
        old(drain).well_formed(),
        call_ensures(DisconnectDrain::look, (drain, generation, now), done),
        unchanged_from(old(drain).looks().push(DrainLook { generation, now }), from),
    ensures
        final(drain).well_formed(),
        final(drain).looks() == old(drain).looks().push(DrainLook { generation, now }),
        ({
            let looks = final(drain).looks();
            let never_there = from == 0 && generation is None;
            done <==> if never_there {
                now >= 250_000_000
            } else {
                from < looks.len() - 1 && now - looks[from].now >= 250_000_000
            }
        }),
{
    let looks = final(drain).looks();
    lemma_quiet_since(looks, from);
    let before = looks.drop_last();
    assert(before == old(drain).looks());
    assert(looks.last() == looks[looks.len() - 1]);
    if from < looks.len() - 1 {
        assert(looks[looks.len() - 2].generation == looks[from].generation);
        assert(before.last() == looks[looks.len() - 2]);
    } else if from > 0 {
        assert(before.last() == looks[from - 1]);
    }
}

/// A drain goes on for less than ten seconds; each wait begins without a look.
pub proof fn drains_take_less_than_ten_seconds(
    drain: &DisconnectDrain,
    now: u128,
    goes_on: bool,
    load: LoadWait,
    first: FirstDataWait,
    fresh: DisconnectDrain,
)
    requires
        call_ensures(DisconnectDrain::goes_on, (drain, now), goes_on),
        call_ensures(LoadWait::new, (), load),
        call_ensures(FirstDataWait::new, (), first),
        call_ensures(DisconnectDrain::new, (), fresh),
    ensures
        goes_on <==> now < 10_000_000_000,
        load.well_formed() && load.looks().len() == 0,
        first.well_formed() && first.looks().len() == 0,
        fresh.well_formed() && fresh.looks().len() == 0,
{
}

} // verus!
