//! Spans of wall-clock time.
use vstd::prelude::*;

verus! {

/// How long something may take.
///
/// Elapsed times are compared with it in nanoseconds.
#[derive(Debug, Clone, Copy)]
pub struct TimeLimit {
    secs: u64,
    subsec_nanos: u32,
}

/// How `{:?}` shows a duration of that many seconds and nanoseconds, such as `60s` or `1.5s`.
pub uninterp spec fn duration_text(secs: u64, subsec_nanos: u32) -> Seq<char>;

/// Formats a duration with `{:?}`, through the standard library's `Debug` implementation of
/// `Duration`. Claimed is only that the outcome depends on nothing but the two numbers. With a full
/// second of nanoseconds `Duration::new` would carry it over, and could panic.
#[verifier::external_body]
fn debug_duration(secs: u64, subsec_nanos: u32) -> (text: String)
    requires
        subsec_nanos < 1_000_000_000,
    ensures
        text@ == duration_text(secs, subsec_nanos),
{
    format!("{:?}", std::time::Duration::new(secs, subsec_nanos))
}

impl TimeLimit {
    #[verifier::type_invariant]
    spec fn less_than_a_second(&self) -> bool {
        self.subsec_nanos < 1_000_000_000
    }

    /// The whole limit in nanoseconds.
    pub closed spec fn spec_nanos(&self) -> nat {
        (self.secs * 1_000_000_000 + self.subsec_nanos) as nat
    }

    /// The limit as `{:?}` shows it.
    pub closed spec fn words(&self) -> Seq<char> {
        duration_text(self.secs, self.subsec_nanos)
    }

    /// A limit of some seconds and a fraction of a second.
    pub fn new(secs: u64, subsec_nanos: u32) -> (limit: Self)
        requires
            subsec_nanos < 1_000_000_000,
        ensures
            limit.spec_nanos() == secs * 1_000_000_000 + subsec_nanos,
            limit.words() == duration_text(secs, subsec_nanos),
    {
        TimeLimit { secs, subsec_nanos }
    }

    /// The whole limit in nanoseconds.
    pub fn nanos(&self) -> (nanos: u128)
        ensures
            nanos == self.spec_nanos(),
    {
        self.secs as u128 * 1_000_000_000 + self.subsec_nanos as u128
    }

    /// Shows the limit.
    pub fn message(&self) -> (text: String)
        ensures
            text@ == self.words(),
    {
        proof {
            use_type_invariant(self);
        }
        debug_duration(self.secs, self.subsec_nanos)
    }
}

/// The time from `since` to `now`; none if `now` is not later.
pub open spec fn elapsed_between(since: nat, now: nat) -> nat {
    if now > since {
        (now - since) as nat
    } else {
        0
    }
}

/// The time from `since` to `now`; none if `now` is not later.
pub fn elapsed(since: u128, now: u128) -> (nanos: u128)
    ensures
        nanos == elapsed_between(since as nat, now as nat),
{
    if now > since {
        now - since
    } else {
        0
    }
}

/// A limit is as long as its seconds and nanoseconds together, and is shown as they are.
pub proof fn limits_are_as_long_as_their_parts(
    secs: u64,
    subsec_nanos: u32,
    limit: TimeLimit,
    nanos: u128,
    shown: String,
)
    requires
        subsec_nanos < 1_000_000_000,
        call_ensures(TimeLimit::new, (secs, subsec_nanos), limit),
        call_ensures(TimeLimit::nanos, (&limit,), nanos),
        call_ensures(TimeLimit::message, (&limit,), shown),
    ensures
        nanos == secs * 1_000_000_000 + subsec_nanos,
        nanos == limit.spec_nanos(),
        shown@ == duration_text(secs, subsec_nanos),
        shown@ == limit.words(),
{
}

/// The time that has passed is the difference of the two times, and none if the second is not later.
pub proof fn elapsed_time_never_runs_backwards(since: u128, now: u128, nanos: u128)
    requires
        call_ensures(elapsed, (since, now), nanos),
    ensures
        now >= since ==> since + nanos == now,
        now < since ==> nanos == 0,
{
}

} // verus!
