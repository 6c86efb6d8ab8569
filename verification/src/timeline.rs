//! The timelines of a recording.
use vstd::prelude::*;
use crate::error::RenderError;
use crate::text;

verus! {

/// What the numbers on a timeline count.
#[derive(Debug, Clone, Copy, PartialEq, Eq, Structural)]
pub enum TimeType {
    /// Ticks, without any relation to time.
    Sequence,
    /// Nanoseconds since some start.
    DurationNs,
    /// Nanoseconds since the Unix epoch.
    TimestampNs,
}

impl TimeType {
    /// The name of the type.
    pub open spec fn label_text(self) -> Seq<char> {
        match self {
            TimeType::Sequence => "Sequence"@,
            TimeType::DurationNs => "DurationNs"@,
            TimeType::TimestampNs => "TimestampNs"@,
        }
    }

    /// The name of the type.
    pub fn label(self) -> (label: &'static str)
        ensures
            label@ == self.label_text(),
    {
        match self {
            TimeType::Sequence => "Sequence",
            TimeType::DurationNs => "DurationNs",
            TimeType::TimestampNs => "TimestampNs",
        }
    }

    /// How many units of the timeline one unit of a `--start` or `--end` offset is: seconds on
    /// temporal timelines, ticks on sequence timelines.
    pub open spec fn spec_offset_unit(self) -> u64 {
        match self {
            TimeType::Sequence => 1,
            TimeType::DurationNs | TimeType::TimestampNs => 1_000_000_000,
        }
    }

    /// How many units of the timeline one unit of a `--start` or `--end` offset is.
    pub fn offset_unit(self) -> (unit: u64)
        ensures
            unit == self.spec_offset_unit(),
    {
        match self {
            TimeType::Sequence => 1,
            TimeType::DurationNs | TimeType::TimestampNs => 1_000_000_000,
        }
    }
}

/// The name of a timeline. It is never empty.
#[derive(Debug)]
pub struct TimelineName {
    name: String,
}

impl View for TimelineName {
    type V = Seq<char>;

    closed spec fn view(&self) -> Seq<char> {
        self.name@
    }
}

impl Clone for TimelineName {
    fn clone(&self) -> (copy: Self)
        ensures
            copy@ == self@,
    {
        proof {
            use_type_invariant(self);
        }
        TimelineName { name: self.name.clone() }
    }
}

impl TimelineName {
    #[verifier::type_invariant]
    spec fn not_empty(&self) -> bool {
        self.name@.len() > 0
    }

    /// A timeline name with the given characters, unless there are none.
    pub fn try_new(name: &str) -> (res: Result<TimelineName, RenderError>)
        ensures
            match res {
                Ok(timeline) => name@.len() > 0 && timeline@ == name@,
                Err(err) => name@.len() == 0 && err is EmptyTimelineName,
            },
    {
        if name.is_empty() {
            Err(RenderError::EmptyTimelineName)
        } else {
            Ok(TimelineName { name: name.to_owned() })
        }
    }

    /// The timeline that every SDK logs by itself. It advances with each log call.
    pub fn log_tick() -> (name: TimelineName)
        ensures
            name@ == "log_tick"@,
    {
        proof {
            reveal_strlit("log_tick");
        }
        TimelineName { name: "log_tick".to_owned() }
    }

    /// The characters of the name.
    pub fn as_str(&self) -> (name: &str)
        ensures
            name@ == self@,
    {
        self.name.as_str()
    }

    /// Are the two names the same?
    pub fn same(&self, other: &TimelineName) -> (same: bool)
        ensures
            same == (self@ == other@),
    {
        self.name == other.name
    }

    /// Does this name come before the other one?
    pub fn precedes(&self, other: &TimelineName) -> (before: bool)
        ensures
            before == text::precedes(self@, other@),
    {
        text::comes_before(self.name.as_str(), other.name.as_str())
    }
}

/// The lowest and highest time that any data has on a timeline.
#[derive(Debug, Clone, Copy, PartialEq, Eq, Structural)]
pub struct TickRange {
    pub min: i64,
    pub max: i64,
}

/// One timeline of a recording, and the range of its data if there is any.
#[derive(Debug)]
pub struct Timeline {
    pub name: TimelineName,
    pub typ: TimeType,
    pub range: Option<TickRange>,
}

/// What is known of one timeline.
pub struct TimelineView {
    pub name: Seq<char>,
    pub typ: TimeType,
    pub range: Option<TickRange>,
}

impl View for Timeline {
    type V = TimelineView;

    open spec fn view(&self) -> TimelineView {
        TimelineView { name: self.name@, typ: self.typ, range: self.range }
    }
}

impl Clone for Timeline {
    fn clone(&self) -> (copy: Self)
        ensures
            copy@ == self@,
    {
        Timeline { name: self.name.clone(), typ: self.typ, range: self.range }
    }
}

/// The contents of some timelines.
pub open spec fn views(timelines: Seq<Timeline>) -> Seq<TimelineView> {
    timelines.map_values(|timeline: Timeline| timeline@)
}

/// The contents of some timeline names.
pub open spec fn name_texts(names: Seq<TimelineName>) -> Seq<Seq<char>> {
    names.map_values(|name: TimelineName| name@)
}

/// The names of some timelines.
pub open spec fn names_of(timelines: Seq<TimelineView>) -> Seq<Seq<char>> {
    timelines.map_values(|timeline: TimelineView| timeline.name)
}

/// Does no name occur twice?
pub open spec fn names_distinct(timelines: Seq<TimelineView>) -> bool {
    forall|i: int, j: int|
        0 <= i < j < timelines.len() ==> (#[trigger] timelines[i]).name != (
        #[trigger] timelines[j]).name
}

/// Do the names come in order? None of them occurs twice then.
pub open spec fn in_name_order(timelines: Seq<TimelineView>) -> bool {
    forall|i: int, j: int|
        0 <= i < j < timelines.len() ==> text::precedes(
            (#[trigger] timelines[i]).name,
            (#[trigger] timelines[j]).name,
        )
}

/// The timeline called `name`.
pub open spec fn lookup(timelines: Seq<TimelineView>, name: Seq<char>) -> Option<TimelineView>
    decreases timelines.len(),
{
    if timelines.len() == 0 {
        None
    } else if timelines[0].name == name {
        Some(timelines[0])
    } else {
        lookup(timelines.skip(1), name)
    }
}

/// `timelines` with `added` at its place in the order of the names, instead of the one that has its
/// name, if there is one.
pub open spec fn inserted(timelines: Seq<TimelineView>, added: TimelineView) -> Seq<TimelineView>
    decreases timelines.len(),
{
    if timelines.len() == 0 {
        seq![added]
    } else if text::precedes(timelines[0].name, added.name) {
        seq![timelines[0]] + inserted(timelines.skip(1), added)
    } else if timelines[0].name == added.name {
        timelines.update(0, added)
    } else {
        seq![added] + timelines
    }
}

/// The timelines that a recording knows about so far, in the order of their names.
pub struct TimelineTable {
    entries: Vec<Timeline>,
}

impl View for TimelineTable {
    type V = Seq<TimelineView>;

    closed spec fn view(&self) -> Seq<TimelineView> {
        views(self.entries@)
    }
}

impl TimelineTable {
    /// The names come in order, so no name occurs twice.
    pub closed spec fn well_formed(&self) -> bool {
        in_name_order(self@)
    }

    /// The names of a table come in order, and none of them occurs twice.
    pub proof fn names_are_in_order(&self)
        requires
            self.well_formed(),
        ensures
            in_name_order(self@),
            names_distinct(self@),
    {
        lemma_in_order_distinct(self@);
    }

    /// No timelines.
    pub fn new() -> (table: Self)
        ensures
            table.well_formed(),
            table@ == Seq::<TimelineView>::empty(),
    {
        let table = TimelineTable { entries: Vec::new() };
        assert(table@ == Seq::<TimelineView>::empty());
        table
    }

    /// Adds a timeline, instead of the one that has its name, if there is one.
    pub fn insert(&mut self, timeline: Timeline)
        requires
            old(self).well_formed(),
        ensures
            final(self).well_formed(),
            final(self)@ == inserted(old(self)@, timeline@),
    {
        let ghost before = self@;
        let ghost added = timeline@;
        let at: usize = self.place(&timeline.name);
        proof {
            lemma_inserted_at(before, added, at as int);
            lemma_inserted_in_order(before, added);
        }
        if at < self.entries.len() && self.entries[at].name.same(&timeline.name) {
            assert(before[at as int] == self.entries@[at as int]@);
            self.entries.set(at, timeline);
            assert(self@ == before.update(at as int, added));
        } else {
            assert(at < before.len() ==> before[at as int] == self.entries@[at as int]@);
            self.entries.insert(at, timeline);
            assert(self@ == before.insert(at as int, added));
        }
    }

    /// How many timelines have a name before the given one: where it stands, or would stand.
    fn place(&self, name: &TimelineName) -> (at: usize)
        ensures
            at <= self.entries@.len(),
            forall|i: int| 0 <= i < at ==> text::precedes((#[trigger] self@[i]).name, name@),
            at < self.entries@.len() ==> !text::precedes(self@[at as int].name, name@),
    {
        let mut at: usize = 0;
        while at < self.entries.len()
            invariant
                at <= self.entries.len(),
                forall|i: int| 0 <= i < at ==> text::precedes((#[trigger] self@[i]).name, name@),
            decreases self.entries.len() - at,
        {
            assert(self@[at as int] == self.entries@[at as int]@);
            if !self.entries[at].name.precedes(name) {
                return at;
            }
            at = at + 1;
        }
        at
    }

    /// The timeline called `name`.
    pub fn get(&self, name: &TimelineName) -> (found: Option<&Timeline>)
        requires
            self.well_formed(),
        ensures
            match found {
                Some(timeline) => lookup(self@, name@) == Some(timeline@),
                None => lookup(self@, name@) is None,
            },
    {
        let at: usize = self.place(name);
        proof {
            lemma_in_order_distinct(self@);
        }
        if at < self.entries.len() && self.entries[at].name.same(name) {
            proof {
                lemma_lookup_at(self@, at as int);
            }
            assert(self@[at as int] == self.entries@[at as int]@);
            return Some(&self.entries[at]);
        }
        proof {
            assert(at < self.entries@.len() ==> self@[at as int] == self.entries@[at as int]@);
            lemma_no_place(self@, name@, at as int);
            lemma_lookup_absent(self@, name@);
        }
        None
    }

    /// A copy of all the timelines.
    pub fn to_vec(&self) -> (timelines: Vec<Timeline>)
        ensures
            views(timelines@) == self@,
    {
        let mut timelines: Vec<Timeline> = Vec::new();
        let mut at: usize = 0;
        while at < self.entries.len()
            invariant
                at <= self.entries.len(),
                views(timelines@) == self@.take(at as int),
            decreases self.entries.len() - at,
        {
            let copy = self.entries[at].clone();
            assert(self@.take(at + 1) == self@.take(at as int).push(copy@));
            timelines.push(copy);
            assert(views(timelines@) == self@.take(at as int).push(copy@));
            at = at + 1;
        }
        assert(self@.take(self@.len() as int) == self@);
        timelines
    }

    /// A copy of all the names.
    pub fn names(&self) -> (names: Vec<TimelineName>)
        ensures
            name_texts(names@) == names_of(self@),
    {
        let mut names: Vec<TimelineName> = Vec::new();
        let mut at: usize = 0;
        while at < self.entries.len()
            invariant
                at <= self.entries.len(),
                name_texts(names@) == names_of(self@).take(at as int),
            decreases self.entries.len() - at,
        {
            let copy = self.entries[at].name.clone();
            assert(names_of(self@)[at as int] == copy@);
            assert(names_of(self@).take(at + 1) == names_of(self@).take(at as int).push(copy@));
            names.push(copy);
            assert(name_texts(names@) == names_of(self@).take(at as int).push(copy@));
            at = at + 1;
        }
        assert(names_of(self@).take(self@.len() as int) == names_of(self@));
        names
    }
}

/// A name that no timeline has is not found.
proof fn lemma_lookup_absent(timelines: Seq<TimelineView>, name: Seq<char>)
    requires
        forall|i: int| 0 <= i < timelines.len() ==> (#[trigger] timelines[i]).name != name,
    ensures
        lookup(timelines, name) is None,
    decreases timelines.len(),
{
    if timelines.len() > 0 {
        assert forall|i: int| 0 <= i < timelines.skip(1).len() implies (
        #[trigger] timelines.skip(1)[i]).name != name by {
            assert(timelines.skip(1)[i] == timelines[i + 1]);
        }
        lemma_lookup_absent(timelines.skip(1), name);
    }
}

/// If the place of a name is taken by another one, no timeline has that name.
proof fn lemma_no_place(timelines: Seq<TimelineView>, name: Seq<char>, at: int)
    requires
        in_name_order(timelines),
        0 <= at <= timelines.len(),
        forall|i: int| 0 <= i < at ==> text::precedes((#[trigger] timelines[i]).name, name),
        at < timelines.len() ==> !text::precedes(timelines[at].name, name) && timelines[at].name
            != name,
    ensures
        forall|i: int| 0 <= i < timelines.len() ==> (#[trigger] timelines[i]).name != name,
{
    text::lemma_precedes_itself(name);
    assert forall|i: int| 0 <= i < timelines.len() implies (#[trigger] timelines[i]).name
        != name by {
        if i > at {
            assert(text::precedes(timelines[at].name, timelines[i].name));
        }
    }
}

/// In order, no name occurs twice.
proof fn lemma_in_order_distinct(timelines: Seq<TimelineView>)
    requires
        in_name_order(timelines),
    ensures
        names_distinct(timelines),
{
    assert forall|i: int, j: int| 0 <= i < j < timelines.len() implies (
    #[trigger] timelines[i]).name != (#[trigger] timelines[j]).name by {
        text::lemma_precedes_itself(timelines[i].name);
    }
}

/// Where a timeline is inserted: after all those with a name before its own.
proof fn lemma_inserted_at(timelines: Seq<TimelineView>, added: TimelineView, at: int)
    requires
        0 <= at <= timelines.len(),
        forall|i: int| 0 <= i < at ==> text::precedes((#[trigger] timelines[i]).name, added.name),
        at < timelines.len() ==> !text::precedes(timelines[at].name, added.name),
    ensures
        inserted(timelines, added) == if at < timelines.len() && timelines[at].name == added.name {
            timelines.update(at, added)
        } else {
            timelines.insert(at, added)
        },
    decreases at,
{
    if at > 0 {
        let rest = timelines.skip(1);
        assert(text::precedes(timelines[0].name, added.name));
        assert forall|i: int| 0 <= i < at - 1 implies text::precedes(
            (#[trigger] rest[i]).name,
            added.name,
        ) by {
            assert(rest[i] == timelines[i + 1]);
        }
        assert(at < timelines.len() ==> rest[at - 1] == timelines[at]);
        lemma_inserted_at(rest, added, at - 1);
        if at < timelines.len() && timelines[at].name == added.name {
            assert(seq![timelines[0]] + rest.update(at - 1, added) == timelines.update(at, added));
        } else {
            assert(seq![timelines[0]] + rest.insert(at - 1, added) == timelines.insert(at, added));
        }
    } else if timelines.len() == 0 {
        assert(seq![added] == timelines.insert(0, added));
    } else if timelines[0].name != added.name {
        assert(seq![added] + timelines == timelines.insert(0, added));
    }
}

/// Inserting keeps the order, and every name in the outcome is an old one or the new one.
proof fn lemma_inserted_in_order(timelines: Seq<TimelineView>, added: TimelineView)
    requires
        in_name_order(timelines),
    ensures
        in_name_order(inserted(timelines, added)),
        forall|i: int|
            0 <= i < inserted(timelines, added).len() ==> {
                ||| (#[trigger] inserted(timelines, added)[i]).name == added.name
                ||| exists|j: int|
                    0 <= j < timelines.len() && (#[trigger] timelines[j]).name == inserted(
                        timelines,
                        added,
                    )[i].name
            },
    decreases timelines.len(),
{
    let outcome = inserted(timelines, added);
    if timelines.len() > 0 {
        let head = timelines[0];
        let rest = timelines.skip(1);
        assert forall|i: int, j: int| 0 <= i < j < rest.len() implies text::precedes(
            (#[trigger] rest[i]).name,
            (#[trigger] rest[j]).name,
        ) by {
            assert(rest[i] == timelines[i + 1] && rest[j] == timelines[j + 1]);
        }
        if text::precedes(head.name, added.name) {
            lemma_inserted_in_order(rest, added);
            let tail = inserted(rest, added);
            assert forall|i: int| 0 <= i < outcome.len() implies {
                ||| (#[trigger] outcome[i]).name == added.name
                ||| exists|j: int|
                    0 <= j < timelines.len() && (#[trigger] timelines[j]).name == outcome[i].name
            } by {
                if i == 0 {
                    assert(timelines[0].name == outcome[0].name);
                } else {
                    assert(outcome[i] == tail[i - 1]);
                    if tail[i - 1].name != added.name {
                        let j = choose|j: int|
                            0 <= j < rest.len() && (#[trigger] rest[j]).name == tail[i - 1].name;
                        assert(timelines[j + 1] == rest[j]);
                    }
                }
            }
            assert forall|i: int, j: int| 0 <= i < j < outcome.len() implies text::precedes(
                (#[trigger] outcome[i]).name,
                (#[trigger] outcome[j]).name,
            ) by {
                assert(outcome[j] == tail[j - 1]);
                if i > 0 {
                    assert(outcome[i] == tail[i - 1]);
                } else if tail[j - 1].name != added.name {
                    let k = choose|k: int|
                        0 <= k < rest.len() && (#[trigger] rest[k]).name == tail[j - 1].name;
                    assert(timelines[k + 1] == rest[k]);
                    assert(text::precedes(timelines[0].name, timelines[k + 1].name));
                }
            }
        } else {
            text::lemma_precedes_total(head.name, added.name);
            assert forall|i: int, j: int| 0 <= i < j < outcome.len() implies text::precedes(
                (#[trigger] outcome[i]).name,
                (#[trigger] outcome[j]).name,
            ) by {
                if head.name == added.name {
                    assert(text::precedes(timelines[i].name, timelines[j].name));
                } else if i > 0 {
                    assert(text::precedes(timelines[i - 1].name, timelines[j - 1].name));
                } else {
                    assert(outcome[j] == timelines[j - 1]);
                    if j > 1 {
                        assert(text::precedes(timelines[0].name, timelines[j - 1].name));
                        text::lemma_precedes_transitive(
                            added.name,
                            head.name,
                            timelines[j - 1].name,
                        );
                    }
                }
            }
            assert forall|i: int| 0 <= i < outcome.len() implies {
                ||| (#[trigger] outcome[i]).name == added.name
                ||| exists|j: int|
                    0 <= j < timelines.len() && (#[trigger] timelines[j]).name == outcome[i].name
            } by {
                if i > 0 {
                    if head.name == added.name {
                        assert(outcome[i].name == timelines[i].name);
                    } else {
                        assert(outcome[i].name == timelines[i - 1].name);
                    }
                }
            }
        }
    }
}

/// After a timeline was added it is found under its name, and every other name finds what it found
/// before.
pub proof fn added_timeline_is_found(
    timelines: Seq<TimelineView>,
    added: TimelineView,
    name: Seq<char>,
)
    ensures
        lookup(inserted(timelines, added), name) == if name == added.name {
            Some(added)
        } else {
            lookup(timelines, name)
        },
    decreases timelines.len(),
{
    let outcome = inserted(timelines, added);
    if timelines.len() == 0 {
        assert(outcome.skip(1) == timelines);
    } else if text::precedes(timelines[0].name, added.name) {
        text::lemma_precedes_itself(added.name);
        added_timeline_is_found(timelines.skip(1), added, name);
        assert(outcome.skip(1) == inserted(timelines.skip(1), added));
    } else if timelines[0].name == added.name {
        assert(outcome.skip(1) == timelines.skip(1));
    } else {
        assert(outcome.skip(1) == timelines);
    }
}

/// Every timeline is found under its own name.
pub proof fn lemma_lookup_at(timelines: Seq<TimelineView>, i: int)
    requires
        names_distinct(timelines),
        0 <= i < timelines.len(),
    ensures
        lookup(timelines, timelines[i].name) == Some(timelines[i]),
    decreases timelines.len(),
{
    if i > 0 {
        let rest = timelines.skip(1);
        assert(rest[i - 1] == timelines[i]);
        assert(timelines[0].name != timelines[i].name);
        assert forall|j: int, k: int| 0 <= j < k < rest.len() implies (#[trigger] rest[j]).name != (
        #[trigger] rest[k]).name by {
            assert(rest[j] == timelines[j + 1] && rest[k] == timelines[k + 1]);
        }
        lemma_lookup_at(rest, i - 1);
    }
}

/// A name finds the entry that has it, whichever place that entry has, and nothing only if there is no
/// such entry.
pub proof fn lookup_finds_exactly_the_named_entry(timelines: Seq<TimelineView>, name: Seq<char>)
    requires
        names_distinct(timelines),
    ensures
        forall|i: int|
            0 <= i < timelines.len() && (#[trigger] timelines[i]).name == name ==> lookup(
                timelines,
                name,
            ) == Some(timelines[i]),
        (forall|i: int| 0 <= i < timelines.len() ==> (#[trigger] timelines[i]).name != name)
            ==> lookup(timelines, name) is None,
{
    assert forall|i: int|
        0 <= i < timelines.len() && (#[trigger] timelines[i]).name == name implies lookup(
        timelines,
        name,
    ) == Some(timelines[i]) by {
        lemma_lookup_at(timelines, i);
    }
    if forall|i: int| 0 <= i < timelines.len() ==> (#[trigger] timelines[i]).name != name {
        lemma_lookup_absent(timelines, name);
    }
}

/// Does the table hold an entry of this name?
pub open spec fn has_name(timelines: Seq<TimelineView>, name: Seq<char>) -> bool {
    exists|i: int| 0 <= i < timelines.len() && (#[trigger] timelines[i]).name == name
}

/// What a table gives for a name is its entry of that name, with that entry's own type and range. It
/// gives nothing exactly if it has no such entry.
pub proof fn get_gives_the_named_entry(
    table: &TimelineTable,
    name: &TimelineName,
    found: Option<&Timeline>,
)
    requires
        table.well_formed(),
        call_ensures(TimelineTable::get, (table, name), found),
    ensures
        found is Some <==> exists|i: int|
            0 <= i < table@.len() && (#[trigger] table@[i]).name == name@,
        forall|i: int|
            0 <= i < table@.len() && (#[trigger] table@[i]).name == name@ ==> {
                &&& found matches Some(timeline)
                &&& timeline.name@ == name@
                &&& timeline.typ == table@[i].typ
                &&& timeline.range == table@[i].range
            },
{
    table.names_are_in_order();
    lookup_finds_exactly_the_named_entry(table@, name@);
}

/// A timeline that is added is in the table with its name, its type and its range. Every entry of
/// another name stays, nothing else comes in, and an older entry of the same name is gone.
pub proof fn insert_replaces_only_its_own_name(table: &mut TimelineTable, timeline: Timeline)
    requires
        old(table).well_formed(),
        call_ensures(TimelineTable::insert, (table, timeline), ()),
    ensures
        final(table).well_formed(),
        exists|i: int|
            0 <= i < final(table)@.len() && {
                &&& (#[trigger] final(table)@[i]).name == timeline.name@
                &&& final(table)@[i].typ == timeline.typ
                &&& final(table)@[i].range == timeline.range
            },
        forall|i: int|
            0 <= i < old(table)@.len() && (#[trigger] old(table)@[i]).name != timeline.name@
                ==> final(table)@.contains(old(table)@[i]),
        forall|i: int|
            0 <= i < final(table)@.len() && (#[trigger] final(table)@[i]).name != timeline.name@
                ==> old(table)@.contains(final(table)@[i]),
        final(table)@.len() == old(table)@.len() + if has_name(old(table)@, timeline.name@) {
            0int
        } else {
            1int
        },
{
    let before = old(table)@;
    let after = final(table)@;
    let at = lemma_place(before, timeline@.name);
    lemma_inserted_at(before, timeline@, at);
    assert(after[at] == timeline@);
    if at < before.len() && before[at].name == timeline@.name {
        assert forall|i: int|
            0 <= i < before.len() && (#[trigger] before[i]).name != timeline.name@ implies after.contains(
            before[i],
        ) by {
            assert(after[i] == before[i]);
        }
    } else {
        lemma_no_place(before, timeline@.name, at);
        assert forall|i: int|
            0 <= i < before.len() && (#[trigger] before[i]).name != timeline.name@ implies after.contains(
            before[i],
        ) by {
            assert(after[if i < at {
                i
            } else {
                i + 1
            }] == before[i]);
        }
        assert forall|i: int|
            0 <= i < after.len() && (#[trigger] after[i]).name != timeline.name@ implies before.contains(
            after[i],
        ) by {
            assert(before[if i < at {
                i
            } else {
                i - 1
            }] == after[i]);
        }
    }
}

/// Where a name stands, or would stand.
proof fn lemma_place(timelines: Seq<TimelineView>, name: Seq<char>) -> (at: int)
    ensures
        0 <= at <= timelines.len(),
        forall|i: int| 0 <= i < at ==> text::precedes((#[trigger] timelines[i]).name, name),
        at < timelines.len() ==> !text::precedes(timelines[at].name, name),
    decreases timelines.len(),
{
    if timelines.len() == 0 || !text::precedes(timelines[0].name, name) {
        0
    } else {
        let rest = timelines.skip(1);
        let at = lemma_place(rest, name);
        assert forall|i: int| 0 <= i < at + 1 implies text::precedes(
            (#[trigger] timelines[i]).name,
            name,
        ) by {
            if i > 0 {
                assert(rest[i - 1] == timelines[i]);
            }
        }
        assert(at < rest.len() ==> rest[at] == timelines[at + 1]);
        at + 1
    }
}

/// The copies of a table list its entries, each once, in the order of the names.
pub proof fn listings_follow_the_table(
    table: &TimelineTable,
    names: Vec<TimelineName>,
    timelines: Vec<Timeline>,
)
    requires
        table.well_formed(),
        call_ensures(TimelineTable::names, (table,), names),
        call_ensures(TimelineTable::to_vec, (table,), timelines),
    ensures
        names@.len() == table@.len(),
        timelines@.len() == table@.len(),
        forall|i: int|
            #![trigger table@[i]]
            0 <= i < table@.len() ==> {
                &&& names@[i]@ == table@[i].name
                &&& timelines@[i].name@ == table@[i].name
                &&& timelines@[i].typ == table@[i].typ
                &&& timelines@[i].range == table@[i].range
            },
        forall|i: int, j: int|
            0 <= i < j < names@.len() ==> text::precedes(
                (#[trigger] names@[i])@,
                (#[trigger] names@[j])@,
            ),
{
    assert(name_texts(names@).len() == names@.len());
    assert(views(timelines@).len() == timelines@.len());
    assert forall|i: int| 0 <= i < table@.len() implies names@[i]@ == (#[trigger] table@[i]).name
        && timelines@[i]@ == table@[i] by {
        assert(name_texts(names@)[i] == names_of(table@)[i]);
        assert(views(timelines@)[i] == table@[i]);
    }
    assert forall|i: int, j: int| 0 <= i < j < names@.len() implies text::precedes(
        (#[trigger] names@[i])@,
        (#[trigger] names@[j])@,
    ) by {
        assert(names@[i]@ == table@[i].name && names@[j]@ == table@[j].name);
    }
}

/// An offset counts ticks on a sequence timeline and seconds on a temporal one, which counts
/// nanoseconds; each type goes by its own name.
pub proof fn offsets_are_ticks_or_seconds(typ: TimeType, unit: u64, label: &'static str)
    requires
        call_ensures(TimeType::offset_unit, (typ,), unit),
        call_ensures(TimeType::label, (typ,), label),
    ensures
        typ == TimeType::Sequence ==> unit == 1,
        typ != TimeType::Sequence ==> unit == 1_000_000_000,
        label@ == match typ {
            TimeType::Sequence => "Sequence"@,
            TimeType::DurationNs => "DurationNs"@,
            TimeType::TimestampNs => "TimestampNs"@,
        },
{
}

/// A name keeps its characters, in copies too; only an empty one is refused. Two names are the same
/// exactly if their characters are, and come in the order of those.
pub proof fn names_keep_their_characters(
    text: &str,
    made: Result<TimelineName, RenderError>,
    name: &TimelineName,
    copy: TimelineName,
    shown: &str,
    other: &TimelineName,
    same: bool,
    before: bool,
    log_tick: TimelineName,
)
    requires
        call_ensures(TimelineName::precedes, (name, other), before),
        call_ensures(TimelineName::log_tick, (), log_tick),
        call_ensures(TimelineName::try_new, (text,), made),
        call_ensures(TimelineName::clone, (name,), copy),
        call_ensures(TimelineName::as_str, (name,), shown),
        call_ensures(TimelineName::same, (name, other), same),
    ensures
        made is Ok <==> text@.len() > 0,
        made matches Ok(timeline) ==> timeline@ == text@,
        made matches Err(err) ==> err is EmptyTimelineName,
        copy@ == name@,
        shown@ == name@,
        same <==> name@ == other@,
        before <==> text::precedes(name@, other@),
        log_tick@ == "log_tick"@,
{
}

} // verus!
