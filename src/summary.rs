//! Counting the recognized event kinds in a list of events.
use vstd::prelude::*;

use crate::event::ActivityEvent;
use crate::text::{decimal, decimal_string};

verus! {

broadcast use vstd::seq_lib::group_to_multiset_ensures;

/// The three event kinds that are counted; every other kind is ignored.
#[derive(Debug, Clone, Copy, PartialEq, Eq)]
pub enum EventKind {
    Push,
    Issues,
    Watch,
}

pub open spec fn push_name() -> Seq<char> {
    "PushEvent"@
}

pub open spec fn issues_name() -> Seq<char> {
    "IssuesEvent"@
}

pub open spec fn watch_name() -> Seq<char> {
    "WatchEvent"@
}

impl EventKind {
    /// The tag under which this kind appears in events and in summaries.
    pub open spec fn spec_name(self) -> Seq<char> {
        match self {
            EventKind::Push => push_name(),
            EventKind::Issues => issues_name(),
            EventKind::Watch => watch_name(),
        }
    }

    pub fn name(&self) -> (r: &'static str)
        ensures
            r@ == self.spec_name(),
    {
        match self {
            EventKind::Push => "PushEvent",
            EventKind::Issues => "IssuesEvent",
            EventKind::Watch => "WatchEvent",
        }
    }
}

/// Whether an event type tag is one of the three counted kinds.
pub open spec fn is_recognized(name: Seq<char>) -> bool {
    name == push_name() || name == issues_name() || name == watch_name()
}

/// The kind that a type tag names, if it names one exactly.
pub open spec fn kind_of(name: Seq<char>) -> Option<EventKind> {
    if name == push_name() {
        Some(EventKind::Push)
    } else if name == issues_name() {
        Some(EventKind::Issues)
    } else if name == watch_name() {
        Some(EventKind::Watch)
    } else {
        None
    }
}

/// The three tags are distinct.
pub proof fn lemma_names_distinct()
    ensures
        push_name() != issues_name(),
        push_name() != watch_name(),
        issues_name() != watch_name(),
{
    reveal_strlit("PushEvent");
    reveal_strlit("IssuesEvent");
    reveal_strlit("WatchEvent");
    assert(push_name()[0] != issues_name()[0]);
    assert(push_name()[0] != watch_name()[0]);
    assert(issues_name()[0] != watch_name()[0]);
}

/// Classifies a type tag by exact comparison with the three counted tags.
pub fn classify(event_type: &String) -> (r: Option<EventKind>)
    ensures
        r == kind_of(event_type@),
{
    if *event_type == String::from_str("PushEvent") {
        Some(EventKind::Push)
    } else if *event_type == String::from_str("IssuesEvent") {
        Some(EventKind::Issues)
    } else if *event_type == String::from_str("WatchEvent") {
        Some(EventKind::Watch)
    } else {
        None
    }
}

/// How many events of `events` carry the type tag `name`.
pub open spec fn count_type(events: Seq<ActivityEvent>, name: Seq<char>) -> nat
    decreases events.len(),
{
    if events.len() == 0 {
        0
    } else {
        count_type(events.drop_last(), name) + if events.last().event_type@ == name {
            1nat
        } else {
            0nat
        }
    }
}

/// The summary of a list of events: each recognized tag that occurs, mapped
/// to the number of its occurrences. Tags that do not occur are absent.
pub open spec fn summary_of(events: Seq<ActivityEvent>) -> Map<Seq<char>, nat> {
    Map::new(
        |name: Seq<char>| is_recognized(name) && count_type(events, name) > 0,
        |name: Seq<char>| count_type(events, name),
    )
}

/// The count under `name`, zero when `m` does not hold it.
pub open spec fn count_in(m: Map<Seq<char>, nat>, name: Seq<char>) -> nat {
    if m.contains_key(name) {
        m[name]
    } else {
        0
    }
}

/// One `"name": count,` line of a rendered summary; nothing for a zero count.
pub open spec fn entry_text(name: Seq<char>, n: nat) -> Seq<char> {
    if n == 0 {
        Seq::empty()
    } else {
        "    \""@ + name + "\": "@ + decimal(n) + ",\n"@
    }
}

/// A summary as printed: `{}` when empty, otherwise one indented line per
/// tag between braces, in the order push, issues, watch.
pub open spec fn render_text(m: Map<Seq<char>, nat>) -> Seq<char> {
    if m == Map::<Seq<char>, nat>::empty() {
        "{}"@
    } else {
        "{\n"@ + entry_text(push_name(), count_in(m, push_name())) + entry_text(
            issues_name(),
            count_in(m, issues_name()),
        ) + entry_text(watch_name(), count_in(m, watch_name())) + "}"@
    }
}

fn append_entry(s: &mut String, name: &str, n: u64)
    ensures
        final(s)@ == old(s)@ + entry_text(name@, n as nat),
{
    if n > 0 {
        s.append("    \"");
        s.append(name);
        s.append("\": ");
        let digits = decimal_string(n);
        s.append(digits.as_str());
        s.append(",\n");
        assert(final(s)@ =~= old(s)@ + entry_text(name@, n as nat));
    } else {
        assert(s@ =~= old(s)@ + entry_text(name@, n as nat));
    }
}

/// The mapping from recognized event kind to occurrence count.
pub struct ActivitySummary {
    push: u64,
    issues: u64,
    watch: u64,
}

/// The mapping that three counters stand for: a tag is present when its
/// counter is not zero.
pub open spec fn counts_map(push: nat, issues: nat, watch: nat) -> Map<Seq<char>, nat> {
    Map::new(
        |name: Seq<char>|
            (name == push_name() && push > 0) || (name == issues_name() && issues > 0) || (
            name == watch_name() && watch > 0),
        |name: Seq<char>|
            if name == push_name() {
                push
            } else if name == issues_name() {
                issues
            } else {
                watch
            },
    )
}

impl View for ActivitySummary {
    type V = Map<Seq<char>, nat>;

    closed spec fn view(&self) -> Map<Seq<char>, nat> {
        counts_map(self.push as nat, self.issues as nat, self.watch as nat)
    }
}

impl ActivitySummary {
    /// The empty summary.
    pub fn new() -> (r: ActivitySummary)
        ensures
            r@ == Map::<Seq<char>, nat>::empty(),
    {
        let r = ActivitySummary { push: 0, issues: 0, watch: 0 };
        assert(r@ =~= Map::<Seq<char>, nat>::empty());
        r
    }

    /// The number of occurrences of `kind`, zero when it is absent.
    pub fn count(&self, kind: EventKind) -> (r: u64)
        ensures
            self@.contains_key(kind.spec_name()) ==> r == self@[kind.spec_name()],
            !self@.contains_key(kind.spec_name()) ==> r == 0,
    {
        proof {
            lemma_names_distinct();
        }
        match kind {
            EventKind::Push => self.push,
            EventKind::Issues => self.issues,
            EventKind::Watch => self.watch,
        }
    }

    /// The count stored under the tag `name`, if the summary holds it.
    pub fn get(&self, name: &str) -> (r: Option<u64>)
        ensures
            r matches Some(n) ==> self@.contains_key(name@) && self@[name@] == n,
            r is None ==> !self@.contains_key(name@),
    {
        proof {
            lemma_names_distinct();
        }
        match classify(&name.to_owned()) {
            Some(kind) => {
                let n = self.count(kind);
                if n == 0 {
                    None
                } else {
                    Some(n)
                }
            },
            None => None,
        }
    }

    /// Renders the summary as key/count pairs between braces.
    pub fn render(&self) -> (r: String)
        ensures
            r@ == render_text(self@),
    {
        if self.is_empty() {
            return String::from_str("{}");
        }
        proof {
            lemma_names_distinct();
            assert(count_in(self@, push_name()) == self.push);
            assert(count_in(self@, issues_name()) == self.issues);
            assert(count_in(self@, watch_name()) == self.watch);
        }
        let mut s = String::from_str("{\n");
        append_entry(&mut s, "PushEvent", self.push);
        append_entry(&mut s, "IssuesEvent", self.issues);
        append_entry(&mut s, "WatchEvent", self.watch);
        s.append("}");
        s
    }

    /// Whether no tag is present.
    pub fn is_empty(&self) -> (r: bool)
        ensures
            r == (self@ == Map::<Seq<char>, nat>::empty()),
    {
        proof {
            lemma_names_distinct();
            if self.push > 0 {
                assert(self@.contains_key(push_name()));
            }
            if self.issues > 0 {
                assert(self@.contains_key(issues_name()));
            }
            if self.watch > 0 {
                assert(self@.contains_key(watch_name()));
            }
            if self.push == 0 && self.issues == 0 && self.watch == 0 {
                assert(self@ =~= Map::<Seq<char>, nat>::empty());
            }
        }
        self.push == 0 && self.issues == 0 && self.watch == 0
    }

    /// The number of tags present.
    pub fn len(&self) -> (r: usize)
        ensures
            r == self@.dom().len(),
    {
        proof {
            lemma_names_distinct();
        }
        let mut n: usize = 0;
        let ghost mut keys = Set::<Seq<char>>::empty();
        if self.push > 0 {
            n = n + 1;
            proof { keys = keys.insert(push_name()); }
        }
        if self.issues > 0 {
            n = n + 1;
            proof { keys = keys.insert(issues_name()); }
        }
        if self.watch > 0 {
            n = n + 1;
            proof { keys = keys.insert(watch_name()); }
        }
        assert(self@.dom() =~= keys);
        n
    }
}

/// How many elements of `events` have the tag `name`, never more than their number.
proof fn lemma_count_bound(events: Seq<ActivityEvent>, name: Seq<char>)
    ensures
        count_type(events, name) <= events.len(),
    decreases events.len(),
{
    if events.len() > 0 {
        lemma_count_bound(events.drop_last(), name);
    }
}

/// Counts the recognized kinds among `events` in one pass.
pub fn summarize(events: &Vec<ActivityEvent>) -> (r: ActivitySummary)
    ensures
        r@ == summary_of(events@),
{
    let mut push: u64 = 0;
    let mut issues: u64 = 0;
    let mut watch: u64 = 0;
    let mut i: usize = 0;
    while i < events.len()
        invariant
            i <= events@.len(),
            push == count_type(events@.take(i as int), push_name()),
            issues == count_type(events@.take(i as int), issues_name()),
            watch == count_type(events@.take(i as int), watch_name()),
        decreases events@.len() - i,
    {
        let ghost prefix = events@.take(i as int);
        let ghost next = events@.take(i + 1);
        assert(next.drop_last() =~= prefix);
        proof {
            lemma_names_distinct();
            lemma_count_bound(prefix, push_name());
            lemma_count_bound(prefix, issues_name());
            lemma_count_bound(prefix, watch_name());
        }
        match classify(&events[i].event_type) {
            Some(EventKind::Push) => push = push + 1,
            Some(EventKind::Issues) => issues = issues + 1,
            Some(EventKind::Watch) => watch = watch + 1,
            None => {},
        }
        i = i + 1;
    }
    assert(events@.take(i as int) =~= events@);
    let r = ActivitySummary { push, issues, watch };
    proof {
        lemma_names_distinct();
    }
    assert(r@ =~= summary_of(events@));
    r
}

/// Removing the element at `j` takes away exactly its own occurrence.
proof fn lemma_count_remove(events: Seq<ActivityEvent>, j: int, name: Seq<char>)
    requires
        0 <= j < events.len(),
    ensures
        count_type(events, name) == count_type(events.remove(j), name) + if events[j].event_type@
            == name {
            1nat
        } else {
            0nat
        },
    decreases events.len(),
{
    if j == events.len() - 1 {
        assert(events.remove(j) =~= events.drop_last());
    } else {
        lemma_count_remove(events.drop_last(), j, name);
        assert(events.remove(j).drop_last() =~= events.drop_last().remove(j));
        assert(events.remove(j).last() == events.last());
    }
}

/// Two lists with the same elements, in any order, hold each tag equally often.
proof fn lemma_count_permutation(a: Seq<ActivityEvent>, b: Seq<ActivityEvent>, name: Seq<char>)
    requires
        a.to_multiset() == b.to_multiset(),
    ensures
        count_type(a, name) == count_type(b, name),
    decreases a.len(),
{
    if a.len() == 0 {
        assert(b.to_multiset().len() == 0);
        assert(b.len() == 0);
    } else {
        let x = a.last();
        let rest = a.drop_last();
        assert(a =~= rest.push(x));
        assert(a.to_multiset().count(x) > 0);
        assert(b.contains(x));
        let j = choose|j: int| 0 <= j < b.len() && b[j] == x;
        assert(b.remove(j).to_multiset() == b.to_multiset().remove(x));
        assert(rest.to_multiset() =~= a.to_multiset().remove(x));
        lemma_count_permutation(rest, b.remove(j), name);
        lemma_count_remove(b, j, name);
    }
}

/// A summary holds only the three counted tags, holds each of them exactly
/// when it occurs, and maps it to its number of occurrences. When every event
/// has a counted tag, the three counts add up to the number of events.
pub proof fn lemma_summary_counts(events: Seq<ActivityEvent>)
    ensures
        forall|name: Seq<char>| #[trigger]
            summary_of(events).contains_key(name) ==> is_recognized(name),
        forall|name: Seq<char>|
            is_recognized(name) ==> (#[trigger] summary_of(events).contains_key(name) <==> count_type(
                events,
                name,
            ) > 0),
        forall|name: Seq<char>| #[trigger]
            summary_of(events).contains_key(name) ==> summary_of(events)[name] == count_type(
                events,
                name,
            ),
        (forall|i: int| 0 <= i < events.len() ==> is_recognized(#[trigger] events[i].event_type@))
            ==> count_type(events, push_name()) + count_type(events, issues_name()) + count_type(
            events,
            watch_name(),
        ) == events.len(),
    decreases events.len(),
{
    if events.len() > 0 {
        lemma_summary_counts(events.drop_last());
        lemma_names_distinct();
        if forall|i: int| 0 <= i < events.len() ==> is_recognized(#[trigger] events[i].event_type@) {
            assert forall|i: int| 0 <= i < events.drop_last().len() implies is_recognized(
                #[trigger] events.drop_last()[i].event_type@,
            ) by {
                assert(events.drop_last()[i] == events[i]);
            }
            assert(is_recognized(events[events.len() - 1].event_type@));
        }
    }
}

/// Events whose tag is not counted change nothing, wherever they stand.
pub proof fn lemma_unrecognized_ignored(events: Seq<ActivityEvent>, i: int, e: ActivityEvent)
    requires
        0 <= i <= events.len(),
        !is_recognized(e.event_type@),
    ensures
        summary_of(events.insert(i, e)) == summary_of(events),
{
    let longer = events.insert(i, e);
    assert(events.push(e).drop_last() =~= events);
    assert forall|name: Seq<char>| is_recognized(name) implies count_type(longer, name)
        == count_type(events, name) by {
        lemma_count_permutation(longer, events.push(e), name);
    }
    assert(summary_of(longer) =~= summary_of(events));
}

/// The summary of no events is the empty mapping.
pub proof fn lemma_empty_summary()
    ensures
        summary_of(Seq::<ActivityEvent>::empty()) == Map::<Seq<char>, nat>::empty(),
{
    assert(summary_of(Seq::<ActivityEvent>::empty()) =~= Map::<Seq<char>, nat>::empty());
}

/// The summary does not depend on the order of the events.
pub proof fn lemma_order_independent(a: Seq<ActivityEvent>, b: Seq<ActivityEvent>)
    requires
        a.to_multiset() == b.to_multiset(),
    ensures
        summary_of(a) == summary_of(b),
{
    assert forall|name: Seq<char>| #[trigger] count_type(a, name) == count_type(b, name) by {
        lemma_count_permutation(a, b, name);
    }
    assert(summary_of(a) =~= summary_of(b));
}

} // verus!
