use vstd::prelude::*;

verus! {

/// The kind of source an item came from.
#[derive(Clone, Copy, Debug, PartialEq, Eq, Structural)]
pub enum ScheduleItemType {
    Todo,
    Calendar,
}

/// One scheduled entry, merged from whatever backend produced it.
///
/// Times are wall-clock milliseconds: the number of milliseconds between
/// the local-time representation of the instant and the local-time
/// representation of 1970-01-01 00:00:00. Differences of two such values
/// are elapsed milliseconds, and `start_time / MS_PER_DAY` is the civil day.
#[derive(Debug, PartialEq)]
pub struct ScheduledItem {
    pub id: String,
    pub scheduler: String,
    pub item_type: ScheduleItemType,
    pub description: String,
    pub start_time: i64,
    pub end_time: Option<i64>,
    pub place: Option<String>,
}

impl Clone for ScheduledItem {
    fn clone(&self) -> (r: Self)
        ensures
            r == *self,
    {
        ScheduledItem {
            id: self.id.clone(),
            scheduler: self.scheduler.clone(),
            item_type: self.item_type,
            description: self.description.clone(),
            start_time: self.start_time,
            end_time: self.end_time,
            place: match &self.place {
                Some(p) => Some(p.clone()),
                None => None,
            },
        }
    }
}

impl ScheduledItem {
    pub fn new(
        id: String,
        scheduler: String,
        item_type: ScheduleItemType,
        description: String,
        start_time: i64,
        end_time: Option<i64>,
        place: Option<String>,
    ) -> (r: ScheduledItem)
        ensures
            r == (ScheduledItem { id, scheduler, item_type, description, start_time, end_time, place }),
    {
        ScheduledItem { id, scheduler, item_type, description, start_time, end_time, place }
    }
}

/// Items in nondecreasing order of start time.
pub open spec fn sorted_by_start(s: Seq<ScheduledItem>) -> bool {
    forall|i: int, j: int| 0 <= i < j < s.len() ==> s[i].start_time <= s[j].start_time
}

/// An element-wise copy of an item list.
pub fn clone_items(items: &Vec<ScheduledItem>) -> (r: Vec<ScheduledItem>)
    ensures
        r@ == items@,
{
    let mut r: Vec<ScheduledItem> = Vec::new();
    let mut i: usize = 0;
    while i < items.len()
        invariant
            i <= items@.len(),
            r@ =~= items@.take(i as int),
        decreases items@.len() - i,
    {
        r.push(items[i].clone());
        proof {
            assert(r@ =~= items@.take(i as int + 1));
        }
        i = i + 1;
    }
    proof {
        assert(items@.take(items@.len() as int) =~= items@);
    }
    r
}

/// Where an item lands when added to an already sorted run: after every
/// item with an earlier or equal start time, so equal starts keep their
/// existing order.
pub open spec fn spec_insert_by_start(s: Seq<ScheduledItem>, x: ScheduledItem) -> Seq<ScheduledItem>
    decreases s.len(),
{
    if s.len() == 0 {
        seq![x]
    } else if s.last().start_time <= x.start_time {
        s.push(x)
    } else {
        spec_insert_by_start(s.drop_last(), x).push(s.last())
    }
}

/// The stable sort of an item list by start time: items are taken in the
/// given order and each lands after its equals.
pub open spec fn spec_sort_by_start(s: Seq<ScheduledItem>) -> Seq<ScheduledItem>
    decreases s.len(),
{
    if s.len() == 0 {
        Seq::<ScheduledItem>::empty()
    } else {
        spec_insert_by_start(spec_sort_by_start(s.drop_last()), s.last())
    }
}

proof fn lemma_insert_by_start_at(s: Seq<ScheduledItem>, x: ScheduledItem, p: int)
    requires
        0 <= p <= s.len(),
        forall|k: int| p <= k < s.len() ==> s[k].start_time > x.start_time,
        p > 0 ==> s[p - 1].start_time <= x.start_time,
    ensures
        spec_insert_by_start(s, x) == s.take(p).push(x) + s.skip(p),
    decreases s.len(),
{
    if s.len() == 0 {
        assert(spec_insert_by_start(s, x) =~= s.take(0).push(x) + s.skip(0));
    } else if s.last().start_time <= x.start_time {
        assert(p == s.len());
        assert(spec_insert_by_start(s, x) =~= s.take(p).push(x) + s.skip(p));
    } else {
        assert(p < s.len());
        assert forall|k: int|
            p <= k < s.drop_last().len() implies s.drop_last()[k].start_time > x.start_time by {
            assert(s.drop_last()[k] == s[k]);
        }
        if p > 0 {
            assert(s.drop_last()[p - 1] == s[p - 1]);
        }
        lemma_insert_by_start_at(s.drop_last(), x, p);
        assert(spec_insert_by_start(s, x) == (s.drop_last().take(p).push(x) + s.drop_last().skip(
            p,
        )).push(s.last()));
        assert((s.drop_last().take(p).push(x) + s.drop_last().skip(p)).push(s.last()) =~= s.take(
            p,
        ).push(x) + s.skip(p));
    }
}

/// Sort items by start time, keeping the given order among equal start
/// times (insertion after the existing run), and keeping every item.
pub fn sort_items_by_start(items: &Vec<ScheduledItem>) -> (r: Vec<ScheduledItem>)
    ensures
        r@ == spec_sort_by_start(items@),
        sorted_by_start(r@),
        r@.to_multiset() == items@.to_multiset(),
        r@.len() == items@.len(),
{
    let mut out: Vec<ScheduledItem> = Vec::new();
    let mut i: usize = 0;
    proof {
        assert(items@.take(0) =~= out@);
    }
    while i < items.len()
        invariant
            i <= items@.len(),
            out@.len() == i,
            sorted_by_start(out@),
            out@ == spec_sort_by_start(items@.take(i as int)),
            out@.to_multiset() == items@.take(i as int).to_multiset(),
        decreases items@.len() - i,
    {
        let x = items[i].clone();
        let mut p = out.len();
        while p > 0 && out[p - 1].start_time > x.start_time
            invariant
                p <= out@.len(),
                forall|k: int| p <= k < out@.len() ==> out@[k].start_time > x.start_time,
            decreases p,
        {
            p = p - 1;
        }
        let ghost pre = out@;
        out.insert(p, x);
        proof {
            broadcast use vstd::seq_lib::to_multiset_insert;
            broadcast use vstd::seq_lib::to_multiset_build;

            assert forall|a: int, b: int|
                0 <= a < b < out@.len() implies out@[a].start_time <= out@[b].start_time by {
                if a < p && b < p {
                    assert(out@[a] == pre[a] && out@[b] == pre[b]);
                } else if a < p && b == p {
                    assert(out@[a] == pre[a]);
                    assert(pre[p - 1].start_time <= x.start_time);
                } else if a < p && b > p {
                    assert(out@[a] == pre[a] && out@[b] == pre[b - 1]);
                } else if a == p && b > p {
                    assert(out@[b] == pre[b - 1]);
                } else {
                    assert(out@[a] == pre[a - 1] && out@[b] == pre[b - 1]);
                }
            }
            assert(items@.take(i as int).push(items@[i as int]) =~= items@.take(i as int + 1));
            assert(out@.to_multiset() == items@.take(i as int + 1).to_multiset());
            lemma_insert_by_start_at(pre, x, p as int);
            assert(out@ =~= pre.take(p as int).push(x) + pre.skip(p as int));
            assert(items@.take(i as int + 1).drop_last() =~= items@.take(i as int));
            assert(out@ == spec_sort_by_start(items@.take(i as int + 1)));
        }
        i = i + 1;
    }
    proof {
        assert(items@.take(items@.len() as int) =~= items@);
    }
    out
}

/// Configuration for one calendar-backed source: the credential file stem
/// and the calendar to pull from.
pub struct GoogleConfig {
    pub name: String,
    pub cal_name: String,
}

/// Configuration for one task-list-backed source: the credential file stem
/// and the project to pull from.
pub struct TodoistConfig {
    pub name: String,
    pub project: String,
}

/// The full backend roster read from configuration at startup.
pub struct ScheduleConfig {
    pub google_cal: Vec<GoogleConfig>,
    pub todoist: Vec<TodoistConfig>,
}

} // verus!
