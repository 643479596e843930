use vstd::prelude::*;
use vstd::string::*;
use crate::clock::spec_day_of_ms;
use crate::clock::spec_end_of_day;
use crate::clock::spec_sat_add;
use crate::clock::day_of_ms;
use crate::clock::end_of_day;
use crate::commands::ScheduleCommand;
use crate::display::PromptMessage;
use crate::display::PromptMessageType;
use crate::scheduled_item::ScheduledItem;
use crate::scheduled_item::clone_items;
use crate::scheduled_item::sort_items_by_start;
use crate::scheduled_item::sorted_by_start;
use crate::scheduled_item::spec_sort_by_start;
use crate::tasks::BackendEntry;
use crate::tasks::MasterScheduler;
use crate::text::join_from;
use crate::text::spec_join_space;

verus! {

/// How long a failure toast stays on the status line.
pub const TOAST_TTL_MS: i64 = 10000;

/// The ids of the registry's backends, in registry order.
pub open spec fn spec_scheduler_ids(entries: Seq<BackendEntry>) -> Seq<Seq<char>> {
    entries.map_values(|e: BackendEntry| e.id@)
}

/// The registry index the id routes to: the first entry with that id.
pub open spec fn spec_find_scheduler(entries: Seq<BackendEntry>, id: Seq<char>) -> Option<int>
    decreases entries.len(),
{
    if entries.len() == 0 {
        None
    } else if entries[0].id@ == id {
        Some(0int)
    } else {
        match spec_find_scheduler(entries.skip(1), id) {
            Some(j) => Some(j + 1),
            None => None,
        }
    }
}

pub proof fn lemma_find_scheduler_props(entries: Seq<BackendEntry>, id: Seq<char>)
    ensures
        match spec_find_scheduler(entries, id) {
            Some(j) => 0 <= j < entries.len() && entries[j].id@ == id && forall|k: int|
                0 <= k < j ==> (#[trigger] entries[k].id@) != id,
            None => forall|k: int| 0 <= k < entries.len() ==> (#[trigger] entries[k].id@) != id,
        },
    decreases entries.len(),
{
    if entries.len() == 0 {
    } else if entries[0].id@ == id {
    } else {
        lemma_find_scheduler_props(entries.skip(1), id);
        match spec_find_scheduler(entries, id) {
            Some(j) => {
                assert(entries.skip(1)[j - 1] == entries[j]);
                assert forall|k: int| 0 <= k < j implies (#[trigger] entries[k].id@) != id by {
                    if k > 0 {
                        assert(entries.skip(1)[k - 1] == entries[k]);
                    }
                }
            },
            None => {
                assert forall|k: int|
                    0 <= k < entries.len() implies (#[trigger] entries[k].id@) != id by {
                    if k > 0 {
                        assert(entries.skip(1)[k - 1] == entries[k]);
                    }
                }
            },
        }
    }
}

/// Every cached item of every backend, in registry order.
pub open spec fn spec_all_items(entries: Seq<BackendEntry>) -> Seq<ScheduledItem>
    decreases entries.len(),
{
    if entries.len() == 0 {
        Seq::<ScheduledItem>::empty()
    } else {
        entries[0].items@ + spec_all_items(entries.skip(1))
    }
}

/// How one refresh pass changes the registry: a backend that answered has
/// its cache replaced wholesale, a backend that failed keeps its previous
/// cache, and ids never change.
pub open spec fn spec_refreshed(
    pre: Seq<BackendEntry>,
    post: Seq<BackendEntry>,
    outcomes: Seq<Option<Vec<ScheduledItem>>>,
) -> bool {
    &&& post.len() == pre.len()
    &&& forall|i: int|
        0 <= i < pre.len() ==> match outcomes[i] {
            Some(items) => (#[trigger] post[i]).id == pre[i].id && post[i].items@ == items@,
            None => post[i] == pre[i],
        }
}

/// One refresh outcome per backend, in registry order: `Some` carries the
/// backend's freshly pulled items, `None` records a failed pull.
impl MasterScheduler {
    pub fn new(scheduler_ids: Vec<String>) -> (r: Self)
        ensures
            r.schedulers@.len() == scheduler_ids@.len(),
            forall|i: int|
                0 <= i < scheduler_ids@.len() ==> (#[trigger] r.schedulers@[i]).id
                    == scheduler_ids@[i] && r.schedulers@[i].items@ == Seq::<
                    ScheduledItem,
                >::empty(),
    {
        let mut entries: Vec<BackendEntry> = Vec::new();
        let mut i: usize = 0;
        while i < scheduler_ids.len()
            invariant
                i <= scheduler_ids@.len(),
                entries@.len() == i,
                forall|k: int|
                    0 <= k < i ==> (#[trigger] entries@[k]).id == scheduler_ids@[k]
                        && entries@[k].items@ == Seq::<ScheduledItem>::empty(),
            decreases scheduler_ids@.len() - i,
        {
            entries.push(BackendEntry { id: scheduler_ids[i].clone(), items: Vec::new() });
            i = i + 1;
        }
        MasterScheduler { schedulers: entries }
    }

    /// The registry's routing keys, announced at startup.
    pub fn schedulers(&self) -> (r: Vec<String>)
        ensures
            r.deep_view() == spec_scheduler_ids(self.schedulers@),
    {
        let mut r: Vec<String> = Vec::new();
        let mut i: usize = 0;
        while i < self.schedulers.len()
            invariant
                i <= self.schedulers@.len(),
                r@.len() == i,
                forall|k: int| 0 <= k < i ==> (#[trigger] r@[k])@ == self.schedulers@[k].id@,
            decreases self.schedulers@.len() - i,
        {
            r.push(self.schedulers[i].id.clone());
            i = i + 1;
        }
        proof {
            assert(r.deep_view() =~= spec_scheduler_ids(self.schedulers@));
        }
        r
    }

    /// The registry index an id routes to.
    pub fn find_scheduler(&self, account_id: &String) -> (r: Option<usize>)
        ensures
            match r {
                Some(i) => Some(i as int) == spec_find_scheduler(self.schedulers@, account_id@),
                None => spec_find_scheduler(self.schedulers@, account_id@) is None,
            },
    {
        let mut i: usize = 0;
        while i < self.schedulers.len()
            invariant
                i <= self.schedulers@.len(),
                forall|k: int| 0 <= k < i ==> (#[trigger] self.schedulers@[k].id@) != account_id@,
            decreases self.schedulers@.len() - i,
        {
            if self.schedulers[i].id.eq(account_id) {
                proof {
                    lemma_find_scheduler_props(self.schedulers@, account_id@);
                }
                return Some(i);
            }
            i = i + 1;
        }
        proof {
            lemma_find_scheduler_props(self.schedulers@, account_id@);
        }
        None
    }

    /// Replace each answering backend's cache with its fresh pull; a failed
    /// backend keeps what it had, so one backend's failure never empties
    /// another's view.
    pub fn apply_refresh(&mut self, outcomes: &Vec<Option<Vec<ScheduledItem>>>)
        requires
            outcomes@.len() == old(self).schedulers@.len(),
        ensures
            spec_refreshed(old(self).schedulers@, final(self).schedulers@, outcomes@),
    {
        let mut i: usize = 0;
        while i < self.schedulers.len()
            invariant
                i <= self.schedulers@.len(),
                self.schedulers@.len() == old(self).schedulers@.len(),
                outcomes@.len() == old(self).schedulers@.len(),
                forall|k: int|
                    0 <= k < i ==> match outcomes@[k] {
                        Some(items) => (#[trigger] self.schedulers@[k]).id == old(
                            self,
                        ).schedulers@[k].id && self.schedulers@[k].items@ == items@,
                        None => self.schedulers@[k] == old(self).schedulers@[k],
                    },
                forall|k: int|
                    i <= k < self.schedulers@.len() ==> (#[trigger] self.schedulers@[k]) == old(
                        self,
                    ).schedulers@[k],
            decreases self.schedulers@.len() - i,
        {
            match &outcomes[i] {
                Some(items) => {
                    self.schedulers[i].items = clone_items(items);
                },
                None => {},
            }
            i = i + 1;
        }
    }

    /// The merged snapshot: every backend's cached items, sorted by start
    /// time ascending; ties keep registry order.
    pub fn merged_snapshot(&self) -> (r: Vec<ScheduledItem>)
        ensures
            r@ == spec_sort_by_start(spec_all_items(self.schedulers@)),
            sorted_by_start(r@),
            r@.to_multiset() == spec_all_items(self.schedulers@).to_multiset(),
            r@.len() == spec_all_items(self.schedulers@).len(),
    {
        let mut all: Vec<ScheduledItem> = Vec::new();
        let mut i: usize = 0;
        proof {
            assert(all@ =~= flat_prefix(self.schedulers@, 0));
        }
        while i < self.schedulers.len()
            invariant
                i <= self.schedulers@.len(),
                all@ == flat_prefix(self.schedulers@, i as int),
            decreases self.schedulers@.len() - i,
        {
            let mut part = clone_items(&self.schedulers[i].items);
            let ghost pre = all@;
            all.append(&mut part);
            proof {
                assert(all@ =~= flat_prefix(self.schedulers@, i as int + 1));
            }
            i = i + 1;
        }
        proof {
            lemma_flat_prefix_all(self.schedulers@, self.schedulers@.len() as int);
            assert(self.schedulers@.take(self.schedulers@.len() as int) =~= self.schedulers@);
        }
        sort_items_by_start(&all)
    }

    /// The toast text for a command naming an unknown backend: the
    /// attempted id and the known ids.
    pub fn missing_scheduler_message(&self, account_id: &String) -> (r: String)
        ensures
            r@ == "Could not find scheduler "@ + account_id@ + " in "@ + spec_join_space(
                spec_scheduler_ids(self.schedulers@),
            ),
    {
        let ids = self.schedulers();
        let mut r = String::from_str("Could not find scheduler ");
        r.append(account_id.as_str());
        r.append(" in ");
        r.append(join_from(&ids, 0).as_str());
        proof {
            assert(ids.deep_view().skip(0) =~= ids.deep_view());
        }
        r
    }
}

/// The items of the first `n` registry entries, in order.
pub open spec fn flat_prefix(entries: Seq<BackendEntry>, n: int) -> Seq<ScheduledItem>
    decreases n,
{
    if n <= 0 {
        Seq::<ScheduledItem>::empty()
    } else {
        flat_prefix(entries, n - 1) + entries[n - 1].items@
    }
}

pub proof fn lemma_flat_prefix_all(entries: Seq<BackendEntry>, n: int)
    requires
        0 <= n <= entries.len(),
    ensures
        flat_prefix(entries, n) == spec_all_items(entries.take(n)),
    decreases n,
{
    if n == 0 {
        assert(spec_all_items(entries.take(0)) =~= Seq::<ScheduledItem>::empty());
    } else {
        lemma_flat_prefix_all(entries, n - 1);
        lemma_all_items_snoc(entries.take(n));
        assert(entries.take(n).drop_last() =~= entries.take(n - 1));
        assert(entries.take(n).last() == entries[n - 1]);
    }
}

/// Splitting the flattened items at the last backend.
pub proof fn lemma_all_items_snoc(entries: Seq<BackendEntry>)
    requires
        entries.len() >= 1,
    ensures
        spec_all_items(entries) == spec_all_items(entries.drop_last()) + entries.last().items@,
    decreases entries.len(),
{
    if entries.len() == 1 {
        assert(entries.drop_last() =~= Seq::<BackendEntry>::empty());
        assert(spec_all_items(entries.skip(1)) =~= Seq::<ScheduledItem>::empty());
        assert(spec_all_items(entries) =~= entries[0].items@);
        assert(spec_all_items(entries.drop_last()) + entries.last().items@ =~= entries[0].items@);
    } else {
        lemma_all_items_snoc(entries.skip(1));
        assert(entries.skip(1).drop_last() =~= entries.drop_last().skip(1));
        assert(entries.skip(1).last() == entries.last());
        assert(spec_all_items(entries) =~= entries[0].items@ + spec_all_items(entries.skip(1)));
        assert(entries[0].items@ + (spec_all_items(entries.drop_last().skip(1))
            + entries.last().items@) =~= (entries[0].items@ + spec_all_items(
            entries.drop_last().skip(1),
        )) + entries.last().items@);
        assert(entries.drop_last()[0] == entries[0]);
        assert(spec_all_items(entries.drop_last()) =~= entries[0].items@ + spec_all_items(
            entries.drop_last().skip(1),
        ));
    }
}

/// The due date handed to a backend: the end of the parsed day, or the end
/// of today when the text names no date.
pub fn due_from_parsed(parsed: Option<i64>, now_ms: i64) -> (due: i64)
    ensures
        due as int == match parsed {
            Some(day) => spec_end_of_day(day as int),
            None => spec_end_of_day(spec_day_of_ms(now_ms as int)),
        },
{
    match parsed {
        Some(day) => end_of_day(day),
        None => end_of_day(day_of_ms(now_ms)),
    }
}

/// What the master scheduler decides to do with one schedule command: run a
/// refresh pass, call one backend, or toast a routing miss.
pub enum SchedulerDecision {
    /// Refresh every backend and publish the merged snapshot.
    RefreshAll,
    /// Call `add` on the backend at `index` with the text and its due date.
    CallAdd { index: usize, text: String, due_ms: i64 },
    /// Call `remove` on the backend at `index` with the target text.
    CallClose { index: usize, target: String },
    /// The command named no known backend; show this and change nothing.
    Miss { message: String },
}

impl MasterScheduler {
    /// Decide one schedule command. Backend calls themselves are performed
    /// by the surrounding loop, which then hands the outcome to `after_add`
    /// or `after_close`. `parsed_day`, for an add, is the day the
    /// surrounding loop's best-effort date extraction found in the text,
    /// `None` when it found none; the due date is the end of that day, or
    /// of today.
    pub fn handle_command(&self, cmd: &ScheduleCommand, now_ms: i64, parsed_day: Option<i64>) -> (r:
        SchedulerDecision)
        ensures
            match *cmd {
                ScheduleCommand::Refresh => r is RefreshAll,
                ScheduleCommand::Add(account, text) => match spec_find_scheduler(
                    self.schedulers@,
                    account@,
                ) {
                    Some(j) => r matches SchedulerDecision::CallAdd { index, text: t, due_ms }
                        && index as int == j && t@ == text@ && due_ms as int == (match parsed_day {
                        Some(day) => spec_end_of_day(day as int),
                        None => spec_end_of_day(spec_day_of_ms(now_ms as int)),
                    }),
                    None => r matches SchedulerDecision::Miss { message } && message@
                        == "Could not find scheduler "@ + account@ + " in "@ + spec_join_space(
                        spec_scheduler_ids(self.schedulers@),
                    ),
                },
                ScheduleCommand::CloseTodo(account, target) => match spec_find_scheduler(
                    self.schedulers@,
                    account@,
                ) {
                    Some(j) => r matches SchedulerDecision::CallClose { index, target: t }
                        && index as int == j && t@ == target@,
                    None => r matches SchedulerDecision::Miss { message } && message@
                        == "Could not find scheduler "@ + account@ + " in "@ + spec_join_space(
                        spec_scheduler_ids(self.schedulers@),
                    ),
                },
            },
    {
        match cmd {
            ScheduleCommand::Refresh => SchedulerDecision::RefreshAll,
            ScheduleCommand::Add(account_id, task) => {
                match self.find_scheduler(account_id) {
                    None => SchedulerDecision::Miss {
                        message: self.missing_scheduler_message(account_id),
                    },
                    Some(i) => {
                        let due = due_from_parsed(parsed_day, now_ms);
                        SchedulerDecision::CallAdd { index: i, text: task.clone(), due_ms: due }
                    },
                }
            },
            ScheduleCommand::CloseTodo(account_id, task) => {
                match self.find_scheduler(account_id) {
                    None => SchedulerDecision::Miss {
                        message: self.missing_scheduler_message(account_id),
                    },
                    Some(i) => SchedulerDecision::CallClose { index: i, target: task.clone() },
                }
            },
        }
    }
}

/// What follows a backend `add` call: success queues a refresh so the new
/// item shows up; failure becomes an error toast with the failure text.
pub fn after_add(outcome: &Result<bool, String>, now_ms: i64) -> (r: (
    bool,
    Option<PromptMessage>,
))
    ensures
        match *outcome {
            Ok(_) => r.0 && r.1 is None,
            Err(e) => !r.0 && (r.1 matches Some(m) && m.text == e && m.message_type
                == PromptMessageType::Error && m.ttl as int == spec_sat_add(
                now_ms as int,
                TOAST_TTL_MS as int,
            )),
        },
{
    match outcome {
        Ok(_) => (true, None),
        Err(e) => (
            false,
            Some(
                PromptMessage::new(e.clone(), TOAST_TTL_MS, PromptMessageType::Error, now_ms),
            ),
        ),
    }
}

/// What follows a backend `remove` call: closing the item queues a refresh
/// and clears the selection; a backend error becomes an error toast; a
/// backend that found nothing to close changes nothing.
pub fn after_close(outcome: &Result<bool, String>, now_ms: i64) -> (r: (
    bool,
    bool,
    Option<PromptMessage>,
))
    ensures
        match *outcome {
            Ok(closed) => r.0 == closed && r.1 == closed && r.2 is None,
            Err(e) => !r.0 && !r.1 && (r.2 matches Some(m) && m.text == e && m.message_type
                == PromptMessageType::Error && m.ttl as int == spec_sat_add(
                now_ms as int,
                TOAST_TTL_MS as int,
            )),
        },
{
    match outcome {
        Ok(closed) => (*closed, *closed, None),
        Err(e) => (
            false,
            false,
            Some(
                PromptMessage::new(e.clone(), TOAST_TTL_MS, PromptMessageType::Error, now_ms),
            ),
        ),
    }
}

} // verus!

verus! {

/// Each backend's cache is contained in the flattened whole.
pub proof fn lemma_entry_in_all(entries: Seq<BackendEntry>, i: int)
    requires
        0 <= i < entries.len(),
    ensures
        forall|x: ScheduledItem|
            entries[i].items@.to_multiset().count(x) <= spec_all_items(
                entries,
            ).to_multiset().count(x),
    decreases entries.len(),
{
    vstd::seq_lib::lemma_multiset_commutative(entries[0].items@, spec_all_items(entries.skip(1)));
    if i == 0 {
    } else {
        lemma_entry_in_all(entries.skip(1), i - 1);
        assert(entries.skip(1)[i - 1] == entries[i]);
    }
}

/// Refresh isolation: when one backend's pull fails and another's succeeds,
/// the published snapshot still carries every item the successful backend
/// returned — the failure changes nothing about what the other contributes.
pub proof fn law_refresh_isolation(
    pre: Seq<BackendEntry>,
    post: Seq<BackendEntry>,
    outcomes: Seq<Option<Vec<ScheduledItem>>>,
    b: int,
    fresh: Vec<ScheduledItem>,
    snapshot: Seq<ScheduledItem>,
)
    requires
        spec_refreshed(pre, post, outcomes),
        0 <= b < pre.len(),
        outcomes[b] == Some(fresh),
        snapshot.to_multiset() == spec_all_items(post).to_multiset(),
    ensures
        forall|x: ScheduledItem|
            fresh@.to_multiset().count(x) <= snapshot.to_multiset().count(x),
{
    assert(post[b].items@ == fresh@);
    lemma_entry_in_all(post, b);
}

} // verus!
