//! A batch of installations that run side by side: one task per tool, each
//! moved on by its own events, and the outcomes in the order in which the
//! tasks ended.

use crate::command::Shell;
use crate::installation::{
    after, lemma_events_left_bounded, lemma_finish_records_the_outcome, lemma_installation_ends,
    next,
};
use crate::manifest::{
    arch_named, os_named, HostError, InstallationDetailItem, ResolvedInstallation,
    ToolkitsManifest, OS,
};
use crate::protocol::{ActionView, Event, EventView, InstallOutcome, Outcome, Step, StepView};
use crate::task::{pending, Host, HostView, Task, TaskView};
use crate::toolkit_manifest::{entries, filter_tool_installation_detail, resolve, resolved};
use vstd::prelude::*;

verus! {

/// The outcome of one tool: its place among the batch's tools, its name, and
/// how its installation ended.
#[derive(Debug)]
pub struct BatchEntry {
    pub index: usize,
    pub name: String,
    pub outcome: InstallOutcome,
}

/// What a [`BatchEntry`] stands for.
pub ghost struct EntryView {
    pub index: int,
    pub name: Seq<char>,
    pub outcome: Outcome,
}

impl View for BatchEntry {
    type V = EntryView;

    open spec fn view(&self) -> EntryView {
        EntryView { index: self.index as int, name: self.name@, outcome: self.outcome@ }
    }
}

/// What each entry stands for.
pub open spec fn entry_views(results: Seq<BatchEntry>) -> Seq<EntryView> {
    results.map_values(|e: BatchEntry| e@)
}

/// What each task stands for.
pub open spec fn task_views(tasks: Seq<Task>) -> Seq<TaskView> {
    tasks.map_values(|t: Task| t@)
}

/// The installations of a run: the tools chosen for the host, the state of
/// each one's installation, and the outcomes so far.
#[derive(Debug)]
pub struct Batch {
    host: Host,
    tools: Vec<InstallationDetailItem>,
    tasks: Vec<Task>,
    results: Vec<BatchEntry>,
}

/// What a [`Batch`] stands for.
pub ghost struct BatchView {
    pub host: HostView,
    pub tools: Seq<ResolvedInstallation>,
    pub tasks: Seq<TaskView>,
    /// The outcomes, in the order in which the installations ended.
    pub results: Seq<EntryView>,
}

impl BatchView {
    /// Every tool has its task; every outcome listed is the outcome of the
    /// task it names, under that tool's name; no task is listed twice; and
    /// every task that has ended is listed.
    pub open spec fn wf(self) -> bool {
        &&& self.tasks.len() == self.tools.len()
        &&& forall|k: int|
            0 <= k < self.results.len() ==> {
                let e = #[trigger] self.results[k];
                &&& 0 <= e.index < self.tasks.len()
                &&& self.tasks[e.index].outcome == Some(e.outcome)
                &&& e.name == self.tools[e.index].name
            }
        &&& forall|k: int, l: int|
            0 <= k < l < self.results.len() ==> (#[trigger] self.results[k]).index != (
            #[trigger] self.results[l]).index
        &&& forall|i: int|
            0 <= i < self.tasks.len() && (#[trigger] self.tasks[i]).outcome is Some
                ==> self.lists(i)
    }

    /// Whether the outcome of task `i` is listed.
    pub open spec fn lists(self, i: int) -> bool {
        exists|k: int| 0 <= k < self.results.len() && (#[trigger] self.results[k]).index == i
    }

    /// Whether every installation has ended.
    pub open spec fn complete(self) -> bool {
        forall|i: int| 0 <= i < self.tasks.len() ==> (#[trigger] self.tasks[i]).outcome is Some
    }

    /// The batch before any of its tools is scheduled.
    pub open spec fn fresh(tools: Seq<ResolvedInstallation>, host: HostView) -> BatchView {
        BatchView {
            host,
            tools,
            tasks: Seq::new(tools.len(), |i: int| pending()),
            results: Seq::empty(),
        }
    }

    /// The batch after task `index` has been told of `event`. Only that task
    /// moves; if it ends by this step, its outcome is listed last. An index
    /// that names no task changes nothing.
    pub open spec fn advanced(self, index: int, event: EventView) -> BatchView {
        if 0 <= index < self.tasks.len() {
            let before = self.tasks[index];
            let after = next(before, self.tools[index], self.host, event).0;
            BatchView {
                tasks: self.tasks.update(index, after),
                results: if before.outcome is None && after.outcome is Some {
                    self.results.push(
                        EntryView {
                            index,
                            name: self.tools[index].name,
                            outcome: after.outcome.unwrap(),
                        },
                    )
                } else {
                    self.results
                },
                ..self
            }
        } else {
            self
        }
    }

    /// The batch after its tasks have been told of `events`, each event
    /// paired with the index of the task it is for, in this order.
    pub open spec fn told(self, events: Seq<(int, EventView)>) -> BatchView
        decreases events.len(),
    {
        if events.len() == 0 {
            self
        } else {
            self.advanced(events.first().0, events.first().1).told(events.drop_first())
        }
    }

    /// What task `index` is to do after `event`, if there is such a task.
    pub open spec fn asked(self, index: int, event: EventView) -> Option<StepView> {
        if 0 <= index < self.tasks.len() {
            Some(next(self.tasks[index], self.tools[index], self.host, event).1)
        } else {
            None
        }
    }
}

/// A step keeps a batch well formed.
pub proof fn lemma_advanced_wf(batch: BatchView, index: int, event: EventView)
    requires
        batch.wf(),
    ensures
        batch.advanced(index, event).wf(),
{
    let after = batch.advanced(index, event);
    if 0 <= index < batch.tasks.len() {
        let old_task = batch.tasks[index];
        let new_task = after.tasks[index];
        assert forall|i: int|
            0 <= i < after.tasks.len() && (#[trigger] after.tasks[i]).outcome is Some
        implies after.lists(i) by {
            if i == index && old_task.outcome is None {
                assert(after.results[batch.results.len() as int].index == i);
            } else {
                assert(batch.tasks[i].outcome is Some);
                assert(batch.lists(i));
                let k = choose|k: int|
                    0 <= k < batch.results.len() && (#[trigger] batch.results[k]).index == i;
                assert(after.results[k].index == i);
            }
        }
        assert forall|k: int| 0 <= k < after.results.len() implies {
            let e = #[trigger] after.results[k];
            &&& 0 <= e.index < after.tasks.len()
            &&& after.tasks[e.index].outcome == Some(e.outcome)
            &&& e.name == after.tools[e.index].name
        } by {
            if k < batch.results.len() {
                let e = batch.results[k];
                assert(after.results[k] == e);
                if e.index == index {
                    assert(old_task.outcome is Some);
                }
            }
        }
        assert forall|k: int, l: int| 0 <= k < l < after.results.len() implies (
        #[trigger] after.results[k]).index != (#[trigger] after.results[l]).index by {
            if l < batch.results.len() {
                assert(after.results[k] == batch.results[k]);
                assert(after.results[l] == batch.results[l]);
            } else {
                assert(after.results[k] == batch.results[k]);
                if batch.results[k].index == index {
                    assert(old_task.outcome is Some);
                }
            }
        }
    }
}

impl View for Batch {
    type V = BatchView;

    closed spec fn view(&self) -> BatchView {
        BatchView {
            host: self.host@,
            tools: resolved(self.tools@),
            tasks: task_views(self.tasks@),
            results: entry_views(self.results@),
        }
    }
}

impl Batch {
    /// A batch of the tools chosen for `host`, none of them scheduled yet.
    pub fn new(tools: Vec<InstallationDetailItem>, host: Host) -> (batch: Batch)
        ensures
            batch@ == BatchView::fresh(resolved(tools@), host@),
            batch@.wf(),
    {
        let mut tasks: Vec<Task> = Vec::new();
        let mut i: usize = 0;
        while i < tools.len()
            invariant
                i <= tools.len(),
                tasks.len() == i,
                forall|j: int| 0 <= j < i ==> (#[trigger] tasks[j])@ == pending(),
            decreases tools.len() - i,
        {
            tasks.push(Task::new());
            i += 1;
        }
        let batch = Batch { host, tools, tasks, results: Vec::new() };
        proof {
            assert(batch@.tasks =~= Seq::new(batch@.tools.len(), |i: int| pending()));
            assert(batch@.results =~= Seq::empty());
        }
        batch
    }

    /// The number of tools in the batch.
    pub fn len(&self) -> (count: usize)
        requires
            self@.wf(),
        ensures
            count == self@.tools.len(),
    {
        self.tools.len()
    }

    /// Whether every installation has ended.
    pub fn is_complete(&self) -> (complete: bool)
        requires
            self@.wf(),
        ensures
            complete == self@.complete(),
            complete == (self@.results.len() == self@.tools.len()),
    {
        proof {
            lemma_outcomes_counted(self@);
        }
        self.results.len() == self.tools.len()
    }

    /// The outcomes so far, in the order in which the installations ended.
    pub fn results(&self) -> (results: &Vec<BatchEntry>)
        ensures
            entry_views(results@) == self@.results,
    {
        &self.results
    }

    /// The tools of the batch, in manifest order.
    pub fn tools(&self) -> (tools: &Vec<InstallationDetailItem>)
        ensures
            resolved(tools@) == self@.tools,
    {
        &self.tools
    }

    /// Tells task `index` of `event` and says what it is to do next. No other
    /// task is touched, and no outcome listed before is changed. An index
    /// that names no task gives nothing and changes nothing.
    pub fn advance(&mut self, index: usize, event: Event) -> (step: Option<Step>)
        requires
            old(self)@.wf(),
        ensures
            final(self)@ == old(self)@.advanced(index as int, event@),
            final(self)@.wf(),
            match old(self)@.asked(index as int, event@) {
                Some(s) => step matches Some(st) && st@ == s,
                None => step is None,
            },
            forall|j: int|
                0 <= j < old(self)@.tasks.len() && j != index ==> final(self)@.tasks[j] == old(
                    self,
                )@.tasks[j],
            old(self)@.results.is_prefix_of(final(self)@.results),
    {
        if index >= self.tasks.len() {
            return None;
        }
        proof {
            lemma_advanced_wf(self@, index as int, event@);
        }
        let ghost before = self@;
        let was_done = self.tasks[index].is_done();
        let step = self.tasks[index].step(&self.tools[index], &self.host, event);
        if !was_done {
            match &self.tasks[index].outcome {
                Some(outcome) => {
                    let entry = BatchEntry {
                        index,
                        name: self.tools[index].name.clone(),
                        outcome: outcome.copy(),
                    };
                    self.results.push(entry);
                },
                None => {},
            }
        }
        proof {
            let after = before.advanced(index as int, event@);
            assert(self@.tasks =~= after.tasks);
            assert(self@.results =~= after.results);
            assert(self@.tools == after.tools);
        }
        Some(step)
    }
}

/// Of a well-formed batch, as many outcomes are listed as tasks have ended:
/// all of them exactly when the batch is complete.
pub proof fn lemma_outcomes_counted(batch: BatchView)
    requires
        batch.wf(),
    ensures
        batch.results.len() <= batch.tools.len(),
        batch.complete() <==> batch.results.len() == batch.tools.len(),
{
    let indices = batch.results.map_values(|e: EntryView| e.index);
    let n = batch.tools.len() as int;
    let all = vstd::set_lib::set_int_range(0, n);
    vstd::set_lib::lemma_int_range(0, n);
    assert(indices.no_duplicates());
    indices.unique_seq_to_set();
    assert(indices.to_set().subset_of(all)) by {
        assert forall|i: int| indices.to_set().contains(i) implies all.contains(i) by {
            let k = choose|k: int| 0 <= k < indices.len() && indices[k] == i;
            assert(batch.results[k].index == i);
        }
    }
    vstd::set_lib::lemma_len_subset(indices.to_set(), all);
    if batch.complete() {
        assert(all.subset_of(indices.to_set())) by {
            assert forall|i: int| all.contains(i) implies indices.to_set().contains(i) by {
                assert(batch.tasks[i].outcome is Some);
                assert(batch.lists(i));
                let k = choose|k: int|
                    0 <= k < batch.results.len() && (#[trigger] batch.results[k]).index == i;
                assert(indices[k] == i);
            }
        }
        assert(indices.to_set() =~= all);
    }
    if batch.results.len() == batch.tools.len() {
        vstd::set_lib::lemma_subset_equality(indices.to_set(), all);
        assert forall|i: int| 0 <= i < batch.tasks.len() implies (
        #[trigger] batch.tasks[i]).outcome is Some by {
            assert(all.contains(i));
            assert(indices.to_set().contains(i));
            let k = choose|k: int| 0 <= k < indices.len() && indices[k] == i;
            assert(batch.results[k].index == i);
        }
    }
}

/// The outcomes of a complete batch: one for each tool, none twice and none
/// missing.
pub proof fn lemma_one_outcome_per_tool(batch: BatchView)
    requires
        batch.wf(),
        batch.complete(),
    ensures
        batch.results.len() == batch.tools.len(),
        forall|i: int| 0 <= i < batch.tools.len() ==> batch.lists(i),
        forall|k: int, l: int|
            0 <= k < batch.results.len() && 0 <= l < batch.results.len() && k != l ==> (
            #[trigger] batch.results[k]).index != (#[trigger] batch.results[l]).index,
{
    lemma_outcomes_counted(batch);
    assert forall|i: int| 0 <= i < batch.tools.len() implies batch.lists(i) by {
        assert(batch.tasks[i].outcome is Some);
    }
    assert forall|k: int, l: int|
        0 <= k < batch.results.len() && 0 <= l < batch.results.len() && k != l implies (
    #[trigger] batch.results[k]).index != (#[trigger] batch.results[l]).index by {
        if k < l {
        } else {
            assert(batch.results[l].index != batch.results[k].index);
        }
    }
}

/// Once a task is told that nothing is left to do, its outcome is listed:
/// the outcome that the step names, under the tool's name.
pub proof fn lemma_finished_tool_is_listed(batch: BatchView, index: int, event: EventView)
    requires
        batch.wf(),
        0 <= index < batch.tasks.len(),
    ensures
        batch.asked(index, event) matches Some(step) && step.action matches ActionView::Finish(
            outcome,
        ) ==> exists|k: int|
            0 <= k < batch.advanced(index, event).results.len() && #[trigger] batch.advanced(
                index,
                event,
            ).results[k] == (EntryView { index, name: batch.tools[index].name, outcome }),
{
    let after = batch.advanced(index, event);
    lemma_advanced_wf(batch, index, event);
    lemma_finish_records_the_outcome(batch.tasks[index], batch.tools[index], batch.host, event);
    if batch.asked(index, event).unwrap().action is Finish {
        assert(after.tasks[index].outcome is Some);
        assert(after.lists(index));
        let k = choose|k: int| 0 <= k < after.results.len() && (#[trigger] after.results[k]).index
            == index;
        assert(after.results[k].name == after.tools[index].name);
    }
}

/// What one task is told changes no other task, and no outcome that is
/// already listed.
pub proof fn lemma_tasks_are_isolated(batch: BatchView, index: int, event: EventView, other: int)
    requires
        0 <= other < batch.tasks.len(),
        other != index,
    ensures
        batch.advanced(index, event).tasks[other] == batch.tasks[other],
        batch.results.is_prefix_of(batch.advanced(index, event).results),
{
}

/// The events among `events` that are for task `index`, in their order.
pub open spec fn events_for(events: Seq<(int, EventView)>, index: int) -> Seq<EventView>
    decreases events.len(),
{
    if events.len() == 0 {
        Seq::empty()
    } else if events.first().0 == index {
        seq![events.first().1] + events_for(events.drop_first(), index)
    } else {
        events_for(events.drop_first(), index)
    }
}

/// However the events of a batch's tasks are interleaved, the state that a
/// task reaches is the one that its own events lead to: what happens to the
/// other tasks, a failure as much as anything else, has no part in it.
pub proof fn lemma_task_follows_its_own_events(
    batch: BatchView,
    events: Seq<(int, EventView)>,
    index: int,
)
    requires
        batch.wf(),
        0 <= index < batch.tasks.len(),
    ensures
        batch.told(events).tasks[index] == after(
            batch.tasks[index],
            batch.tools[index],
            batch.host,
            events_for(events, index),
        ),
    decreases events.len(),
{
    if events.len() > 0 {
        let first = events.first();
        let then = batch.advanced(first.0, first.1);
        lemma_advanced_wf(batch, first.0, first.1);
        lemma_told_wf(batch, events);
        lemma_task_follows_its_own_events(then, events.drop_first(), index);
        if first.0 == index {
            let own = events_for(events, index);
            assert(own.first() == first.1);
            assert(own.drop_first() =~= events_for(events.drop_first(), index));
        }
    }
}

/// A batch is complete, with one outcome listed for each tool, once each of
/// its tasks has been told of twenty-one events: no tool can hold the report
/// back for ever.
pub proof fn lemma_batch_completes(batch: BatchView, events: Seq<(int, EventView)>)
    requires
        batch.wf(),
        forall|i: int| 0 <= i < batch.tasks.len() ==> events_for(events, i).len() >= 21,
    ensures
        batch.told(events).wf(),
        batch.told(events).complete(),
        batch.told(events).results.len() == batch.tools.len(),
{
    let end = batch.told(events);
    lemma_told_wf(batch, events);
    assert forall|i: int| 0 <= i < end.tasks.len() implies (#[trigger] end.tasks[i]).outcome
        is Some by {
        lemma_task_follows_its_own_events(batch, events, i);
        lemma_events_left_bounded(batch.tasks[i], batch.tools[i], batch.host);
        lemma_installation_ends(
            batch.tasks[i],
            batch.tools[i],
            batch.host,
            events_for(events, i),
        );
    }
    lemma_outcomes_counted(end);
}

/// Events keep a batch well formed, with the tools and the host it had.
pub proof fn lemma_told_wf(batch: BatchView, events: Seq<(int, EventView)>)
    requires
        batch.wf(),
    ensures
        batch.told(events).wf(),
        batch.told(events).tools == batch.tools,
        batch.told(events).host == batch.host,
        batch.told(events).tasks.len() == batch.tasks.len(),
    decreases events.len(),
{
    if events.len() > 0 {
        lemma_advanced_wf(batch, events.first().0, events.first().1);
        lemma_told_wf(batch.advanced(events.first().0, events.first().1), events.drop_first());
    }
}

/// Two tasks can be told of their events in either order: each ends up in
/// the same state.
pub proof fn lemma_tasks_commute(
    batch: BatchView,
    first: int,
    event: EventView,
    second: int,
    other_event: EventView,
)
    requires
        first != second,
    ensures
        batch.advanced(first, event).advanced(second, other_event).tasks == batch.advanced(
            second,
            other_event,
        ).advanced(first, event).tasks,
{
    assert(batch.advanced(first, event).advanced(second, other_event).tasks =~= batch.advanced(
        second,
        other_event,
    ).advanced(first, event).tasks);
}

/// Begins a run on a host that calls its operating system `cur_os` and its
/// processor `cur_arch`: the records of `manifest` that fit the host become a
/// batch, in manifest order, none of them scheduled yet. A host that names no
/// known platform is refused, the operating system first.
pub fn install(
    manifest: &ToolkitsManifest,
    cur_os: &str,
    cur_arch: &str,
    shell: Shell,
    installed_apps: Vec<String>,
) -> (run: Result<Batch, HostError>)
    ensures
        os_named(cur_os@) is None ==> (run matches Err(HostError::UnsupportedOs(t)) && t@
            == cur_os@),
        os_named(cur_os@) is Some && arch_named(cur_arch@) is None ==> (run matches Err(
            HostError::UnsupportedArch(t),
        ) && t@ == cur_arch@),
        os_named(cur_os@) is Some && arch_named(cur_arch@) is Some ==> (run matches Ok(batch)
            && batch@.wf() && batch@ == BatchView::fresh(
            resolve(
                entries(manifest.tools@),
                os_named(cur_os@).unwrap(),
                arch_named(cur_arch@).unwrap(),
            ),
            HostView {
                os: os_named(cur_os@).unwrap(),
                shell: shell@,
                installed_apps: crate::text::texts(installed_apps@),
            },
        )),
{
    let tools = match filter_tool_installation_detail(manifest.tools.as_slice(), cur_os, cur_arch) {
        Ok(tools) => tools,
        Err(e) => {
            return Err(e);
        },
    };
    match OS::from_str(cur_os) {
        Ok(os) => Ok(Batch::new(tools, Host { os, shell, installed_apps })),
        Err(e) => Err(e),
    }
}

} // verus!
