//! The result list as a mathematical sequence: what an answer adds to it,
//! what holds of the entries that are marked as the first of their group,
//! and what a cycle shows whatever is polled while it lasts, and in
//! whatever order.

use vstd::prelude::*;

use crate::gmatch::GMatchView;
use crate::interface::{MatchView, PollResultView};
use crate::plugins::{dispatched, PollTaskView, TaskState};
use crate::runtime::{lemma_active_distinct, RuntimeView};

verus! {

/// The entries that one answer of plugin `plugin_id` adds to the result
/// list: its matches in the plugin's order, the first of them marked.
pub open spec fn batch(plugin_id: u64, matches: Seq<MatchView>) -> Seq<GMatchView> {
    Seq::new(matches.len(), |i: int| GMatchView::of_match(matches[i], plugin_id, i == 0))
}

/// Plugin `plugin_id` owns an entry of `list_store`.
pub open spec fn contributes(list_store: Seq<GMatchView>, plugin_id: u64) -> bool {
    exists|i: int| 0 <= i < list_store.len() && (#[trigger] list_store[i]).plugin_id == plugin_id
}

/// No entry before row `row` has the owner of the entry at `row`.
pub open spec fn leads(list_store: Seq<GMatchView>, row: int) -> bool {
    forall|j: int| 0 <= j < row ==> (#[trigger] list_store[j]).plugin_id != list_store[row].plugin_id
}

/// The marked entries of `list_store` are the first entries of their
/// owners, and no others.
pub open spec fn grouped(list_store: Seq<GMatchView>) -> bool {
    forall|i: int| 0 <= i < list_store.len() ==> (#[trigger] list_store[i]).first == leads(list_store, i)
}

/// The result list of a cycle in which the plugins have given `answers`,
/// in this order, each as its owner and matches.
pub open spec fn gathered(answers: Seq<(u64, Seq<MatchView>)>) -> Seq<GMatchView>
    decreases answers.len(),
{
    if answers.len() == 0 {
        Seq::empty()
    } else {
        gathered(answers.drop_last()) + batch(answers.last().0, answers.last().1)
    }
}

/// One more answer adds its batch behind what the cycle has gathered.
pub proof fn lemma_gathered_push(
    answers: Seq<(u64, Seq<MatchView>)>,
    plugin_id: u64,
    matches: Seq<MatchView>,
)
    ensures
        gathered(answers.push((plugin_id, matches))) == gathered(answers) + batch(
            plugin_id,
            matches,
        ),
{
    assert(answers.push((plugin_id, matches)).drop_last() =~= answers);
}

/// No plugin has given two of `answers`.
pub open spec fn answered_once(answers: Seq<(u64, Seq<MatchView>)>) -> bool {
    forall|i: int, j: int|
        0 <= i < j < answers.len() ==> (#[trigger] answers[i]).0 != (#[trigger] answers[j]).0
}

/// Whatever the result list held, once a new cycle has begun and its first
/// answer has arrived the list holds the entries of that answer and nothing
/// else: no entry of an earlier cycle is left.
pub proof fn lemma_cycle_starts_empty<P>(
    state: RuntimeView<P>,
    plugin_id: u64,
    matches: Seq<MatchView>,
)
    ensures
        state.begun().list_store.len() == 0,
        state.begun().appended(plugin_id, matches).list_store == batch(plugin_id, matches),
        state.begun().appended(plugin_id, matches).list_store.len() == matches.len(),
        forall|i: int|
            0 <= i < matches.len() ==> #[trigger] state.begun().appended(
                plugin_id,
                matches,
            ).list_store[i] == GMatchView::of_match(matches[i], plugin_id, i == 0),
{
    assert(state.begun().appended(plugin_id, matches).list_store =~= batch(plugin_id, matches));
}

/// An answer keeps what the list holds, in its order, and adds its own
/// entries behind it, in the plugin's order.
pub proof fn lemma_appended_keeps_order<P>(
    state: RuntimeView<P>,
    plugin_id: u64,
    matches: Seq<MatchView>,
)
    ensures
        ({
            let after = state.appended(plugin_id, matches).list_store;
            &&& after.len() == state.list_store.len() + matches.len()
            &&& forall|i: int| 0 <= i < state.list_store.len() ==> after[i] == state.list_store[i]
            &&& forall|i: int|
                0 <= i < matches.len() ==> #[trigger] after[state.list_store.len() + i]
                    == GMatchView::of_match(matches[i], plugin_id, i == 0)
        }),
{
}

/// A grouped list stays grouped when a plugin that owns none of its
/// entries answers.
pub proof fn lemma_batch_keeps_grouped(
    list_store: Seq<GMatchView>,
    plugin_id: u64,
    matches: Seq<MatchView>,
)
    requires
        grouped(list_store),
        !contributes(list_store, plugin_id),
    ensures
        grouped(list_store + batch(plugin_id, matches)),
{
    let after = list_store + batch(plugin_id, matches);
    assert forall|i: int| 0 <= i < after.len() implies (#[trigger] after[i]).first == leads(
        after,
        i,
    ) by {
        if i < list_store.len() {
            assert(after[i] == list_store[i]);
            assert(leads(after, i) == leads(list_store, i)) by {
                assert forall|j: int| 0 <= j < i implies after[j] == list_store[j] by {}
                if leads(list_store, i) {
                    assert forall|j: int| 0 <= j < i implies (#[trigger] after[j]).plugin_id
                        != after[i].plugin_id by {
                        assert(list_store[j].plugin_id != list_store[i].plugin_id);
                    }
                } else {
                    let j = choose|j: int|
                        0 <= j < i && (#[trigger] list_store[j]).plugin_id
                            == list_store[i].plugin_id;
                    assert(after[j].plugin_id == after[i].plugin_id);
                }
            }
        } else {
            let k = i - list_store.len();
            assert(after[i] == batch(plugin_id, matches)[k]);
            if k == 0 {
                assert forall|j: int| 0 <= j < i implies (#[trigger] after[j]).plugin_id
                    != after[i].plugin_id by {
                    assert(after[j] == list_store[j]);
                }
            } else {
                assert(after[list_store.len() as int] == batch(plugin_id, matches)[0]);
                assert(after[list_store.len() as int].plugin_id == after[i].plugin_id);
            }
        }
    }
}

/// In a grouped list, a plugin that owns an entry has exactly one marked
/// entry, and that is the first of its entries.
pub proof fn lemma_grouped_has_one_leader(list_store: Seq<GMatchView>, plugin_id: u64) -> (leader:
    int)
    requires
        grouped(list_store),
        contributes(list_store, plugin_id),
    ensures
        0 <= leader < list_store.len(),
        list_store[leader].plugin_id == plugin_id,
        list_store[leader].first,
        forall|j: int| 0 <= j < leader ==> (#[trigger] list_store[j]).plugin_id != plugin_id,
        forall|j: int|
            0 <= j < list_store.len() && (#[trigger] list_store[j]).plugin_id == plugin_id
                && list_store[j].first ==> j == leader,
{
    let some = choose|i: int|
        0 <= i < list_store.len() && (#[trigger] list_store[i]).plugin_id == plugin_id;
    let leader = first_row_of(list_store, plugin_id, some);
    assert(leads(list_store, leader));
    assert forall|j: int|
        0 <= j < list_store.len() && (#[trigger] list_store[j]).plugin_id == plugin_id
            && list_store[j].first implies j == leader by {
        assert(leads(list_store, j));
        if j < leader {
            assert(list_store[j].plugin_id != plugin_id);
        } else if leader < j {
            assert(list_store[leader].plugin_id != list_store[j].plugin_id);
        }
    }
    leader
}

/// The first row of `list_store` whose entry plugin `plugin_id` owns, given
/// that the entry at `row` is one.
proof fn first_row_of(list_store: Seq<GMatchView>, plugin_id: u64, row: int) -> (first: int)
    requires
        0 <= row < list_store.len(),
        list_store[row].plugin_id == plugin_id,
    ensures
        0 <= first <= row,
        list_store[first].plugin_id == plugin_id,
        forall|j: int| 0 <= j < first ==> (#[trigger] list_store[j]).plugin_id != plugin_id,
    decreases row,
{
    if exists|j: int| 0 <= j < row && (#[trigger] list_store[j]).plugin_id == plugin_id {
        let j = choose|j: int| 0 <= j < row && (#[trigger] list_store[j]).plugin_id == plugin_id;
        first_row_of(list_store, plugin_id, j)
    } else {
        row
    }
}

/// The owners of the entries of a cycle's list are the plugins that gave
/// an answer with at least one match.
pub proof fn lemma_gathered_owners(answers: Seq<(u64, Seq<MatchView>)>, plugin_id: u64)
    ensures
        contributes(gathered(answers), plugin_id) <==> exists|k: int|
            0 <= k < answers.len() && (#[trigger] answers[k]).0 == plugin_id && answers[k].1.len()
                > 0,
    decreases answers.len(),
{
    if answers.len() == 0 {
    } else {
        let earlier = answers.drop_last();
        let last = answers.last();
        let list = gathered(answers);
        lemma_gathered_owners(earlier, plugin_id);
        assert(list == gathered(earlier) + batch(last.0, last.1));
        if contributes(list, plugin_id) {
            let i = choose|i: int| 0 <= i < list.len() && (#[trigger] list[i]).plugin_id == plugin_id;
            if i < gathered(earlier).len() {
                assert(gathered(earlier)[i].plugin_id == plugin_id);
                let k = choose|k: int|
                    0 <= k < earlier.len() && (#[trigger] earlier[k]).0 == plugin_id
                        && earlier[k].1.len() > 0;
                assert(answers[k] == earlier[k]);
            } else {
                assert(list[i] == batch(last.0, last.1)[i - gathered(earlier).len()]);
                assert(answers[answers.len() - 1].0 == plugin_id);
            }
        }
        if exists|k: int|
            0 <= k < answers.len() && (#[trigger] answers[k]).0 == plugin_id && answers[k].1.len()
                > 0 {
            let k = choose|k: int|
                0 <= k < answers.len() && (#[trigger] answers[k]).0 == plugin_id
                    && answers[k].1.len() > 0;
            if k < earlier.len() {
                assert(earlier[k] == answers[k]);
                let i = choose|i: int|
                    0 <= i < gathered(earlier).len() && (#[trigger] gathered(earlier)[i]).plugin_id
                        == plugin_id;
                assert(list[i] == gathered(earlier)[i]);
            } else {
                let at = gathered(earlier).len() as int;
                assert(list[at] == batch(last.0, last.1)[0]);
                assert(list[at].plugin_id == plugin_id);
            }
        }
    }
}

/// The list of a cycle in which no plugin has answered twice is grouped.
pub proof fn lemma_gathered_grouped(answers: Seq<(u64, Seq<MatchView>)>)
    requires
        answered_once(answers),
    ensures
        grouped(gathered(answers)),
    decreases answers.len(),
{
    if answers.len() > 0 {
        let earlier = answers.drop_last();
        let last = answers.last();
        assert(answered_once(earlier)) by {
            assert forall|i: int, j: int| 0 <= i < j < earlier.len() implies (#[trigger] earlier[i]).0
                != (#[trigger] earlier[j]).0 by {
                assert(earlier[i] == answers[i] && earlier[j] == answers[j]);
            }
        }
        lemma_gathered_grouped(earlier);
        lemma_gathered_owners(earlier, last.0);
        assert(!contributes(gathered(earlier), last.0)) by {
            if contributes(gathered(earlier), last.0) {
                let k = choose|k: int|
                    0 <= k < earlier.len() && (#[trigger] earlier[k]).0 == last.0
                        && earlier[k].1.len() > 0;
                assert(earlier[k] == answers[k]);
                assert(answers[k].0 != answers[answers.len() - 1].0);
            }
        }
        lemma_batch_keeps_grouped(gathered(earlier), last.0, last.1);
    }
}

/// In a cycle in which no plugin answers twice, every plugin that has
/// given at least one match has exactly one marked entry in the result
/// list, and that entry is the first that was added for it.
pub proof fn lemma_one_leader_per_plugin(answers: Seq<(u64, Seq<MatchView>)>, plugin_id: u64) -> (leader:
    int)
    requires
        answered_once(answers),
        contributes(gathered(answers), plugin_id),
    ensures
        0 <= leader < gathered(answers).len(),
        gathered(answers)[leader].plugin_id == plugin_id,
        gathered(answers)[leader].first,
        forall|j: int| 0 <= j < leader ==> (#[trigger] gathered(answers)[j]).plugin_id != plugin_id,
        forall|j: int|
            0 <= j < gathered(answers).len() && (#[trigger] gathered(answers)[j]).plugin_id
                == plugin_id && gathered(answers)[j].first ==> j == leader,
{
    lemma_gathered_grouped(answers);
    lemma_grouped_has_one_leader(gathered(answers), plugin_id)
}

/// The session and the tasks after a run of polls.
///
/// Each poll names a task by its place among `tasks` and gives the answer
/// of the task's plugin. The session takes the answer as
/// [`RuntimeView::polled`] says, the task as [`PollTaskView::polled`] says.
/// A poll that names no task changes nothing. The tasks may be of any
/// cycle, and any of them may be polled any number of times.
pub open spec fn polled_run<P>(
    state: RuntimeView<P>,
    tasks: Seq<PollTaskView>,
    polls: Seq<(int, PollResultView)>,
) -> (RuntimeView<P>, Seq<PollTaskView>)
    decreases polls.len(),
{
    if polls.len() == 0 {
        (state, tasks)
    } else {
        let (before, pool) = polled_run(state, tasks, polls.drop_last());
        let (place, result) = polls.last();
        if 0 <= place < pool.len() {
            (
                before.polled(pool[place], result),
                pool.update(place, pool[place].polled(before.cycle, result)),
            )
        } else {
            (before, pool)
        }
    }
}

/// The answers that the session takes in a run of polls, in the order in
/// which they arrive, each as its owner and matches: those that are
/// `Ready` and answer a task that is pending and of the current cycle.
pub open spec fn taken<P>(
    state: RuntimeView<P>,
    tasks: Seq<PollTaskView>,
    polls: Seq<(int, PollResultView)>,
) -> Seq<(u64, Seq<MatchView>)>
    decreases polls.len(),
{
    if polls.len() == 0 {
        Seq::empty()
    } else {
        let earlier = taken(state, tasks, polls.drop_last());
        let (before, pool) = polled_run(state, tasks, polls.drop_last());
        let (place, result) = polls.last();
        if 0 <= place < pool.len() && pool[place].accepted(before.cycle) {
            match result {
                PollResultView::Ready(matches) => earlier.push((pool[place].plugin_id(), matches)),
                _ => earlier,
            }
        } else {
            earlier
        }
    }
}

/// No two tasks of the cycle numbered `cycle` are queries to one plugin.
pub open spec fn asked_once(tasks: Seq<PollTaskView>, cycle: nat) -> bool {
    forall|i: int, j: int|
        0 <= i < j < tasks.len() && (#[trigger] tasks[i]).cycle == cycle && (#[trigger] tasks[j]).cycle
            == cycle ==> tasks[i].plugin != tasks[j].plugin
}

/// Every task of the cycle numbered `cycle` is pending.
pub open spec fn all_pending(tasks: Seq<PollTaskView>, cycle: nat) -> bool {
    forall|i: int|
        0 <= i < tasks.len() && (#[trigger] tasks[i]).cycle == cycle ==> tasks[i].state
            == TaskState::Pending
}

/// A task of the cycle numbered `cycle` has delivered the answer of plugin
/// `plugin_id`.
pub open spec fn answered_by(tasks: Seq<PollTaskView>, cycle: nat, plugin_id: u64) -> bool {
    exists|i: int|
        0 <= i < tasks.len() && (#[trigger] tasks[i]).cycle == cycle && tasks[i].state
            == TaskState::Ready && tasks[i].plugin_id() == plugin_id
}

/// Whatever is polled, and in whatever order: a run of polls leaves the
/// session as it was but for the result list, and the list has grown by
/// the answers that were taken, in the order of their arrival. Each of them
/// was delivered by a task of the current cycle, and where the tasks of
/// that cycle were pending queries to different plugins, no plugin has
/// delivered twice. A task keeps its plugin, its token and its cycle.
pub proof fn lemma_run_gathers<P>(
    state: RuntimeView<P>,
    tasks: Seq<PollTaskView>,
    polls: Seq<(int, PollResultView)>,
)
    requires
        asked_once(tasks, state.cycle),
        all_pending(tasks, state.cycle),
    ensures
        ({
            let (after, pool) = polled_run(state, tasks, polls);
            let got = taken(state, tasks, polls);
            &&& after == (RuntimeView { list_store: state.list_store + gathered(got), ..state })
            &&& pool.len() == tasks.len()
            &&& forall|i: int|
                0 <= i < pool.len() ==> (#[trigger] pool[i]).plugin == tasks[i].plugin && pool[i].cycle
                    == tasks[i].cycle && pool[i].token == tasks[i].token
            &&& forall|k: int|
                0 <= k < got.len() ==> answered_by(pool, state.cycle, (#[trigger] got[k]).0)
            &&& answered_once(got)
        }),
    decreases polls.len(),
{
    let (after, pool) = polled_run(state, tasks, polls);
    let got = taken(state, tasks, polls);
    if polls.len() == 0 {
        assert(state.list_store + gathered(got) =~= state.list_store);
    } else {
        let shorter = polls.drop_last();
        lemma_run_gathers(state, tasks, shorter);
        let (before, pool0) = polled_run(state, tasks, shorter);
        let got0 = taken(state, tasks, shorter);
        let (place, result) = polls.last();
        let cycle = state.cycle;
        if 0 <= place < pool0.len() {
            let task = pool0[place];
            assert(pool == pool0.update(place, task.polled(cycle, result)));
            // A task that has delivered stays as it is.
            assert forall|i: int|
                0 <= i < pool0.len() && (#[trigger] pool0[i]).cycle == cycle && pool0[i].state
                    == TaskState::Ready implies pool[i] == pool0[i] by {
                if i == place {
                    assert(task.state.polled(result) == TaskState::Ready);
                }
            }
            assert forall|k: int| 0 <= k < got0.len() implies answered_by(
                pool,
                cycle,
                (#[trigger] got0[k]).0,
            ) by {
                assert(answered_by(pool0, cycle, got0[k].0));
                let i = choose|i: int|
                    0 <= i < pool0.len() && (#[trigger] pool0[i]).cycle == cycle && pool0[i].state
                        == TaskState::Ready && pool0[i].plugin_id() == got0[k].0;
                assert(pool[i] == pool0[i]);
            }
            if task.accepted(cycle) && result is Ready {
                let matches = result->Ready_0;
                let answer = (task.plugin_id(), matches);
                assert(got == got0.push(answer));
                lemma_gathered_push(got0, task.plugin_id(), matches);
                assert(after.list_store =~= state.list_store + gathered(got));
                assert(pool[place].state == TaskState::Ready);
                assert(answered_by(pool, cycle, answer.0)) by {
                    assert(pool[place].cycle == cycle && pool[place].plugin_id() == answer.0);
                }
                assert forall|k: int| 0 <= k < got0.len() implies (#[trigger] got0[k]).0
                    != answer.0 by {
                    assert(answered_by(pool0, cycle, got0[k].0));
                    let i = choose|i: int|
                        0 <= i < pool0.len() && (#[trigger] pool0[i]).cycle == cycle
                            && pool0[i].state == TaskState::Ready && pool0[i].plugin_id()
                            == got0[k].0;
                    assert(i != place);
                    assert(tasks[i].cycle == cycle && tasks[place].cycle == cycle);
                    assert(tasks[i].plugin != tasks[place].plugin);
                    assert(pool0[i].plugin != pool0[place].plugin);
                }
                assert(answered_once(got)) by {
                    assert forall|a: int, b: int| 0 <= a < b < got.len() implies (#[trigger] got[a]).0
                        != (#[trigger] got[b]).0 by {
                        if b < got0.len() {
                            assert(got[a] == got0[a] && got[b] == got0[b]);
                        } else {
                            assert(got[a] == got0[a] && got[b] == answer);
                        }
                    }
                }
                assert forall|k: int| 0 <= k < got.len() implies answered_by(
                    pool,
                    cycle,
                    (#[trigger] got[k]).0,
                ) by {
                    if k < got0.len() {
                        assert(got[k] == got0[k]);
                    }
                }
            } else {
                assert(got == got0);
                assert(after == before);
            }
        }
    }
}

/// The tasks at hand when a cycle begins: those of earlier cycles, then
/// those that the cycle has made. The tasks of the new cycle are pending
/// queries to different plugins.
pub proof fn lemma_cycle_begins<P>(
    state: RuntimeView<P>,
    earlier: Seq<PollTaskView>,
    made: Seq<PollTaskView>,
)
    requires
        state.wf(),
        forall|i: int| 0 <= i < earlier.len() ==> (#[trigger] earlier[i]).cycle <= state.cycle,
        dispatched(made, state.begun().active(), state.begun().cycle),
    ensures
        asked_once(earlier + made, state.begun().cycle),
        all_pending(earlier + made, state.begun().cycle),
{
    lemma_active_distinct(state);
    let tasks = earlier + made;
    let cycle = state.begun().cycle;
    assert(state.begun().active() == state.active());
    assert forall|i: int, j: int|
        0 <= i < j < tasks.len() && (#[trigger] tasks[i]).cycle == cycle && (#[trigger] tasks[j]).cycle
            == cycle implies tasks[i].plugin != tasks[j].plugin by {
        if i < earlier.len() {
            assert(tasks[i] == earlier[i]);
        } else {
            assert(tasks[i] == made[i - earlier.len()]);
            assert(tasks[j] == made[j - earlier.len()]);
            assert(state.active()[i - earlier.len()] != state.active()[j - earlier.len()]);
        }
    }
    assert forall|i: int| 0 <= i < tasks.len() && (#[trigger] tasks[i]).cycle == cycle implies tasks[i].state
        == TaskState::Pending by {
        if i < earlier.len() {
            assert(tasks[i] == earlier[i]);
        } else {
            assert(tasks[i] == made[i - earlier.len()]);
        }
    }
}

/// Once a new cycle has begun, the result list shows answers to queries of
/// that cycle and nothing else, whatever is polled and in whatever order,
/// tasks of earlier cycles included: the list is what the tasks of the new
/// cycle have delivered, in the order of arrival, and each of these
/// answers is owned by a plugin that the new cycle has asked.
pub proof fn lemma_cycle_shows_its_own_answers<P>(
    state: RuntimeView<P>,
    earlier: Seq<PollTaskView>,
    made: Seq<PollTaskView>,
    polls: Seq<(int, PollResultView)>,
)
    requires
        state.wf(),
        forall|i: int| 0 <= i < earlier.len() ==> (#[trigger] earlier[i]).cycle <= state.cycle,
        dispatched(made, state.begun().active(), state.begun().cycle),
    ensures
        ({
            let (after, pool) = polled_run(state.begun(), earlier + made, polls);
            let got = taken(state.begun(), earlier + made, polls);
            &&& after.list_store == gathered(got)
            &&& after == (RuntimeView { list_store: gathered(got), ..state.begun() })
            &&& answered_once(got)
            &&& grouped(after.list_store)
            &&& forall|k: int|
                0 <= k < got.len() ==> exists|i: int|
                    0 <= i < made.len() && (#[trigger] made[i]).plugin_id() == (#[trigger] got[k]).0
        }),
{
    let begun = state.begun();
    let tasks = earlier + made;
    lemma_cycle_begins(state, earlier, made);
    lemma_run_gathers(begun, tasks, polls);
    let (after, pool) = polled_run(begun, tasks, polls);
    let got = taken(begun, tasks, polls);
    assert(begun.list_store + gathered(got) =~= gathered(got));
    lemma_gathered_grouped(got);
    assert forall|k: int| 0 <= k < got.len() implies exists|i: int|
        0 <= i < made.len() && (#[trigger] made[i]).plugin_id() == (#[trigger] got[k]).0 by {
        assert(answered_by(pool, begun.cycle, got[k].0));
        let p = choose|p: int|
            0 <= p < pool.len() && (#[trigger] pool[p]).cycle == begun.cycle && pool[p].state
                == TaskState::Ready && pool[p].plugin_id() == got[k].0;
        assert(tasks[p].cycle == begun.cycle);
        if p < earlier.len() {
            assert(tasks[p] == earlier[p]);
        } else {
            assert(tasks[p] == made[p - earlier.len()]);
            assert(made[p - earlier.len()].plugin_id() == got[k].0);
        }
    }
}

/// Polls of tasks of other cycles change nothing in the session.
pub proof fn lemma_stale_polls_add_nothing<P>(
    state: RuntimeView<P>,
    tasks: Seq<PollTaskView>,
    polls: Seq<(int, PollResultView)>,
)
    requires
        forall|i: int| 0 <= i < tasks.len() ==> (#[trigger] tasks[i]).cycle != state.cycle,
    ensures
        polled_run(state, tasks, polls).0 == state,
        taken(state, tasks, polls).len() == 0,
{
    lemma_run_gathers(state, tasks, polls);
    let (after, pool) = polled_run(state, tasks, polls);
    let got = taken(state, tasks, polls);
    if got.len() > 0 {
        assert(answered_by(pool, state.cycle, got[0].0));
    }
    assert(state.list_store + gathered(got) =~= state.list_store);
}

/// In a cycle, every plugin that has given at least one match has exactly
/// one marked entry in the result list, and that entry is the first that
/// was added for it: whatever is polled and in whatever order, tasks of
/// earlier cycles included.
pub proof fn lemma_one_leader_in_cycle<P>(
    state: RuntimeView<P>,
    earlier: Seq<PollTaskView>,
    made: Seq<PollTaskView>,
    polls: Seq<(int, PollResultView)>,
    plugin_id: u64,
) -> (leader: int)
    requires
        state.wf(),
        forall|i: int| 0 <= i < earlier.len() ==> (#[trigger] earlier[i]).cycle <= state.cycle,
        dispatched(made, state.begun().active(), state.begun().cycle),
        contributes(polled_run(state.begun(), earlier + made, polls).0.list_store, plugin_id),
    ensures
        ({
            let list_store = polled_run(state.begun(), earlier + made, polls).0.list_store;
            &&& 0 <= leader < list_store.len()
            &&& list_store[leader].plugin_id == plugin_id
            &&& list_store[leader].first
            &&& forall|j: int| 0 <= j < leader ==> (#[trigger] list_store[j]).plugin_id != plugin_id
            &&& forall|j: int|
                0 <= j < list_store.len() && (#[trigger] list_store[j]).plugin_id == plugin_id
                    && list_store[j].first ==> j == leader
        }),
{
    lemma_cycle_shows_its_own_answers(state, earlier, made, polls);
    lemma_grouped_has_one_leader(
        polled_run(state.begun(), earlier + made, polls).0.list_store,
        plugin_id,
    )
}

} // verus!
