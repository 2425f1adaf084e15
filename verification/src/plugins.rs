//! Queries: a cycle asks every active plugin for matches, each answer is
//! fetched by polling, and the answers are gathered in the result list in
//! the order in which they arrive.

use vstd::prelude::*;
use vstd::string::StringExecFns;

use crate::aggregate::{batch, contributes, grouped, lemma_batch_keeps_grouped};
use crate::gmatch::{GMatch, GMatchView};
use crate::interface::{answered, initialized, queried, Match, Plugin, PollResult, PollResultView};
use crate::path::{is_absolute, join, path_is_absolute, path_join};
use crate::runtime::{LookupError, RuntimeData};

verus! {

/// The directory, below a configuration directory, that holds plugins.
pub const PLUGINS_DIR: &'static str = "plugins";

/// Why a plugin could not be loaded. Either way the session cannot start;
/// the path is kept for the diagnostic.
#[derive(Debug, PartialEq, Eq)]
pub enum LoadError {
    /// No file for the plugin exists in any of the directories searched.
    /// Holds the path as it was configured.
    NotFound(String),
    /// The file at this path could not be opened as a plugin: its header,
    /// its version or one of its capabilities did not check out.
    AbiMismatch(String),
}

/// The mathematical content of a [`LoadError`].
pub enum LoadErrorView {
    NotFound(Seq<char>),
    AbiMismatch(Seq<char>),
}

impl View for LoadError {
    type V = LoadErrorView;

    open spec fn view(&self) -> LoadErrorView {
        match self {
            LoadError::NotFound(path) => LoadErrorView::NotFound(path@),
            LoadError::AbiMismatch(path) => LoadErrorView::AbiMismatch(path@),
        }
    }
}

impl LoadErrorView {
    /// The diagnostic: the reason, then the path.
    pub open spec fn message(self) -> Seq<char> {
        match self {
            LoadErrorView::NotFound(path) => "Invalid plugin path: "@ + path,
            LoadErrorView::AbiMismatch(path) => "Failed to load plugin: "@ + path,
        }
    }
}

impl LoadError {
    /// The diagnostic that names the reason and the path.
    pub fn message(&self) -> (message: String)
        ensures
            message@ == self@.message(),
    {
        match self {
            LoadError::NotFound(path) => String::from_str("Invalid plugin path: ").concat(
                path.as_str(),
            ),
            LoadError::AbiMismatch(path) => String::from_str("Failed to load plugin: ").concat(
                path.as_str(),
            ),
        }
    }
}

/// The directories that are searched for plugins, in the order of the
/// search: those of the override, where the environment gives one, and
/// otherwise the plugin directory below `config_dir`, then the one below
/// `default_config_dir`.
pub open spec fn search_dirs(
    env_paths: Option<Seq<Seq<char>>>,
    config_dir: Seq<char>,
    default_config_dir: Seq<char>,
) -> Seq<Seq<char>> {
    match env_paths {
        Some(paths) => paths,
        None => seq![
            path_join(config_dir, PLUGINS_DIR@),
            path_join(default_config_dir, PLUGINS_DIR@),
        ],
    }
}

/// The directories that are searched for plugins: see [`search_dirs`].
pub fn plugin_search_dirs(
    env_paths: Option<Vec<String>>,
    config_dir: &str,
    default_config_dir: &str,
) -> (plugins_paths: Vec<String>)
    ensures
        plugins_paths.deep_view() == search_dirs(
            env_paths.deep_view(),
            config_dir@,
            default_config_dir@,
        ),
{
    match env_paths {
        Some(paths) => paths,
        None => {
            let mut plugins_paths: Vec<String> = Vec::new();
            plugins_paths.push(join(config_dir, PLUGINS_DIR));
            plugins_paths.push(join(default_config_dir, PLUGINS_DIR));
            assert(plugins_paths.deep_view() =~= search_dirs(None, config_dir@, default_config_dir@));
            plugins_paths
        },
    }
}

/// The files that may hold the plugin configured as `plugin_path`: the
/// path adjoined to each of the directories, in their order.
pub fn candidate_paths(plugin_path: &str, plugins_paths: &Vec<String>) -> (candidates: Vec<String>)
    ensures
        candidates@.len() == plugins_paths@.len(),
        forall|i: int|
            0 <= i < candidates@.len() ==> (#[trigger] candidates@[i])@ == path_join(
                plugins_paths@[i]@,
                plugin_path@,
            ),
{
    let mut candidates: Vec<String> = Vec::new();
    let mut index: usize = 0;
    while index < plugins_paths.len()
        invariant
            index <= plugins_paths.len(),
            candidates@.len() == index,
            forall|i: int|
                0 <= i < index ==> (#[trigger] candidates@[i])@ == path_join(
                    plugins_paths@[i]@,
                    plugin_path@,
                ),
        decreases plugins_paths.len() - index,
    {
        candidates.push(join(plugins_paths[index].as_str(), plugin_path));
        index += 1;
    }
    candidates
}

/// The file that a plugin is loaded from, as the search for it has chosen
/// it. Only [`select_plugin_path`] and [`resolve_plugin_path`] make one, so
/// that what is loaded is what was looked for.
#[derive(Debug, PartialEq, Eq)]
pub struct PluginPath {
    path: String,
}

impl View for PluginPath {
    type V = Seq<char>;

    closed spec fn view(&self) -> Seq<char> {
        self.path@
    }
}

impl PluginPath {
    /// The path as text.
    pub fn as_str(&self) -> (path: &str)
        ensures
            path@ == self@,
    {
        self.path.as_str()
    }
}

/// Candidate `i` is known to exist, and none before it is.
pub open spec fn first_existing(candidates: Seq<String>, exists: Seq<bool>, i: int) -> bool {
    &&& 0 <= i < candidates.len()
    &&& i < exists.len()
    &&& exists[i]
    &&& forall|j: int| 0 <= j < i ==> !#[trigger] exists[j]
}

/// No candidate is known to exist.
pub open spec fn none_existing(candidates: Seq<String>, exists: Seq<bool>) -> bool {
    forall|j: int| 0 <= j < candidates.len() && j < exists.len() ==> !#[trigger] exists[j]
}

/// What [`select_plugin_path`] returns for a path that is absolute or not,
/// as `absolute` says.
pub open spec fn selected_path(
    plugin_path: Seq<char>,
    absolute: bool,
    candidates: Seq<String>,
    exists: Seq<bool>,
    path: Result<PluginPath, LoadError>,
) -> bool {
    if absolute {
        path matches Ok(p) && p@ == plugin_path
    } else {
        match path {
            Ok(p) => exists|i: int|
                first_existing(candidates, exists, i) && p@ == (#[trigger] candidates[i])@,
            Err(error) => none_existing(candidates, exists) && error@ == LoadErrorView::NotFound(
                plugin_path,
            ),
        }
    }
}

/// The file that the plugin configured as `plugin_path` is loaded from,
/// where `absolute` tells whether that path is absolute.
///
/// An absolute path is used as it is, whether or not a file is there. Any
/// other is looked for among `candidates`, of which `exists` tells, place by
/// place, whether the file exists: the first that does is taken. A
/// candidate without a place in `exists` counts as missing.
///
/// Fails with `NotFound`, which holds `plugin_path`, exactly when the path
/// is not absolute and no candidate exists.
pub fn select_plugin_path(
    plugin_path: &str,
    absolute: bool,
    candidates: &Vec<String>,
    exists: &Vec<bool>,
) -> (path: Result<PluginPath, LoadError>)
    ensures
        selected_path(plugin_path@, absolute, candidates@, exists@, path),
{
    if absolute {
        return Ok(PluginPath { path: String::from_str(plugin_path) });
    }
    let mut index: usize = 0;
    while index < candidates.len() && index < exists.len()
        invariant
            index <= candidates.len(),
            index <= exists.len(),
            !absolute,
            forall|j: int| 0 <= j < index ==> !#[trigger] exists@[j],
        decreases candidates.len() - index,
    {
        if exists[index] {
            assert(first_existing(candidates@, exists@, index as int));
            return Ok(PluginPath { path: candidates[index].clone() });
        }
        index += 1;
    }
    Err(LoadError::NotFound(String::from_str(plugin_path)))
}

/// The file that the plugin configured as `plugin_path` is loaded from: as
/// [`select_plugin_path`] chooses it, for a path that is absolute exactly
/// when the platform reads it so.
pub fn resolve_plugin_path(plugin_path: &str, candidates: &Vec<String>, exists: &Vec<bool>) -> (path:
    Result<PluginPath, LoadError>)
    ensures
        selected_path(plugin_path@, path_is_absolute(plugin_path@), candidates@, exists@, path),
{
    select_plugin_path(plugin_path, is_absolute(plugin_path), candidates, exists)
}

/// Completes the loading of the plugin whose file is `path`, the file that
/// the search has chosen, given what opening that file has produced: a
/// plugin that was opened gets its one call of `init`, with the active
/// configuration directory, and is returned.
///
/// Fails with `AbiMismatch`, which holds `path`, exactly when the file could
/// not be opened as a plugin.
pub fn load_plugin<P: Plugin>(path: &PluginPath, opened: Option<P>, config_dir: &str) -> (plugin:
    Result<P, LoadError>)
    ensures
        match opened {
            Some(p) => plugin matches Ok(loaded) && loaded == p && initialized(p, config_dir),
            None => plugin matches Err(error) && error@ == LoadErrorView::AbiMismatch(path@),
        },
{
    match opened {
        Some(plugin) => {
            plugin.init(config_dir);
            Ok(plugin)
        },
        None => Err(LoadError::AbiMismatch(String::from_str(path.as_str()))),
    }
}

/// The time between two polls of an in-flight query, in milliseconds.
pub const POLL_INTERVAL_MS: u64 = 1;

/// What the poll timer does with a task after one poll.
#[derive(Clone, Copy, Debug, PartialEq, Eq, Structural)]
pub enum ControlFlow {
    /// Keep the task: poll again after the interval.
    Continue,
    /// Retire the task: it is never polled again.
    Break,
}

/// Where an in-flight query stands. `Ready` and `Cancelled` are final.
#[derive(Clone, Copy, Debug, PartialEq, Eq, Structural)]
pub enum TaskState {
    Pending,
    Ready,
    Cancelled,
}

impl TaskState {
    /// The state after the plugin has answered a poll with `result`. A
    /// query that has left `Pending` stays where it is, whatever is answered.
    pub open spec fn polled(self, result: PollResultView) -> TaskState {
        match self {
            TaskState::Pending => match result {
                PollResultView::Ready(_) => TaskState::Ready,
                PollResultView::Pending => TaskState::Pending,
                PollResultView::Cancelled => TaskState::Cancelled,
            },
            _ => self,
        }
    }

    /// The state after a newer cycle has overtaken the query: a pending
    /// query is cancelled, and one that has left `Pending` stays where it is.
    pub open spec fn superseded(self) -> TaskState {
        match self {
            TaskState::Pending => TaskState::Cancelled,
            _ => self,
        }
    }

    /// The state after the plugin has answered a run of polls, one after
    /// the other.
    pub open spec fn polled_all(self, results: Seq<PollResultView>) -> TaskState
        decreases results.len(),
    {
        if results.len() == 0 {
            self
        } else {
            self.polled(results.first()).polled_all(results.drop_first())
        }
    }

    /// What the poll timer does with a task in this state.
    pub open spec fn flow(self) -> ControlFlow {
        match self {
            TaskState::Pending => ControlFlow::Continue,
            _ => ControlFlow::Break,
        }
    }
}

/// Answering one run of polls after another is answering the two runs in
/// a row.
pub proof fn lemma_polled_all_concat(
    state: TaskState,
    earlier: Seq<PollResultView>,
    later: Seq<PollResultView>,
)
    ensures
        state.polled_all(earlier + later) == state.polled_all(earlier).polled_all(later),
    decreases earlier.len(),
{
    if earlier.len() == 0 {
        assert(earlier + later =~= later);
    } else {
        assert((earlier + later).first() == earlier.first());
        assert((earlier + later).drop_first() =~= earlier.drop_first() + later);
        lemma_polled_all_concat(state.polled(earlier.first()), earlier.drop_first(), later);
    }
}

/// A query that is `Ready` or `Cancelled` stays so: no answer to a later
/// poll, no run of them, and no newer cycle makes it `Pending` again, or
/// anything else. And no query is pending once a newer cycle has overtaken
/// it.
pub proof fn lemma_final_state_stays(state: TaskState, results: Seq<PollResultView>)
    ensures
        state != TaskState::Pending ==> state.polled_all(results) == state,
        state != TaskState::Pending ==> state.superseded() == state,
        state.superseded() != TaskState::Pending,
    decreases results.len(),
{
    if results.len() > 0 {
        lemma_final_state_stays(state, results.drop_first());
    }
}

/// Polling is monotonic: once a run of answers has taken a query out of
/// `Pending`, every longer run leaves it in the state that it reached.
pub proof fn lemma_poll_monotonic(
    state: TaskState,
    earlier: Seq<PollResultView>,
    later: Seq<PollResultView>,
)
    requires
        state.polled_all(earlier) != TaskState::Pending,
    ensures
        state.polled_all(earlier + later) == state.polled_all(earlier),
        state.polled_all(earlier + later) != TaskState::Pending,
{
    lemma_polled_all_concat(state, earlier, later);
    lemma_final_state_stays(state.polled_all(earlier), later);
}

/// One in-flight query: the plugin that was asked, the token it gave, and
/// the cycle that the query belongs to.
///
/// A task cannot be copied: what a query delivers, it delivers once.
#[derive(Debug, PartialEq, Eq)]
pub struct PollTask {
    plugin: usize,
    token: u64,
    cycle: u64,
    state: TaskState,
}

/// The mathematical content of a [`PollTask`].
pub struct PollTaskView {
    /// The index of the plugin that was asked.
    pub plugin: usize,
    /// The token that the plugin returned for the query.
    pub token: u64,
    /// The number of the cycle that made the query.
    pub cycle: nat,
    pub state: TaskState,
}

impl PollTaskView {
    /// The identity under which the task's matches enter the result list.
    pub open spec fn plugin_id(self) -> u64 {
        self.plugin as u64
    }

    /// The query is pending and belongs to the cycle numbered `cycle`: it
    /// is polled, and what it delivers is taken.
    pub open spec fn accepted(self, cycle: nat) -> bool {
        self.cycle == cycle && self.state == TaskState::Pending
    }

    /// The task after it has been polled while the cycle numbered `cycle`
    /// was the current one, with `result` for an answer. A task of that
    /// cycle takes the answer. A task of any other cycle is out of date:
    /// it is cancelled if it was pending, whatever the answer.
    pub open spec fn polled(self, cycle: nat, result: PollResultView) -> PollTaskView {
        PollTaskView {
            state: if self.cycle == cycle {
                self.state.polled(result)
            } else {
                self.state.superseded()
            },
            ..self
        }
    }

    /// The result list after the task has been polled while the cycle
    /// numbered `cycle` was the current one, with `result` for an answer:
    /// only the answer `Ready` to a pending query of that cycle adds its
    /// batch.
    pub open spec fn delivered(
        self,
        cycle: nat,
        list_store: Seq<GMatchView>,
        result: PollResultView,
    ) -> Seq<GMatchView> {
        if self.accepted(cycle) {
            match result {
                PollResultView::Ready(matches) => list_store + batch(self.plugin_id(), matches),
                _ => list_store,
            }
        } else {
            list_store
        }
    }
}

impl View for PollTask {
    type V = PollTaskView;

    closed spec fn view(&self) -> PollTaskView {
        PollTaskView {
            plugin: self.plugin,
            token: self.token,
            cycle: self.cycle as nat,
            state: self.state,
        }
    }
}

impl PollTask {
    /// The task for the query that plugin `plugin` has just started under
    /// `token`, in the cycle numbered `cycle`.
    pub fn new(plugin: usize, token: u64, cycle: u64) -> (task: PollTask)
        ensures
            task@ == (PollTaskView { plugin, token, cycle: cycle as nat, state: TaskState::Pending }),
    {
        PollTask { plugin, token, cycle, state: TaskState::Pending }
    }

    /// The index of the plugin that was asked.
    pub fn plugin(&self) -> (plugin: usize)
        ensures
            plugin == self@.plugin,
    {
        self.plugin
    }

    /// The identity under which the task's matches enter the result list.
    pub fn plugin_id(&self) -> (plugin_id: u64)
        ensures
            plugin_id == self@.plugin_id(),
    {
        self.plugin as u64
    }

    /// The token that the plugin returned for the query.
    pub fn token(&self) -> (token: u64)
        ensures
            token == self@.token,
    {
        self.token
    }

    /// The number of the cycle that made the query.
    pub fn cycle(&self) -> (cycle: u64)
        ensures
            cycle == self@.cycle,
    {
        self.cycle
    }

    /// Where the query stands.
    pub fn state(&self) -> (state: TaskState)
        ensures
            state == self@.state,
    {
        self.state
    }

    /// Takes the plugin's answer to one poll of the query, made while the
    /// cycle numbered `cycle` was the current one.
    ///
    /// A pending query of that cycle that is answered `Ready` hands its
    /// matches to the result list and is retired, one answered `Cancelled`
    /// is retired and leaves the list as it is, one answered `Pending` is
    /// kept. A pending query of any other cycle is out of date: it is
    /// cancelled, and adds nothing, whatever the answer. A retired task
    /// ignores the answer.
    pub fn resolve(&mut self, result: PollResult, cycle: u64, list_store: &mut Vec<GMatch>) -> (flow:
        ControlFlow)
        ensures
            final(self)@ == old(self)@.polled(cycle as nat, result@),
            final(list_store).deep_view() == old(self)@.delivered(
                cycle as nat,
                old(list_store).deep_view(),
                result@,
            ),
            flow == final(self)@.state.flow(),
    {
        match self.state {
            TaskState::Pending => {
                if self.cycle != cycle {
                    self.state = TaskState::Cancelled;
                    return ControlFlow::Break;
                }
                match result {
                    PollResult::Ready(matches) => {
                        handle_matches(self.plugin as u64, matches.as_slice(), list_store);
                        self.state = TaskState::Ready;
                        ControlFlow::Break
                    },
                    PollResult::Pending => ControlFlow::Continue,
                    PollResult::Cancelled => {
                        self.state = TaskState::Cancelled;
                        ControlFlow::Break
                    },
                }
            },
            _ => ControlFlow::Break,
        }
    }

    /// Retires a task that is out of date: a pending query is cancelled.
    /// The plugin is not asked.
    pub fn supersede(&mut self) -> (flow: ControlFlow)
        ensures
            final(self)@ == (PollTaskView { state: old(self)@.state.superseded(), ..old(self)@ }),
            flow == ControlFlow::Break,
    {
        match self.state {
            TaskState::Pending => {
                self.state = TaskState::Cancelled;
            },
            _ => {},
        }
        ControlFlow::Break
    }
}

/// Appends one answer of plugin `plugin_id` to the result list: an entry for
/// each match, in the plugin's order, the first of them marked as the head
/// of its group. What the list held before stays in place.
///
/// Where the marks of the list were in order, and the plugin owned none of
/// its entries, the marks are in order afterwards: the plugin's first entry
/// is marked, and no other of its entries is.
pub fn handle_matches(plugin_id: u64, matches: &[Match], list_store: &mut Vec<GMatch>)
    ensures
        final(list_store).deep_view() == old(list_store).deep_view() + batch(
            plugin_id,
            matches.deep_view(),
        ),
        grouped(old(list_store).deep_view()) && !contributes(
            old(list_store).deep_view(),
            plugin_id,
        ) ==> grouped(final(list_store).deep_view()),
{
    let ghost before = list_store.deep_view();
    let ghost added = batch(plugin_id, matches.deep_view());
    let mut index: usize = 0;
    while index < matches.len()
        invariant
            index <= matches.len(),
            added == batch(plugin_id, matches.deep_view()),
            list_store.deep_view() == before + added.take(index as int),
        decreases matches.len() - index,
    {
        let mut gmatch = GMatch::from(matches[index].clone());
        gmatch.set_plugin_id(plugin_id);
        gmatch.set_first(index == 0);
        let ghost entry = gmatch@;
        let ghost held = list_store.deep_view();
        list_store.push(gmatch);
        assert(list_store.deep_view() =~= held.push(entry));
        assert(added.take(index as int).push(added[index as int]) =~= added.take(index + 1));
        index += 1;
    }
    assert(added.take(index as int) =~= added);
    proof {
        if grouped(before) && !contributes(before, plugin_id) {
            lemma_batch_keeps_grouped(before, plugin_id, matches.deep_view());
        }
    }
}

/// `tasks` are the queries of the cycle numbered `cycle`: pending queries
/// to the plugins `active`, one for each and in the same order.
pub open spec fn dispatched(tasks: Seq<PollTaskView>, active: Seq<usize>, cycle: nat) -> bool {
    &&& tasks.len() == active.len()
    &&& forall|i: int|
        0 <= i < tasks.len() ==> {
            &&& (#[trigger] tasks[i]).plugin == active[i]
            &&& tasks[i].cycle == cycle
            &&& tasks[i].state == TaskState::Pending
        }
}

/// The views of `tasks`, in their order.
pub open spec fn task_views(tasks: Seq<PollTask>) -> Seq<PollTaskView> {
    Seq::new(tasks.len(), |i: int| tasks[i]@)
}

/// Starts a new cycle for `input`: empties the result list, gives the cycle
/// the next number, asks every active plugin for the matches of `input`,
/// and returns one pending task for each query, in the order in which the
/// plugins were asked, with the token that the plugin returned and the
/// number of the new cycle. The active plugins are the exclusive plugin
/// alone, if there is one, and every loaded plugin otherwise.
///
/// The tasks of every earlier cycle are out of date from now on: whatever
/// their plugins answer, the session takes nothing from them.
///
/// The cycles of a session are counted in 64 bits: the session must not
/// have begun as many cycles as that count can hold.
pub fn refresh_matches<P: Plugin>(input: &str, runtime_data: &mut RuntimeData<P>) -> (tasks: Vec<
    PollTask,
>)
    requires
        old(runtime_data)@.cycle < u64::MAX,
    ensures
        final(runtime_data)@ == old(runtime_data)@.begun(),
        final(runtime_data)@.wf(),
        tasks@.len() == old(runtime_data)@.active().len(),
        forall|i: int|
            0 <= i < tasks@.len() ==> {
                &&& (#[trigger] tasks@[i])@.plugin == old(runtime_data)@.active()[i]
                &&& tasks@[i]@.plugin < old(runtime_data)@.plugins.len()
                &&& tasks@[i]@.cycle == final(runtime_data)@.cycle
                &&& tasks@[i]@.state == TaskState::Pending
                &&& queried(
                    old(runtime_data)@.plugins[tasks@[i]@.plugin as int],
                    input,
                    tasks@[i]@.token,
                )
            },
{
    let active = runtime_data.begin_cycle();
    let cycle = runtime_data.cycle();
    let mut tasks: Vec<PollTask> = Vec::new();
    let mut index: usize = 0;
    while index < active.len()
        invariant
            index <= active.len(),
            tasks@.len() == index,
            runtime_data@.wf(),
            cycle == runtime_data@.cycle,
            active@ == runtime_data@.active(),
            forall|i: int| 0 <= i < active@.len() ==> active@[i] < runtime_data@.plugins.len(),
            forall|i: int|
                0 <= i < index ==> {
                    &&& (#[trigger] tasks@[i])@.plugin == active@[i]
                    &&& tasks@[i]@.cycle == cycle
                    &&& tasks@[i]@.state == TaskState::Pending
                    &&& queried(
                        runtime_data@.plugins[tasks@[i]@.plugin as int],
                        input,
                        tasks@[i]@.token,
                    )
                },
        decreases active.len() - index,
    {
        let plugin = active[index];
        let token = runtime_data.plugins()[plugin].get_matches(input);
        tasks.push(PollTask::new(plugin, token, cycle));
        index += 1;
    }
    tasks
}

/// Polls the query of `task` once, while the cycle numbered `cycle` is the
/// current one, and takes the answer as [`PollTask::resolve`] does.
///
/// A pending task of that cycle has `plugin` asked with its token, and
/// whatever the plugin answers, the task and the result list change as
/// that answer requires. A task of any other cycle is out of date: it is
/// cancelled if it was pending, the list stays as it is, and `plugin` is
/// not asked. A task that is retired already is left alone. The task is
/// kept exactly while it is pending.
pub fn async_match<P: Plugin>(
    plugin: &P,
    task: &mut PollTask,
    cycle: u64,
    list_store: &mut Vec<GMatch>,
) -> (flow: ControlFlow)
    ensures
        old(task)@.accepted(cycle as nat) ==> exists|result: PollResult|
            {
                &&& #[trigger] answered(*plugin, old(task)@.token, result)
                &&& final(task)@ == old(task)@.polled(cycle as nat, result@)
                &&& final(list_store).deep_view() == old(task)@.delivered(
                    cycle as nat,
                    old(list_store).deep_view(),
                    result@,
                )
            },
        !old(task)@.accepted(cycle as nat) ==> {
            &&& final(task)@ == old(task)@.polled(cycle as nat, PollResultView::Cancelled)
            &&& final(list_store).deep_view() == old(list_store).deep_view()
            &&& flow == ControlFlow::Break
        },
        flow == final(task)@.state.flow(),
{
    if task.cycle() != cycle {
        return task.supersede();
    }
    match task.state() {
        TaskState::Pending => {
            let result = plugin.poll_matches(task.token());
            let ghost answer = result;
            let flow = task.resolve(result, cycle, list_store);
            assert(answered(*plugin, old(task)@.token, answer));
            flow
        },
        _ => ControlFlow::Break,
    }
}

impl<P> RuntimeData<P> {
    /// A new cycle begins: the result list is emptied, the cycle gets the
    /// next number, and the plugins to ask are returned in the order in
    /// which they are asked.
    ///
    /// The cycles of a session are counted in 64 bits: the session must
    /// not have begun as many cycles as that count can hold.
    pub fn begin_cycle(&mut self) -> (active: Vec<usize>)
        requires
            old(self)@.cycle < u64::MAX,
        ensures
            final(self)@ == old(self)@.begun(),
            final(self)@.wf(),
            active@ == old(self)@.active(),
            forall|i: int| 0 <= i < active@.len() ==> active@[i] < old(self)@.plugins.len(),
    {
        proof {
            use_type_invariant(&self.registry);
            self.lemma_wf();
        }
        self.list_store.clear();
        self.cycle = self.cycle + 1;
        assert(self.list_store.deep_view() =~= Seq::empty());
        let mut active: Vec<usize> = Vec::new();
        match self.registry.exclusive {
            Some(plugin) => {
                active.push(plugin);
                assert(active@ =~= seq![plugin]);
            },
            None => {
                let mut index: usize = 0;
                let count = self.registry.plugins.len();
                while index < count
                    invariant
                        index <= count,
                        active@ == Seq::new(index as nat, |i: int| i as usize),
                    decreases count - index,
                {
                    active.push(index);
                    assert(active@ =~= Seq::new((index + 1) as nat, |i: int| i as usize));
                    index += 1;
                }
            },
        }
        active
    }

    /// Appends one answer of plugin `plugin_id` to this session's result
    /// list, as [`handle_matches`] does, whatever cycle the answer is from.
    pub fn append(&mut self, plugin_id: u64, matches: &[Match])
        ensures
            final(self)@ == old(self)@.appended(plugin_id, matches.deep_view()),
            final(self)@.wf(),
            grouped(old(self)@.list_store) && !contributes(old(self)@.list_store, plugin_id)
                ==> grouped(final(self)@.list_store),
    {
        proof {
            use_type_invariant(&self.registry);
            self.lemma_wf();
        }
        handle_matches(plugin_id, matches, &mut self.list_store);
    }
}

impl<P: Plugin> RuntimeData<P> {
    /// Polls `task` once, as [`async_match`] does, and gathers what it
    /// delivers in this session's result list.
    ///
    /// A task of the current cycle is polled with the plugin it names. A
    /// task of another cycle is out of date: it is retired, the session
    /// stays as it was, and no plugin is asked.
    ///
    /// Fails, and changes nothing, exactly when the task is of the current
    /// cycle and names a plugin that this session has not loaded.
    pub fn poll_task(&mut self, task: &mut PollTask) -> (flow: Result<ControlFlow, LookupError>)
        ensures
            final(self)@.wf(),
            old(task)@.cycle != old(self)@.cycle ==> {
                &&& flow == Ok::<ControlFlow, LookupError>(ControlFlow::Break)
                &&& final(self)@ == old(self)@
                &&& final(task)@ == old(task)@.polled(old(self)@.cycle, PollResultView::Cancelled)
                &&& final(task)@.state != TaskState::Pending
            },
            old(task)@.cycle == old(self)@.cycle && old(task)@.plugin >= old(self)@.plugins.len()
                ==> {
                &&& flow == Err::<ControlFlow, LookupError>(LookupError::Plugin)
                &&& final(self)@ == old(self)@
                &&& final(task)@ == old(task)@
            },
            old(task)@.cycle == old(self)@.cycle && old(task)@.plugin < old(self)@.plugins.len()
                ==> {
                &&& flow == Ok::<ControlFlow, LookupError>(final(task)@.state.flow())
                &&& old(task)@.state != TaskState::Pending ==> {
                    &&& final(task)@ == old(task)@
                    &&& final(self)@ == old(self)@
                }
                &&& old(task)@.state == TaskState::Pending ==> exists|result: PollResult|
                    {
                        &&& #[trigger] answered(
                            old(self)@.plugins[old(task)@.plugin as int],
                            old(task)@.token,
                            result,
                        )
                        &&& final(task)@ == old(task)@.polled(old(self)@.cycle, result@)
                        &&& final(self)@ == old(self)@.polled(old(task)@, result@)
                    }
            },
    {
        proof {
            use_type_invariant(&self.registry);
            self.lemma_wf();
        }
        if task.cycle() != self.cycle {
            let flow = task.supersede();
            return Ok(flow);
        }
        if task.plugin() >= self.registry.plugins.len() {
            return Err(LookupError::Plugin);
        }
        let flow = async_match(
            &self.registry.plugins[task.plugin()],
            task,
            self.cycle,
            &mut self.list_store,
        );
        Ok(flow)
    }
}

} // verus!
