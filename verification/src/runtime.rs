//! The state of one session: the loaded plugins, the plugin that queries
//! are restricted to (if any), the number of the current cycle, the result
//! list, and what remains to be done once the session is over.

use vstd::prelude::*;

use crate::aggregate::batch;
use crate::gmatch::{GMatch, GMatchView};
use crate::interface::{HandleResult, HandleResultView, Match, MatchView, PollResultView};
use crate::plugins::PollTaskView;

verus! {

/// What remains to be done after the session has ended.
#[derive(Debug, PartialEq, Eq)]
pub enum PostRunAction {
    /// Nothing.
    Nothing,
    /// Offer these bytes on the clipboard.
    Copy(Vec<u8>),
}

/// The mathematical content of a [`PostRunAction`].
pub enum PostRunActionView {
    Nothing,
    Copy(Seq<u8>),
}

impl View for PostRunAction {
    type V = PostRunActionView;

    open spec fn view(&self) -> PostRunActionView {
        match self {
            PostRunAction::Nothing => PostRunActionView::Nothing,
            PostRunAction::Copy(bytes) => PostRunActionView::Copy(bytes@),
        }
    }
}

impl PostRunAction {
    /// The bytes to offer on the clipboard, if there are any.
    pub fn copy_bytes(&self) -> (bytes: Option<&Vec<u8>>)
        ensures
            match self@ {
                PostRunActionView::Nothing => bytes is None,
                PostRunActionView::Copy(b) => bytes matches Some(v) && v@ == b,
            },
    {
        match self {
            PostRunAction::Nothing => None,
            PostRunAction::Copy(bytes) => Some(bytes),
        }
    }
}

/// An entry of the result list, or the plugin it names, does not exist: the
/// list on screen and the session state have come apart.
///
/// This tells of a defect in the program, not of a condition that passes:
/// a caller is expected to stop with it, not to go on.
#[derive(Clone, Copy, Debug, PartialEq, Eq, Structural)]
pub enum LookupError {
    /// The result list has no entry at the given row.
    Row,
    /// The entry names a plugin that was never loaded.
    Plugin,
}

/// What the session does after a plugin has handled a selection.
#[derive(Debug, PartialEq, Eq)]
pub enum Selection {
    /// End the session.
    Close,
    /// Start a new cycle with the current input.
    Refresh,
    /// Write these bytes to standard output, then end the session.
    Stdout(Vec<u8>),
}

/// The mathematical content of a [`Selection`].
pub enum SelectionView {
    Close,
    Refresh,
    Stdout(Seq<u8>),
}

impl View for Selection {
    type V = SelectionView;

    open spec fn view(&self) -> SelectionView {
        match self {
            Selection::Close => SelectionView::Close,
            Selection::Refresh => SelectionView::Refresh,
            Selection::Stdout(bytes) => SelectionView::Stdout(bytes@),
        }
    }
}

/// The session state as a mathematical value. The functions below are the
/// transitions of the session; the executable functions of this crate are
/// specified by them.
pub struct RuntimeView<P> {
    /// The loaded plugins in load order. A plugin's index is its identity.
    pub plugins: Seq<P>,
    /// The plugin that queries are restricted to.
    pub exclusive: Option<usize>,
    /// The number of the current cycle: how many cycles the session has
    /// begun. Every query belongs to the cycle that made it.
    pub cycle: nat,
    /// The result list. It holds answers to queries of the current cycle.
    pub list_store: Seq<GMatchView>,
    pub post_run_action: PostRunActionView,
}

impl<P> RuntimeView<P> {
    /// Every plugin has an index, the cycles can be counted, and the
    /// exclusive plugin, if there is one, is a loaded plugin.
    pub open spec fn wf(self) -> bool {
        &&& self.plugins.len() <= usize::MAX
        &&& self.cycle <= u64::MAX
        &&& self.exclusive matches Some(k) ==> k < self.plugins.len()
    }

    /// The state of a session that has just loaded `plugins`.
    pub open spec fn init(plugins: Seq<P>) -> Self {
        RuntimeView {
            plugins,
            exclusive: None,
            cycle: 0,
            list_store: Seq::empty(),
            post_run_action: PostRunActionView::Nothing,
        }
    }

    /// The plugins that the next cycle queries, in the order in which it
    /// queries them: the exclusive plugin alone, or else every plugin.
    pub open spec fn active(self) -> Seq<usize> {
        match self.exclusive {
            Some(k) => seq![k],
            None => Seq::new(self.plugins.len(), |i: int| i as usize),
        }
    }

    /// A new cycle begins: the result list is emptied, and the cycle gets
    /// the next number, so that the queries of every earlier cycle are out
    /// of date.
    pub open spec fn begun(self) -> Self {
        RuntimeView { list_store: Seq::empty(), cycle: self.cycle + 1, ..self }
    }

    /// The answer `matches` of plugin `plugin_id` is added to the result
    /// list.
    pub open spec fn appended(self, plugin_id: u64, matches: Seq<MatchView>) -> Self {
        RuntimeView { list_store: self.list_store + batch(plugin_id, matches), ..self }
    }

    /// The query of `task` has been polled and answered with `result`. The
    /// session takes the matches of a pending query of the current cycle
    /// that is answered `Ready`. Nothing else changes it: not a query that
    /// is pending still or was cancelled, not one that has delivered
    /// already, and not one of another cycle, whatever the answer.
    pub open spec fn polled(self, task: PollTaskView, result: PollResultView) -> Self {
        if task.accepted(self.cycle) {
            match result {
                PollResultView::Ready(matches) => self.appended(task.plugin_id(), matches),
                _ => self,
            }
        } else {
            self
        }
    }

    /// The user has edited the input.
    pub open spec fn input_changed(self) -> Self {
        RuntimeView { exclusive: None, ..self }
    }

    /// Plugin `plugin` has handled a selection and asked for `result`.
    pub open spec fn selected(self, plugin: usize, result: HandleResultView) -> Self {
        match result {
            HandleResultView::Close => self,
            HandleResultView::Refresh(exclusive) => RuntimeView {
                exclusive: if exclusive {
                    Some(plugin)
                } else {
                    None
                },
                ..self
            },
            HandleResultView::Copy(bytes) => RuntimeView {
                post_run_action: PostRunActionView::Copy(bytes),
                ..self
            },
            HandleResultView::Stdout(_) => self,
        }
    }

    /// The plugin that owns the entry at row `row_id` of the result list.
    ///
    /// There is none where the list has no such row, or where the entry
    /// names a plugin that is not loaded.
    pub open spec fn owner(self, row_id: usize) -> Result<usize, LookupError> {
        if row_id >= self.list_store.len() {
            Err(LookupError::Row)
        } else if self.list_store[row_id as int].plugin_id >= self.plugins.len() {
            Err(LookupError::Plugin)
        } else {
            Ok(self.list_store[row_id as int].plugin_id as usize)
        }
    }
}

/// What the session does after a plugin has asked for `result`: it ends
/// after `Close` and after `Copy`, begins a new cycle after `Refresh`, and
/// has the bytes written, then ends, after `Stdout`.
pub open spec fn selection_of(result: HandleResultView) -> SelectionView {
    match result {
        HandleResultView::Close => SelectionView::Close,
        HandleResultView::Refresh(_) => SelectionView::Refresh,
        HandleResultView::Copy(_) => SelectionView::Close,
        HandleResultView::Stdout(bytes) => SelectionView::Stdout(bytes),
    }
}

/// A cycle asks no plugin twice: the active plugins are loaded plugins,
/// each of them once.
pub proof fn lemma_active_distinct<P>(state: RuntimeView<P>)
    requires
        state.wf(),
    ensures
        forall|i: int|
            0 <= i < state.active().len() ==> #[trigger] state.active()[i] < state.plugins.len(),
        forall|i: int, j: int|
            0 <= i < j < state.active().len() ==> #[trigger] state.active()[i]
                != #[trigger] state.active()[j],
{
}

/// The loaded plugins in load order, and the one among them that queries
/// are restricted to.
pub(crate) struct Registry<P> {
    pub(crate) plugins: Vec<P>,
    pub(crate) exclusive: Option<usize>,
}

impl<P> Registry<P> {
    #[verifier::type_invariant]
    pub(crate) open spec fn well_formed(&self) -> bool {
        self.exclusive matches Some(k) ==> k < self.plugins.len()
    }

    /// Restricts queries to plugin `plugin`, which is loaded.
    pub(crate) fn restrict(&mut self, plugin: usize)
        requires
            plugin < old(self).plugins.len(),
        ensures
            final(self).plugins == old(self).plugins,
            final(self).exclusive == Some(plugin),
    {
        self.exclusive = Some(plugin);
    }

    /// Lets queries go to every plugin again.
    pub(crate) fn release(&mut self)
        ensures
            final(self).plugins == old(self).plugins,
            final(self).exclusive == None::<usize>,
    {
        self.exclusive = None;
    }
}

/// The state of one session.
pub struct RuntimeData<P> {
    pub(crate) registry: Registry<P>,
    pub(crate) cycle: u64,
    pub(crate) list_store: Vec<GMatch>,
    pub(crate) post_run_action: PostRunAction,
}

impl<P> View for RuntimeData<P> {
    type V = RuntimeView<P>;

    open(crate) spec fn view(&self) -> RuntimeView<P> {
        RuntimeView {
            plugins: self.registry.plugins@,
            exclusive: self.registry.exclusive,
            cycle: self.cycle as nat,
            list_store: self.list_store.deep_view(),
            post_run_action: self.post_run_action@,
        }
    }
}

impl<P> RuntimeData<P> {
    /// A session whose registry is in order is well-formed.
    pub(crate) proof fn lemma_wf(&self)
        requires
            self.registry.well_formed(),
        ensures
            self@.wf(),
    {
        assert(self.registry.plugins@.len() == self.registry.plugins.len());
    }

    /// A session over `plugins`, which are kept in the given order.
    pub fn new(plugins: Vec<P>) -> (runtime_data: Self)
        ensures
            runtime_data@ == RuntimeView::init(plugins@),
            runtime_data@.wf(),
    {
        let runtime_data = RuntimeData {
            registry: Registry { plugins, exclusive: None },
            cycle: 0,
            list_store: Vec::new(),
            post_run_action: PostRunAction::Nothing,
        };
        assert(runtime_data.list_store.deep_view() =~= Seq::empty());
        proof {
            runtime_data.lemma_wf();
        }
        runtime_data
    }

    /// The loaded plugins in load order.
    pub fn plugins(&self) -> (plugins: &Vec<P>)
        ensures
            plugins@ == self@.plugins,
    {
        &self.registry.plugins
    }

    /// The index of the plugin that queries are restricted to. It is the
    /// index of a loaded plugin.
    pub fn exclusive(&self) -> (exclusive: Option<usize>)
        ensures
            exclusive == self@.exclusive,
            self@.wf(),
    {
        proof {
            use_type_invariant(&self.registry);
            self.lemma_wf();
        }
        self.registry.exclusive
    }

    /// The number of the current cycle.
    pub fn cycle(&self) -> (cycle: u64)
        ensures
            cycle == self@.cycle,
    {
        self.cycle
    }

    /// The result list.
    pub fn list_store(&self) -> (list_store: &Vec<GMatch>)
        ensures
            list_store.deep_view() == self@.list_store,
    {
        &self.list_store
    }

    /// What remains to be done once the session is over.
    pub fn post_run_action(&self) -> (action: &PostRunAction)
        ensures
            action@ == self@.post_run_action,
    {
        &self.post_run_action
    }

    /// The plugin that owns the entry at row `row_id` of the result list,
    /// and the match that the entry shows.
    pub fn selection_at(&self, row_id: usize) -> (found: Result<(usize, Match), LookupError>)
        ensures
            match self@.owner(row_id) {
                Ok(plugin) => found matches Ok((owner, selection)) && owner == plugin
                    && selection@ == self@.list_store[row_id as int].to_match(),
                Err(error) => found matches Err(e) && e == error,
            },
    {
        if row_id >= self.list_store.len() {
            return Err(LookupError::Row);
        }
        let gmatch = &self.list_store[row_id];
        let plugin_id = gmatch.get_plugin_id();
        if plugin_id >= self.registry.plugins.len() as u64 {
            return Err(LookupError::Plugin);
        }
        Ok((plugin_id as usize, Match::from(gmatch.clone())))
    }

    /// The user has edited the input: queries go to every plugin again.
    pub fn input_changed(&mut self)
        ensures
            final(self)@ == old(self)@.input_changed(),
            final(self)@.wf(),
    {
        self.registry.release();
        proof {
            use_type_invariant(&self.registry);
            self.lemma_wf();
        }
    }

    /// Records what plugin `plugin` asked for after it handled a selection,
    /// and tells what the session does next.
    ///
    /// Fails, and changes nothing, exactly when `plugin` is not the index of
    /// a loaded plugin.
    pub fn apply_selection(&mut self, plugin: usize, result: HandleResult) -> (step: Result<
        Selection,
        LookupError,
    >)
        ensures
            final(self)@.wf(),
            plugin < old(self)@.plugins.len() ==> {
                &&& step matches Ok(selection)
                &&& selection@ == selection_of(result@)
                &&& final(self)@ == old(self)@.selected(plugin, result@)
            },
            plugin >= old(self)@.plugins.len() ==> {
                &&& step == Err::<Selection, LookupError>(LookupError::Plugin)
                &&& final(self)@ == old(self)@
            },
    {
        proof {
            use_type_invariant(&self.registry);
            self.lemma_wf();
        }
        if plugin >= self.registry.plugins.len() {
            return Err(LookupError::Plugin);
        }
        match result {
            HandleResult::Close => Ok(Selection::Close),
            HandleResult::Refresh(exclusive) => {
                if exclusive {
                    self.registry.restrict(plugin);
                } else {
                    self.registry.release();
                }
                Ok(Selection::Refresh)
            },
            HandleResult::Copy(bytes) => {
                self.post_run_action = PostRunAction::Copy(bytes);
                Ok(Selection::Close)
            },
            HandleResult::Stdout(bytes) => Ok(Selection::Stdout(bytes)),
        }
    }
}

} // verus!
