use std::cell::RefCell;
use std::collections::VecDeque;

use anyrun::gmatch::GMatch;
use anyrun::interface::{HandleResult, Match, Plugin, PluginInfo, PollResult};
use anyrun::plugins::{
    async_match, handle_matches, refresh_matches, ControlFlow, PollTask, TaskState,
    POLL_INTERVAL_MS,
};
use anyrun::runtime::{LookupError, PostRunAction, RuntimeData, Selection};
use anyrun::ui::{handle_selection_activation, Activation};

/// A plugin that answers from a script and records what it is asked.
struct Scripted {
    name: &'static str,
    token: u64,
    polls: RefCell<VecDeque<PollResult>>,
    selection: RefCell<Option<HandleResult>>,
    queries: RefCell<Vec<String>>,
    polled: RefCell<Vec<u64>>,
    selected: RefCell<Vec<Match>>,
}

impl Scripted {
    fn new(name: &'static str, token: u64) -> Self {
        Scripted {
            name,
            token,
            polls: RefCell::new(VecDeque::new()),
            selection: RefCell::new(None),
            queries: RefCell::new(Vec::new()),
            polled: RefCell::new(Vec::new()),
            selected: RefCell::new(Vec::new()),
        }
    }

    fn answering(self, polls: Vec<PollResult>) -> Self {
        *self.polls.borrow_mut() = polls.into();
        self
    }

    fn selecting(self, result: HandleResult) -> Self {
        *self.selection.borrow_mut() = Some(result);
        self
    }
}

impl Plugin for Scripted {
    fn info(&self) -> PluginInfo {
        PluginInfo { name: self.name.to_string(), icon: "icon".to_string() }
    }

    fn init(&self, _config_dir: &str) {}

    fn get_matches(&self, input: &str) -> u64 {
        self.queries.borrow_mut().push(input.to_string());
        self.token
    }

    fn poll_matches(&self, id: u64) -> PollResult {
        self.polled.borrow_mut().push(id);
        self.polls.borrow_mut().pop_front().unwrap_or(PollResult::Pending)
    }

    fn handle_selection(&self, selection: Match) -> HandleResult {
        self.selected.borrow_mut().push(selection);
        self.selection.borrow_mut().take().unwrap_or(HandleResult::Close)
    }
}

fn plain(title: &str) -> Match {
    Match { title: title.to_string(), description: None, use_pango: false, icon: None, id: None }
}

fn row(entry: &GMatch) -> (String, u64, bool) {
    (entry.get_title(), entry.get_plugin_id(), entry.get_first())
}

fn rows<P>(runtime_data: &RuntimeData<P>) -> Vec<(String, u64, bool)> {
    runtime_data.list_store().iter().map(row).collect()
}

fn entry(title: &str, plugin_id: u64, first: bool) -> (String, u64, bool) {
    (title.to_string(), plugin_id, first)
}

/// Polls every task once, in order, and says how many are still pending.
fn poll_round(runtime_data: &mut RuntimeData<Scripted>, tasks: &mut Vec<PollTask>) -> usize {
    let mut pending = 0;
    for task in tasks.iter_mut() {
        if runtime_data.poll_task(task) == Ok(ControlFlow::Continue) {
            pending += 1;
        }
    }
    pending
}

#[test]
fn answers_are_gathered_in_arrival_order() {
    let a = Scripted::new("a", 10).answering(vec![PollResult::Ready(vec![plain("X"), plain("Y")])]);
    let b = Scripted::new("b", 20)
        .answering(vec![PollResult::Pending, PollResult::Ready(vec![plain("Z")])]);
    let mut runtime_data = RuntimeData::new(vec![a, b]);
    let mut tasks = refresh_matches("q", &mut runtime_data);
    assert_eq!(tasks.len(), 2);
    let (first, second) = tasks.split_at_mut(1);
    // B is polled first and is not ready; A resolves; then B resolves.
    assert_eq!(runtime_data.poll_task(&mut second[0]), Ok(ControlFlow::Continue));
    assert_eq!(runtime_data.poll_task(&mut first[0]), Ok(ControlFlow::Break));
    assert_eq!(runtime_data.poll_task(&mut second[0]), Ok(ControlFlow::Break));
    assert_eq!(
        rows(&runtime_data),
        vec![entry("X", 0, true), entry("Y", 0, false), entry("Z", 1, true)]
    );
    assert_eq!(first[0].state(), TaskState::Ready);
    assert_eq!(second[0].state(), TaskState::Ready);
}

#[test]
fn the_plugin_that_resolves_first_comes_first() {
    let a = Scripted::new("a", 1)
        .answering(vec![PollResult::Pending, PollResult::Ready(vec![plain("X"), plain("Y")])]);
    let b = Scripted::new("b", 2).answering(vec![PollResult::Ready(vec![plain("Z")])]);
    let mut runtime_data = RuntimeData::new(vec![a, b]);
    let mut tasks = refresh_matches("q", &mut runtime_data);
    assert_eq!(poll_round(&mut runtime_data, &mut tasks), 1);
    assert_eq!(rows(&runtime_data), vec![entry("Z", 1, true)]);
    assert_eq!(poll_round(&mut runtime_data, &mut tasks), 0);
    assert_eq!(
        rows(&runtime_data),
        vec![entry("Z", 1, true), entry("X", 0, true), entry("Y", 0, false)]
    );
}

#[test]
fn refresh_asks_every_plugin_in_load_order() {
    let plugins =
        vec![Scripted::new("a", 11), Scripted::new("b", 22), Scripted::new("c", 33)];
    let mut runtime_data = RuntimeData::new(plugins);
    let tasks = refresh_matches("hello", &mut runtime_data);
    let asked: Vec<(usize, u64, u64, u64, TaskState)> = tasks
        .iter()
        .map(|t| (t.plugin(), t.plugin_id(), t.token(), t.cycle(), t.state()))
        .collect();
    assert_eq!(
        asked,
        vec![
            (0, 0, 11, 1, TaskState::Pending),
            (1, 1, 22, 1, TaskState::Pending),
            (2, 2, 33, 1, TaskState::Pending),
        ]
    );
    for plugin in runtime_data.plugins() {
        assert_eq!(*plugin.queries.borrow(), vec!["hello".to_string()]);
    }
    assert!(runtime_data.list_store().is_empty());
}

#[test]
fn refresh_without_plugins_asks_nobody() {
    let mut runtime_data: RuntimeData<Scripted> = RuntimeData::new(Vec::new());
    assert!(refresh_matches("q", &mut runtime_data).is_empty());
    assert!(runtime_data.begin_cycle().is_empty());
}

#[test]
fn refresh_empties_the_list_before_anything_is_added() {
    let a = Scripted::new("a", 1).answering(vec![
        PollResult::Ready(vec![plain("old 1"), plain("old 2")]),
        PollResult::Ready(vec![plain("new")]),
    ]);
    let mut runtime_data = RuntimeData::new(vec![a]);
    let mut tasks = refresh_matches("first", &mut runtime_data);
    assert_eq!(poll_round(&mut runtime_data, &mut tasks), 0);
    assert_eq!(rows(&runtime_data), vec![entry("old 1", 0, true), entry("old 2", 0, false)]);

    let mut tasks = refresh_matches("second", &mut runtime_data);
    assert!(runtime_data.list_store().is_empty());
    assert_eq!(poll_round(&mut runtime_data, &mut tasks), 0);
    assert_eq!(rows(&runtime_data), vec![entry("new", 0, true)]);
}

#[test]
fn each_plugin_has_one_marked_entry_and_it_comes_first() {
    let a = Scripted::new("a", 1)
        .answering(vec![PollResult::Ready(vec![plain("a1"), plain("a2"), plain("a3")])]);
    let b = Scripted::new("b", 2).answering(vec![PollResult::Ready(Vec::new())]);
    let c = Scripted::new("c", 3).answering(vec![PollResult::Ready(vec![plain("c1"), plain("c2")])]);
    let mut runtime_data = RuntimeData::new(vec![a, b, c]);
    let mut tasks = refresh_matches("q", &mut runtime_data);
    assert_eq!(poll_round(&mut runtime_data, &mut tasks), 0);
    let list = rows(&runtime_data);
    assert_eq!(list.len(), 5);
    for plugin_id in [0u64, 2u64] {
        let own: Vec<&(String, u64, bool)> =
            list.iter().filter(|e| e.1 == plugin_id).collect();
        assert_eq!(own.iter().filter(|e| e.2).count(), 1);
        assert!(own[0].2);
    }
    assert!(list.iter().all(|e| e.1 != 1));
}

#[test]
fn handle_matches_keeps_what_the_list_holds() {
    let mut list_store: Vec<GMatch> = Vec::new();
    handle_matches(4, &[plain("one"), plain("two")], &mut list_store);
    handle_matches(9, &[], &mut list_store);
    handle_matches(7, &[plain("three")], &mut list_store);
    let list: Vec<_> = list_store.iter().map(row).collect();
    assert_eq!(list, vec![entry("one", 4, true), entry("two", 4, false), entry("three", 7, true)]);
}

#[test]
fn handle_matches_copies_every_field_of_a_match() {
    let full = Match {
        title: "<b>t</b>".to_string(),
        description: Some("d".to_string()),
        use_pango: true,
        icon: Some("/usr/share/icons/x.png".to_string()),
        id: Some(u64::MAX),
    };
    let mut list_store: Vec<GMatch> = Vec::new();
    handle_matches(3, &[full.clone()], &mut list_store);
    let entry = &list_store[0];
    assert_eq!(entry.get_title(), "<b>t</b>");
    assert_eq!(entry.get_description(), Some("d".to_string()));
    assert!(entry.get_use_pango());
    assert_eq!(entry.get_icon(), Some("/usr/share/icons/x.png".to_string()));
    assert_eq!(entry.get_id(), Some(u64::MAX));
    assert_eq!(entry.get_plugin_id(), 3);
    assert!(entry.get_first());
    assert_eq!(Match::from(entry.clone()), full);
}

#[test]
fn a_pending_answer_keeps_the_task() {
    let plugin = Scripted::new("a", 5).answering(vec![PollResult::Pending]);
    let mut task = PollTask::new(0, 5, 3);
    let mut list_store: Vec<GMatch> = Vec::new();
    assert_eq!(async_match(&plugin, &mut task, 3, &mut list_store), ControlFlow::Continue);
    assert_eq!(task.state(), TaskState::Pending);
    assert!(list_store.is_empty());
    assert_eq!(*plugin.polled.borrow(), vec![5]);
}

#[test]
fn a_cancelled_query_is_retired_and_adds_nothing() {
    let plugin = Scripted::new("a", 5).answering(vec![PollResult::Cancelled]);
    let mut task = PollTask::new(0, 5, 3);
    let mut list_store: Vec<GMatch> = Vec::new();
    handle_matches(1, &[plain("kept")], &mut list_store);
    assert_eq!(async_match(&plugin, &mut task, 3, &mut list_store), ControlFlow::Break);
    assert_eq!(task.state(), TaskState::Cancelled);
    assert_eq!(list_store.len(), 1);
}

#[test]
fn a_retired_task_is_never_polled_again() {
    let plugin = Scripted::new("a", 5).answering(vec![
        PollResult::Ready(vec![plain("X")]),
        PollResult::Pending,
        PollResult::Ready(vec![plain("late")]),
    ]);
    let mut task = PollTask::new(0, 5, 3);
    let mut list_store: Vec<GMatch> = Vec::new();
    assert_eq!(async_match(&plugin, &mut task, 3, &mut list_store), ControlFlow::Break);
    assert_eq!(async_match(&plugin, &mut task, 3, &mut list_store), ControlFlow::Break);
    assert_eq!(async_match(&plugin, &mut task, 3, &mut list_store), ControlFlow::Break);
    assert_eq!(task.state(), TaskState::Ready);
    assert_eq!(list_store.len(), 1);
    assert_eq!(*plugin.polled.borrow(), vec![5]);
}

#[test]
fn a_final_state_ignores_every_later_answer() {
    let mut list_store: Vec<GMatch> = Vec::new();
    let mut ready = PollTask::new(2, 1, 4);
    assert_eq!(
        ready.resolve(PollResult::Ready(vec![plain("X")]), 4, &mut list_store),
        ControlFlow::Break
    );
    let mut cancelled = PollTask::new(2, 2, 4);
    assert_eq!(cancelled.resolve(PollResult::Cancelled, 4, &mut list_store), ControlFlow::Break);
    for _ in 0..3 {
        assert_eq!(ready.resolve(PollResult::Pending, 4, &mut list_store), ControlFlow::Break);
        assert_eq!(ready.resolve(PollResult::Cancelled, 4, &mut list_store), ControlFlow::Break);
        assert_eq!(
            cancelled.resolve(PollResult::Ready(vec![plain("late")]), 4, &mut list_store),
            ControlFlow::Break
        );
        assert_eq!(cancelled.resolve(PollResult::Pending, 4, &mut list_store), ControlFlow::Break);
    }
    assert_eq!(ready.state(), TaskState::Ready);
    assert_eq!(cancelled.state(), TaskState::Cancelled);
    assert_eq!(list_store.iter().map(row).collect::<Vec<_>>(), vec![entry("X", 2, true)]);
}

#[test]
fn polls_are_a_millisecond_apart() {
    assert_eq!(POLL_INTERVAL_MS, 1);
}

#[test]
fn a_task_of_an_unknown_plugin_is_refused() {
    let mut runtime_data = RuntimeData::new(vec![Scripted::new("a", 1)]);
    let mut task = PollTask::new(1, 1, runtime_data.cycle());
    assert_eq!(runtime_data.poll_task(&mut task), Err(LookupError::Plugin));
    assert_eq!(task.state(), TaskState::Pending);
    assert!(runtime_data.list_store().is_empty());
    assert!(runtime_data.plugins()[0].polled.borrow().is_empty());
}

#[test]
fn copy_is_kept_for_after_the_session() {
    let a = Scripted::new("a", 1)
        .answering(vec![PollResult::Ready(vec![plain("X")])])
        .selecting(HandleResult::Copy(b"hello".to_vec()));
    let mut runtime_data = RuntimeData::new(vec![a]);
    let mut tasks = refresh_matches("q", &mut runtime_data);
    assert_eq!(poll_round(&mut runtime_data, &mut tasks), 0);
    assert_eq!(*runtime_data.post_run_action(), PostRunAction::Nothing);

    let outcome = handle_selection_activation(0, &mut runtime_data, "q");
    assert_eq!(outcome, Ok(Activation::Close));
    assert_eq!(*runtime_data.post_run_action(), PostRunAction::Copy(b"hello".to_vec()));
    assert_eq!(runtime_data.post_run_action().copy_bytes(), Some(&b"hello".to_vec()));
    // No further query is issued.
    assert_eq!(*runtime_data.plugins()[0].queries.borrow(), vec!["q".to_string()]);
    assert_eq!(rows(&runtime_data), vec![entry("X", 0, true)]);
}

#[test]
fn stdout_hands_out_the_bytes_as_they_are() {
    let a = Scripted::new("a", 1)
        .answering(vec![PollResult::Ready(vec![plain("X")])])
        .selecting(HandleResult::Stdout(b"out\n".to_vec()));
    let mut runtime_data = RuntimeData::new(vec![a]);
    let mut tasks = refresh_matches("q", &mut runtime_data);
    assert_eq!(poll_round(&mut runtime_data, &mut tasks), 0);

    let outcome = handle_selection_activation(0, &mut runtime_data, "q");
    assert_eq!(outcome, Ok(Activation::Stdout(b"out\n".to_vec())));
    assert_eq!(*runtime_data.post_run_action(), PostRunAction::Nothing);
    assert_eq!(runtime_data.exclusive(), None);
    assert_eq!(*runtime_data.plugins()[0].queries.borrow(), vec!["q".to_string()]);
}

#[test]
fn close_changes_nothing() {
    let a = Scripted::new("a", 1)
        .answering(vec![PollResult::Ready(vec![plain("X")])])
        .selecting(HandleResult::Close);
    let mut runtime_data = RuntimeData::new(vec![a]);
    let mut tasks = refresh_matches("q", &mut runtime_data);
    assert_eq!(poll_round(&mut runtime_data, &mut tasks), 0);
    assert_eq!(handle_selection_activation(0, &mut runtime_data, "q"), Ok(Activation::Close));
    assert_eq!(*runtime_data.post_run_action(), PostRunAction::Nothing);
    assert_eq!(runtime_data.exclusive(), None);
    assert_eq!(rows(&runtime_data), vec![entry("X", 0, true)]);
}

#[test]
fn the_selection_goes_to_the_plugin_that_owns_the_entry() {
    let a = Scripted::new("a", 1).answering(vec![PollResult::Ready(vec![plain("X")])]);
    let b = Scripted::new("b", 2).answering(vec![PollResult::Ready(vec![
        plain("Y"),
        Match {
            title: "Z".to_string(),
            description: Some("desc".to_string()),
            use_pango: true,
            icon: Some("z".to_string()),
            id: Some(42),
        },
    ])]);
    let mut runtime_data = RuntimeData::new(vec![a, b]);
    let mut tasks = refresh_matches("q", &mut runtime_data);
    assert_eq!(poll_round(&mut runtime_data, &mut tasks), 0);
    assert_eq!(handle_selection_activation(2, &mut runtime_data, "q"), Ok(Activation::Close));
    assert!(runtime_data.plugins()[0].selected.borrow().is_empty());
    assert_eq!(
        *runtime_data.plugins()[1].selected.borrow(),
        vec![Match {
            title: "Z".to_string(),
            description: Some("desc".to_string()),
            use_pango: true,
            icon: Some("z".to_string()),
            id: Some(42),
        }]
    );
}

#[test]
fn an_exclusive_refresh_asks_that_plugin_alone() {
    let a = Scripted::new("a", 1).answering(vec![PollResult::Ready(vec![plain("X")])]);
    let b = Scripted::new("b", 2)
        .answering(vec![
            PollResult::Ready(vec![plain("Y")]),
            PollResult::Ready(vec![plain("Y1"), plain("Y2")]),
        ])
        .selecting(HandleResult::Refresh(true));
    let mut runtime_data = RuntimeData::new(vec![a, b]);
    let mut tasks = refresh_matches("q", &mut runtime_data);
    assert_eq!(poll_round(&mut runtime_data, &mut tasks), 0);
    assert_eq!(rows(&runtime_data), vec![entry("X", 0, true), entry("Y", 1, true)]);

    let outcome = handle_selection_activation(1, &mut runtime_data, "q");
    assert_eq!(runtime_data.exclusive(), Some(1));
    assert!(runtime_data.list_store().is_empty());
    let mut tasks = match outcome {
        Ok(Activation::Refresh(tasks)) => tasks,
        other => panic!("a refresh was asked for, not {:?}", other),
    };
    assert_eq!(tasks.len(), 1);
    assert_eq!((tasks[0].plugin(), tasks[0].plugin_id(), tasks[0].token()), (1, 1, 2));
    assert_eq!(*runtime_data.plugins()[0].queries.borrow(), vec!["q".to_string()]);
    assert_eq!(
        *runtime_data.plugins()[1].queries.borrow(),
        vec!["q".to_string(), "q".to_string()]
    );

    assert_eq!(poll_round(&mut runtime_data, &mut tasks), 0);
    assert_eq!(rows(&runtime_data), vec![entry("Y1", 1, true), entry("Y2", 1, false)]);

    // The restriction holds for every cycle until it is lifted.
    let tasks = refresh_matches("q", &mut runtime_data);
    assert_eq!(tasks.len(), 1);
    assert_eq!(tasks[0].plugin(), 1);
    assert_eq!(runtime_data.begin_cycle(), vec![1]);
}

#[test]
fn a_shared_refresh_asks_every_plugin_with_the_same_input() {
    let a = Scripted::new("a", 1);
    let b = Scripted::new("b", 2).answering(vec![PollResult::Ready(vec![plain("Y")])]);
    let mut runtime_data = RuntimeData::new(vec![a, b]);
    assert_eq!(runtime_data.apply_selection(1, HandleResult::Refresh(true)), Ok(Selection::Refresh));
    assert_eq!(runtime_data.exclusive(), Some(1));
    let mut tasks = refresh_matches("text", &mut runtime_data);
    assert_eq!(poll_round(&mut runtime_data, &mut tasks), 0);
    *runtime_data.plugins()[1].selection.borrow_mut() = Some(HandleResult::Refresh(false));

    let outcome = handle_selection_activation(0, &mut runtime_data, "text");
    assert_eq!(runtime_data.exclusive(), None);
    let tasks = match outcome {
        Ok(Activation::Refresh(tasks)) => tasks,
        other => panic!("a refresh was asked for, not {:?}", other),
    };
    let asked: Vec<(usize, u64)> = tasks.iter().map(|t| (t.plugin(), t.token())).collect();
    assert_eq!(asked, vec![(0, 1), (1, 2)]);
    assert_eq!(*runtime_data.plugins()[0].queries.borrow(), vec!["text".to_string()]);
    assert_eq!(
        *runtime_data.plugins()[1].queries.borrow(),
        vec!["text".to_string(), "text".to_string()]
    );
    assert!(runtime_data.list_store().is_empty());
}

#[test]
fn editing_the_input_lifts_the_restriction() {
    let mut runtime_data = RuntimeData::new(vec![Scripted::new("a", 1), Scripted::new("b", 2)]);
    assert_eq!(runtime_data.apply_selection(1, HandleResult::Refresh(true)), Ok(Selection::Refresh));
    assert_eq!(runtime_data.exclusive(), Some(1));
    runtime_data.input_changed();
    assert_eq!(runtime_data.exclusive(), None);
    assert_eq!(runtime_data.begin_cycle(), vec![0, 1]);
    // Without a restriction it changes nothing.
    runtime_data.input_changed();
    assert_eq!(runtime_data.exclusive(), None);
}

#[test]
fn editing_the_input_keeps_list_and_pending_copy() {
    let a = Scripted::new("a", 1).answering(vec![PollResult::Ready(vec![plain("X")])]);
    let mut runtime_data = RuntimeData::new(vec![a]);
    let mut tasks = refresh_matches("q", &mut runtime_data);
    assert_eq!(poll_round(&mut runtime_data, &mut tasks), 0);
    assert_eq!(
        runtime_data.apply_selection(0, HandleResult::Copy(vec![1, 2, 3])),
        Ok(Selection::Close)
    );
    runtime_data.input_changed();
    assert_eq!(rows(&runtime_data), vec![entry("X", 0, true)]);
    assert_eq!(*runtime_data.post_run_action(), PostRunAction::Copy(vec![1, 2, 3]));
    assert_eq!(runtime_data.plugins().len(), 1);
}

#[test]
fn apply_selection_for_each_request() {
    let mut runtime_data = RuntimeData::new(vec![Scripted::new("a", 1), Scripted::new("b", 2)]);
    assert_eq!(runtime_data.apply_selection(0, HandleResult::Close), Ok(Selection::Close));
    assert_eq!(
        runtime_data.apply_selection(0, HandleResult::Stdout(vec![7])),
        Ok(Selection::Stdout(vec![7]))
    );
    assert_eq!(runtime_data.exclusive(), None);
    assert_eq!(*runtime_data.post_run_action(), PostRunAction::Nothing);
    assert_eq!(runtime_data.apply_selection(0, HandleResult::Refresh(true)), Ok(Selection::Refresh));
    assert_eq!(runtime_data.exclusive(), Some(0));
    assert_eq!(runtime_data.apply_selection(1, HandleResult::Refresh(true)), Ok(Selection::Refresh));
    assert_eq!(runtime_data.exclusive(), Some(1));
    assert_eq!(runtime_data.apply_selection(1, HandleResult::Copy(vec![9])), Ok(Selection::Close));
    assert_eq!(runtime_data.exclusive(), Some(1));
    assert_eq!(*runtime_data.post_run_action(), PostRunAction::Copy(vec![9]));
    assert_eq!(runtime_data.apply_selection(0, HandleResult::Refresh(false)), Ok(Selection::Refresh));
    assert_eq!(runtime_data.exclusive(), None);
}

#[test]
fn apply_selection_refuses_an_unknown_plugin() {
    let mut runtime_data = RuntimeData::new(vec![Scripted::new("a", 1)]);
    assert_eq!(
        runtime_data.apply_selection(1, HandleResult::Refresh(true)),
        Err(LookupError::Plugin)
    );
    assert_eq!(
        runtime_data.apply_selection(usize::MAX, HandleResult::Copy(vec![1])),
        Err(LookupError::Plugin)
    );
    assert_eq!(runtime_data.exclusive(), None);
    assert_eq!(*runtime_data.post_run_action(), PostRunAction::Nothing);
}

#[test]
fn activating_a_row_that_is_not_there_fails() {
    let a = Scripted::new("a", 1).answering(vec![PollResult::Ready(vec![plain("X")])]);
    let mut runtime_data = RuntimeData::new(vec![a]);
    assert_eq!(handle_selection_activation(0, &mut runtime_data, "q"), Err(LookupError::Row));
    let mut tasks = refresh_matches("q", &mut runtime_data);
    assert_eq!(poll_round(&mut runtime_data, &mut tasks), 0);
    assert_eq!(handle_selection_activation(1, &mut runtime_data, "q"), Err(LookupError::Row));
    assert_eq!(runtime_data.selection_at(1), Err(LookupError::Row));
    assert!(runtime_data.plugins()[0].selected.borrow().is_empty());
    assert_eq!(rows(&runtime_data), vec![entry("X", 0, true)]);
}

#[test]
fn activating_an_entry_of_an_unknown_plugin_fails() {
    let mut runtime_data = RuntimeData::new(vec![Scripted::new("a", 1)]);
    runtime_data.append(0, &[plain("X")]);
    runtime_data.append(1, &[plain("Y")]);
    assert_eq!(rows(&runtime_data), vec![entry("X", 0, true), entry("Y", 1, true)]);
    assert_eq!(runtime_data.selection_at(1), Err(LookupError::Plugin));
    assert_eq!(handle_selection_activation(1, &mut runtime_data, "q"), Err(LookupError::Plugin));
    assert!(runtime_data.plugins()[0].selected.borrow().is_empty());
    assert_eq!(rows(&runtime_data), vec![entry("X", 0, true), entry("Y", 1, true)]);
    assert_eq!(handle_selection_activation(0, &mut runtime_data, "q"), Ok(Activation::Close));
}

#[test]
fn selection_at_names_owner_and_match() {
    let a = Scripted::new("a", 1).answering(vec![PollResult::Ready(vec![plain("X")])]);
    let b = Scripted::new("b", 2).answering(vec![PollResult::Ready(vec![plain("Y")])]);
    let mut runtime_data = RuntimeData::new(vec![a, b]);
    let mut tasks = refresh_matches("q", &mut runtime_data);
    assert_eq!(poll_round(&mut runtime_data, &mut tasks), 0);
    assert_eq!(runtime_data.selection_at(0), Ok((0, plain("X"))));
    assert_eq!(runtime_data.selection_at(1), Ok((1, plain("Y"))));
    assert_eq!(runtime_data.selection_at(2), Err(LookupError::Row));
}

#[test]
fn a_new_session_is_empty() {
    let runtime_data = RuntimeData::new(vec![Scripted::new("a", 1), Scripted::new("b", 2)]);
    assert_eq!(runtime_data.plugins().len(), 2);
    assert_eq!(runtime_data.plugins()[0].name, "a");
    assert_eq!(runtime_data.plugins()[1].name, "b");
    assert_eq!(runtime_data.exclusive(), None);
    assert!(runtime_data.list_store().is_empty());
    assert_eq!(*runtime_data.post_run_action(), PostRunAction::Nothing);
    assert_eq!(PostRunAction::Nothing.copy_bytes(), None);
}

#[test]
fn a_task_left_over_from_an_earlier_cycle_delivers_nothing() {
    let a = Scripted::new("a", 1).answering(vec![
        PollResult::Ready(vec![plain("new")]),
        PollResult::Ready(vec![plain("stale")]),
    ]);
    let mut runtime_data = RuntimeData::new(vec![a]);
    let mut earlier = refresh_matches("fir", &mut runtime_data);
    let mut later = refresh_matches("first", &mut runtime_data);
    assert_eq!(poll_round(&mut runtime_data, &mut later), 0);
    assert_eq!(poll_round(&mut runtime_data, &mut earlier), 0);
    assert_eq!(rows(&runtime_data), vec![entry("new", 0, true)]);
    assert_eq!(later[0].state(), TaskState::Ready);
    assert_eq!(earlier[0].state(), TaskState::Cancelled);
    // The plugin was polled for the new query only.
    assert_eq!(*runtime_data.plugins()[0].polled.borrow(), vec![1]);
}

#[test]
fn a_task_that_is_overtaken_before_it_resolves_delivers_nothing() {
    let a = Scripted::new("a", 1).answering(vec![
        PollResult::Pending,
        PollResult::Ready(vec![plain("late")]),
    ]);
    let b = Scripted::new("b", 2).answering(vec![PollResult::Ready(vec![plain("Z")])]);
    let mut runtime_data = RuntimeData::new(vec![a, b]);
    let mut earlier = refresh_matches("fir", &mut runtime_data);
    assert_eq!(poll_round(&mut runtime_data, &mut earlier), 1);
    assert_eq!(rows(&runtime_data), vec![entry("Z", 1, true)]);

    let later = refresh_matches("first", &mut runtime_data);
    assert!(runtime_data.list_store().is_empty());
    // The task of the first cycle is polled again, and is retired unasked.
    assert_eq!(runtime_data.poll_task(&mut earlier[0]), Ok(ControlFlow::Break));
    assert_eq!(earlier[0].state(), TaskState::Cancelled);
    assert!(runtime_data.list_store().is_empty());
    assert_eq!(*runtime_data.plugins()[0].polled.borrow(), vec![1]);
    assert_eq!(later.len(), 2);
    // A task that had delivered stays as it was.
    assert_eq!(runtime_data.poll_task(&mut earlier[1]), Ok(ControlFlow::Break));
    assert_eq!(earlier[1].state(), TaskState::Ready);
    assert!(runtime_data.list_store().is_empty());
}

#[test]
fn every_cycle_has_the_next_number() {
    let mut runtime_data = RuntimeData::new(vec![Scripted::new("a", 1)]);
    assert_eq!(runtime_data.cycle(), 0);
    let first = refresh_matches("a", &mut runtime_data);
    assert_eq!(runtime_data.cycle(), 1);
    assert_eq!(first[0].cycle(), 1);
    assert_eq!(runtime_data.begin_cycle(), vec![0]);
    assert_eq!(runtime_data.cycle(), 2);
    *runtime_data.plugins()[0].selection.borrow_mut() = Some(HandleResult::Refresh(false));
    runtime_data.append(0, &[plain("X")]);
    let tasks = match handle_selection_activation(0, &mut runtime_data, "a") {
        Ok(Activation::Refresh(tasks)) => tasks,
        other => panic!("a refresh was asked for, not {:?}", other),
    };
    assert_eq!(runtime_data.cycle(), 3);
    assert_eq!(tasks[0].cycle(), 3);
    // Nothing but the beginning of a cycle changes the number.
    runtime_data.input_changed();
    runtime_data.append(0, &[plain("Y")]);
    assert_eq!(runtime_data.apply_selection(0, HandleResult::Refresh(true)), Ok(Selection::Refresh));
    assert_eq!(runtime_data.cycle(), 3);
}

#[test]
fn a_task_of_another_cycle_is_cancelled_whatever_is_answered() {
    let mut list_store: Vec<GMatch> = Vec::new();
    handle_matches(1, &[plain("kept")], &mut list_store);
    for answer in [PollResult::Ready(vec![plain("late")]), PollResult::Pending, PollResult::Cancelled]
    {
        let mut task = PollTask::new(0, 9, 6);
        assert_eq!(task.resolve(answer, 7, &mut list_store), ControlFlow::Break);
        assert_eq!(task.state(), TaskState::Cancelled);
    }
    let mut task = PollTask::new(0, 9, 7);
    assert_eq!(task.supersede(), ControlFlow::Break);
    assert_eq!(task.state(), TaskState::Cancelled);
    assert_eq!((task.plugin(), task.token(), task.cycle()), (0, 9, 7));
    assert_eq!(list_store.iter().map(row).collect::<Vec<_>>(), vec![entry("kept", 1, true)]);

    let plugin = Scripted::new("a", 9).answering(vec![PollResult::Ready(vec![plain("late")])]);
    let mut task = PollTask::new(0, 9, 6);
    assert_eq!(async_match(&plugin, &mut task, 5, &mut list_store), ControlFlow::Break);
    assert_eq!(task.state(), TaskState::Cancelled);
    assert!(plugin.polled.borrow().is_empty());
    assert_eq!(list_store.len(), 1);
}
