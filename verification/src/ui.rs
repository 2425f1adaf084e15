//! What happens when the user activates an entry of the result list, and
//! where a key press in the input or in the list goes.

use vstd::prelude::*;

use crate::aggregate::batch;
use crate::interface::{
    handled, queried, HandleResult, HandleResultView, Match, MatchView, Plugin,
};
use crate::plugins::{dispatched, refresh_matches, task_views, PollTask, PollTaskView};
use crate::runtime::{LookupError, RuntimeData, RuntimeView, Selection};

verus! {

/// What is left for the caller to do after an entry has been activated.
#[derive(Debug, PartialEq, Eq)]
pub enum Activation {
    /// End the session.
    Close,
    /// A new cycle has begun; these are its queries, to be polled.
    Refresh(Vec<PollTask>),
    /// Write these bytes to standard output, then end the session.
    Stdout(Vec<u8>),
}

/// The mathematical content of an [`Activation`].
pub enum ActivationView {
    Close,
    Refresh(Seq<PollTaskView>),
    Stdout(Seq<u8>),
}

impl View for Activation {
    type V = ActivationView;

    open spec fn view(&self) -> ActivationView {
        match self {
            Activation::Close => ActivationView::Close,
            Activation::Refresh(tasks) => ActivationView::Refresh(task_views(tasks@)),
            Activation::Stdout(bytes) => ActivationView::Stdout(bytes@),
        }
    }
}

/// The session went from `before` to `after`, and left `activation` to do,
/// as it does when plugin `plugin` handles a selection and asks for
/// `result`:
/// - `Close` ends the session;
/// - `Refresh` sets or lifts the restriction to this plugin, then begins a
///   new cycle over the plugins that are active after that;
/// - `Copy` records the bytes for the time after the session, and ends it;
/// - `Stdout` hands the bytes out to be written, and changes nothing.
pub open spec fn activated<P>(
    before: RuntimeView<P>,
    plugin: usize,
    result: HandleResultView,
    after: RuntimeView<P>,
    activation: ActivationView,
) -> bool {
    match result {
        HandleResultView::Close => after == before && activation == ActivationView::Close,
        HandleResultView::Refresh(_) => {
            &&& after == before.selected(plugin, result).begun()
            &&& activation matches ActivationView::Refresh(tasks)
            &&& dispatched(tasks, after.active(), after.cycle)
        },
        HandleResultView::Copy(_) => {
            &&& after == before.selected(plugin, result)
            &&& activation == ActivationView::Close
        },
        HandleResultView::Stdout(bytes) => {
            &&& after == before
            &&& activation == ActivationView::Stdout(bytes)
        },
    }
}

/// Once plugin `plugin` has asked for a refresh that is exclusive, the next
/// cycle queries this plugin alone, and every entry that an answer to that
/// query adds to the result list names this plugin as its owner.
pub proof fn lemma_exclusive_refresh<P>(state: RuntimeView<P>, plugin: usize)
    requires
        state.wf(),
        plugin < state.plugins.len(),
    ensures
        ({
            let next = state.selected(plugin, HandleResultView::Refresh(true));
            &&& next.wf()
            &&& next.exclusive == Some(plugin)
            &&& next.active() == seq![plugin]
            &&& next.begun().active() == seq![plugin]
            &&& forall|tasks: Seq<PollTaskView>, i: int|
                dispatched(tasks, next.active(), next.cycle + 1) && 0 <= i < tasks.len() ==> (
                #[trigger] tasks[i]).plugin_id() == plugin as u64
            &&& forall|matches: Seq<MatchView>, i: int|
                0 <= i < matches.len() ==> (#[trigger] batch(plugin as u64, matches)[i]).plugin_id
                    == plugin as u64
        }),
{
}

/// Once a plugin has asked for a refresh that is not exclusive, no plugin
/// is exclusive, and the next cycle queries every loaded plugin, in load
/// order.
pub proof fn lemma_shared_refresh<P>(state: RuntimeView<P>, plugin: usize)
    requires
        state.wf(),
    ensures
        ({
            let next = state.selected(plugin, HandleResultView::Refresh(false));
            &&& next.wf()
            &&& next.exclusive == None::<usize>
            &&& next.active().len() == state.plugins.len()
            &&& forall|i: int| 0 <= i < state.plugins.len() ==> next.active()[i] == i
        }),
{
}

/// The user has activated the entry at row `row_id` while the input read
/// `input`: the match that the entry shows is handed to the plugin that
/// owns the entry, and what the plugin asks for is carried out as
/// [`activated`] says. Where that begins a new cycle, the cycle is for
/// `input`.
///
/// Fails, and changes nothing, exactly when the row or its plugin does not
/// exist. Otherwise it succeeds, whatever the plugin asks for.
///
/// The cycles of a session are counted in 64 bits: the session must not
/// have begun as many cycles as that count can hold.
pub fn handle_selection_activation<P: Plugin>(
    row_id: usize,
    runtime_data: &mut RuntimeData<P>,
    input: &str,
) -> (outcome: Result<Activation, LookupError>)
    requires
        old(runtime_data)@.cycle < u64::MAX,
    ensures
        final(runtime_data)@.wf(),
        match old(runtime_data)@.owner(row_id) {
            Err(error) => {
                &&& outcome matches Err(e)
                &&& e == error
                &&& final(runtime_data)@ == old(runtime_data)@
            },
            Ok(plugin) => {
                &&& outcome matches Ok(activation)
                &&& exists|selection: Match, result: HandleResult|
                    {
                        &&& selection@ == old(runtime_data)@.list_store[row_id as int].to_match()
                        &&& #[trigger] handled(
                            old(runtime_data)@.plugins[plugin as int],
                            selection,
                            result,
                        )
                        &&& activated(
                            old(runtime_data)@,
                            plugin,
                            result@,
                            final(runtime_data)@,
                            activation@,
                        )
                        &&& activation matches Activation::Refresh(tasks) ==> forall|i: int|
                            0 <= i < tasks@.len() ==> queried(
                                old(runtime_data)@.plugins[(#[trigger] tasks@[i])@.plugin as int],
                                input,
                                tasks@[i]@.token,
                            )
                    }
            },
        },
{
    let ghost before = runtime_data@;
    proof {
        use_type_invariant(&runtime_data.registry);
        runtime_data.lemma_wf();
    }
    let (plugin, selection) = match runtime_data.selection_at(row_id) {
        Ok(found) => found,
        Err(error) => {
            return Err(error);
        },
    };
    let ghost chosen = selection;
    let result = runtime_data.plugins()[plugin].handle_selection(selection);
    let ghost answer = result;
    let activation = match runtime_data.apply_selection(plugin, result) {
        Ok(Selection::Close) => Activation::Close,
        Ok(Selection::Refresh) => Activation::Refresh(refresh_matches(input, runtime_data)),
        Ok(Selection::Stdout(bytes)) => Activation::Stdout(bytes),
        Err(error) => {
            return Err(error);
        },
    };
    assert(handled(before.plugins[plugin as int], chosen, answer));
    assert(activated(before, plugin, answer@, runtime_data@, activation@));
    Ok(activation)
}

/// A key, as far as the input and the result list tell keys apart.
#[derive(Clone, Copy, Debug, PartialEq, Eq, Structural)]
pub enum Key {
    Escape,
    /// The letter j, in either case.
    J,
    /// The letter k, in either case.
    K,
    ControlL,
    ControlR,
    Up,
    Down,
    Return,
    /// Any other key.
    Other,
}

/// Whether a key press goes on to other handlers.
#[derive(Clone, Copy, Debug, PartialEq, Eq, Structural)]
pub enum Propagation {
    Stop,
    Proceed,
}

/// What a key press brings about.
#[derive(Clone, Copy, Debug, PartialEq, Eq, Structural)]
pub enum KeyAction {
    /// Hide the window and empty the input.
    Hide,
    /// Move the cursor of the result list down by a line.
    CursorDown,
    /// Move the cursor of the result list up by a line.
    CursorUp,
    /// Pass the key press on to the input, and give the input the focus.
    ToEntry,
    /// Give the selected row the focus, and pass the key press on to the
    /// result list.
    ToList,
    /// Nothing.
    Nothing,
}

/// The answer to a key press: what it brings about, and whether it goes on
/// to other handlers.
#[derive(Clone, Copy, Debug, PartialEq, Eq, Structural)]
pub struct KeyResponse {
    pub action: KeyAction,
    pub propagation: Propagation,
}

/// The answer of the result list to a key press, `control` telling whether
/// the control key is held.
///
/// Escape hides the window. With control, j and k move the cursor down and
/// up by a line. The control keys, the arrows and return are left to the
/// list. Everything else is typing, and goes to the input: j and k without
/// control stop there, other keys go on.
pub open spec fn list_key_response(key: Key, control: bool) -> KeyResponse {
    match key {
        Key::Escape => KeyResponse { action: KeyAction::Hide, propagation: Propagation::Stop },
        Key::J => KeyResponse {
            action: if control {
                KeyAction::CursorDown
            } else {
                KeyAction::ToEntry
            },
            propagation: Propagation::Stop,
        },
        Key::K => KeyResponse {
            action: if control {
                KeyAction::CursorUp
            } else {
                KeyAction::ToEntry
            },
            propagation: Propagation::Stop,
        },
        Key::ControlL | Key::ControlR | Key::Up | Key::Down | Key::Return => KeyResponse {
            action: KeyAction::Nothing,
            propagation: Propagation::Proceed,
        },
        Key::Other => KeyResponse { action: KeyAction::ToEntry, propagation: Propagation::Proceed },
    }
}

/// The answer of the input to a key press, `control` telling whether the
/// control key is held.
///
/// Escape hides the window. The arrows up and down, and k and j with
/// control, go to the result list. Everything else is left to the input.
pub open spec fn entry_key_response(key: Key, control: bool) -> KeyResponse {
    match key {
        Key::Escape => KeyResponse { action: KeyAction::Hide, propagation: Propagation::Stop },
        Key::Up | Key::Down => KeyResponse {
            action: KeyAction::ToList,
            propagation: Propagation::Stop,
        },
        Key::J | Key::K => if control {
            KeyResponse { action: KeyAction::ToList, propagation: Propagation::Stop }
        } else {
            KeyResponse { action: KeyAction::Nothing, propagation: Propagation::Proceed }
        },
        _ => KeyResponse { action: KeyAction::Nothing, propagation: Propagation::Proceed },
    }
}

/// The answer of the result list to a key press: see
/// [`list_key_response`].
pub fn list_key_pressed(key: Key, control: bool) -> (response: KeyResponse)
    ensures
        response == list_key_response(key, control),
{
    match key {
        Key::Escape => KeyResponse { action: KeyAction::Hide, propagation: Propagation::Stop },
        Key::J => {
            if control {
                KeyResponse { action: KeyAction::CursorDown, propagation: Propagation::Stop }
            } else {
                KeyResponse { action: KeyAction::ToEntry, propagation: Propagation::Stop }
            }
        },
        Key::K => {
            if control {
                KeyResponse { action: KeyAction::CursorUp, propagation: Propagation::Stop }
            } else {
                KeyResponse { action: KeyAction::ToEntry, propagation: Propagation::Stop }
            }
        },
        Key::ControlL | Key::ControlR | Key::Up | Key::Down | Key::Return => KeyResponse {
            action: KeyAction::Nothing,
            propagation: Propagation::Proceed,
        },
        Key::Other => KeyResponse { action: KeyAction::ToEntry, propagation: Propagation::Proceed },
    }
}

/// The answer of the input to a key press: see [`entry_key_response`].
pub fn entry_key_pressed(key: Key, control: bool) -> (response: KeyResponse)
    ensures
        response == entry_key_response(key, control),
{
    let to_list = match key {
        Key::Up | Key::Down => true,
        Key::J | Key::K => control,
        _ => false,
    };
    match key {
        Key::Escape => KeyResponse { action: KeyAction::Hide, propagation: Propagation::Stop },
        _ => {
            if to_list {
                KeyResponse { action: KeyAction::ToList, propagation: Propagation::Stop }
            } else {
                KeyResponse { action: KeyAction::Nothing, propagation: Propagation::Proceed }
            }
        },
    }
}

} // verus!
