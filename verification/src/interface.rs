//! The plugin interface: the values that cross the boundary between the
//! launcher and a plugin, and the capability table every plugin provides.

use vstd::prelude::*;

verus! {

/// Static display metadata of a plugin.
#[derive(Debug, PartialEq, Eq)]
pub struct PluginInfo {
    pub name: String,
    pub icon: String,
}

/// The mathematical content of a [`PluginInfo`].
pub struct PluginInfoView {
    pub name: Seq<char>,
    pub icon: Seq<char>,
}

impl View for PluginInfo {
    type V = PluginInfoView;

    open spec fn view(&self) -> PluginInfoView {
        PluginInfoView { name: self.name@, icon: self.icon@ }
    }
}

/// One candidate result that a plugin returns for a query.
///
/// `id` is an opaque value that means something only to the plugin that
/// produced the match.
#[derive(Debug, PartialEq, Eq)]
pub struct Match {
    pub title: String,
    pub description: Option<String>,
    pub use_pango: bool,
    pub icon: Option<String>,
    pub id: Option<u64>,
}

/// The mathematical content of a [`Match`].
pub struct MatchView {
    pub title: Seq<char>,
    pub description: Option<Seq<char>>,
    pub use_pango: bool,
    pub icon: Option<Seq<char>>,
    pub id: Option<u64>,
}

impl View for Match {
    type V = MatchView;

    open spec fn view(&self) -> MatchView {
        MatchView {
            title: self.title@,
            description: self.description.deep_view(),
            use_pango: self.use_pango,
            icon: self.icon.deep_view(),
            id: self.id,
        }
    }
}

impl DeepView for Match {
    type V = MatchView;

    open spec fn deep_view(&self) -> MatchView {
        self@
    }
}

/// Copies an optional text.
pub(crate) fn clone_text(text: &Option<String>) -> (res: Option<String>)
    ensures
        res.deep_view() == text.deep_view(),
{
    match text {
        Some(s) => Some(s.clone()),
        None => None,
    }
}

impl Clone for Match {
    fn clone(&self) -> (res: Self)
        ensures
            res@ == self@,
    {
        Match {
            title: self.title.clone(),
            description: clone_text(&self.description),
            use_pango: self.use_pango,
            icon: clone_text(&self.icon),
            id: self.id,
        }
    }
}

/// What a plugin answers when an in-flight query is polled.
#[derive(Debug, PartialEq, Eq)]
pub enum PollResult {
    /// The query has finished; these are its matches, in the plugin's order.
    Ready(Vec<Match>),
    /// The query is still being computed.
    Pending,
    /// The query was abandoned by the plugin.
    Cancelled,
}

/// The mathematical content of a [`PollResult`].
pub enum PollResultView {
    Ready(Seq<MatchView>),
    Pending,
    Cancelled,
}

impl View for PollResult {
    type V = PollResultView;

    open spec fn view(&self) -> PollResultView {
        match self {
            PollResult::Ready(matches) => PollResultView::Ready(matches.deep_view()),
            PollResult::Pending => PollResultView::Pending,
            PollResult::Cancelled => PollResultView::Cancelled,
        }
    }
}

/// What a plugin asks for after the user has chosen one of its matches.
#[derive(Debug, PartialEq, Eq)]
pub enum HandleResult {
    /// End the session.
    Close,
    /// Query again with the current input; `true` restricts the following
    /// queries to this plugin, `false` lifts any such restriction.
    Refresh(bool),
    /// Offer these bytes on the clipboard once the session is over.
    Copy(Vec<u8>),
    /// Write these bytes to standard output, then end the session.
    Stdout(Vec<u8>),
}

/// The mathematical content of a [`HandleResult`].
pub enum HandleResultView {
    Close,
    Refresh(bool),
    Copy(Seq<u8>),
    Stdout(Seq<u8>),
}

impl View for HandleResult {
    type V = HandleResultView;

    open spec fn view(&self) -> HandleResultView {
        match self {
            HandleResult::Close => HandleResultView::Close,
            HandleResult::Refresh(exclusive) => HandleResultView::Refresh(*exclusive),
            HandleResult::Copy(bytes) => HandleResultView::Copy(bytes@),
            HandleResult::Stdout(bytes) => HandleResultView::Stdout(bytes@),
        }
    }
}

/// The capability table of a loaded plugin.
///
/// A plugin answers from its own private state, so nothing is promised about
/// what these calls return: every function of this crate that makes one of
/// them is verified for whatever comes back.
pub trait Plugin {
    /// Static display metadata.
    fn info(&self) -> PluginInfo;

    /// Called once after the plugin has been loaded, with the active
    /// configuration directory.
    fn init(&self, config_dir: &str);

    /// Starts a query and returns its token at once; the matches are
    /// computed out of band.
    fn get_matches(&self, input: &str) -> u64;

    /// The current state of the query with token `id`. Never blocks.
    fn poll_matches(&self, id: u64) -> PollResult;

    /// The user chose `selection`, one of this plugin's matches.
    fn handle_selection(&self, selection: Match) -> HandleResult;
}

/// `info` is what `plugin` gave as its metadata.
pub open spec fn described<P: Plugin>(plugin: P, info: PluginInfo) -> bool {
    call_ensures(P::info, (&plugin,), info)
}

/// `plugin` has had its call of `init`, with `config_dir`.
pub open spec fn initialized<P: Plugin>(plugin: P, config_dir: &str) -> bool {
    call_ensures(P::init, (&plugin, config_dir), ())
}

/// `token` is what `plugin` returned when it was asked for the matches of
/// `input`.
pub open spec fn queried<P: Plugin>(plugin: P, input: &str, token: u64) -> bool {
    call_ensures(P::get_matches, (&plugin, input), token)
}

/// `result` is what `plugin` answered to a poll of the query `token`.
pub open spec fn answered<P: Plugin>(plugin: P, token: u64, result: PollResult) -> bool {
    call_ensures(P::poll_matches, (&plugin, token), result)
}

/// `result` is what `plugin` asked for when it was handed `selection`.
pub open spec fn handled<P: Plugin>(plugin: P, selection: Match, result: HandleResult) -> bool {
    call_ensures(P::handle_selection, (&plugin, selection), result)
}

} // verus!
