//! The entries of the result list: a match together with the plugin that
//! reported it and the mark of a group's first entry.

use vstd::prelude::*;
use vstd::std_specs::convert::FromSpecImpl;

use crate::interface::{
    clone_text, described, Match, MatchView, Plugin, PluginInfo, PluginInfoView,
};
use crate::path::path_is_absolute;
use crate::runtime::{LookupError, RuntimeData};
use crate::utils::{build_image, ImageSource, ImageSourceView};

verus! {

/// One entry of the result list.
///
/// `plugin_id` is the load-order index of the plugin that owns the match.
/// `first` marks the first match that this plugin reported in the current
/// cycle; the list shows the plugin's name and icon beside that entry only.
#[derive(Debug, PartialEq, Eq)]
pub struct GMatch {
    title: String,
    description: Option<String>,
    use_pango: bool,
    icon: Option<String>,
    id: Option<u64>,
    plugin_id: u64,
    first: bool,
}

/// The mathematical content of a [`GMatch`].
pub struct GMatchView {
    pub title: Seq<char>,
    pub description: Option<Seq<char>>,
    pub use_pango: bool,
    pub icon: Option<Seq<char>>,
    pub id: Option<u64>,
    pub plugin_id: u64,
    pub first: bool,
}

impl GMatchView {
    /// The entry that has nothing set.
    pub open spec fn empty() -> GMatchView {
        GMatchView {
            title: Seq::empty(),
            description: None,
            use_pango: false,
            icon: None,
            id: None,
            plugin_id: 0,
            first: false,
        }
    }

    /// The entry that shows `m` as a match of plugin `plugin_id`.
    pub open spec fn of_match(m: MatchView, plugin_id: u64, first: bool) -> GMatchView {
        GMatchView {
            title: m.title,
            description: m.description,
            use_pango: m.use_pango,
            icon: m.icon,
            id: m.id,
            plugin_id,
            first,
        }
    }

    /// The match that this entry shows.
    pub open spec fn to_match(self) -> MatchView {
        MatchView {
            title: self.title,
            description: self.description,
            use_pango: self.use_pango,
            icon: self.icon,
            id: self.id,
        }
    }
}

impl View for GMatch {
    type V = GMatchView;

    closed spec fn view(&self) -> GMatchView {
        GMatchView {
            title: self.title@,
            description: self.description.deep_view(),
            use_pango: self.use_pango,
            icon: self.icon.deep_view(),
            id: self.id,
            plugin_id: self.plugin_id,
            first: self.first,
        }
    }
}

impl DeepView for GMatch {
    type V = GMatchView;

    open spec fn deep_view(&self) -> GMatchView {
        self@
    }
}

impl GMatch {
    /// An entry with nothing set.
    pub fn new() -> (item: Self)
        ensures
            item@ == GMatchView::empty(),
    {
        GMatch {
            title: String::new(),
            description: None,
            use_pango: false,
            icon: None,
            id: None,
            plugin_id: 0,
            first: false,
        }
    }

    /// The title of the match.
    pub fn get_title(&self) -> (value: String)
        ensures
            value@ == self@.title,
    {
        self.title.clone()
    }

    /// Sets the title and leaves everything else as it is.
    pub fn set_title(&mut self, value: String)
        ensures
            final(self)@ == (GMatchView { title: value@, ..old(self)@ }),
    {
        self.title = value;
    }

    /// The description of the match, if it has one.
    pub fn get_description(&self) -> (value: Option<String>)
        ensures
            value.deep_view() == self@.description,
    {
        clone_text(&self.description)
    }

    /// Sets or removes the description and leaves everything else as it is.
    pub fn set_description(&mut self, value: Option<String>)
        ensures
            final(self)@ == (GMatchView { description: value.deep_view(), ..old(self)@ }),
    {
        self.description = value;
    }

    /// Whether title and description hold markup.
    pub fn get_use_pango(&self) -> (value: bool)
        ensures
            value == self@.use_pango,
    {
        self.use_pango
    }

    /// Sets whether title and description hold markup.
    pub fn set_use_pango(&mut self, value: bool)
        ensures
            final(self)@ == (GMatchView { use_pango: value, ..old(self)@ }),
    {
        self.use_pango = value;
    }

    /// The icon of the match, if it has one: an absolute path or the name
    /// of a themed icon.
    pub fn get_icon(&self) -> (value: Option<String>)
        ensures
            value.deep_view() == self@.icon,
    {
        clone_text(&self.icon)
    }

    /// Sets or removes the icon and leaves everything else as it is.
    pub fn set_icon(&mut self, value: Option<String>)
        ensures
            final(self)@ == (GMatchView { icon: value.deep_view(), ..old(self)@ }),
    {
        self.icon = value;
    }

    /// The value by which the owning plugin knows the match, if it gave one.
    pub fn get_id(&self) -> (value: Option<u64>)
        ensures
            value == self@.id,
    {
        self.id
    }

    /// Sets or removes the plugin's value and leaves everything else as it
    /// is. Zero is a value like any other.
    pub fn set_id(&mut self, value: Option<u64>)
        ensures
            final(self)@ == (GMatchView { id: value, ..old(self)@ }),
    {
        self.id = value;
    }

    /// The load-order index of the plugin that owns the match.
    pub fn get_plugin_id(&self) -> (value: u64)
        ensures
            value == self@.plugin_id,
    {
        self.plugin_id
    }

    /// Sets the owner and leaves everything else as it is.
    pub fn set_plugin_id(&mut self, value: u64)
        ensures
            final(self)@ == (GMatchView { plugin_id: value, ..old(self)@ }),
    {
        self.plugin_id = value;
    }

    /// Whether the entry is marked as the first of its group.
    pub fn get_first(&self) -> (value: bool)
        ensures
            value == self@.first,
    {
        self.first
    }

    /// Sets the mark and leaves everything else as it is.
    pub fn set_first(&mut self, value: bool)
        ensures
            final(self)@ == (GMatchView { first: value, ..old(self)@ }),
    {
        self.first = value;
    }
}

/// Which parts of a row the configuration hides.
#[derive(Clone, Copy, Debug, PartialEq, Eq, Structural)]
pub struct RowOptions {
    pub hide_plugins_icons: bool,
    pub hide_plugin_info: bool,
    pub hide_match_icons: bool,
}

/// What the row of an entry shows: the plugin's icon and name to the left,
/// then the icon of the match, its title and, below it, its description.
#[derive(Debug, PartialEq, Eq)]
pub struct MatchRow {
    /// The plugin's icon.
    pub plugin_icon: ImageSource,
    /// Whether the plugin's icon is visible.
    pub plugin_icon_visible: bool,
    /// The text beside the plugin's icon.
    pub plugin_label: String,
    /// Whether the plugin's icon and name are visible at all.
    pub plugin_info_visible: bool,
    /// The icon of the match, where one is shown.
    pub match_icon: Option<ImageSource>,
    /// Whether title and description hold markup.
    pub use_pango: bool,
    pub title: String,
    pub description: Option<String>,
}

/// The mathematical content of a [`MatchRow`].
pub struct MatchRowView {
    pub plugin_icon: ImageSourceView,
    pub plugin_icon_visible: bool,
    pub plugin_label: Seq<char>,
    pub plugin_info_visible: bool,
    pub match_icon: Option<ImageSourceView>,
    pub use_pango: bool,
    pub title: Seq<char>,
    pub description: Option<Seq<char>>,
}

impl View for MatchRow {
    type V = MatchRowView;

    open spec fn view(&self) -> MatchRowView {
        MatchRowView {
            plugin_icon: self.plugin_icon@,
            plugin_icon_visible: self.plugin_icon_visible,
            plugin_label: self.plugin_label@,
            plugin_info_visible: self.plugin_info_visible,
            match_icon: self.match_icon.deep_view(),
            use_pango: self.use_pango,
            title: self.title@,
            description: self.description.deep_view(),
        }
    }
}

impl MatchRowView {
    /// The row of `entry`, an entry of the plugin described by `info`,
    /// given the pictures of the plugin's icon and of the entry's own.
    ///
    /// The plugin's name and its icon show only beside the first entry of
    /// a group; the configuration may hide the plugin's icon, the plugin's
    /// part as a whole, and the icon of the match.
    pub open spec fn of(
        entry: GMatchView,
        info: PluginInfoView,
        plugin_icon: ImageSourceView,
        match_icon: Option<ImageSourceView>,
        options: RowOptions,
    ) -> MatchRowView {
        MatchRowView {
            plugin_icon,
            plugin_icon_visible: !options.hide_plugins_icons && entry.first,
            plugin_label: if entry.first {
                info.name
            } else {
                Seq::empty()
            },
            plugin_info_visible: !options.hide_plugin_info,
            match_icon: if options.hide_match_icons {
                None
            } else {
                match_icon
            },
            use_pango: entry.use_pango,
            title: entry.title,
            description: entry.description,
        }
    }

    /// The picture of an entry's icon, as the platform reads its text.
    pub open spec fn icon_of(icon: Option<Seq<char>>) -> Option<ImageSourceView> {
        match icon {
            Some(text) => Some(ImageSourceView::of(text, path_is_absolute(text))),
            None => None,
        }
    }
}

impl GMatch {
    /// The row of this entry: see [`MatchRowView::of`]. `info` describes
    /// the plugin that owns the entry, `plugin_icon` is the picture of that
    /// plugin's icon, and `match_icon` the picture of the entry's own icon.
    pub fn row(
        &self,
        info: PluginInfo,
        plugin_icon: ImageSource,
        match_icon: Option<ImageSource>,
        options: &RowOptions,
    ) -> (row: MatchRow)
        ensures
            row@ == MatchRowView::of(
                self@,
                info@,
                plugin_icon@,
                match_icon.deep_view(),
                *options,
            ),
    {
        MatchRow {
            plugin_icon,
            plugin_icon_visible: !options.hide_plugins_icons && self.first,
            plugin_label: if self.first {
                info.name
            } else {
                String::new()
            },
            plugin_info_visible: !options.hide_plugin_info,
            match_icon: if options.hide_match_icons {
                None
            } else {
                match_icon
            },
            use_pango: self.use_pango,
            title: self.title.clone(),
            description: clone_text(&self.description),
        }
    }

    /// The row of this entry in the result list of `runtime_data`: the
    /// plugin that owns the entry is asked for its name and icon, and the
    /// row is laid out as [`MatchRowView::of`] says, whatever the plugin
    /// answers.
    ///
    /// Fails exactly when the entry names a plugin that is not loaded.
    pub fn to_widget<P: Plugin>(&self, runtime_data: &RuntimeData<P>, options: &RowOptions) -> (row:
        Result<MatchRow, LookupError>)
        ensures
            self@.plugin_id >= runtime_data@.plugins.len() ==> row == Err::<MatchRow, LookupError>(
                LookupError::Plugin,
            ),
            self@.plugin_id < runtime_data@.plugins.len() ==> {
                &&& row matches Ok(shown)
                &&& exists|info: PluginInfo|
                    {
                        &&& #[trigger] described(
                            runtime_data@.plugins[self@.plugin_id as int],
                            info,
                        )
                        &&& shown@ == MatchRowView::of(
                            self@,
                            info@,
                            ImageSourceView::of(info@.icon, path_is_absolute(info@.icon)),
                            MatchRowView::icon_of(self@.icon),
                            *options,
                        )
                    }
            },
    {
        let plugins = runtime_data.plugins();
        if self.plugin_id >= plugins.len() as u64 {
            return Err(LookupError::Plugin);
        }
        let info = plugins[self.plugin_id as usize].info();
        let plugin_icon = build_image(info.icon.as_str());
        let match_icon = match &self.icon {
            Some(icon) => Some(build_image(icon.as_str())),
            None => None,
        };
        let ghost given = info;
        let row = self.row(info, plugin_icon, match_icon, options);
        assert(described(runtime_data@.plugins[self@.plugin_id as int], given));
        Ok(row)
    }
}

impl Clone for GMatch {
    fn clone(&self) -> (res: Self)
        ensures
            res@ == self@,
    {
        GMatch {
            title: self.title.clone(),
            description: clone_text(&self.description),
            use_pango: self.use_pango,
            icon: clone_text(&self.icon),
            id: self.id,
            plugin_id: self.plugin_id,
            first: self.first,
        }
    }
}

impl Default for GMatch {
    fn default() -> (item: Self)
        ensures
            item@ == GMatchView::empty(),
    {
        GMatch::new()
    }
}

impl FromSpecImpl<Match> for GMatch {
    open spec fn obeys_from_spec() -> bool {
        true
    }

    closed spec fn from_spec(value: Match) -> GMatch {
        GMatch {
            title: value.title,
            description: value.description,
            use_pango: value.use_pango,
            icon: value.icon,
            id: value.id,
            plugin_id: 0,
            first: true,
        }
    }
}

impl From<Match> for GMatch {
    /// A match on its own becomes the leading entry of the first plugin.
    fn from(value: Match) -> (item: GMatch)
        ensures
            item@ == GMatchView::of_match(value@, 0, true),
    {
        GMatch {
            title: value.title,
            description: value.description,
            use_pango: value.use_pango,
            icon: value.icon,
            id: value.id,
            plugin_id: 0,
            first: true,
        }
    }
}

impl FromSpecImpl<GMatch> for Match {
    open spec fn obeys_from_spec() -> bool {
        true
    }

    closed spec fn from_spec(val: GMatch) -> Match {
        Match {
            title: val.title,
            description: val.description,
            use_pango: val.use_pango,
            icon: val.icon,
            id: val.id,
        }
    }
}

impl From<GMatch> for Match {
    /// The match that an entry shows; the owner and the group mark are dropped.
    fn from(val: GMatch) -> (m: Match)
        ensures
            m@ == val@.to_match(),
    {
        Match {
            title: val.title,
            description: val.description,
            use_pango: val.use_pango,
            icon: val.icon,
            id: val.id,
        }
    }
}

} // verus!
