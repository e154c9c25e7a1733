//! One tracked instance: a group of named layers, the rule by which a layer
//! is matched against the focused window, and the settings it is built from.

use crate::active_window_manager::{FocusedWindow, FocusedWindowView};
use crate::text::{chars_matched, chars_of, same_prefix, str_matched};
use vstd::prelude::*;

verus! {

/// The rule that decides whether the focused window belongs to a layer.
#[derive(Debug, Clone, Copy, PartialEq, Eq, Structural)]
pub enum MatchMethod {
    /// The window title is compared with the layer's descriptor.
    Title,
    /// The file name of the window's executable is compared with it.
    Application,
    /// Both comparisons must succeed, against the same descriptor.
    Strict,
}

impl MatchMethod {
    /// The method that a settings value names: `"application"` and
    /// `"strict"` name theirs, every other value names `Title`.
    pub open spec fn parse(s: Seq<char>) -> MatchMethod {
        if s == "application"@ {
            MatchMethod::Application
        } else if s == "strict"@ {
            MatchMethod::Strict
        } else {
            MatchMethod::Title
        }
    }

    /// Reads a method from its settings value. No value is rejected.
    pub fn from_str(s: &str) -> (method: Self)
        ensures
            method == Self::parse(s@),
    {
        let given = chars_of(s);
        let application = chars_of("application");
        let strict = chars_of("strict");
        assert(given@.take(given.len() as int) =~= given@);
        assert(application@.take(application.len() as int) =~= application@);
        assert(strict@.take(strict.len() as int) =~= strict@);
        if same_prefix(&given, given.len(), &application, application.len()) {
            MatchMethod::Application
        } else if same_prefix(&given, given.len(), &strict, strict.len()) {
            MatchMethod::Strict
        } else {
            MatchMethod::Title
        }
    }
}

/// Whether `window` belongs to the layer described by `descriptor` under
/// `method`.
pub open spec fn window_matched(
    method: MatchMethod,
    window: FocusedWindowView,
    descriptor: Seq<char>,
) -> bool {
    match method {
        MatchMethod::Title => str_matched(window.title, descriptor),
        MatchMethod::Application => str_matched(window.process_name, descriptor),
        MatchMethod::Strict => str_matched(window.process_name, descriptor) && str_matched(
            window.title,
            descriptor,
        ),
    }
}

/// Under `Strict` a layer matches exactly when it matches under
/// `Application` and under `Title`, each against the same descriptor.
pub proof fn strict_is_application_and_title(window: FocusedWindowView, descriptor: Seq<char>)
    ensures
        window_matched(MatchMethod::Strict, window, descriptor) == (window_matched(
            MatchMethod::Application,
            window,
            descriptor,
        ) && window_matched(MatchMethod::Title, window, descriptor)),
{
}

/// Under `Strict` no title makes up for an executable name that does not
/// match the descriptor.
pub proof fn strict_needs_process_match(
    window: FocusedWindowView,
    title: Seq<char>,
    descriptor: Seq<char>,
)
    requires
        !str_matched(window.process_name, descriptor),
    ensures
        !window_matched(
            MatchMethod::Strict,
            FocusedWindowView { title, process_name: window.process_name },
            descriptor,
        ),
{
}

/// The settings of one instance as the host stores them.
pub struct SourceSettings {
    /// The entries of the layer list; `None` where the list itself is
    /// absent, and an inner `None` for an entry that carries no name.
    pub items: Option<Vec<Option<String>>>,
    /// Name of the group that holds the layers.
    pub scene: String,
    /// Settings value of the match method; an absent value reads as the
    /// empty string.
    pub match_method: String,
}

/// Settings as sequences of characters.
pub struct SourceSettingsView {
    pub items: Option<Seq<Option<Seq<char>>>>,
    pub scene: Seq<char>,
    pub match_method: Seq<char>,
}

/// An entry of the layer list as a sequence of characters.
pub open spec fn entry_view(entry: Option<String>) -> Option<Seq<char>> {
    match entry {
        Some(name) => Some(name@),
        None => None,
    }
}

impl View for SourceSettings {
    type V = SourceSettingsView;

    open spec fn view(&self) -> SourceSettingsView {
        SourceSettingsView {
            items: match self.items {
                Some(entries) => Some(entries@.map_values(|e: Option<String>| entry_view(e))),
                None => None,
            },
            scene: self.scene@,
            match_method: self.match_method@,
        }
    }
}

/// The names that a list of entries carries, in the order of the entries.
pub open spec fn named_entries(entries: Seq<Option<Seq<char>>>) -> Seq<Seq<char>>
    decreases entries.len(),
{
    if entries.len() == 0 {
        Seq::empty()
    } else {
        let before = named_entries(entries.drop_last());
        match entries.last() {
            Some(name) => before.push(name),
            None => before,
        }
    }
}

/// The layer names that settings list: none where the list is absent.
pub open spec fn listed_names(items: Option<Seq<Option<Seq<char>>>>) -> Seq<Seq<char>> {
    match items {
        Some(entries) => named_entries(entries),
        None => Seq::empty(),
    }
}

/// The view of a list of names.
pub open spec fn names_view(names: Seq<String>) -> Seq<Seq<char>> {
    names.map_values(|name: String| name@)
}

/// One tracked instance.
pub struct FocusedWindowSource {
    /// Name of the group that holds the tracked layers.
    pub scene_name: String,
    /// Names of the tracked layers, in the order in which they were written.
    pub scene_item_list: Vec<String>,
    /// Whether the instance takes part in reordering.
    pub enable: bool,
    /// The rule by which layers are matched against the focused window.
    pub match_method: MatchMethod,
}

/// An instance with its names as sequences of characters.
pub struct FocusedWindowSourceView {
    pub scene_name: Seq<char>,
    pub scene_item_list: Seq<Seq<char>>,
    pub enable: bool,
    pub match_method: MatchMethod,
}

impl View for FocusedWindowSource {
    type V = FocusedWindowSourceView;

    open spec fn view(&self) -> FocusedWindowSourceView {
        FocusedWindowSourceView {
            scene_name: self.scene_name@,
            scene_item_list: names_view(self.scene_item_list@),
            enable: self.enable,
            match_method: self.match_method,
        }
    }
}

impl Clone for FocusedWindowSource {
    fn clone(&self) -> (copy: Self)
        ensures
            copy@ == self@,
            copy.scene_name == self.scene_name,
            copy.scene_item_list@ == self.scene_item_list@,
    {
        let mut names: Vec<String> = Vec::new();
        let mut i: usize = 0;
        while i < self.scene_item_list.len()
            invariant
                i <= self.scene_item_list.len(),
                names@ == self.scene_item_list@.take(i as int),
            decreases self.scene_item_list.len() - i,
        {
            names.push(self.scene_item_list[i].clone());
            assert(names@ =~= self.scene_item_list@.take(i + 1));
            i += 1;
        }
        assert(names@ =~= self.scene_item_list@);
        FocusedWindowSource {
            scene_name: self.scene_name.clone(),
            scene_item_list: names,
            enable: self.enable,
            match_method: self.match_method,
        }
    }
}

impl FocusedWindowSource {
    /// An instance that tracks nothing yet: no group, no layers, disabled,
    /// matching by title.
    pub fn new() -> (instance: Self)
        ensures
            instance@ == (FocusedWindowSourceView {
                scene_name: Seq::empty(),
                scene_item_list: Seq::empty(),
                enable: false,
                match_method: MatchMethod::Title,
            }),
    {
        let instance = FocusedWindowSource {
            scene_name: String::new(),
            scene_item_list: Vec::new(),
            enable: false,
            match_method: MatchMethod::Title,
        };
        assert(names_view(instance.scene_item_list@) =~= Seq::empty());
        instance
    }

    /// Replaces the tracked layer names.
    pub fn update_scene_list(&mut self, scene_list: Vec<String>)
        ensures
            final(self).scene_item_list == scene_list,
            final(self).scene_name == old(self).scene_name,
            final(self).enable == old(self).enable,
            final(self).match_method == old(self).match_method,
            final(self)@ == (FocusedWindowSourceView {
                scene_item_list: names_view(scene_list@),
                ..old(self)@
            }),
    {
        self.scene_item_list = scene_list;
    }

    /// The lenient match of two strings.
    pub fn is_str_matched(&self, title1: &str, title2: &str) -> (matched: bool)
        ensures
            matched == str_matched(title1@, title2@),
    {
        let first = chars_of(title1);
        let second = chars_of(title2);
        chars_matched(&first, &second)
    }

    /// Whether the focused window belongs to the layer described by
    /// `source_name` under the instance's match method.
    pub fn is_window_matched_with_method(
        &self,
        focused_window: &FocusedWindow,
        source_name: &str,
    ) -> (matched: bool)
        ensures
            matched == window_matched(self.match_method, focused_window@, source_name@),
    {
        match self.match_method {
            MatchMethod::Title => self.is_str_matched(focused_window.title.as_str(), source_name),
            MatchMethod::Application => self.is_str_matched(
                focused_window.process_name.as_str(),
                source_name,
            ),
            MatchMethod::Strict => self.is_str_matched(
                focused_window.process_name.as_str(),
                source_name,
            ) && self.is_str_matched(focused_window.title.as_str(), source_name),
        }
    }

    /// The layer names that `settings` list: the names of the entries that
    /// carry one, in their order, and none where the list is absent.
    pub fn get_scene_names_from_settings(&self, settings: &SourceSettings) -> (names: Vec<String>)
        ensures
            names_view(names@) == listed_names(settings@.items),
    {
        let mut names: Vec<String> = Vec::new();
        match &settings.items {
            None => {
                assert(names_view(names@) =~= Seq::empty());
            },
            Some(entries) => {
                let ghost all = entries@.map_values(|e: Option<String>| entry_view(e));
                assert(names_view(names@) =~= named_entries(all.take(0)));
                let mut i: usize = 0;
                while i < entries.len()
                    invariant
                        i <= entries.len(),
                        all == entries@.map_values(|e: Option<String>| entry_view(e)),
                        names_view(names@) == named_entries(all.take(i as int)),
                    decreases entries.len() - i,
                {
                    let ghost before = names@;
                    proof {
                        assert(all.take(i + 1).drop_last() =~= all.take(i as int));
                        assert(all.take(i + 1).last() == entry_view(entries@[i as int]));
                    }
                    match &entries[i] {
                        Some(name) => {
                            names.push(name.clone());
                            assert(names_view(names@) =~= names_view(before).push(name@));
                        },
                        None => {},
                    }
                    i += 1;
                }
                assert(all.take(entries.len() as int) =~= all);
            },
        }
        names
    }
}

/// Builds an instance from its settings. It starts disabled.
pub fn create(settings: &SourceSettings) -> (instance: FocusedWindowSource)
    ensures
        instance@ == (FocusedWindowSourceView {
            scene_name: settings@.scene,
            scene_item_list: listed_names(settings@.items),
            enable: false,
            match_method: MatchMethod::parse(settings@.match_method),
        }),
{
    let mut instance = FocusedWindowSource::new();
    update(&mut instance, settings);
    instance
}

/// Takes new settings into an instance: the layer names, the group name and
/// the match method. Whether the instance is enabled does not change.
pub fn update(data: &mut FocusedWindowSource, settings: &SourceSettings)
    ensures
        final(data)@ == (FocusedWindowSourceView {
            scene_name: settings@.scene,
            scene_item_list: listed_names(settings@.items),
            enable: old(data)@.enable,
            match_method: MatchMethod::parse(settings@.match_method),
        }),
{
    let scene_names = data.get_scene_names_from_settings(settings);
    data.update_scene_list(scene_names);
    data.scene_name = settings.scene.clone();
    data.match_method = MatchMethod::from_str(settings.match_method.as_str());
}

/// Restores an instance from saved settings; the same as `update`.
pub fn load(data: &mut FocusedWindowSource, settings: &SourceSettings)
    ensures
        final(data)@ == (FocusedWindowSourceView {
            scene_name: settings@.scene,
            scene_item_list: listed_names(settings@.items),
            enable: old(data)@.enable,
            match_method: MatchMethod::parse(settings@.match_method),
        }),
{
    update(data, settings);
}

/// Enables an instance.
pub fn activate(data: &mut FocusedWindowSource)
    ensures
        final(data).enable,
        final(data).scene_name == old(data).scene_name,
        final(data).scene_item_list == old(data).scene_item_list,
        final(data).match_method == old(data).match_method,
{
    data.enable = true;
}

/// Disables an instance.
pub fn deactivate(data: &mut FocusedWindowSource)
    ensures
        !final(data).enable,
        final(data).scene_name == old(data).scene_name,
        final(data).scene_item_list == old(data).scene_item_list,
        final(data).match_method == old(data).match_method,
{
    data.enable = false;
}

} // verus!
