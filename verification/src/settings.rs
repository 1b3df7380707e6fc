use vstd::prelude::*;

use crate::shortcuts::{actions_view, ShortcutAction, ShortcutActionView};
use crate::window::{AppWindowState, AppWindowView};

verus! {

/// An action that can be given a shortcut: its stable id, the name shown for it,
/// and the shortcut it has until the user picks another.
#[derive(Clone, Copy, Debug)]
pub struct ShortcutDefinition {
    pub id: &'static str,
    pub label: &'static str,
    pub default_shortcut: &'static str,
}

pub struct DefinitionView {
    pub id: Seq<char>,
    pub label: Seq<char>,
    pub default_shortcut: Seq<char>,
}

impl View for ShortcutDefinition {
    type V = DefinitionView;

    open spec fn view(&self) -> DefinitionView {
        DefinitionView { id: self.id@, label: self.label@, default_shortcut: self.default_shortcut@ }
    }
}

/// The actions that can be given a shortcut, in the order the settings list them.
pub open spec fn definitions() -> Seq<DefinitionView> {
    seq![
        DefinitionView {
            id: "switch_last_word"@,
            label: "Последнее слово"@,
            default_shortcut: "Ctrl + Alt + 1"@,
        },
        DefinitionView {
            id: "switch_full_text"@,
            label: "Весь текст"@,
            default_shortcut: "Ctrl + Alt + 2"@,
        },
    ]
}

pub open spec fn definitions_view(v: Seq<ShortcutDefinition>) -> Seq<DefinitionView> {
    v.map_values(|d: ShortcutDefinition| d@)
}

/// The actions that can be given a shortcut.
pub fn shortcut_definitions() -> (r: Vec<ShortcutDefinition>)
    ensures
        definitions_view(r@) == definitions(),
{
    let mut defs: Vec<ShortcutDefinition> = Vec::new();
    defs.push(
        ShortcutDefinition {
            id: "switch_last_word",
            label: "Последнее слово",
            default_shortcut: "Ctrl + Alt + 1",
        },
    );
    defs.push(
        ShortcutDefinition {
            id: "switch_full_text",
            label: "Весь текст",
            default_shortcut: "Ctrl + Alt + 2",
        },
    );
    assert(definitions_view(defs@) =~= definitions());
    defs
}

/// The name shown for an id that no action has.
pub open spec fn unknown_action_label() -> Seq<char> {
    "Неизвестное действие"@
}

/// The name of the first action in `defs` with the given id.
pub open spec fn label_in(defs: Seq<DefinitionView>, id: Seq<char>) -> Seq<char>
    decreases defs.len(),
{
    if defs.len() == 0 {
        unknown_action_label()
    } else if defs[0].id == id {
        defs[0].label
    } else {
        label_in(defs.drop_first(), id)
    }
}

/// The name shown for the action with the given id.
pub open spec fn label_for_id(id: Seq<char>) -> Seq<char> {
    label_in(definitions(), id)
}

fn same_text(a: &str, b: &str) -> (r: bool)
    ensures
        r == (a@ == b@),
{
    let a_owned = a.to_owned();
    let b_owned = b.to_owned();
    a_owned == b_owned
}

/// The name shown for the action with the given id.
pub fn shortcut_label(id: &str) -> (r: &'static str)
    ensures
        r@ == label_for_id(id@),
{
    let defs = shortcut_definitions();
    let ghost dv = definitions_view(defs@);
    let n = defs.len();
    let mut i: usize = 0;
    assert(dv.skip(0) =~= dv);
    while i < n
        invariant
            n == defs.len(),
            i <= n,
            dv == definitions_view(defs@),
            dv == definitions(),
            label_in(dv.skip(i as int), id@) == label_for_id(id@),
        decreases n - i,
    {
        let definition = defs[i];
        assert(dv.skip(i as int)[0] == definition@);
        assert(dv.skip(i as int).drop_first() =~= dv.skip(i + 1));
        if same_text(definition.id, id) {
            return definition.label;
        }
        i = i + 1;
    }
    "Неизвестное действие"
}

/// A stored shortcut: the action's id and its key combination as shown.
#[derive(Debug, PartialEq, Eq)]
pub struct ShortcutBinding {
    pub id: String,
    pub shortcut: String,
}

pub struct BindingView {
    pub id: Seq<char>,
    pub shortcut: Seq<char>,
}

impl View for ShortcutBinding {
    type V = BindingView;

    open spec fn view(&self) -> BindingView {
        BindingView { id: self.id@, shortcut: self.shortcut@ }
    }
}

pub open spec fn bindings_view(v: Seq<ShortcutBinding>) -> Seq<BindingView> {
    v.map_values(|b: ShortcutBinding| b@)
}

/// The application's settings, as they are stored between runs.
#[derive(Debug, PartialEq, Eq)]
pub struct AppSettings {
    pub autostart_enabled: bool,
    pub shortcuts: Vec<ShortcutBinding>,
}

pub struct SettingsView {
    pub autostart_enabled: bool,
    pub shortcuts: Seq<BindingView>,
}

impl View for AppSettings {
    type V = SettingsView;

    open spec fn view(&self) -> SettingsView {
        SettingsView {
            autostart_enabled: self.autostart_enabled,
            shortcuts: bindings_view(self.shortcuts@),
        }
    }
}

/// The binding of an action to its default shortcut.
pub open spec fn default_binding(d: DefinitionView) -> BindingView {
    BindingView { id: d.id, shortcut: d.default_shortcut }
}

/// The settings of a first run: autostart on, and every action with its default shortcut.
pub open spec fn default_settings() -> SettingsView {
    SettingsView {
        autostart_enabled: true,
        shortcuts: definitions().map_values(|d: DefinitionView| default_binding(d)),
    }
}

/// The shortcut of the last binding in `bindings` with the given id, if any.
pub open spec fn last_shortcut_for(bindings: Seq<BindingView>, id: Seq<char>) -> Option<Seq<char>>
    decreases bindings.len(),
{
    if bindings.len() == 0 {
        None
    } else if bindings.last().id == id {
        Some(bindings.last().shortcut)
    } else {
        last_shortcut_for(bindings.drop_last(), id)
    }
}

/// The binding that normalization gives an action: the last stored shortcut for
/// its id, or its default shortcut when none is stored.
pub open spec fn normalized_binding(stored: Seq<BindingView>, d: DefinitionView) -> BindingView {
    BindingView {
        id: d.id,
        shortcut: match last_shortcut_for(stored, d.id) {
            Some(shortcut) => shortcut,
            None => d.default_shortcut,
        },
    }
}

/// Settings brought into the shape the application works with: one binding per
/// action, in the actions' order; bindings for unknown ids are dropped.
pub open spec fn normalized_settings(s: SettingsView) -> SettingsView {
    SettingsView {
        autostart_enabled: s.autostart_enabled,
        shortcuts: definitions().map_values(|d: DefinitionView| normalized_binding(s.shortcuts, d)),
    }
}

/// The settings with binding `index` given a new shortcut.
pub open spec fn with_binding_shortcut(s: SettingsView, index: int, shortcut: Seq<char>) -> SettingsView {
    SettingsView {
        shortcuts: s.shortcuts.update(index, BindingView { id: s.shortcuts[index].id, shortcut }),
        ..s
    }
}

/// The row of the shortcut list that shows a binding.
pub open spec fn action_row(b: BindingView) -> ShortcutActionView {
    ShortcutActionView { label: label_for_id(b.id), shortcut: b.shortcut }
}

/// Where the stored bindings hold a shortcut for `id`, the position of the last
/// one that does.
fn last_binding_index(bindings: &Vec<ShortcutBinding>, id: &str) -> (r: Option<usize>)
    ensures
        match last_shortcut_for(bindings_view(bindings@), id@) {
            Some(shortcut) => r matches Some(i) && i < bindings.len() && bindings@[i as int]@.shortcut
                == shortcut,
            None => r is None,
        },
{
    let ghost bv = bindings_view(bindings@);
    let mut found: Option<usize> = None;
    let n = bindings.len();
    let mut j: usize = 0;
    while j < n
        invariant
            n == bindings.len(),
            j <= n,
            bv == bindings_view(bindings@),
            match last_shortcut_for(bv.take(j as int), id@) {
                Some(shortcut) => found matches Some(i) && i < j && bindings@[i as int]@.shortcut
                    == shortcut,
                None => found is None,
            },
        decreases n - j,
    {
        assert(bv.take(j + 1).drop_last() =~= bv.take(j as int));
        assert(bv.take(j + 1).last() == bindings@[j as int]@);
        if same_text(bindings[j].id.as_str(), id) {
            found = Some(j);
        }
        j = j + 1;
    }
    assert(bv.take(n as int) =~= bv);
    found
}

impl AppSettings {
    /// The rows of the shortcut list: for each binding, its action's name and
    /// its shortcut.
    pub fn to_shortcut_actions(&self) -> (r: Vec<ShortcutAction>)
        ensures
            actions_view(r@) == self@.shortcuts.map_values(|b: BindingView| action_row(b)),
    {
        let ghost bv = bindings_view(self.shortcuts@);
        let mut actions: Vec<ShortcutAction> = Vec::new();
        let n = self.shortcuts.len();
        let mut i: usize = 0;
        while i < n
            invariant
                n == self.shortcuts.len(),
                i <= n,
                bv == bindings_view(self.shortcuts@),
                actions_view(actions@) == bv.take(i as int).map_values(|b: BindingView| action_row(b)),
            decreases n - i,
        {
            let binding = &self.shortcuts[i];
            let label = shortcut_label(binding.id.as_str());
            let ghost before = actions_view(actions@);
            actions.push(
                ShortcutAction { label: String::from_str(label), shortcut: binding.shortcut.clone() },
            );
            assert(actions_view(actions@) =~= before.push(action_row(bv[i as int])));
            assert(bv.take(i + 1).map_values(|b: BindingView| action_row(b))
                =~= bv.take(i as int).map_values(|b: BindingView| action_row(b)).push(action_row(bv[i as int])));
            i = i + 1;
        }
        assert(bv.take(n as int) =~= bv);
        actions
    }

    /// Gives binding `index` a new shortcut; `false`, with nothing changed, when
    /// there is no such binding.
    pub fn set_shortcut(&mut self, index: usize, shortcut: &str) -> (r: bool)
        ensures
            r == (index < old(self)@.shortcuts.len()),
            r ==> final(self)@ == with_binding_shortcut(old(self)@, index as int, shortcut@),
            !r ==> final(self)@ == old(self)@,
    {
        if index >= self.shortcuts.len() {
            return false;
        }
        let id = self.shortcuts[index].id.clone();
        let ghost before = self@;
        self.shortcuts.set(index, ShortcutBinding { id, shortcut: String::from_str(shortcut) });
        assert(self@.shortcuts =~= with_binding_shortcut(before, index as int, shortcut@).shortcuts);
        true
    }

    fn normalized_copy(&self) -> (r: AppSettings)
        ensures
            r@ == normalized_settings(self@),
    {
        let defs = shortcut_definitions();
        let ghost dv = definitions_view(defs@);
        let ghost target = normalized_settings(self@).shortcuts;
        let mut shortcuts: Vec<ShortcutBinding> = Vec::new();
        let n = defs.len();
        let mut i: usize = 0;
        while i < n
            invariant
                n == defs.len(),
                i <= n,
                dv == definitions_view(defs@),
                dv == definitions(),
                target == normalized_settings(self@).shortcuts,
                bindings_view(shortcuts@) == target.take(i as int),
            decreases n - i,
        {
            let definition = defs[i];
            let shortcut = match last_binding_index(&self.shortcuts, definition.id) {
                Some(j) => self.shortcuts[j].shortcut.clone(),
                None => String::from_str(definition.default_shortcut),
            };
            let ghost before = bindings_view(shortcuts@);
            shortcuts.push(ShortcutBinding { id: String::from_str(definition.id), shortcut });
            assert(target[i as int] == normalized_binding(self@.shortcuts, dv[i as int]));
            assert(bindings_view(shortcuts@) =~= before.push(target[i as int]));
            assert(target.take(i + 1) =~= target.take(i as int).push(target[i as int]));
            i = i + 1;
        }
        assert(target.take(n as int) =~= target);
        AppSettings { autostart_enabled: self.autostart_enabled, shortcuts }
    }

    /// The settings with one binding per action, in the actions' order: each
    /// takes the last stored shortcut for its id, or its default when none is
    /// stored; bindings for unknown ids are dropped.
    pub fn normalized(self) -> (r: Self)
        ensures
            r@ == normalized_settings(self@),
    {
        self.normalized_copy()
    }

    /// Whether two settings values hold the same autostart flag and the same
    /// bindings in the same order.
    pub fn same_as(&self, other: &AppSettings) -> (r: bool)
        ensures
            r == (self@ == other@),
    {
        if self.autostart_enabled != other.autostart_enabled {
            return false;
        }
        let n = self.shortcuts.len();
        if n != other.shortcuts.len() {
            assert(self@.shortcuts.len() != other@.shortcuts.len());
            return false;
        }
        let ghost a = self@.shortcuts;
        let ghost b = other@.shortcuts;
        let mut i: usize = 0;
        while i < n
            invariant
                n == self.shortcuts.len(),
                n == other.shortcuts.len(),
                i <= n,
                a == self@.shortcuts,
                b == other@.shortcuts,
                forall|j: int| 0 <= j < i ==> a[j] == b[j],
            decreases n - i,
        {
            let same_id = self.shortcuts[i].id == other.shortcuts[i].id;
            let same_shortcut = self.shortcuts[i].shortcut == other.shortcuts[i].shortcut;
            if !same_id || !same_shortcut {
                assert(a[i as int] != b[i as int]);
                return false;
            }
            i = i + 1;
        }
        assert(a =~= b);
        true
    }
}

impl Default for AppSettings {
    fn default() -> (r: Self)
        ensures
            r@ == default_settings(),
    {
        let defs = shortcut_definitions();
        let ghost dv = definitions_view(defs@);
        let ghost target = default_settings().shortcuts;
        let mut shortcuts: Vec<ShortcutBinding> = Vec::new();
        let n = defs.len();
        let mut i: usize = 0;
        while i < n
            invariant
                n == defs.len(),
                i <= n,
                dv == definitions_view(defs@),
                dv == definitions(),
                target == default_settings().shortcuts,
                bindings_view(shortcuts@) == target.take(i as int),
            decreases n - i,
        {
            let definition = defs[i];
            let ghost before = bindings_view(shortcuts@);
            shortcuts.push(
                ShortcutBinding {
                    id: String::from_str(definition.id),
                    shortcut: String::from_str(definition.default_shortcut),
                },
            );
            assert(target[i as int] == default_binding(dv[i as int]));
            assert(bindings_view(shortcuts@) =~= before.push(target[i as int]));
            assert(target.take(i + 1) =~= target.take(i as int).push(target[i as int]));
            i = i + 1;
        }
        assert(target.take(n as int) =~= target);
        AppSettings { autostart_enabled: true, shortcuts }
    }
}

/// What was found where the settings are stored.
pub enum SettingsFile {
    /// There is no settings file yet.
    Missing,
    /// The file does not hold settings.
    Corrupted,
    /// The settings that the file holds.
    Parsed(AppSettings),
}

/// The settings to work with after reading the store, and whether they must be
/// written back to it.
pub struct LoadedSettings {
    pub settings: AppSettings,
    pub needs_save: bool,
}

/// Decides the settings to work with from what the store held: a missing or
/// corrupted file gives the default settings, to be written; stored settings are
/// normalized, and written back only when normalizing changed them.
pub fn settings_after_load(file: SettingsFile) -> (r: LoadedSettings)
    ensures
        match file {
            SettingsFile::Parsed(stored) => {
                &&& r.settings@ == normalized_settings(stored@)
                &&& r.needs_save == (normalized_settings(stored@) != stored@)
            },
            _ => r.settings@ == default_settings() && r.needs_save,
        },
{
    match file {
        SettingsFile::Parsed(stored) => {
            let normalized = stored.normalized_copy();
            let unchanged = normalized.same_as(&stored);
            LoadedSettings { settings: normalized, needs_save: !unchanged }
        },
        _ => LoadedSettings { settings: AppSettings::default(), needs_save: true },
    }
}

/// Takes the user's choice of autostart. When it differs from the setting, the
/// setting changes and the previous value comes back, to be restored if saving
/// the settings fails; otherwise nothing changes and `None` comes back.
pub fn autostart_toggled(settings: &mut AppSettings, enabled: bool) -> (r: Option<bool>)
    ensures
        old(settings).autostart_enabled == enabled ==> {
            &&& r is None
            &&& final(settings)@ == old(settings)@
        },
        old(settings).autostart_enabled != enabled ==> {
            &&& r == Some(old(settings).autostart_enabled)
            &&& final(settings)@ == (SettingsView { autostart_enabled: enabled, ..old(settings)@ })
        },
{
    if settings.autostart_enabled == enabled {
        return None;
    }
    let previous = settings.autostart_enabled;
    settings.autostart_enabled = enabled;
    Some(previous)
}

/// Saving a changed autostart setting failed: the setting and the window's
/// switch go back to the previous value.
pub fn autostart_save_failed(settings: &mut AppSettings, window: &mut AppWindowState, previous: bool)
    ensures
        final(settings)@ == (SettingsView { autostart_enabled: previous, ..old(settings)@ }),
        final(window)@ == (AppWindowView { autostart_enabled: previous, ..old(window)@ }),
{
    settings.autostart_enabled = previous;
    window.autostart_enabled = previous;
}

} // verus!
