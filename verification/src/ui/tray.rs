//! The notification-area icon and its menu.
//!
//! This is the whole user interface for normal use: the only reason a window
//! ever exists is the tuning panel ([`super::panel`]).
//!
//! [`Tray`] is the state of the menu: every label, tick and greyed-out entry,
//! and what each entry asks for. The system's menu shows that state and reports
//! which entry was chosen, by the id it gave the entry.
//!
//! ## How the menu is grouped
//!
//! Four groups, in the order a user's questions arrive: open the panel; what it
//! is doing (processing on or off, whether the output is routed, the presets);
//! settings (start with Windows, language); maintenance (the driver, then quit).
//!
//! ## Why the route entry states its state instead of greying out
//!
//! Greying it out once it had been done would make "already correct" look like
//! "not available". It reads `Output routed via FxMini`, with a tick, when it
//! has been done.
//!
//! ## Why both driver entries always exist
//!
//! Showing only the applicable one means removing and adding entries whenever
//! the driver state changes, which invalidates ids and races with the event
//! queue. Both are always present and one is disabled.
use crate::i18n::{Lang, TrayText};
use crate::preset::{library, PresetEntry, PresetId, PresetView};
use std::collections::{HashMap, VecDeque};
use vstd::prelude::*;

verus! {

broadcast use vstd::string::group_string_axioms;

/// Something the user asked for through the tray.
#[derive(Debug, Clone, Copy, PartialEq, Eq, Structural)]
pub enum TrayAction {
    /// Enable or disable processing.
    ToggleEnabled,
    /// Enable or disable running at logon.
    ToggleAutostart,
    /// Switch to a `.fac` file.
    SelectPreset(PresetId),
    /// Open the tuning panel.
    OpenPanel,
    /// Install the virtual sound card (triggers an elevation prompt).
    InstallDriver,
    /// Remove the virtual sound card.
    RemoveDriver,
    /// Re-scan the preset folder.
    ReloadPresets,
    /// Point the system's default output at the virtual sound card, so audio
    /// actually flows through the enhancer.
    RouteOutput,
    /// Draw the interface in a different language.
    SetLanguage(Lang),
    /// Leave.
    Quit,
}

/// A menu entry: what it reads, whether it can be chosen, whether it is ticked.
#[derive(Debug, Clone, Copy)]
pub struct Item {
    pub text: &'static str,
    pub enabled: bool,
    pub checked: bool,
}

/// An entry that can be chosen and carries no tick.
pub open spec fn plain(text: &'static str) -> Item {
    Item { text, enabled: true, checked: false }
}

/// An entry that can be chosen and is ticked when `checked`.
pub open spec fn ticked(text: &'static str, checked: bool) -> Item {
    Item { text, enabled: true, checked }
}

/// An entry that only says something: it cannot be chosen and carries no tick.
pub open spec fn placeholder(text: &'static str) -> Item {
    Item { text, enabled: false, checked: false }
}

/// A preset's menu entry, kept so it can be ticked later.
#[derive(Debug)]
pub struct PresetMenuItem {
    pub id: u64,
    pub path: PresetId,
    pub label: String,
    pub checked: bool,
}

/// A preset's menu entry, with its label as characters.
#[verifier::ext_equal]
pub struct PresetItemView {
    pub id: u64,
    pub path: PresetId,
    pub label: Seq<char>,
    pub checked: bool,
}

impl View for PresetMenuItem {
    type V = PresetItemView;

    open spec fn view(&self) -> PresetItemView {
        PresetItemView {
            id: self.id,
            path: self.path,
            label: self.label@,
            checked: self.checked,
        }
    }
}

/// The preset entries of a menu, in order.
pub open spec fn preset_item_views(items: Seq<PresetMenuItem>) -> Seq<PresetItemView> {
    items.map_values(|item: PresetMenuItem| item@)
}

/// A place in the menu, top to bottom.
#[derive(Debug, Clone, Copy, PartialEq, Eq, Structural)]
pub enum MenuRow {
    Open,
    Enabled,
    Route,
    Presets,
    Autostart,
    Language,
    Install,
    Remove,
    Quit,
    Separator,
}

/// A place in the preset submenu, top to bottom.
#[derive(Debug, Clone, Copy, PartialEq, Eq, Structural)]
pub enum PresetRow {
    /// The word that there are no presets.
    Placeholder,
    /// The preset at this position of the library.
    Preset(usize),
    Separator,
    Rescan,
}

/// An entry of the language submenu.
///
/// It reads as the language calls itself, so that the way out of a language one
/// cannot read is legible, and so that it never needs another label.
#[derive(Debug, Clone, Copy)]
pub struct LanguageEntry {
    pub lang: Lang,
    pub label: &'static str,
    pub checked: bool,
}

/// The ids the system gave the fixed entries.
#[derive(Debug)]
pub struct MenuIds {
    pub open: u64,
    pub enabled: u64,
    pub route: u64,
    pub rescan: u64,
    pub autostart: u64,
    pub install: u64,
    pub remove: u64,
    pub quit: u64,
    /// One per language of [`Lang::ALL`]; `None` where the system's menu would
    /// not take the entry.
    pub languages: Vec<Option<u64>>,
}

impl MenuIds {
    /// The ids, with those of the languages last.
    pub open spec fn in_order(self) -> Seq<Option<u64>> {
        seq![
            Some(self.open),
            Some(self.enabled),
            Some(self.route),
            Some(self.rescan),
            Some(self.autostart),
            Some(self.install),
            Some(self.remove),
            Some(self.quit),
            row_id(self.languages@, 0),
            row_id(self.languages@, 1),
        ]
    }

    /// Whether no two entries share an id.
    pub open spec fn distinct(self) -> bool {
        let ids = self.in_order();
        forall|i: int, j: int|
            0 <= i < j < ids.len() && ids[i] is Some ==> #[trigger] ids[i] != #[trigger] ids[j]
    }
}

/// A mouse button.
#[derive(Debug, Clone, Copy, PartialEq, Eq, Structural)]
pub enum MouseButton {
    Left,
    Right,
    Middle,
}

/// Whether a button went down or came up.
#[derive(Debug, Clone, Copy, PartialEq, Eq, Structural)]
pub enum ButtonState {
    Up,
    Down,
}

/// Something the pointer did on the icon itself.
#[derive(Debug, Clone, Copy, PartialEq, Eq, Structural)]
pub enum IconEvent {
    Click { button: MouseButton, state: ButtonState },
    DoubleClick { button: MouseButton },
    /// The pointer entering, moving over or leaving the icon.
    Other,
}

/// The entries that are always there, and the titles of the submenus.
#[derive(Debug, Clone, Copy)]
pub struct FixedItems {
    pub open: Item,
    pub enabled: Item,
    pub presets: &'static str,
    pub rescan: Item,
    pub autostart: Item,
    pub language: &'static str,
    pub install: Item,
    pub remove: Item,
    pub quit: Item,
}

/// Owns the state of the tray icon and its menu.
pub struct Tray {
    pub fixed: FixedItems,
    pub route_item: Item,
    pub preset_items: Vec<PresetMenuItem>,
    /// The disabled placeholder, present only while the list is empty.
    pub preset_empty: Option<Item>,
    /// Menu id to action, for the fixed entries.
    pub actions: HashMap<u64, TrayAction>,
    /// The two facts the route entry depends on.
    pub routed: bool,
    pub driver_present: bool,
    pub tooltip: String,
}

/// The state of the tray, as values.
#[verifier::ext_equal]
pub struct TrayView {
    pub fixed: FixedItems,
    pub route_item: Item,
    pub preset_items: Seq<PresetItemView>,
    pub preset_empty: Option<Item>,
    pub actions: Map<u64, TrayAction>,
    pub routed: bool,
    pub driver_present: bool,
    pub tooltip: Seq<char>,
}

impl View for Tray {
    type V = TrayView;

    open spec fn view(&self) -> TrayView {
        TrayView {
            fixed: self.fixed,
            route_item: self.route_item,
            preset_items: preset_item_views(self.preset_items@),
            preset_empty: self.preset_empty,
            actions: self.actions@,
            routed: self.routed,
            driver_present: self.driver_present,
            tooltip: self.tooltip@,
        }
    }
}

/// The menu, top to bottom.
pub open spec fn menu_rows() -> Seq<MenuRow> {
    seq![
        MenuRow::Open,
        MenuRow::Separator,
        MenuRow::Enabled,
        MenuRow::Route,
        MenuRow::Presets,
        MenuRow::Separator,
        MenuRow::Autostart,
        MenuRow::Language,
        MenuRow::Separator,
        MenuRow::Install,
        MenuRow::Remove,
        MenuRow::Separator,
        MenuRow::Quit,
    ]
}

/// The preset submenu of a library of `count` presets, top to bottom.
pub open spec fn preset_rows(count: nat) -> Seq<PresetRow> {
    let list = if count == 0 {
        seq![PresetRow::Placeholder]
    } else {
        Seq::new(count, |i: int| PresetRow::Preset(i as usize))
    };
    list + seq![PresetRow::Separator, PresetRow::Rescan]
}

/// The id of a row, where the system's menu took the row.
pub open spec fn row_id(rows: Seq<Option<u64>>, i: int) -> Option<u64> {
    if 0 <= i < rows.len() {
        rows[i]
    } else {
        None
    }
}

/// The entries for a library: one per preset whose row the system's menu took,
/// none of them ticked.
pub open spec fn preset_items_for(presets: Seq<PresetView>, rows: Seq<Option<u64>>) -> Seq<
    PresetItemView,
>
    decreases presets.len(),
{
    if presets.len() == 0 {
        Seq::empty()
    } else {
        let before = preset_items_for(presets.drop_last(), rows);
        let entry = presets.last();
        match row_id(rows, presets.len() - 1) {
            Some(id) => before.push(
                PresetItemView { id, path: entry.path, label: entry.label(), checked: false },
            ),
            None => before,
        }
    }
}

/// The route entry, from the two facts it depends on.
///
/// Not a toggle: there is no useful "unroute", so the entry describes the
/// situation and can be chosen exactly when choosing it would change something.
pub open spec fn route_entry(lang: Lang, routed: bool, driver_present: bool) -> Item {
    let text = lang.strings().tray;
    if routed {
        Item { text: text.route_through_done, enabled: false, checked: true }
    } else {
        Item { text: text.route_through, enabled: driver_present, checked: false }
    }
}

/// The actions of the language entries, added to `actions`.
pub open spec fn language_actions(
    actions: Map<u64, TrayAction>,
    languages: Seq<Option<u64>>,
) -> Map<u64, TrayAction> {
    let chinese = match row_id(languages, 0) {
        Some(id) => actions.insert(id, TrayAction::SetLanguage(Lang::Zh)),
        None => actions,
    };
    match row_id(languages, 1) {
        Some(id) => chinese.insert(id, TrayAction::SetLanguage(Lang::En)),
        None => chinese,
    }
}

/// What each fixed entry asks for.
pub open spec fn fixed_actions(ids: MenuIds) -> Map<u64, TrayAction> {
    language_actions(
        Map::empty().insert(ids.open, TrayAction::OpenPanel).insert(
            ids.enabled,
            TrayAction::ToggleEnabled,
        ).insert(ids.route, TrayAction::RouteOutput).insert(
            ids.rescan,
            TrayAction::ReloadPresets,
        ).insert(ids.autostart, TrayAction::ToggleAutostart).insert(
            ids.install,
            TrayAction::InstallDriver,
        ).insert(ids.remove, TrayAction::RemoveDriver).insert(ids.quit, TrayAction::Quit),
        ids.languages@,
    )
}

/// The first preset entry with this id.
pub open spec fn preset_with_id(items: Seq<PresetItemView>, id: u64) -> Option<PresetId>
    decreases items.len(),
{
    if items.len() == 0 {
        None
    } else if items[0].id == id {
        Some(items[0].path)
    } else {
        preset_with_id(items.drop_first(), id)
    }
}

/// Whether a pointer event asks for the panel: the left button coming up, or a
/// double-click of it.
pub open spec fn opens_panel(event: IconEvent) -> bool {
    match event {
        IconEvent::Click { button, state } => button == MouseButton::Left && state
            == ButtonState::Up,
        IconEvent::DoubleClick { button } => button == MouseButton::Left,
        IconEvent::Other => false,
    }
}

impl TrayView {
    /// The tray as it is first shown, before the presets and the driver are
    /// known.
    pub open spec fn blank(lang: Lang, enabled: bool, autostart: bool, ids: MenuIds) -> TrayView {
        let text = lang.strings().tray;
        TrayView {
            fixed: FixedItems {
                open: plain(text.panel),
                enabled: ticked(text.enabled, enabled),
                presets: text.presets,
                rescan: plain(text.rescan),
                autostart: ticked(text.autostart, autostart),
                language: text.language,
                install: plain(text.install_driver),
                remove: plain(text.remove_driver),
                quit: plain(text.quit),
            },
            route_item: plain(text.route_through),
            preset_items: Seq::empty(),
            preset_empty: None,
            actions: fixed_actions(ids),
            routed: false,
            driver_present: false,
            tooltip: "FxMini"@,
        }
    }

    /// The tray once it is built.
    pub open spec fn built(
        lang: Lang,
        presets: Seq<PresetView>,
        enabled: bool,
        autostart: bool,
        driver_present: bool,
        ids: MenuIds,
        rows: Seq<Option<u64>>,
    ) -> TrayView {
        Self::blank(lang, enabled, autostart, ids).with_presets(lang, presets, rows).with_driver(
            lang,
            driver_present,
        )
    }

    /// With the preset submenu rebuilt for a library.
    pub open spec fn with_presets(
        self,
        lang: Lang,
        presets: Seq<PresetView>,
        rows: Seq<Option<u64>>,
    ) -> TrayView {
        TrayView {
            preset_items: preset_items_for(presets, rows),
            preset_empty: if presets.len() == 0 && row_id(rows, 0) is Some {
                Some(placeholder(lang.strings().tray.no_presets))
            } else {
                None
            },
            ..self
        }
    }

    /// With this preset ticked and no other.
    pub open spec fn with_active(self, active: Option<PresetId>) -> TrayView {
        TrayView {
            preset_items: self.preset_items.map_values(
                |item: PresetItemView|
                    PresetItemView { checked: active == Some(item.path), ..item },
            ),
            ..self
        }
    }

    /// With the route entry redrawn.
    pub open spec fn with_route(self, lang: Lang) -> TrayView {
        TrayView { route_item: route_entry(lang, self.routed, self.driver_present), ..self }
    }

    /// With the driver there or not.
    pub open spec fn with_driver(self, lang: Lang, present: bool) -> TrayView {
        TrayView {
            driver_present: present,
            fixed: FixedItems {
                install: Item { enabled: !present, ..self.fixed.install },
                remove: Item { enabled: present, ..self.fixed.remove },
                ..self.fixed
            },
            ..self
        }.with_route(lang)
    }

    /// With the output routed or not.
    pub open spec fn with_routed(self, lang: Lang, routed: bool) -> TrayView {
        TrayView { routed, ..self }.with_route(lang)
    }

    /// With processing shown on or off.
    pub open spec fn with_enabled(self, on: bool) -> TrayView {
        TrayView {
            fixed: FixedItems {
                enabled: Item { checked: on, ..self.fixed.enabled },
                ..self.fixed
            },
            ..self
        }
    }

    /// With running at logon shown on or off.
    pub open spec fn with_autostart(self, on: bool) -> TrayView {
        TrayView {
            fixed: FixedItems {
                autostart: Item { checked: on, ..self.fixed.autostart },
                ..self.fixed
            },
            ..self
        }
    }

    /// With every label in `lang`.
    pub open spec fn retitled(self, lang: Lang) -> TrayView {
        let text = lang.strings().tray;
        TrayView {
            fixed: FixedItems {
                open: Item { text: text.panel, ..self.fixed.open },
                enabled: Item { text: text.enabled, ..self.fixed.enabled },
                presets: text.presets,
                rescan: Item { text: text.rescan, ..self.fixed.rescan },
                autostart: Item { text: text.autostart, ..self.fixed.autostart },
                language: text.language,
                install: Item { text: text.install_driver, ..self.fixed.install },
                remove: Item { text: text.remove_driver, ..self.fixed.remove },
                quit: Item { text: text.quit, ..self.fixed.quit },
            },
            preset_empty: match self.preset_empty {
                Some(item) => Some(Item { text: text.no_presets, ..item }),
                None => None,
            },
            ..self
        }.with_route(lang)
    }

    /// With this tooltip.
    pub open spec fn with_tooltip(self, tooltip: Seq<char>) -> TrayView {
        TrayView { tooltip, ..self }
    }

    /// What choosing the entry with this id asks for.
    pub open spec fn action_of(self, id: u64) -> Option<TrayAction> {
        if self.actions.contains_key(id) {
            Some(self.actions[id])
        } else {
            match preset_with_id(self.preset_items, id) {
                Some(path) => Some(TrayAction::SelectPreset(path)),
                None => None,
            }
        }
    }

    /// The first request in a queue of menu events, and what is left of the
    /// queue after it. Events for unknown ids are discarded.
    pub open spec fn polled(self, queue: Seq<u64>) -> (Option<TrayAction>, Seq<u64>)
        decreases queue.len(),
    {
        if queue.len() == 0 {
            (None, queue)
        } else if self.action_of(queue[0]) is Some {
            (self.action_of(queue[0]), queue.drop_first())
        } else {
            self.polled(queue.drop_first())
        }
    }

    /// The menu agrees with itself: the driver entries and the route entry say
    /// what the driver and the route are, and every label is in `lang`.
    pub open spec fn in_step(self, lang: Lang) -> bool {
        let text = lang.strings().tray;
        &&& self.fixed.open == plain(text.panel)
        &&& self.fixed.enabled == ticked(text.enabled, self.fixed.enabled.checked)
        &&& self.route_item == route_entry(lang, self.routed, self.driver_present)
        &&& self.fixed.presets == text.presets
        &&& self.preset_empty is Some ==> self.preset_empty == Some(placeholder(text.no_presets))
        &&& self.fixed.rescan == plain(text.rescan)
        &&& self.fixed.autostart == ticked(text.autostart, self.fixed.autostart.checked)
        &&& self.fixed.language == text.language
        &&& self.fixed.install == (Item {
            text: text.install_driver,
            enabled: !self.driver_present,
            checked: false,
        })
        &&& self.fixed.remove == (Item {
            text: text.remove_driver,
            enabled: self.driver_present,
            checked: false,
        })
        &&& self.fixed.quit == plain(text.quit)
    }
}

/// An entry that can be chosen and carries no tick.
fn plain_item(text: &'static str) -> (r: Item)
    ensures
        r == plain(text),
{
    Item { text, enabled: true, checked: false }
}

/// The entry with another label.
fn relabelled(item: Item, text: &'static str) -> (r: Item)
    ensures
        r == (Item { text, ..item }),
{
    Item { text, enabled: item.enabled, checked: item.checked }
}

/// The menu, top to bottom.
pub fn menu_layout() -> (r: Vec<MenuRow>)
    ensures
        r@ == menu_rows(),
{
    vec![
        // The panel.
        MenuRow::Open,
        MenuRow::Separator,
        // State.
        MenuRow::Enabled,
        MenuRow::Route,
        MenuRow::Presets,
        MenuRow::Separator,
        // Settings.
        MenuRow::Autostart,
        MenuRow::Language,
        MenuRow::Separator,
        // Maintenance, then the exit.
        MenuRow::Install,
        MenuRow::Remove,
        MenuRow::Separator,
        MenuRow::Quit,
    ]
}

/// The language submenu of a menu that is built while `current` is the
/// language, top to bottom.
pub fn language_layout(current: Lang) -> (r: Vec<LanguageEntry>)
    ensures
        r.len() == Lang::ALL@.len(),
        forall|i: int|
            0 <= i < r.len() ==> {
                &&& (#[trigger] r[i]).lang == Lang::ALL@[i]
                &&& r[i].label@ == Lang::ALL@[i].own_name()
                &&& r[i].checked == (Lang::ALL@[i] == current)
            },
{
    let mut entries: Vec<LanguageEntry> = Vec::new();
    for i in 0..Lang::ALL.len()
        invariant
            entries.len() == i,
            forall|k: int|
                0 <= k < i ==> {
                    &&& (#[trigger] entries[k]).lang == Lang::ALL@[k]
                    &&& entries[k].label@ == Lang::ALL@[k].own_name()
                    &&& entries[k].checked == (Lang::ALL@[k] == current)
                },
    {
        let lang = Lang::ALL[i];
        entries.push(LanguageEntry { lang, label: lang.endonym(), checked: lang == current });
    }
    entries
}

/// The preset submenu of a library of `count` presets, top to bottom.
///
/// Rescanning is a preset operation, so it lives with the presets, below a
/// separator so that it does not read as one of them.
pub fn preset_layout(count: usize) -> (r: Vec<PresetRow>)
    ensures
        r@ == preset_rows(count as nat),
{
    let mut rows: Vec<PresetRow> = Vec::new();
    if count == 0 {
        rows.push(PresetRow::Placeholder);
    } else {
        let mut i: usize = 0;
        while i < count
            invariant
                i <= count,
                rows.len() == i,
                forall|k: int| 0 <= k < i ==> rows[k] == PresetRow::Preset(k as usize),
            decreases count - i,
        {
            rows.push(PresetRow::Preset(i));
            i = i + 1;
        }
    }
    rows.push(PresetRow::Separator);
    rows.push(PresetRow::Rescan);
    assert(rows@ =~= preset_rows(count as nat));
    rows
}

/// The id of a row, where the system's menu took the row.
fn id_of_row(rows: &Vec<Option<u64>>, i: usize) -> (r: Option<u64>)
    ensures
        r == row_id(rows@, i as int),
{
    if i < rows.len() {
        rows[i]
    } else {
        None
    }
}

/// What each fixed entry asks for.
fn actions_for(ids: &MenuIds) -> (r: HashMap<u64, TrayAction>)
    ensures
        r@ == fixed_actions(*ids),
{
    broadcast use vstd::std_specs::hash::group_hash_axioms;

    let mut actions: HashMap<u64, TrayAction> = HashMap::new();
    actions.insert(ids.open, TrayAction::OpenPanel);
    actions.insert(ids.enabled, TrayAction::ToggleEnabled);
    actions.insert(ids.route, TrayAction::RouteOutput);
    actions.insert(ids.rescan, TrayAction::ReloadPresets);
    actions.insert(ids.autostart, TrayAction::ToggleAutostart);
    actions.insert(ids.install, TrayAction::InstallDriver);
    actions.insert(ids.remove, TrayAction::RemoveDriver);
    actions.insert(ids.quit, TrayAction::Quit);
    if let Some(id) = id_of_row(&ids.languages, 0) {
        actions.insert(id, TrayAction::SetLanguage(Lang::Zh));
    }
    if let Some(id) = id_of_row(&ids.languages, 1) {
        actions.insert(id, TrayAction::SetLanguage(Lang::En));
    }
    assert(actions@ =~= fixed_actions(*ids));
    actions
}

impl Tray {
    /// Builds the tray, in the language `lang`.
    ///
    /// `menu` is what came of putting the entries of [`menu_layout`] into the
    /// system's menu: their ids, or why it would not take them. `rows` are the
    /// ids of the preset rows, as for [`Self::set_presets`].
    pub fn new(
        lang: Lang,
        presets: &Vec<PresetEntry>,
        enabled: bool,
        autostart: bool,
        driver_present: bool,
        menu: Result<MenuIds, String>,
        rows: &Vec<Option<u64>>,
    ) -> (r: Result<Self, String>)
        ensures
            match menu {
                Ok(ids) => r is Ok && r->Ok_0@ == TrayView::built(
                    lang,
                    library(presets@),
                    enabled,
                    autostart,
                    driver_present,
                    ids,
                    rows@,
                ),
                Err(error) => r == Err::<Self, String>(error),
            },
    {
        let ids = match menu {
            Ok(ids) => ids,
            Err(error) => {
                return Err(error);
            },
        };
        let text: &'static TrayText = &lang.table().tray;
        let mut tray = Tray {
            fixed: FixedItems {
                open: plain_item(text.panel),
                enabled: Item { text: text.enabled, enabled: true, checked: enabled },
                presets: text.presets,
                rescan: plain_item(text.rescan),
                autostart: Item { text: text.autostart, enabled: true, checked: autostart },
                language: text.language,
                install: plain_item(text.install_driver),
                remove: plain_item(text.remove_driver),
                quit: plain_item(text.quit),
            },
            route_item: plain_item(text.route_through),
            preset_items: Vec::new(),
            preset_empty: None,
            actions: actions_for(&ids),
            routed: false,
            driver_present: false,
            tooltip: "FxMini".to_owned(),
        };
        assert(tray@ =~= TrayView::blank(lang, enabled, autostart, ids));
        tray.set_presets(lang, presets, rows);
        tray.set_driver_present(lang, driver_present);
        Ok(tray)
    }

    /// Replaces the preset submenu contents.
    ///
    /// `rows` holds, for each preset, the id the system's menu gave its row, or
    /// `None` if it would not take the row. For an empty library the one row is
    /// the placeholder's.
    pub fn set_presets(
        &mut self,
        lang: Lang,
        presets: &Vec<PresetEntry>,
        rows: &Vec<Option<u64>>,
    )
        ensures
            final(self)@ == old(self)@.with_presets(lang, library(presets@), rows@),
    {
        let ghost all = library(presets@);
        let mut items: Vec<PresetMenuItem> = Vec::new();
        let mut i: usize = 0;
        assert(preset_item_views(items@) =~= preset_items_for(all.take(0), rows@));
        while i < presets.len()
            invariant
                i <= presets.len(),
                all == library(presets@),
                preset_item_views(items@) == preset_items_for(all.take(i as int), rows@),
            decreases presets.len() - i,
        {
            let ghost before = items@;
            assert(all.take(i + 1).drop_last() =~= all.take(i as int));
            assert(all.take(i + 1).last() == presets[i as int]@);
            if let Some(id) = id_of_row(rows, i) {
                items.push(
                    PresetMenuItem {
                        id,
                        path: presets[i].path,
                        label: presets[i].label(),
                        checked: false,
                    },
                );
                assert(preset_item_views(items@) =~= preset_item_views(before).push(
                    items@.last()@,
                ));
            }
            i = i + 1;
        }
        assert(all.take(i as int) =~= all);
        self.preset_items = items;
        self.preset_empty = if presets.len() == 0 && id_of_row(rows, 0).is_some() {
            Some(Item { text: lang.table().tray.no_presets, enabled: false, checked: false })
        } else {
            None
        };
        assert(self@ =~= old(self)@.with_presets(lang, all, rows@));
    }

    /// Ticks the given preset and unticks the rest.
    pub fn set_active_preset(&mut self, active: Option<PresetId>)
        ensures
            final(self)@ == old(self)@.with_active(active),
    {
        let ghost before = self.preset_items@;
        let mut items: Vec<PresetMenuItem> = Vec::new();
        let mut i: usize = 0;
        while i < self.preset_items.len()
            invariant
                *self == *old(self),
                before == self.preset_items@,
                i <= self.preset_items.len(),
                items.len() == i,
                forall|k: int|
                    0 <= k < i ==> items[k]@ == (PresetItemView {
                        checked: active == Some(before[k].path),
                        ..before[k]@
                    }),
            decreases self.preset_items.len() - i,
        {
            let item = &self.preset_items[i];
            let checked = match active {
                Some(wanted) => wanted == item.path,
                None => false,
            };
            items.push(
                PresetMenuItem { id: item.id, path: item.path, label: item.label.clone(), checked },
            );
            i = i + 1;
        }
        self.preset_items = items;
        assert(self@.preset_items =~= old(self)@.with_active(active).preset_items);
        assert(self@ =~= old(self)@.with_active(active));
    }

    /// Disables whichever driver action does not apply.
    pub fn set_driver_present(&mut self, lang: Lang, present: bool)
        ensures
            final(self)@ == old(self)@.with_driver(lang, present),
    {
        self.driver_present = present;
        self.fixed.install.enabled = !present;
        self.fixed.remove.enabled = present;
        // The route entry is only meaningful while there is something to route
        // to, so it follows this too.
        self.refresh_route(lang);
    }

    /// States whether audio is currently going through the enhancer.
    pub fn set_routed(&mut self, lang: Lang, routed: bool)
        ensures
            final(self)@ == old(self)@.with_routed(lang, routed),
    {
        self.routed = routed;
        self.refresh_route(lang);
    }

    /// Keeps the tick in sync when the state changed elsewhere (the panel can
    /// toggle processing too).
    pub fn set_enabled_checked(&mut self, on: bool)
        ensures
            final(self)@ == old(self)@.with_enabled(on),
    {
        self.fixed.enabled.checked = on;
    }

    pub fn set_autostart_checked(&mut self, on: bool)
        ensures
            final(self)@ == old(self)@.with_autostart(on),
    {
        self.fixed.autostart.checked = on;
    }

    /// Redraws the route entry from the two facts it depends on.
    fn refresh_route(&mut self, lang: Lang)
        ensures
            final(self)@ == old(self)@.with_route(lang),
    {
        let text: &'static TrayText = &lang.table().tray;
        if self.routed {
            // The tick and the wording carry the meaning; the entry is disabled
            // because there is nothing left to press.
            self.route_item.text = text.route_through_done;
            self.route_item.checked = true;
            self.route_item.enabled = false;
        } else {
            self.route_item.text = text.route_through;
            self.route_item.checked = false;
            self.route_item.enabled = self.driver_present;
        }
    }

    /// Rewrites every label from the table of `lang`, in place.
    ///
    /// Preset names come from the files, so they are left alone; only the
    /// empty-list placeholder needs a new word.
    pub fn retitle(&mut self, lang: Lang)
        ensures
            final(self)@ == old(self)@.retitled(lang),
    {
        let text: &'static TrayText = &lang.table().tray;
        let fixed = self.fixed;
        self.fixed = FixedItems {
            open: relabelled(fixed.open, text.panel),
            enabled: relabelled(fixed.enabled, text.enabled),
            presets: text.presets,
            rescan: relabelled(fixed.rescan, text.rescan),
            autostart: relabelled(fixed.autostart, text.autostart),
            language: text.language,
            install: relabelled(fixed.install, text.install_driver),
            remove: relabelled(fixed.remove, text.remove_driver),
            quit: relabelled(fixed.quit, text.quit),
        };
        if let Some(item) = self.preset_empty {
            self.preset_empty = Some(relabelled(item, text.no_presets));
        }
        // The route entry's wording depends on its state.
        self.refresh_route(lang);
    }

    /// Updates the hover tooltip.
    pub fn set_tooltip(&mut self, text: &str)
        ensures
            final(self)@ == old(self)@.with_tooltip(text@),
    {
        self.tooltip = text.to_owned();
    }

    /// What choosing the entry with this id asks for.
    fn action_for(&self, id: u64) -> (r: Option<TrayAction>)
        ensures
            r == self@.action_of(id),
    {
        broadcast use vstd::std_specs::hash::group_hash_axioms;

        if let Some(action) = self.actions.get(&id) {
            return Some(*action);
        }
        let ghost items = self@.preset_items;
        let mut i: usize = 0;
        assert(items.skip(0) =~= items);
        while i < self.preset_items.len()
            invariant
                i <= self.preset_items.len(),
                items == preset_item_views(self.preset_items@),
                preset_with_id(items, id) == preset_with_id(items.skip(i as int), id),
                self@.preset_items == items,
                !self@.actions.contains_key(id),
            decreases self.preset_items.len() - i,
        {
            assert(items.skip(i as int)[0] == self.preset_items[i as int]@);
            if self.preset_items[i].id == id {
                return Some(TrayAction::SelectPreset(self.preset_items[i].path));
            }
            assert(items.skip(i as int).drop_first() =~= items.skip(i + 1));
            i = i + 1;
        }
        None
    }

    /// Takes one request from the queue of menu events.
    ///
    /// Events for unknown ids are discarded rather than forwarded, so a stale
    /// queue entry cannot trigger a surprise action.
    pub fn poll(&self, queue: &mut VecDeque<u64>) -> (r: Option<TrayAction>)
        ensures
            (r, final(queue)@) == self@.polled(old(queue)@),
    {
        loop
            invariant
                self@.polled(old(queue)@) == self@.polled(queue@),
            decreases queue@.len(),
        {
            let ghost before = queue@;
            match queue.pop_front() {
                Some(id) => {
                    assert(queue@ =~= before.drop_first());
                    if let Some(action) = self.action_for(id) {
                        return Some(action);
                    }
                },
                None => {
                    return None;
                },
            }
        }
    }

    /// Takes the icon's own pointer events, collapsing them to one request.
    ///
    /// Left-click opens the panel; the menu is on right-click. Every event is
    /// taken before deciding: a double-click arrives as two clicks plus a
    /// double-click, and wanting the panel any number of times is wanting it
    /// once.
    pub fn poll_icon(&self, events: &mut Vec<IconEvent>) -> (r: Option<TrayAction>)
        ensures
            final(events)@.len() == 0,
            r == icon_request(old(events)@),
    {
        let mut open = false;
        let mut i: usize = 0;
        while i < events.len()
            invariant
                *events == *old(events),
                i <= events.len(),
                open == exists|k: int| 0 <= k < i && opens_panel(#[trigger] events[k]),
            decreases events.len() - i,
        {
            match events[i] {
                IconEvent::Click { button: MouseButton::Left, state: ButtonState::Up } => {
                    assert(opens_panel(events[i as int]));
                    open = true;
                },
                IconEvent::DoubleClick { button: MouseButton::Left } => {
                    assert(opens_panel(events[i as int]));
                    open = true;
                },
                _ => {
                    assert(!opens_panel(events[i as int]));
                },
            }
            i = i + 1;
        }
        events.clear();
        if open {
            Some(TrayAction::OpenPanel)
        } else {
            None
        }
    }
}

/// What a batch of pointer events asks for: the panel, once, if any of them
/// asks for it.
pub open spec fn icon_request(events: Seq<IconEvent>) -> Option<TrayAction> {
    if exists|k: int| 0 <= k < events.len() && opens_panel(#[trigger] events[k]) {
        Some(TrayAction::OpenPanel)
    } else {
        None
    }
}

/// A freshly built menu agrees with itself.
pub proof fn a_built_menu_is_in_step(
    lang: Lang,
    presets: Seq<PresetView>,
    enabled: bool,
    autostart: bool,
    driver_present: bool,
    ids: MenuIds,
    rows: Seq<Option<u64>>,
)
    ensures
        TrayView::built(lang, presets, enabled, autostart, driver_present, ids, rows).in_step(lang),
{
}

/// Nothing that happens to the menu puts it out of step with itself, and
/// switching language brings every label along.
pub proof fn the_menu_stays_in_step(
    tray: TrayView,
    lang: Lang,
    other: Lang,
    presets: Seq<PresetView>,
    rows: Seq<Option<u64>>,
    active: Option<PresetId>,
    on: bool,
    tooltip: Seq<char>,
)
    requires
        tray.in_step(lang),
    ensures
        tray.with_presets(lang, presets, rows).in_step(lang),
        tray.with_active(active).in_step(lang),
        tray.with_driver(lang, on).in_step(lang),
        tray.with_routed(lang, on).in_step(lang),
        tray.with_enabled(on).in_step(lang),
        tray.with_autostart(on).in_step(lang),
        tray.with_tooltip(tooltip).in_step(lang),
        tray.retitled(other).in_step(other),
{
}

/// With an id of its own for every fixed entry, each asks for its own thing,
/// whatever the presets are.
pub proof fn each_entry_asks_for_its_own_thing(tray: TrayView, ids: MenuIds)
    requires
        tray.actions == fixed_actions(ids),
        ids.distinct(),
    ensures
        tray.action_of(ids.open) == Some(TrayAction::OpenPanel),
        tray.action_of(ids.enabled) == Some(TrayAction::ToggleEnabled),
        tray.action_of(ids.route) == Some(TrayAction::RouteOutput),
        tray.action_of(ids.rescan) == Some(TrayAction::ReloadPresets),
        tray.action_of(ids.autostart) == Some(TrayAction::ToggleAutostart),
        tray.action_of(ids.install) == Some(TrayAction::InstallDriver),
        tray.action_of(ids.remove) == Some(TrayAction::RemoveDriver),
        tray.action_of(ids.quit) == Some(TrayAction::Quit),
        ids.languages.len() > 0 ==> (ids.languages[0] matches Some(id) ==> tray.action_of(id)
            == Some(TrayAction::SetLanguage(Lang::Zh))),
        ids.languages.len() > 1 ==> (ids.languages[1] matches Some(id) ==> tray.action_of(id)
            == Some(TrayAction::SetLanguage(Lang::En))),
{
    let all = ids.in_order();
    assert(all[0] == Some(ids.open) && all[1] == Some(ids.enabled) && all[2] == Some(ids.route));
    assert(all[3] == Some(ids.rescan) && all[4] == Some(ids.autostart));
    assert(all[5] == Some(ids.install) && all[6] == Some(ids.remove) && all[7] == Some(ids.quit));
}

/// Exactly one of the two driver entries can be chosen: removing where there is
/// a driver, installing where there is none.
pub proof fn one_driver_entry_applies(tray: TrayView, lang: Lang)
    requires
        tray.in_step(lang),
    ensures
        tray.fixed.install.enabled != tray.fixed.remove.enabled,
        tray.fixed.remove.enabled == tray.driver_present,
{
}

/// The route entry can be chosen exactly when choosing it would change
/// something, it is ticked exactly when the output is routed, and "already
/// done" never looks like "not available".
pub proof fn the_route_entry_states_the_route(
    tray: TrayView,
    lang: Lang,
    unavailable: TrayView,
)
    requires
        tray.in_step(lang),
        unavailable.in_step(lang),
        tray.routed,
        !unavailable.routed,
    ensures
        !tray.route_item.enabled,
        tray.route_item.checked,
        unavailable.route_item.enabled == unavailable.driver_present,
        !unavailable.route_item.checked,
        tray.route_item.text@ != unavailable.route_item.text@,
{
    reveal_strlit("输出走 FxMini");
    reveal_strlit("输出已走 FxMini");
    reveal_strlit("Route through FxMini");
    reveal_strlit("Output routed via FxMini");
    assert("输出走 FxMini"@.len() != "输出已走 FxMini"@.len());
    assert("Route through FxMini"@.len() != "Output routed via FxMini"@.len());
}

/// The given preset is ticked and no other, and ticking changes nothing else of
/// the list.
pub proof fn only_the_active_preset_is_ticked(tray: TrayView, active: Option<PresetId>, i: int)
    requires
        0 <= i < tray.preset_items.len(),
    ensures
        tray.with_active(active).preset_items.len() == tray.preset_items.len(),
        tray.with_active(active).preset_items[i].checked <==> active == Some(
            tray.preset_items[i].path,
        ),
        tray.with_active(active).preset_items[i].id == tray.preset_items[i].id,
        tray.with_active(active).preset_items[i].path == tray.preset_items[i].path,
        tray.with_active(active).preset_items[i].label == tray.preset_items[i].label,
{
}

/// The word that there are no presets is shown exactly when there are none and
/// the system's menu took it. It is greyed out in every language, and an event
/// for it asks for nothing.
pub proof fn the_placeholder_cannot_be_chosen(
    tray: TrayView,
    lang: Lang,
    other: Lang,
    presets: Seq<PresetView>,
    rows: Seq<Option<u64>>,
)
    ensures
        ({
            let listed = tray.with_presets(lang, presets, rows);
            &&& listed.preset_empty is Some <==> presets.len() == 0 && rows.len() > 0 && rows[0] is Some
            &&& listed.preset_empty matches Some(item) ==> {
                &&& !item.enabled
                &&& !item.checked
                &&& listed.retitled(other).preset_empty matches Some(again)
                &&& !again.enabled
                &&& !tray.actions.contains_key(rows[0]->0) ==> listed.action_of(rows[0]->0) is None
            }
        }),
{
}

/// Switching language changes words only: the presets, the ticks, what can be
/// chosen, what each entry asks for and the tooltip stay.
pub proof fn switching_language_changes_words_only(tray: TrayView, lang: Lang, other: Lang, id: u64)
    requires
        tray.in_step(lang),
    ensures
        tray.retitled(other).preset_items == tray.preset_items,
        tray.retitled(other).tooltip == tray.tooltip,
        tray.retitled(other).action_of(id) == tray.action_of(id),
        tray.retitled(other).fixed.enabled.checked == tray.fixed.enabled.checked,
        tray.retitled(other).fixed.autostart.checked == tray.fixed.autostart.checked,
        tray.retitled(other).fixed.install.enabled == tray.fixed.install.enabled,
        tray.retitled(other).fixed.remove.enabled == tray.fixed.remove.enabled,
        tray.retitled(other).route_item.checked == tray.route_item.checked,
        tray.retitled(other).route_item.enabled == tray.route_item.enabled,
{
}

proof fn items_come_from_rows(presets: Seq<PresetView>, rows: Seq<Option<u64>>, i: int)
    requires
        0 <= i < preset_items_for(presets, rows).len(),
    ensures
        exists|k: int|
            {
                &&& 0 <= k < presets.len()
                &&& #[trigger] row_id(rows, k) == Some(preset_items_for(presets, rows)[i].id)
                &&& presets[k].path == preset_items_for(presets, rows)[i].path
                &&& presets[k].label() == preset_items_for(presets, rows)[i].label
            },
    decreases presets.len(),
{
    let before = preset_items_for(presets.drop_last(), rows);
    if i < before.len() {
        items_come_from_rows(presets.drop_last(), rows, i);
        let k = choose|k: int|
            {
                &&& 0 <= k < presets.drop_last().len()
                &&& #[trigger] row_id(rows, k) == Some(before[i].id)
                &&& presets.drop_last()[k].path == before[i].path
                &&& presets.drop_last()[k].label() == before[i].label
            };
        assert(presets[k] == presets.drop_last()[k]);
    } else {
        assert(row_id(rows, presets.len() - 1) is Some);
    }
}

proof fn rows_become_items(presets: Seq<PresetView>, rows: Seq<Option<u64>>, k: int)
    requires
        0 <= k < presets.len(),
        row_id(rows, k) is Some,
    ensures
        exists|i: int|
            {
                &&& 0 <= i < preset_items_for(presets, rows).len()
                &&& (#[trigger] preset_items_for(presets, rows)[i]).id == row_id(rows, k)->0
                &&& preset_items_for(presets, rows)[i].path == presets[k].path
            },
    decreases presets.len(),
{
    let items = preset_items_for(presets, rows);
    let before = preset_items_for(presets.drop_last(), rows);
    if k == presets.len() - 1 {
        assert(items[before.len() as int].id == row_id(rows, k)->0);
    } else {
        rows_become_items(presets.drop_last(), rows, k);
        let i = choose|i: int|
            {
                &&& 0 <= i < before.len()
                &&& (#[trigger] before[i]).id == row_id(rows, k)->0
                &&& before[i].path == presets.drop_last()[k].path
            };
        assert(items[i] == before[i]);
    }
}

proof fn an_id_found_is_an_id_listed(items: Seq<PresetItemView>, id: u64)
    ensures
        match preset_with_id(items, id) {
            Some(path) => exists|i: int|
                0 <= i < items.len() && (#[trigger] items[i]).id == id && items[i].path == path,
            None => forall|i: int| 0 <= i < items.len() ==> (#[trigger] items[i]).id != id,
        },
    decreases items.len(),
{
    if items.len() > 0 && items[0].id != id {
        let rest = items.drop_first();
        an_id_found_is_an_id_listed(rest, id);
        match preset_with_id(rest, id) {
            Some(path) => {
                let i = choose|i: int|
                    0 <= i < rest.len() && (#[trigger] rest[i]).id == id && rest[i].path == path;
                assert(items[i + 1] == rest[i]);
            },
            None => {
                assert forall|i: int| 0 <= i < items.len() implies (#[trigger] items[i]).id
                    != id by {
                    if i > 0 {
                        assert(rest[i - 1] == items[i]);
                    }
                }
            },
        }
    }
}

/// An id that belongs to no entry of the menu as it stands asks for nothing, so
/// an event left over from before the presets were rebuilt cannot trigger a
/// surprise action.
pub proof fn a_stale_id_asks_for_nothing(
    tray: TrayView,
    lang: Lang,
    presets: Seq<PresetView>,
    rows: Seq<Option<u64>>,
    id: u64,
)
    requires
        !tray.actions.contains_key(id),
        forall|k: int| 0 <= k < presets.len() ==> #[trigger] row_id(rows, k) != Some(id),
    ensures
        tray.with_presets(lang, presets, rows).action_of(id) is None,
{
    let items = preset_items_for(presets, rows);
    an_id_found_is_an_id_listed(items, id);
    if let Some(path) = preset_with_id(items, id) {
        let i = choose|i: int|
            0 <= i < items.len() && (#[trigger] items[i]).id == id && items[i].path == path;
        items_come_from_rows(presets, rows, i);
    }
}

/// Choosing a preset's row selects that preset, as long as the system gave the
/// row an id of its own.
pub proof fn a_row_selects_its_own_preset(
    tray: TrayView,
    lang: Lang,
    presets: Seq<PresetView>,
    rows: Seq<Option<u64>>,
    k: int,
)
    requires
        0 <= k < presets.len(),
        row_id(rows, k) is Some,
        !tray.actions.contains_key(row_id(rows, k)->0),
        forall|j: int|
            0 <= j < presets.len() && j != k ==> #[trigger] row_id(rows, j) != row_id(rows, k),
    ensures
        tray.with_presets(lang, presets, rows).action_of(row_id(rows, k)->0) == Some(
            TrayAction::SelectPreset(presets[k].path),
        ),
{
    let items = preset_items_for(presets, rows);
    let id = row_id(rows, k)->0;
    rows_become_items(presets, rows, k);
    an_id_found_is_an_id_listed(items, id);
    let path = preset_with_id(items, id)->0;
    let i = choose|i: int|
        0 <= i < items.len() && (#[trigger] items[i]).id == id && items[i].path == path;
    items_come_from_rows(presets, rows, i);
}

/// Polling stops at the first event whose id is known and leaves what comes
/// after it in the queue; when no id is known the queue is emptied and there is
/// no request.
pub proof fn polling_takes_the_first_known_event(tray: TrayView, queue: Seq<u64>)
    ensures
        match tray.polled(queue).0 {
            Some(action) => exists|k: int|
                {
                    &&& 0 <= k < queue.len()
                    &&& tray.action_of(#[trigger] queue[k]) == Some(action)
                    &&& forall|j: int| 0 <= j < k ==> tray.action_of(#[trigger] queue[j]) is None
                    &&& tray.polled(queue).1 == queue.skip(k + 1)
                },
            None => {
                &&& forall|j: int|
                    0 <= j < queue.len() ==> tray.action_of(#[trigger] queue[j]) is None
                &&& tray.polled(queue).1.len() == 0
            },
        },
    decreases queue.len(),
{
    if queue.len() > 0 {
        if tray.action_of(queue[0]) is Some {
            assert(queue.drop_first() =~= queue.skip(1));
        } else {
            let rest = queue.drop_first();
            polling_takes_the_first_known_event(tray, rest);
            match tray.polled(rest).0 {
                Some(action) => {
                    let k = choose|k: int|
                        {
                            &&& 0 <= k < rest.len()
                            &&& tray.action_of(#[trigger] rest[k]) == Some(action)
                            &&& forall|j: int|
                                0 <= j < k ==> tray.action_of(#[trigger] rest[j]) is None
                            &&& tray.polled(rest).1 == rest.skip(k + 1)
                        };
                    assert(queue[k + 1] == rest[k]);
                    assert(rest.skip(k + 1) =~= queue.skip(k + 2));
                    assert forall|j: int| 0 <= j < k + 1 implies tray.action_of(
                        #[trigger] queue[j],
                    ) is None by {
                        if j > 0 {
                            assert(rest[j - 1] == queue[j]);
                        }
                    }
                },
                None => {
                    assert forall|j: int| 0 <= j < queue.len() implies tray.action_of(
                        #[trigger] queue[j],
                    ) is None by {
                        if j > 0 {
                            assert(rest[j - 1] == queue[j]);
                        }
                    }
                },
            }
        }
    }
}

/// Wanting the panel any number of times is wanting it once: a batch of pointer
/// events asks for what its parts ask for, and asking again adds nothing.
pub proof fn wanting_the_panel_twice_is_wanting_it_once(
    first: Seq<IconEvent>,
    second: Seq<IconEvent>,
)
    ensures
        icon_request(first + second) == (if icon_request(first) is Some {
            icon_request(first)
        } else {
            icon_request(second)
        }),
{
    let both = first + second;
    if icon_request(first) is Some {
        let k = choose|k: int| 0 <= k < first.len() && opens_panel(#[trigger] first[k]);
        assert(both[k] == first[k]);
    } else if icon_request(second) is Some {
        let k = choose|k: int| 0 <= k < second.len() && opens_panel(#[trigger] second[k]);
        assert(both[first.len() + k] == second[k]);
    } else {
        assert forall|k: int| 0 <= k < both.len() implies !opens_panel(#[trigger] both[k]) by {
            if k < first.len() {
                assert(both[k] == first[k]);
            } else {
                assert(both[k] == second[k - first.len()]);
            }
        }
    }
}

/// Rescanning is the last row of the preset submenu, below a separator, and
/// above that is one row per preset or the placeholder.
pub proof fn rescan_is_pinned_below_the_presets(count: nat)
    ensures
        preset_rows(count).len() == (if count == 0 {
            3
        } else {
            count + 2
        }),
        preset_rows(count).last() == PresetRow::Rescan,
        preset_rows(count)[preset_rows(count).len() - 2] == PresetRow::Separator,
        count == 0 ==> preset_rows(count)[0] == PresetRow::Placeholder,
        forall|i: int| 0 <= i < count ==> preset_rows(count)[i] == PresetRow::Preset(i as usize),
{
}

// ---------------------------------------------------------------------------
// What each change comes to

/// Whether `index` says which preset each entry of a list stands for: in order,
/// every preset whose row the system's menu took, once each.
pub open spec fn lists(
    items: Seq<PresetItemView>,
    index: Seq<int>,
    presets: Seq<PresetView>,
    rows: Seq<Option<u64>>,
) -> bool {
    &&& index.len() == items.len()
    &&& forall|i: int, j: int| 0 <= i < j < index.len() ==> index[i] < index[j]
    &&& forall|i: int|
        0 <= i < index.len() ==> {
            let k = #[trigger] index[i];
            &&& 0 <= k < presets.len()
            &&& k < rows.len()
            &&& rows[k] == Some(items[i].id)
            &&& items[i].path == presets[k].path
            &&& items[i].label == presets[k].label()
        }
    &&& forall|k: int|
        0 <= k < presets.len() && k < rows.len() && (#[trigger] rows[k]) is Some ==> index.contains(
            k,
        )
}

proof fn a_list_has_an_index(presets: Seq<PresetView>, rows: Seq<Option<u64>>) -> (index: Seq<int>)
    ensures
        lists(preset_items_for(presets, rows), index, presets, rows),
        forall|i: int|
            0 <= i < preset_items_for(presets, rows).len() ==> !(#[trigger] preset_items_for(
                presets,
                rows,
            )[i]).checked,
    decreases presets.len(),
{
    let items = preset_items_for(presets, rows);
    if presets.len() == 0 {
        Seq::empty()
    } else {
        let fewer = presets.drop_last();
        let before = preset_items_for(fewer, rows);
        let index = a_list_has_an_index(fewer, rows);
        let last = presets.len() - 1;
        if row_id(rows, last) is Some {
            let now = index.push(last);
            assert forall|k: int|
                0 <= k < presets.len() && k < rows.len() && (
                #[trigger] rows[k]) is Some implies now.contains(k) by {
                if k < last {
                    let at = index.index_of(k);
                    assert(index.contains(k));
                    assert(now[at] == k);
                } else {
                    assert(now[now.len() - 1] == k);
                }
            }
            assert forall|i: int| 0 <= i < now.len() implies {
                let k = #[trigger] now[i];
                &&& 0 <= k < presets.len()
                &&& k < rows.len()
                &&& rows[k] == Some(items[i].id)
                &&& items[i].path == presets[k].path
                &&& items[i].label == presets[k].label()
            } by {
                if i < index.len() {
                    assert(now[i] == index[i]);
                    assert(items[i] == before[i]);
                    assert(fewer[index[i]] == presets[index[i]]);
                }
            }
            assert forall|i: int| 0 <= i < items.len() implies !(#[trigger] items[i]).checked by {
                if i < before.len() {
                    assert(items[i] == before[i]);
                }
            }
            now
        } else {
            assert(items == before);
            assert forall|k: int|
                0 <= k < presets.len() && k < rows.len() && (
                #[trigger] rows[k]) is Some implies index.contains(k) by {
                assert(k < last);
            }
            assert forall|i: int| 0 <= i < index.len() implies {
                let k = #[trigger] index[i];
                &&& 0 <= k < presets.len()
                &&& k < rows.len()
                &&& rows[k] == Some(items[i].id)
                &&& items[i].path == presets[k].path
                &&& items[i].label == presets[k].label()
            } by {
                assert(fewer[index[i]] == presets[index[i]]);
            }
            index
        }
    }
}

/// The list holds exactly the presets whose rows the system's menu took, in the
/// library's order, under their own ids, paths and labels, none of them ticked;
/// nothing but the list changes.
pub proof fn the_list_holds_the_library(
    tray: TrayView,
    lang: Lang,
    presets: Seq<PresetView>,
    rows: Seq<Option<u64>>,
)
    ensures
        ({
            let listed = tray.with_presets(lang, presets, rows);
            &&& exists|index: Seq<int>| #[trigger] lists(listed.preset_items, index, presets, rows)
            &&& forall|i: int|
                0 <= i < listed.preset_items.len() ==> !(#[trigger] listed.preset_items[i]).checked
            &&& presets.len() > 0 ==> listed.preset_empty is None
            &&& presets.len() == 0 ==> listed.preset_items.len() == 0
            &&& listed.preset_empty matches Some(item) ==> item.text
                == lang.strings().tray.no_presets
            &&& listed == (TrayView {
                preset_items: listed.preset_items,
                preset_empty: listed.preset_empty,
                ..tray
            })
        }),
{
    let index = a_list_has_an_index(presets, rows);
    assert(lists(tray.with_presets(lang, presets, rows).preset_items, index, presets, rows));
}

/// Each change to the tray changes what it says and leaves the rest alone. The
/// route entry follows the driver and the route.
pub proof fn each_change_leaves_the_rest_alone(
    tray: TrayView,
    lang: Lang,
    on: bool,
    active: Option<PresetId>,
    tooltip: Seq<char>,
)
    ensures
        tray.with_enabled(on) == (TrayView {
            fixed: FixedItems {
                enabled: Item { checked: on, ..tray.fixed.enabled },
                ..tray.fixed
            },
            ..tray
        }),
        tray.with_autostart(on) == (TrayView {
            fixed: FixedItems {
                autostart: Item { checked: on, ..tray.fixed.autostart },
                ..tray.fixed
            },
            ..tray
        }),
        tray.with_tooltip(tooltip) == (TrayView { tooltip, ..tray }),
        tray.with_active(active) == (TrayView {
            preset_items: tray.with_active(active).preset_items,
            ..tray
        }),
        tray.with_routed(lang, on) == (TrayView {
            routed: on,
            route_item: Item {
                text: if on {
                    lang.strings().tray.route_through_done
                } else {
                    lang.strings().tray.route_through
                },
                enabled: tray.driver_present && !on,
                checked: on,
            },
            ..tray
        }),
        tray.with_driver(lang, on) == (TrayView {
            driver_present: on,
            fixed: FixedItems {
                install: Item { enabled: !on, ..tray.fixed.install },
                remove: Item { enabled: on, ..tray.fixed.remove },
                ..tray.fixed
            },
            route_item: Item {
                text: if tray.routed {
                    lang.strings().tray.route_through_done
                } else {
                    lang.strings().tray.route_through
                },
                enabled: on && !tray.routed,
                checked: tray.routed,
            },
            ..tray
        }),
{
}

/// Ticking a preset ticks it and no other, in a list of the same entries.
pub proof fn ticking_keeps_the_list(tray: TrayView, active: Option<PresetId>)
    ensures
        ({
            let now = tray.with_active(active).preset_items;
            &&& now.len() == tray.preset_items.len()
            &&& forall|i: int|
                0 <= i < now.len() ==> (#[trigger] now[i]) == (PresetItemView {
                    checked: active == Some(tray.preset_items[i].path),
                    ..tray.preset_items[i]
                })
        }),
{
}

/// A new language rewrites every label of the menu and nothing else.
pub proof fn a_new_language_rewrites_every_label(tray: TrayView, lang: Lang)
    ensures
        ({
            let text = lang.strings().tray;
            tray.retitled(lang) == (TrayView {
                fixed: FixedItems {
                    open: Item { text: text.panel, ..tray.fixed.open },
                    enabled: Item { text: text.enabled, ..tray.fixed.enabled },
                    presets: text.presets,
                    rescan: Item { text: text.rescan, ..tray.fixed.rescan },
                    autostart: Item { text: text.autostart, ..tray.fixed.autostart },
                    language: text.language,
                    install: Item { text: text.install_driver, ..tray.fixed.install },
                    remove: Item { text: text.remove_driver, ..tray.fixed.remove },
                    quit: Item { text: text.quit, ..tray.fixed.quit },
                },
                route_item: Item {
                    text: if tray.routed {
                        text.route_through_done
                    } else {
                        text.route_through
                    },
                    enabled: tray.driver_present && !tray.routed,
                    checked: tray.routed,
                },
                preset_empty: if tray.preset_empty is Some {
                    Some(Item { text: text.no_presets, ..tray.preset_empty->0 })
                } else {
                    None
                },
                ..tray
            })
        }),
{
}

/// A menu that is built shows what it was given: processing, running at logon
/// and the driver as they are, the output not routed yet, and every entry that
/// is always of use ready to be chosen.
pub proof fn a_built_menu_shows_what_it_was_given(
    lang: Lang,
    presets: Seq<PresetView>,
    enabled: bool,
    autostart: bool,
    driver_present: bool,
    ids: MenuIds,
    rows: Seq<Option<u64>>,
)
    ensures
        ({
            let text = lang.strings().tray;
            let tray = TrayView::built(
                lang,
                presets,
                enabled,
                autostart,
                driver_present,
                ids,
                rows,
            );
            &&& tray.fixed == (FixedItems {
                open: Item { text: text.panel, enabled: true, checked: false },
                enabled: Item { text: text.enabled, enabled: true, checked: enabled },
                presets: text.presets,
                rescan: Item { text: text.rescan, enabled: true, checked: false },
                autostart: Item { text: text.autostart, enabled: true, checked: autostart },
                language: text.language,
                install: Item {
                    text: text.install_driver,
                    enabled: !driver_present,
                    checked: false,
                },
                remove: Item { text: text.remove_driver, enabled: driver_present, checked: false },
                quit: Item { text: text.quit, enabled: true, checked: false },
            })
            &&& tray.route_item == (Item {
                text: text.route_through,
                enabled: driver_present,
                checked: false,
            })
            &&& tray.driver_present == driver_present
            &&& !tray.routed
            &&& tray.tooltip == "FxMini"@
            &&& exists|index: Seq<int>| #[trigger] lists(tray.preset_items, index, presets, rows)
            &&& tray.actions == fixed_actions(ids)
        }),
{
    let tray = TrayView::built(lang, presets, enabled, autostart, driver_present, ids, rows);
    let index = a_list_has_an_index(presets, rows);
    assert(lists(tray.preset_items, index, presets, rows));
}

/// Building the menu fails exactly when the system could not, with its reason.
pub proof fn building_fails_with_the_system(
    lang: Lang,
    presets: Vec<PresetEntry>,
    flags: (bool, bool, bool),
    menu: Result<MenuIds, String>,
    rows: Vec<Option<u64>>,
    r: Result<Tray, String>,
)
    requires
        call_ensures(Tray::new, (lang, &presets, flags.0, flags.1, flags.2, menu, &rows), r),
    ensures
        r is Ok <==> menu is Ok,
        menu matches Err(error) ==> r->Err_0 == error,
{
}

/// Nothing but the entries there are asks for anything.
pub proof fn only_entries_ask_for_something(tray: TrayView, ids: MenuIds, id: u64)
    requires
        tray.actions == fixed_actions(ids),
        !ids.in_order().contains(Some(id)),
        forall|i: int|
            0 <= i < tray.preset_items.len() ==> (#[trigger] tray.preset_items[i]).id != id,
    ensures
        tray.action_of(id) is None,
{
    let all = ids.in_order();
    assert(all[0] == Some(ids.open) && all[1] == Some(ids.enabled) && all[2] == Some(ids.route));
    assert(all[3] == Some(ids.rescan) && all[4] == Some(ids.autostart));
    assert(all[5] == Some(ids.install) && all[6] == Some(ids.remove) && all[7] == Some(ids.quit));
    assert(all[8] == row_id(ids.languages@, 0) && all[9] == row_id(ids.languages@, 1));
    an_id_found_is_an_id_listed(tray.preset_items, id);
}

/// An id asks for what its entry asks for: the fixed entries come first, then
/// the presets in order.
pub proof fn an_id_asks_for_what_its_entry_asks_for(tray: TrayView, id: u64, i: int)
    ensures
        tray.actions.contains_key(id) ==> tray.action_of(id) == Some(tray.actions[id]),
        !tray.actions.contains_key(id) && 0 <= i < tray.preset_items.len()
            && tray.preset_items[i].id == id && (forall|k: int|
            0 <= k < i ==> (#[trigger] tray.preset_items[k]).id != id) ==> tray.action_of(id) == Some(
            TrayAction::SelectPreset(tray.preset_items[i].path),
        ),
{
    if 0 <= i < tray.preset_items.len() && tray.preset_items[i].id == id && (forall|k: int|
        0 <= k < i ==> (#[trigger] tray.preset_items[k]).id != id) {
        the_first_match_is_found(tray.preset_items, id, i);
    }
}

proof fn the_first_match_is_found(items: Seq<PresetItemView>, id: u64, i: int)
    requires
        0 <= i < items.len(),
        items[i].id == id,
        forall|k: int| 0 <= k < i ==> (#[trigger] items[k]).id != id,
    ensures
        preset_with_id(items, id) == Some(items[i].path),
    decreases i,
{
    if i > 0 {
        let rest = items.drop_first();
        assert(items[0].id != id);
        assert(rest[i - 1] == items[i]);
        assert forall|k: int| 0 <= k < i - 1 implies (#[trigger] rest[k]).id != id by {
            assert(rest[k] == items[k + 1]);
        }
        the_first_match_is_found(rest, id, i - 1);
    }
}

/// The panel is asked for exactly when the left button came up on the icon, or
/// was clicked twice on it; looking at the icon's events uses them up.
pub proof fn a_left_click_asks_for_the_panel(
    tray: Tray,
    events: &mut Vec<IconEvent>,
    r: Option<TrayAction>,
)
    requires
        call_ensures(Tray::poll_icon, (&tray, events), r),
    ensures
        final(events)@.len() == 0,
        r is Some ==> r == Some(TrayAction::OpenPanel),
        r is Some <==> (old(events)@.contains(
            (IconEvent::Click { button: MouseButton::Left, state: ButtonState::Up }),
        ) || old(events)@.contains((IconEvent::DoubleClick { button: MouseButton::Left }))),
{
    let seen = old(events)@;
    let click = IconEvent::Click { button: MouseButton::Left, state: ButtonState::Up };
    let twice = IconEvent::DoubleClick { button: MouseButton::Left };
    if seen.contains(click) {
        let k = seen.index_of(click);
        assert(opens_panel(seen[k]));
    }
    if seen.contains(twice) {
        let k = seen.index_of(twice);
        assert(opens_panel(seen[k]));
    }
    if r is Some {
        let k = choose|k: int| 0 <= k < seen.len() && opens_panel(#[trigger] seen[k]);
        assert(seen[k] == click || seen[k] == twice);
    }
}

/// Polling the menu gives the first request there is, and uses the queue up to
/// and including it.
pub proof fn polling_uses_up_what_it_read(
    tray: Tray,
    queue: &mut VecDeque<u64>,
    r: Option<TrayAction>,
    i: int,
)
    requires
        call_ensures(Tray::poll, (&tray, queue), r),
        0 <= i <= old(queue)@.len(),
        forall|k: int| 0 <= k < i ==> tray@.action_of(#[trigger] old(queue)@[k]) is None,
        i < old(queue)@.len() ==> tray@.action_of(old(queue)@[i]) is Some,
    ensures
        i < old(queue)@.len() ==> r == tray@.action_of(old(queue)@[i]) && final(queue)@ == old(
            queue,
        )@.skip(i + 1),
        i == old(queue)@.len() ==> r is None && final(queue)@.len() == 0,
{
    let queued = old(queue)@;
    polling_takes_the_first_known_event(tray@, queued);
    if tray@.polled(queued).0 is Some {
        let k = choose|k: int|
            {
                &&& 0 <= k < queued.len()
                &&& tray@.action_of(#[trigger] queued[k]) == tray@.polled(queued).0
                &&& forall|j: int| 0 <= j < k ==> tray@.action_of(#[trigger] queued[j]) is None
                &&& tray@.polled(queued).1 == queued.skip(k + 1)
            };
        assert(k == i);
    } else if i < queued.len() {
        assert(tray@.action_of(queued[i]) is None);
    }
}

/// The menu opens with the panel and closes with quitting, and between them
/// stand what it is doing, the settings, and maintenance, a line between each
/// two groups; every entry stands in it once.
pub proof fn the_menu_is_grouped(rows: Vec<MenuRow>)
    requires
        call_ensures(menu_layout, (), rows),
    ensures
        rows@ == seq![MenuRow::Open] + seq![MenuRow::Separator] + seq![
            MenuRow::Enabled,
            MenuRow::Route,
            MenuRow::Presets,
        ] + seq![MenuRow::Separator] + seq![MenuRow::Autostart, MenuRow::Language] + seq![
            MenuRow::Separator,
        ] + seq![MenuRow::Install, MenuRow::Remove] + seq![MenuRow::Separator] + seq![MenuRow::Quit],
{
}

/// The language in use is ticked when the menu is built, and no other, and every
/// language goes by its own name.
pub proof fn the_language_in_use_is_ticked(current: Lang, r: Vec<LanguageEntry>)
    requires
        call_ensures(language_layout, (current,), r),
    ensures
        r.len() == 2,
        r[0].lang == Lang::Zh && r[0].label@ == "中文"@,
        r[1].lang == Lang::En && r[1].label@ == "English"@,
        r[0].checked == (current == Lang::Zh),
        r[1].checked == (current == Lang::En),
{
}

/// The preset submenu lists the presets by their places, or the word that there
/// are none, and then a line and rescanning.
pub proof fn the_preset_submenu_is_complete(count: usize, r: Vec<PresetRow>)
    requires
        call_ensures(preset_layout, (count,), r),
    ensures
        r.len() == (if count == 0 { 1 } else { count as int }) + 2,
        count == 0 ==> r[0] == PresetRow::Placeholder,
        forall|i: int| 0 <= i < count ==> (#[trigger] r[i]) == PresetRow::Preset(i as usize),
        r[r.len() - 2] == PresetRow::Separator,
        r[r.len() - 1] == PresetRow::Rescan,
{
}

/// The tray as values is the tray.
pub proof fn the_tray_is_seen_as_it_is(tray: Tray, i: int)
    ensures
        tray@.fixed == tray.fixed,
        tray@.route_item == tray.route_item,
        tray@.preset_items.len() == tray.preset_items.len(),
        0 <= i < tray.preset_items.len() ==> {
            let (seen, item) = (tray@.preset_items[i], tray.preset_items[i]);
            &&& seen.id == item.id
            &&& seen.path == item.path
            &&& seen.label == item.label@
            &&& seen.checked == item.checked
        },
        tray@.preset_empty == tray.preset_empty,
        tray@.actions == tray.actions@,
        tray@.routed == tray.routed,
        tray@.driver_present == tray.driver_present,
        tray@.tooltip == tray.tooltip@,
{
}

} // verus!
