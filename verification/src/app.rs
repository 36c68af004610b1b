//! Application wiring: the tray, the engine, and the state that connects them.
//!
//! [`App`] decides; it does nothing to the outside itself. Each [`Event`] is
//! something that was observed, and the answer to it is a list of [`Effect`]s,
//! to be carried out in order. An effect that finds something out is followed by
//! its event, and what that event answers is carried out before the next effect
//! of the list.
use crate::config::{Config, ConfigView};
use crate::i18n::{self, CurrentLang, Lang, TrayText};
use crate::preset::{
    active_name, active_name_of, choose_start_preset, duplicate_all, library, same_choice,
    start_preset, string_of, PresetEntry, PresetId, PresetView,
};
use crate::engine::text_or_none;
use crate::ui::panel::{self, PanelGate};
use crate::ui::tray::{
    fixed_actions, icon_request, preset_items_for, FixedItems, IconEvent, Item, MenuIds,
    PresetItemView, Tray, TrayAction, TrayView,
};
use std::collections::VecDeque;
use vstd::prelude::*;

verus! {

broadcast use vstd::string::group_string_axioms;

/// How often the tooltip and the driver menu are refreshed, in nanoseconds.
pub const REFRESH_INTERVAL: u128 = 1_000_000_000;

/// A change to the virtual sound card, which needs elevation.
#[derive(Debug, Clone, Copy, PartialEq, Eq, Structural)]
pub enum DriverTask {
    Install,
    Remove,
}

/// Something to do outside.
#[derive(Debug, Clone, Copy, PartialEq, Eq, Structural)]
pub enum Effect {
    /// Write the config file, warning rather than failing when it is not
    /// writable.
    SaveConfig,
    /// Switch processing on or off in the engine.
    SetEnabled(bool),
    /// Look at the engine: [`Event::EngineSeen`].
    Refresh,
    /// Scan the preset folder: [`Event::LibraryRead`].
    ReadLibrary,
    /// Look whether the virtual card is there: [`Event::CardSeen`].
    LookForCard,
    /// Point the system's default output at the virtual card:
    /// [`Event::RoutingTried`].
    EngageRouting,
    /// Look where the output goes: [`Event::RouteSeen`].
    LookAtRoute,
    /// Read a preset file: [`Event::PresetRead`].
    ReadPreset(PresetId),
    /// Load the preset that was read into the engine.
    LoadPreset(PresetId),
    /// Publish the active preset, so that an open panel follows.
    PublishPreset(PresetId),
    /// Look whether the application runs at logon: [`Event::AutostartSeen`].
    LookAtAutostart,
    /// Make the application run at logon, or not: [`Event::AutostartApplied`].
    ApplyAutostart(bool),
    /// Open the tuning panel, or focus the one there is:
    /// [`App::open_panel_now`].
    OpenPanel,
    /// Look whether this process is elevated: [`Event::ElevationSeen`].
    LookAtElevation(DriverTask),
    /// Change the virtual card here and now.
    RunDriverTask(DriverTask),
    /// Ask for elevation and run this executable again to change the card.
    RelaunchElevated(DriverTask),
    /// Stop the engine.
    StopEngine,
    /// Hand the default output back: [`Event::RoutingReleased`].
    ReleaseRouting,
    /// Leave the event loop.
    Exit,
}

/// What asking for the tuning panel comes to.
#[derive(Debug)]
pub enum PanelRequest {
    /// Hand a request for a window to the panel thread, and tell
    /// [`panel::handed_over`] what came of it. The window starts with these
    /// presets.
    Open { presets: Vec<PresetEntry> },
    /// A window exists: bring it to the front.
    Focus,
}

/// What came of pointing the default output at the virtual card.
#[derive(Debug)]
pub enum EngageOutcome {
    /// It was switched, and this is the device it displaced.
    Engaged { previous: Option<String> },
    AlreadyRouted,
    NoVirtualCard,
    Failed,
}

/// Something that was observed.
#[derive(Debug)]
pub enum Event {
    /// The user asked for something through the tray.
    Chosen(TrayAction),
    /// The engine: whether processing is on, the active preset, and the count of
    /// saves that have ended.
    EngineSeen { enabled: bool, selected: Option<PresetId>, revision: u64 },
    /// The preset folder was scanned, and the system's menu took its rows.
    LibraryRead { presets: Vec<PresetEntry>, rows: Vec<Option<u64>> },
    /// Whether the engine or the system sees the virtual card, whether
    /// processing is on, and whether the output was taken over.
    CardSeen { engine_sees: bool, system_sees: bool, enabled: bool, engaged: bool },
    RoutingTried(EngageOutcome),
    /// Whether the output goes through the card, whether processing is on and
    /// running, and the engine's last error.
    RouteSeen { routed: bool, enabled: bool, running: bool, error: Option<String> },
    PresetRead { path: PresetId, readable: bool },
    AutostartSeen { on: bool },
    /// The state the machine is in after the attempt, read back from it.
    AutostartApplied { on: bool },
    ElevationSeen { task: DriverTask, elevated: bool },
    /// Whether the default output was handed back.
    RoutingReleased { restored: bool },
}

impl Effect {
    /// How many answers, one to another, an effect can lead to at most.
    pub open spec fn rank(self) -> nat {
        match self {
            Effect::LookAtElevation(_) => 4,
            Effect::Refresh => 3,
            Effect::LookForCard | Effect::LookAtAutostart => 2,
            Effect::ReadLibrary
            | Effect::EngageRouting
            | Effect::LookAtRoute
            | Effect::ReadPreset(_)
            | Effect::ApplyAutostart(_)
            | Effect::ReleaseRouting => 1,
            _ => 0,
        }
    }
}

impl Event {
    /// Whether this event is what carrying out `effect` can find out.
    pub open spec fn answers(self, effect: Effect) -> bool {
        match effect {
            Effect::Refresh => self is EngineSeen,
            Effect::ReadLibrary => self is LibraryRead,
            Effect::LookForCard => self is CardSeen,
            Effect::EngageRouting => self is RoutingTried,
            Effect::LookAtRoute => self is RouteSeen,
            Effect::ReadPreset(path) => self matches Event::PresetRead { path: read, .. } && read
                == path,
            Effect::LookAtAutostart => self is AutostartSeen,
            Effect::ApplyAutostart(_) => self is AutostartApplied,
            Effect::LookAtElevation(task) => self matches Event::ElevationSeen { task: asked, .. }
                && asked == task,
            Effect::ReleaseRouting => self is RoutingReleased,
            _ => false,
        }
    }
}

/// The running application.
pub struct App {
    pub config: Config,
    pub tray: Tray,
    pub presets: Vec<PresetEntry>,
    pub active_preset: Option<PresetId>,
    /// Whether a takeover has already been attempted for the virtual card's
    /// current appearance.
    pub routing_attempted: bool,
    /// The preset-folder revision already reacted to.
    pub seen_presets_revision: u64,
    pub language: CurrentLang,
}

/// The application, as values.
#[verifier::ext_equal]
pub struct AppView {
    pub config: ConfigView,
    pub tray: TrayView,
    pub presets: Seq<PresetView>,
    pub active_preset: Option<PresetId>,
    pub routing_attempted: bool,
    pub seen_presets_revision: u64,
    pub lang: Lang,
}

impl View for App {
    type V = AppView;

    open spec fn view(&self) -> AppView {
        AppView {
            config: self.config@,
            tray: self.tray@,
            presets: library(self.presets@),
            active_preset: self.active_preset,
            routing_attempted: self.routing_attempted,
            seen_presets_revision: self.seen_presets_revision,
            lang: self.language.lang(),
        }
    }
}

/// Something to do before the application runs.
#[derive(Debug, Clone, Copy, PartialEq, Eq, Structural)]
pub enum StartEffect {
    /// Unpack the bundled presets, so that the first run already has a
    /// populated menu. That it failed is no reason to stop.
    UnpackPresets,
    /// Scan the preset folder.
    ReadLibrary,
    /// Give back what a run that was killed still owes, by the marker in the
    /// config.
    RecoverRouting,
    /// Point the system's default output at the virtual card. That it failed is
    /// no reason to stop.
    EngageRouting,
    /// Write the config file.
    SaveConfig,
    /// Start the audio engine: [`Startup::engine_started`].
    StartEngine,
    /// Switch processing on or off in the engine.
    SetEnabled(bool),
    /// Build the tray: [`App::start`].
    BuildTray,
    /// Hand the default output back.
    ReleaseRouting,
}

/// Why the application did not start, and what is left to do about it.
#[derive(Debug)]
pub struct StartFailure {
    pub message: String,
    pub effects: Vec<StartEffect>,
}

impl StartFailure {
    /// The failure with this message, after which the default output is handed
    /// back.
    pub open spec fn releases(self, message: Seq<char>) -> bool {
        &&& self.message@ == message
        &&& self.effects@ == seq![StartEffect::ReleaseRouting]
    }

    fn releasing(message: String) -> (r: Self)
        ensures
            r.releases(message@),
    {
        let effects = vec![StartEffect::ReleaseRouting];
        assert(effects@ =~= seq![StartEffect::ReleaseRouting]);
        StartFailure { message, effects }
    }
}

/// The application while it starts.
pub struct Startup {
    pub config: Config,
    pub language: CurrentLang,
}

/// What the user is told when the engine does not start.
pub open spec fn engine_failure(error: Seq<char>) -> Seq<char> {
    "could not start the audio engine: "@ + error
}

impl Startup {
    /// Begins. The language comes before the tray, because every one of its
    /// labels is drawn from the string table. Routing comes before the engine,
    /// because the engine's choice of a render endpoint depends on which device
    /// the takeover displaced.
    pub fn begin(config: Config, langid: u16) -> (r: (Self, Vec<StartEffect>))
        ensures
            r.0.config == config,
            r.0.language.lang() == i18n::resolved(config.language@, langid),
            r.1@ == seq![
                StartEffect::UnpackPresets,
                StartEffect::ReadLibrary,
                StartEffect::RecoverRouting,
            ] + (if config.take_over_default {
                seq![StartEffect::EngageRouting]
            } else {
                Seq::empty()
            }),
    {
        let lang = i18n::resolve(config.language.as_str(), langid);
        let mut language = CurrentLang::new();
        i18n::set(&mut language, lang);
        let mut effects = vec![
            StartEffect::UnpackPresets,
            StartEffect::ReadLibrary,
            StartEffect::RecoverRouting,
        ];
        if config.take_over_default {
            effects.push(StartEffect::EngageRouting);
        }
        (Startup { config, language }, effects)
    }

    /// Records the device that was displaced, if one was.
    ///
    /// Re-recorded at every start so that a crash always leaves a usable marker,
    /// and blanked when there is nothing to restore. The config file is the
    /// only record of where the output came from, so it is written before the
    /// engine starts.
    pub fn routed(&mut self, previous: Option<String>) -> (r: Vec<StartEffect>)
        ensures
            final(self).config@ == (ConfigView {
                previous_default_id: string_of(previous),
                ..old(self).config@
            }),
            final(self).language == old(self).language,
            r@ == seq![StartEffect::SaveConfig, StartEffect::StartEngine],
    {
        self.config.previous_default_id = previous;
        vec![StartEffect::SaveConfig, StartEffect::StartEngine]
    }

    /// The engine started, or did not. The remembered on/off state is pushed
    /// before anything reads it.
    pub fn engine_started(&self, outcome: Result<(), String>) -> (r: Result<
        Vec<StartEffect>,
        StartFailure,
    >)
        ensures
            match outcome {
                Ok(_) => r is Ok && r->Ok_0@ == seq![
                    StartEffect::SetEnabled(self.config.enabled),
                    StartEffect::BuildTray,
                ],
                Err(error) => r is Err && r->Err_0.releases(engine_failure(error@)),
            },
    {
        match outcome {
            Ok(_) => {
                let effects = vec![
                    StartEffect::SetEnabled(self.config.enabled),
                    StartEffect::BuildTray,
                ];
                Ok(effects)
            },
            Err(error) => {
                let mut message = "could not start the audio engine: ".to_owned();
                message.append(error.as_str());
                Err(StartFailure::releasing(message))
            },
        }
    }
}

/// One effect or none.
pub open spec fn when(condition: bool, effect: Effect) -> Seq<Effect> {
    if condition {
        seq![effect]
    } else {
        Seq::empty()
    }
}

impl AppView {
    /// The application as it starts, once the tray is there.
    pub open spec fn started(
        config: ConfigView,
        lang: Lang,
        presets: Seq<PresetView>,
        autostart: bool,
        endpoint_active: bool,
        ids: MenuIds,
        rows: Seq<Option<u64>>,
    ) -> AppView {
        AppView {
            config,
            tray: TrayView::built(
                lang,
                presets,
                config.enabled,
                autostart,
                endpoint_active,
                ids,
                rows,
            ),
            presets,
            active_preset: None,
            routing_attempted: config.take_over_default,
            seen_presets_revision: 0,
            lang,
        }
    }

    /// Processing was switched from the tray.
    pub open spec fn toggled_enabled(self) -> (AppView, Seq<Effect>) {
        let on = !self.config.enabled;
        (
            AppView {
                config: ConfigView { enabled: on, ..self.config },
                tray: self.tray.with_enabled(on),
                ..self
            },
            seq![Effect::SetEnabled(on), Effect::SaveConfig, Effect::Refresh],
        )
    }

    /// A language was chosen. Choosing the one there already is does nothing.
    pub open spec fn switched_language(self, lang: Lang) -> (AppView, Seq<Effect>) {
        if lang == self.lang {
            (self, Seq::empty())
        } else {
            (
                AppView {
                    lang,
                    tray: self.tray.retitled(lang),
                    config: ConfigView { language: lang.spelling(), ..self.config },
                    ..self
                },
                seq![Effect::SaveConfig, Effect::Refresh],
            )
        }
    }

    /// The user asked for the output to be routed.
    pub open spec fn routing_asked(self) -> (AppView, Seq<Effect>) {
        (
            AppView {
                config: ConfigView { take_over_default: true, ..self.config },
                routing_attempted: true,
                ..self
            },
            seq![Effect::EngageRouting, Effect::Refresh],
        )
    }

    /// The user asked for something through the tray.
    pub open spec fn chose(self, action: TrayAction) -> (AppView, Seq<Effect>) {
        match action {
            TrayAction::ToggleEnabled => self.toggled_enabled(),
            TrayAction::ToggleAutostart => (self, seq![Effect::LookAtAutostart]),
            TrayAction::SelectPreset(path) => (self, seq![Effect::ReadPreset(path)]),
            TrayAction::OpenPanel => (self, seq![Effect::OpenPanel]),
            TrayAction::InstallDriver => (
                self,
                seq![Effect::LookAtElevation(DriverTask::Install)],
            ),
            TrayAction::RemoveDriver => (self, seq![Effect::LookAtElevation(DriverTask::Remove)]),
            TrayAction::ReloadPresets => (self, seq![Effect::ReadLibrary]),
            TrayAction::RouteOutput => self.routing_asked(),
            TrayAction::SetLanguage(lang) => self.switched_language(lang),
            TrayAction::Quit => (self, seq![Effect::Exit]),
        }
    }

    /// Processing is on or off in the engine, whoever switched it.
    pub open spec fn followed_enabled(self, enabled: bool) -> AppView {
        if enabled == self.config.enabled {
            self
        } else {
            AppView {
                config: ConfigView { enabled, ..self.config },
                tray: self.tray.with_enabled(enabled),
                ..self
            }
        }
    }

    /// This is the active preset, whoever chose it.
    pub open spec fn followed_preset(self, selected: Option<PresetId>) -> AppView {
        if selected == self.active_preset {
            self
        } else {
            AppView {
                active_preset: selected,
                config: ConfigView { active_preset: selected, ..self.config },
                tray: self.tray.with_active(selected),
                ..self
            }
        }
    }

    /// The panel may have changed the selection; the config file and the tray
    /// follow.
    pub open spec fn reconciled(self, enabled: bool, selected: Option<PresetId>) -> (
        AppView,
        Seq<Effect>,
    ) {
        (
            self.followed_enabled(enabled).followed_preset(selected),
            when(enabled != self.config.enabled, Effect::SaveConfig) + when(
                selected != self.active_preset,
                Effect::SaveConfig,
            ),
        )
    }

    /// The engine was looked at. A save that ended since the last look means
    /// that the presets changed.
    pub open spec fn saw_engine(
        self,
        enabled: bool,
        selected: Option<PresetId>,
        revision: u64,
    ) -> (AppView, Seq<Effect>) {
        let (next, saves) = self.reconciled(enabled, selected);
        (
            AppView { seen_presets_revision: revision, ..next },
            saves + when(revision != self.seen_presets_revision, Effect::ReadLibrary)
                + seq![Effect::LookForCard],
        )
    }

    /// The preset folder was scanned.
    pub open spec fn reloaded(self, presets: Seq<PresetView>, rows: Seq<Option<u64>>) -> AppView {
        AppView {
            presets,
            tray: self.tray.with_presets(self.lang, presets, rows).with_active(self.active_preset),
            ..self
        }
    }

    /// Whether a card that is there is to be taken over now: once per
    /// appearance, where the config asks for it, while processing is on and
    /// the output has not been taken over.
    pub open spec fn takes_over(self, present: bool, enabled: bool, engaged: bool) -> bool {
        &&& present
        &&& self.config.take_over_default
        &&& enabled
        &&& !engaged
        &&& !self.routing_attempted
    }

    /// The virtual card was looked for. A card that went away may be taken over
    /// again when it comes back.
    pub open spec fn saw_card(self, present: bool, enabled: bool, engaged: bool) -> (
        AppView,
        Seq<Effect>,
    ) {
        let takes_over = self.takes_over(present, enabled, engaged);
        (
            AppView {
                tray: self.tray.with_driver(self.lang, present),
                routing_attempted: present && (self.routing_attempted || takes_over),
                ..self
            },
            when(takes_over, Effect::EngageRouting) + seq![Effect::LookAtRoute],
        )
    }

    /// A takeover was tried. One that succeeded leaves a marker of the device
    /// it displaced.
    pub open spec fn tried_routing(self, outcome: EngageOutcome) -> (AppView, Seq<Effect>) {
        match outcome {
            EngageOutcome::Engaged { previous } => (
                AppView {
                    config: ConfigView { previous_default_id: string_of(previous), ..self.config },
                    ..self
                },
                seq![Effect::SaveConfig],
            ),
            _ => (self, Seq::empty()),
        }
    }

    /// What the tooltip says.
    pub open spec fn tip(
        self,
        routed: bool,
        enabled: bool,
        running: bool,
        error: Option<Seq<char>>,
    ) -> Seq<char> {
        let text = self.lang.strings().tray;
        if !self.tray.driver_present {
            text.tooltip_no_card@
        } else if !enabled {
            text.tooltip_disabled@
        } else if running {
            text.playing(
                active_name_of(self.presets, self.active_preset),
                error,
                self.config.take_over_default && !routed,
            )
        } else {
            text.tooltip_idle@
        }
    }

    /// The route was looked at.
    pub open spec fn saw_route(
        self,
        routed: bool,
        enabled: bool,
        running: bool,
        error: Option<Seq<char>>,
    ) -> AppView {
        AppView {
            tray: self.tray.with_routed(self.lang, routed).with_tooltip(
                self.tip(routed, enabled, running, error),
            ),
            ..self
        }
    }

    /// A preset file was read, or could not be.
    pub open spec fn read_preset(self, path: PresetId, readable: bool) -> (AppView, Seq<Effect>) {
        if readable {
            (
                AppView {
                    active_preset: Some(path),
                    tray: self.tray.with_active(Some(path)),
                    config: ConfigView { active_preset: Some(path), ..self.config },
                    ..self
                },
                seq![Effect::LoadPreset(path), Effect::PublishPreset(path), Effect::SaveConfig],
            )
        } else {
            (self, Seq::empty())
        }
    }

    /// Running at logon was switched, and this is what came of it.
    pub open spec fn applied_autostart(self, on: bool) -> (AppView, Seq<Effect>) {
        (
            AppView {
                config: ConfigView { autostart: on, ..self.config },
                tray: self.tray.with_autostart(on),
                ..self
            },
            seq![Effect::SaveConfig],
        )
    }

    /// The default output was handed back, or could not be. The marker stays
    /// for as long as a device is owed its place.
    pub open spec fn released(self, restored: bool) -> (AppView, Seq<Effect>) {
        (
            AppView {
                config: ConfigView {
                    previous_default_id: if restored {
                        None
                    } else {
                        self.config.previous_default_id
                    },
                    ..self.config
                },
                ..self
            },
            seq![Effect::SaveConfig],
        )
    }

    /// What an event makes of the application, and what it asks for.
    pub open spec fn after(self, event: Event) -> (AppView, Seq<Effect>) {
        match event {
            Event::Chosen(action) => self.chose(action),
            Event::EngineSeen { enabled, selected, revision } => self.saw_engine(
                enabled,
                selected,
                revision,
            ),
            Event::LibraryRead { presets, rows } => (
                self.reloaded(library(presets@), rows@),
                Seq::empty(),
            ),
            Event::CardSeen { engine_sees, system_sees, enabled, engaged } => self.saw_card(
                engine_sees || system_sees,
                enabled,
                engaged,
            ),
            Event::RoutingTried(outcome) => self.tried_routing(outcome),
            Event::RouteSeen { routed, enabled, running, error } => (
                self.saw_route(routed, enabled, running, string_of(error)),
                Seq::empty(),
            ),
            Event::PresetRead { path, readable } => self.read_preset(path, readable),
            Event::AutostartSeen { on } => (self, seq![Effect::ApplyAutostart(!on)]),
            Event::AutostartApplied { on } => self.applied_autostart(on),
            Event::ElevationSeen { task, elevated } => (
                self,
                if elevated {
                    seq![Effect::RunDriverTask(task), Effect::Refresh]
                } else {
                    seq![Effect::RelaunchElevated(task)]
                },
            ),
            Event::RoutingReleased { restored } => self.released(restored),
        }
    }

    /// The request waiting in the queues: a menu choice, else a click on the
    /// icon.
    pub open spec fn pending(self, menu: Seq<u64>, icon: Seq<IconEvent>) -> Option<TrayAction> {
        if self.tray.polled(menu).0 is Some {
            self.tray.polled(menu).0
        } else {
            icon_request(icon)
        }
    }
}

/// What is done first: load the start preset, if there is one, and look at
/// everything.
pub open spec fn first_effects(preset: Option<PresetId>) -> Seq<Effect> {
    match preset {
        Some(path) => seq![Effect::ReadPreset(path), Effect::Refresh],
        None => seq![Effect::Refresh],
    }
}

impl App {
    /// The application, once the tray is built or failed to be.
    ///
    /// `remembered_is_file` says whether the preset in the config is still
    /// there, `autostart` whether the application runs at logon, and
    /// `endpoint_active` whether the virtual card is there.
    pub fn start(
        startup: Startup,
        presets: Vec<PresetEntry>,
        remembered_is_file: bool,
        autostart: bool,
        endpoint_active: bool,
        menu: Result<MenuIds, String>,
        rows: &Vec<Option<u64>>,
    ) -> (r: Result<(Self, Vec<Effect>), StartFailure>)
        ensures
            match menu {
                Ok(ids) => {
                    &&& r is Ok
                    &&& r->Ok_0.0@ == AppView::started(
                        startup.config@,
                        startup.language.lang(),
                        library(presets@),
                        autostart,
                        endpoint_active,
                        ids,
                        rows@,
                    )
                    &&& r->Ok_0.1@ == first_effects(
                        start_preset(
                            startup.config.active_preset,
                            remembered_is_file,
                            library(presets@),
                        ),
                    )
                },
                Err(error) => r is Err && r->Err_0.releases(error@),
            },
    {
        let active = choose_start_preset(startup.config.active_preset, remembered_is_file, &presets);
        let tray = match Tray::new(
            i18n::current(&startup.language),
            &presets,
            startup.config.enabled,
            autostart,
            endpoint_active,
            menu,
            rows,
        ) {
            Ok(tray) => tray,
            Err(message) => {
                return Err(StartFailure::releasing(message));
            },
        };
        let app = App {
            routing_attempted: startup.config.take_over_default,
            config: startup.config,
            tray,
            presets,
            active_preset: None,
            seen_presets_revision: 0,
            language: startup.language,
        };
        let effects = match active {
            Some(path) => vec![Effect::ReadPreset(path), Effect::Refresh],
            None => vec![Effect::Refresh],
        };
        Ok((app, effects))
    }

    /// Whether it is time to look at everything again.
    pub fn refresh_due(elapsed: u128) -> (r: bool)
        ensures
            r == (elapsed >= REFRESH_INTERVAL),
    {
        elapsed >= REFRESH_INTERVAL
    }

    /// Runs one pass of the event loop.
    ///
    /// The menu is asked first, then the icon's own clicks: a right-click emits
    /// a click event as well as opening the menu, and the menu event is the one
    /// that carries meaning. The icon's events are left where they are when the
    /// menu has a request.
    pub fn tick(&mut self, menu: &mut VecDeque<u64>, icon: &mut Vec<IconEvent>) -> (r: Vec<Effect>)
        ensures
            final(menu)@ == old(self)@.tray.polled(old(menu)@).1,
            final(icon)@ == (if old(self)@.tray.polled(old(menu)@).0 is Some {
                old(icon)@
            } else {
                Seq::empty()
            }),
            match old(self)@.pending(old(menu)@, old(icon)@) {
                Some(action) => (final(self)@, r@) == old(self)@.chose(action),
                None => final(self)@ == old(self)@ && r@.len() == 0,
            },
    {
        let action = match self.tray.poll(menu) {
            Some(action) => Some(action),
            None => {
                let request = self.tray.poll_icon(icon);
                assert(icon@ =~= Seq::empty());
                request
            },
        };
        match action {
            Some(action) => self.perform(action),
            None => Vec::new(),
        }
    }

    /// Takes an event, and returns what to do about it, in order.
    pub fn step(&mut self, event: Event) -> (r: Vec<Effect>)
        ensures
            (final(self)@, r@) == old(self)@.after(event),
    {
        match event {
            Event::Chosen(action) => self.perform(action),
            Event::EngineSeen { enabled, selected, revision } => self.see_engine(
                enabled,
                selected,
                revision,
            ),
            Event::LibraryRead { presets, rows } => {
                self.reload_presets(presets, &rows);
                Vec::new()
            },
            Event::CardSeen { engine_sees, system_sees, enabled, engaged } => self.see_card(
                engine_sees || system_sees,
                enabled,
                engaged,
            ),
            Event::RoutingTried(outcome) => self.engage_routing(outcome),
            Event::RouteSeen { routed, enabled, running, error } => {
                self.see_route(routed, enabled, running, &error);
                Vec::new()
            },
            Event::PresetRead { path, readable } => self.activate_preset(path, readable),
            Event::AutostartSeen { on } => vec![Effect::ApplyAutostart(!on)],
            Event::AutostartApplied { on } => self.apply_autostart(on),
            Event::ElevationSeen { task, elevated } => if elevated {
                vec![Effect::RunDriverTask(task), Effect::Refresh]
            } else {
                vec![Effect::RelaunchElevated(task)]
            },
            Event::RoutingReleased { restored } => self.routing_released(restored),
        }
    }

    /// What shutting down takes: stop the engine, then hand the output device
    /// back.
    ///
    /// In that order, so that the moment the default output returns to the
    /// physical card there is no second copy of the audio still rendering into
    /// it, which would be audible as an echo.
    pub fn shutdown(&self) -> (r: Vec<Effect>)
        ensures
            r@ == seq![Effect::StopEngine, Effect::ReleaseRouting],
    {
        vec![Effect::StopEngine, Effect::ReleaseRouting]
    }

    /// Opens the tuning panel, as if the tray item had been clicked: reserves the
    /// window and gives what it starts with, or, where one exists, asks for that
    /// one to be focused.
    pub fn open_panel_now(&self, gate: &mut PanelGate) -> (r: PanelRequest)
        ensures
            final(gate).is_open(),
            match r {
                PanelRequest::Open { presets } => {
                    &&& !old(gate).is_open()
                    &&& library(presets@) == self@.presets
                },
                PanelRequest::Focus => old(gate).is_open(),
            },
    {
        if panel::spawn(gate) {
            PanelRequest::Open { presets: duplicate_all(&self.presets) }
        } else {
            PanelRequest::Focus
        }
    }

    fn perform(&mut self, action: TrayAction) -> (r: Vec<Effect>)
        ensures
            (final(self)@, r@) == old(self)@.chose(action),
    {
        match action {
            TrayAction::ToggleEnabled => self.toggle_enabled(),
            TrayAction::ToggleAutostart => vec![Effect::LookAtAutostart],
            TrayAction::SelectPreset(path) => vec![Effect::ReadPreset(path)],
            TrayAction::OpenPanel => vec![Effect::OpenPanel],
            TrayAction::InstallDriver => vec![Effect::LookAtElevation(DriverTask::Install)],
            TrayAction::RemoveDriver => vec![Effect::LookAtElevation(DriverTask::Remove)],
            TrayAction::ReloadPresets => vec![Effect::ReadLibrary],
            TrayAction::RouteOutput => self.route_output(),
            TrayAction::SetLanguage(lang) => self.set_language(lang),
            TrayAction::Quit => vec![Effect::Exit],
        }
    }

    fn toggle_enabled(&mut self) -> (r: Vec<Effect>)
        ensures
            (final(self)@, r@) == old(self)@.toggled_enabled(),
    {
        let on = !self.config.enabled;
        self.config.enabled = on;
        self.tray.set_enabled_checked(on);
        vec![Effect::SetEnabled(on), Effect::SaveConfig, Effect::Refresh]
    }

    /// Switches the interface language and relabels the tray menu in place.
    fn set_language(&mut self, lang: Lang) -> (r: Vec<Effect>)
        ensures
            (final(self)@, r@) == old(self)@.switched_language(lang),
    {
        if lang == i18n::current(&self.language) {
            return Vec::new();
        }
        i18n::set(&mut self.language, lang);
        self.tray.retitle(lang);
        // Recorded as an explicit choice, replacing "auto": a later change to
        // the system language should not undo it.
        self.config.language = lang.code().to_owned();
        vec![Effect::SaveConfig, Effect::Refresh]
    }

    /// The manual retry, for when the automatic switch was declined or when the
    /// user moved the output away and has changed their mind.
    fn route_output(&mut self) -> (r: Vec<Effect>)
        ensures
            (final(self)@, r@) == old(self)@.routing_asked(),
    {
        self.config.take_over_default = true;
        self.routing_attempted = true;
        vec![Effect::EngageRouting, Effect::Refresh]
    }

    /// Copies what the panel may have changed into the config and the tray.
    ///
    /// The panel writes straight to what it shares with the engine, so anything
    /// the tray *displays* is reconciled here instead of assumed to be in sync.
    fn reconcile_selection(&mut self, enabled: bool, selected: Option<PresetId>) -> (r: Vec<Effect>)
        ensures
            (final(self)@, r@) == old(self)@.reconciled(enabled, selected),
    {
        let mut effects: Vec<Effect> = Vec::new();
        if enabled != self.config.enabled {
            self.config.enabled = enabled;
            self.tray.set_enabled_checked(enabled);
            effects.push(Effect::SaveConfig);
        }
        assert(self@ == old(self)@.followed_enabled(enabled));
        if !same_choice(selected, self.active_preset) {
            self.active_preset = selected;
            self.tray.set_active_preset(selected);
            self.config.active_preset = selected;
            effects.push(Effect::SaveConfig);
        }
        assert(effects@ =~= old(self)@.reconciled(enabled, selected).1);
        effects
    }

    fn see_engine(&mut self, enabled: bool, selected: Option<PresetId>, revision: u64) -> (r: Vec<
        Effect,
    >)
        ensures
            (final(self)@, r@) == old(self)@.saw_engine(enabled, selected, revision),
    {
        let mut effects = self.reconcile_selection(enabled, selected);
        if revision != self.seen_presets_revision {
            self.seen_presets_revision = revision;
            effects.push(Effect::ReadLibrary);
        }
        effects.push(Effect::LookForCard);
        assert(effects@ =~= old(self)@.saw_engine(enabled, selected, revision).1);
        effects
    }

    fn reload_presets(&mut self, presets: Vec<PresetEntry>, rows: &Vec<Option<u64>>)
        ensures
            final(self)@ == old(self)@.reloaded(library(presets@), rows@),
    {
        let lang = i18n::current(&self.language);
        self.tray.set_presets(lang, &presets, rows);
        self.tray.set_active_preset(self.active_preset);
        self.presets = presets;
    }

    fn see_card(&mut self, present: bool, enabled: bool, engaged: bool) -> (r: Vec<Effect>)
        ensures
            (final(self)@, r@) == old(self)@.saw_card(present, enabled, engaged),
    {
        let lang = i18n::current(&self.language);
        let mut effects: Vec<Effect> = Vec::new();
        self.tray.set_driver_present(lang, present);
        if !present {
            self.routing_attempted = false;
        } else if self.config.take_over_default && enabled && !engaged && !self.routing_attempted {
            self.routing_attempted = true;
            effects.push(Effect::EngageRouting);
        }
        effects.push(Effect::LookAtRoute);
        assert(effects@ =~= old(self)@.saw_card(present, enabled, engaged).1);
        effects
    }

    fn engage_routing(&mut self, outcome: EngageOutcome) -> (r: Vec<Effect>)
        ensures
            (final(self)@, r@) == old(self)@.tried_routing(outcome),
    {
        match outcome {
            EngageOutcome::Engaged { previous } => {
                self.config.previous_default_id = previous;
                vec![Effect::SaveConfig]
            },
            _ => Vec::new(),
        }
    }

    /// What the tooltip says.
    fn tooltip(&self, routed: bool, enabled: bool, running: bool, error: &Option<String>) -> (r:
        String)
        ensures
            r@ == self@.tip(routed, enabled, running, string_of(*error)),
    {
        let text: &'static TrayText = &i18n::t(&self.language).tray;
        if !self.tray.driver_present {
            text.tooltip_no_card.to_owned()
        } else if !enabled {
            text.tooltip_disabled.to_owned()
        } else if running {
            // The distinction that matters to a user reporting "nothing
            // changed": audio is being processed, or the enhancer is bypassed.
            let route_lost = self.config.take_over_default && !routed;
            let name = self.active_name();
            text.tooltip_playing(text_or_none(&name), text_or_none(error), route_lost)
        } else {
            text.tooltip_idle.to_owned()
        }
    }

    fn see_route(&mut self, routed: bool, enabled: bool, running: bool, error: &Option<String>)
        ensures
            final(self)@ == old(self)@.saw_route(routed, enabled, running, string_of(*error)),
    {
        let tip = self.tooltip(routed, enabled, running, error);
        let lang = i18n::current(&self.language);
        self.tray.set_routed(lang, routed);
        self.tray.set_tooltip(tip.as_str());
    }

    /// The active preset's display name.
    fn active_name(&self) -> (r: Option<String>)
        ensures
            string_of(r) == active_name_of(self@.presets, self@.active_preset),
    {
        active_name(&self.presets, self.active_preset)
    }

    fn activate_preset(&mut self, path: PresetId, readable: bool) -> (r: Vec<Effect>)
        ensures
            (final(self)@, r@) == old(self)@.read_preset(path, readable),
    {
        if !readable {
            return Vec::new();
        }
        self.active_preset = Some(path);
        self.tray.set_active_preset(Some(path));
        self.config.active_preset = Some(path);
        vec![Effect::LoadPreset(path), Effect::PublishPreset(path), Effect::SaveConfig]
    }

    fn apply_autostart(&mut self, on: bool) -> (r: Vec<Effect>)
        ensures
            (final(self)@, r@) == old(self)@.applied_autostart(on),
    {
        self.config.autostart = on;
        self.tray.set_autostart_checked(on);
        vec![Effect::SaveConfig]
    }

    fn routing_released(&mut self, restored: bool) -> (r: Vec<Effect>)
        ensures
            (final(self)@, r@) == old(self)@.released(restored),
    {
        if restored {
            self.config.previous_default_id = None;
        }
        vec![Effect::SaveConfig]
    }
}

impl AppView {
    /// What the tray shows is what the application holds: every label is in the
    /// interface language and the entries agree with one another, processing is
    /// ticked when it is on, and the active preset is ticked and no other.
    pub open spec fn consistent(self) -> bool {
        &&& self.tray.in_step(self.lang)
        &&& self.tray.fixed.enabled.checked == self.config.enabled
        &&& forall|i: int|
            0 <= i < self.tray.preset_items.len() ==> ((#[trigger] self.tray.preset_items[i]).checked
                <==> self.active_preset == Some(self.tray.preset_items[i].path))
    }
}

proof fn freshly_listed_presets_are_not_ticked(presets: Seq<PresetView>, rows: Seq<Option<u64>>, i: int)
    requires
        0 <= i < preset_items_for(presets, rows).len(),
    ensures
        !preset_items_for(presets, rows)[i].checked,
    decreases presets.len(),
{
    if i < preset_items_for(presets.drop_last(), rows).len() {
        freshly_listed_presets_are_not_ticked(presets.drop_last(), rows, i);
    }
}

/// An application that starts shows what it holds.
pub proof fn the_tray_starts_truthful(
    config: ConfigView,
    lang: Lang,
    presets: Seq<PresetView>,
    autostart: bool,
    endpoint_active: bool,
    ids: MenuIds,
    rows: Seq<Option<u64>>,
)
    ensures
        AppView::started(
            config,
            lang,
            presets,
            autostart,
            endpoint_active,
            ids,
            rows,
        ).consistent(),
{
    let app = AppView::started(config, lang, presets, autostart, endpoint_active, ids, rows);
    assert(app.tray.preset_items == preset_items_for(presets, rows));
    assert forall|i: int| 0 <= i < app.tray.preset_items.len() implies !(
    #[trigger] app.tray.preset_items[i]).checked by {
        freshly_listed_presets_are_not_ticked(presets, rows, i);
    }
}

proof fn choices_keep_the_tray_truthful(app: AppView, action: TrayAction)
    requires
        app.consistent(),
    ensures
        app.chose(action).0.consistent(),
{
}

proof fn following_keeps_the_tray_truthful(app: AppView, enabled: bool, selected: Option<PresetId>)
    requires
        app.consistent(),
    ensures
        app.followed_enabled(enabled).consistent(),
        app.followed_preset(selected).consistent(),
{
}

proof fn reloading_keeps_the_tray_truthful(
    app: AppView,
    presets: Seq<PresetView>,
    rows: Seq<Option<u64>>,
)
    requires
        app.consistent(),
    ensures
        app.reloaded(presets, rows).consistent(),
{
}

proof fn reading_keeps_the_tray_truthful(app: AppView, path: PresetId, readable: bool)
    requires
        app.consistent(),
    ensures
        app.read_preset(path, readable).0.consistent(),
{
}

proof fn looking_keeps_the_tray_truthful(
    app: AppView,
    present: bool,
    enabled: bool,
    engaged: bool,
    running: bool,
    error: Option<Seq<char>>,
)
    requires
        app.consistent(),
    ensures
        app.saw_card(present, enabled, engaged).0.consistent(),
        app.saw_route(engaged, enabled, running, error).consistent(),
{
}

/// Whatever happens, the tray shows what the application holds.
pub proof fn the_tray_stays_truthful(app: AppView, event: Event)
    requires
        app.consistent(),
    ensures
        app.after(event).0.consistent(),
{
    match event {
        Event::Chosen(action) => {
            choices_keep_the_tray_truthful(app, action);
        },
        Event::EngineSeen { enabled, selected, .. } => {
            following_keeps_the_tray_truthful(app, enabled, selected);
            following_keeps_the_tray_truthful(app.followed_enabled(enabled), enabled, selected);
        },
        Event::LibraryRead { presets, rows } => {
            reloading_keeps_the_tray_truthful(app, library(presets@), rows@);
        },
        Event::CardSeen { engine_sees, system_sees, enabled, engaged } => {
            looking_keeps_the_tray_truthful(
                app,
                engine_sees || system_sees,
                enabled,
                engaged,
                false,
                None,
            );
        },
        Event::RouteSeen { routed, enabled, running, error } => {
            looking_keeps_the_tray_truthful(app, true, enabled, routed, running, string_of(error));
        },
        Event::PresetRead { path, readable } => {
            reading_keeps_the_tray_truthful(app, path, readable);
        },
        _ => {},
    }
}

/// What the panel changed is copied, and then there is nothing left to copy:
/// looking again at the same engine changes nothing and saves nothing.
pub proof fn reconciling_is_done_once(
    app: AppView,
    enabled: bool,
    selected: Option<PresetId>,
    revision: u64,
)
    ensures
        ({
            let next = app.saw_engine(enabled, selected, revision).0;
            &&& next.config.enabled == enabled
            &&& next.active_preset == selected
            &&& next.saw_engine(enabled, selected, revision) == (next, seq![Effect::LookForCard])
        }),
{
    let next = app.saw_engine(enabled, selected, revision).0;
    assert(next.saw_engine(enabled, selected, revision).1 =~= seq![Effect::LookForCard]);
}

/// The selection in the config follows the panel's choice as soon as it is
/// another one than the application knew.
pub proof fn a_choice_in_the_panel_is_remembered(
    app: AppView,
    enabled: bool,
    selected: Option<PresetId>,
    revision: u64,
)
    requires
        selected != app.active_preset,
    ensures
        app.saw_engine(enabled, selected, revision).0.config.active_preset == selected,
        app.saw_engine(enabled, selected, revision).1.contains(Effect::SaveConfig),
{
    let effects = app.saw_engine(enabled, selected, revision).1;
    if enabled != app.config.enabled {
        assert(effects[1] == Effect::SaveConfig);
    } else {
        assert(effects[0] == Effect::SaveConfig);
    }
}

/// A change made in the tray leaves nothing to reconcile, once the engine has
/// been told of it.
pub proof fn tray_changes_need_no_reconciling(app: AppView, path: PresetId)
    ensures
        ({
            let toggled = app.toggled_enabled().0;
            toggled.reconciled(toggled.config.enabled, toggled.active_preset) == (
                toggled,
                Seq::<Effect>::empty(),
            )
        }),
        app.toggled_enabled().1[0] == Effect::SetEnabled(app.toggled_enabled().0.config.enabled),
        ({
            let chosen = app.read_preset(path, true).0;
            chosen.reconciled(chosen.config.enabled, Some(path)) == (
                chosen,
                Seq::<Effect>::empty(),
            )
        }),
        app.read_preset(path, true).1[1] == Effect::PublishPreset(path),
{
    let toggled = app.toggled_enabled().0;
    assert(toggled.reconciled(toggled.config.enabled, toggled.active_preset).1 =~= Seq::<
        Effect,
    >::empty());
    let chosen = app.read_preset(path, true).0;
    assert(chosen.reconciled(chosen.config.enabled, Some(path)).1 =~= Seq::<Effect>::empty());
}

/// Switching processing twice restores the settings.
pub proof fn toggling_twice_restores(app: AppView)
    requires
        app.consistent(),
    ensures
        app.toggled_enabled().0.toggled_enabled().0 == app,
{
    let again = app.toggled_enabled().0.toggled_enabled().0;
    assert(again.tray =~= app.tray);
    assert(again =~= app);
}

/// A takeover is tried once for each appearance of the card: not again while
/// the card stays, whatever came of it, and again after it has been gone.
pub proof fn a_takeover_is_tried_once_per_appearance(
    app: AppView,
    first: (bool, bool),
    second: (bool, bool),
)
    requires
        app.saw_card(true, first.0, first.1).1.contains(Effect::EngageRouting),
    ensures
        ({
            let tried = app.saw_card(true, first.0, first.1).0;
            &&& tried.routing_attempted
            &&& tried.saw_card(true, second.0, second.1).0.routing_attempted
            &&& !tried.saw_card(true, second.0, second.1).1.contains(Effect::EngageRouting)
            &&& tried.saw_card(false, second.0, second.1).0.takes_over(true, true, false)
        }),
{
    let effects = app.saw_card(true, first.0, first.1).1;
    let i = effects.index_of(Effect::EngageRouting);
    assert(effects[i] == Effect::EngageRouting);
    assert(app.takes_over(true, first.0, first.1)) by {
        if !app.takes_over(true, first.0, first.1) {
            assert(effects =~= seq![Effect::LookAtRoute]);
        }
    }
    let tried = app.saw_card(true, first.0, first.1).0;
    assert(tried.saw_card(true, second.0, second.1).1 =~= seq![Effect::LookAtRoute]);
}

/// While the card stays, a takeover that was tried is not tried again by
/// anything but the user's own request.
pub proof fn only_the_user_retries_a_takeover(app: AppView, event: Event)
    requires
        app.routing_attempted,
        event matches Event::CardSeen { engine_sees, system_sees, .. } ==> engine_sees
            || system_sees,
        event != Event::Chosen(TrayAction::RouteOutput),
    ensures
        app.after(event).0.routing_attempted,
        !app.after(event).1.contains(Effect::EngageRouting),
{
    let effects = app.after(event).1;
    assert forall|i: int| 0 <= i < effects.len() implies #[trigger] effects[i]
        != Effect::EngageRouting by {}
}

/// Nothing but a request or an unused opportunity takes the output over: not
/// where the config does not ask for it, while processing is off, or after the
/// output has been taken over once, so that a change by hand stays.
pub proof fn a_change_by_hand_is_kept(app: AppView, present: bool, enabled: bool, engaged: bool)
    requires
        !app.config.take_over_default || !enabled || engaged || !present,
    ensures
        !app.saw_card(present, enabled, engaged).1.contains(Effect::EngageRouting),
{
    assert(app.saw_card(present, enabled, engaged).1 =~= seq![Effect::LookAtRoute]);
}

/// A takeover that succeeds leaves the displaced device as the marker, and saves
/// it. Nothing else changes the marker but handing the output back, so that
/// whenever the run is cut short the next start knows what to give back.
pub proof fn the_marker_stays_while_a_device_is_owed(
    app: AppView,
    event: Event,
    previous: Option<String>,
)
    ensures
        ({
            let taken = app.after(Event::RoutingTried(EngageOutcome::Engaged { previous }));
            &&& taken.0.config.previous_default_id == string_of(previous)
            &&& taken.1 == seq![Effect::SaveConfig]
        }),
        app.after(event).0.config.previous_default_id != app.config.previous_default_id ==> {
            ||| event matches Event::RoutingTried(outcome) && outcome is Engaged
            ||| event == (Event::RoutingReleased { restored: true })
        },
        app.released(false).0 == app,
        app.released(true).0.config.previous_default_id is None,
{
}

/// Settings that change are saved. The one exception is the request to route
/// the output, which is saved if the takeover succeeds.
pub proof fn changed_settings_are_saved(app: AppView, event: Event)
    requires
        event != Event::Chosen(TrayAction::RouteOutput),
        app.after(event).0.config != app.config,
    ensures
        app.after(event).1.contains(Effect::SaveConfig),
{
    let effects = app.after(event).1;
    match event {
        Event::Chosen(TrayAction::ToggleEnabled) => {
            assert(effects[1] == Effect::SaveConfig);
        },
        Event::Chosen(TrayAction::SetLanguage(_)) => {
            assert(effects[0] == Effect::SaveConfig);
        },
        Event::PresetRead { .. } => {
            assert(effects[2] == Effect::SaveConfig);
        },
        _ => {
            assert(effects[0] == Effect::SaveConfig);
        },
    }
}

/// Choosing the language there already is does nothing; choosing another takes
/// effect, and the next start comes up in it whatever the system's language is.
pub proof fn a_chosen_language_outlives_the_run(app: AppView, lang: Lang, langid: u16)
    ensures
        app.switched_language(app.lang) == (app, Seq::<Effect>::empty()),
        lang != app.lang ==> {
            &&& app.switched_language(lang).0.lang == lang
            &&& i18n::resolved(app.switched_language(lang).0.config.language, langid) == lang
        },
{
    i18n::config_spellings_round_trip(lang);
}

/// A preset that was loaded is the one the next start comes up with, for as
/// long as its file is there.
pub proof fn a_chosen_preset_outlives_the_run(
    app: AppView,
    path: PresetId,
    presets: Seq<PresetView>,
)
    ensures
        start_preset(app.read_preset(path, true).0.config.active_preset, true, presets) == Some(path),
{
}

/// Looking at everything a second time, and seeing the same, changes nothing:
/// nothing is saved and nothing is taken over.
pub proof fn a_second_look_changes_nothing(
    app: AppView,
    engine: (bool, Option<PresetId>, u64),
    card: (bool, bool),
    route: (bool, bool, Option<Seq<char>>),
)
    ensures
        ({
            let (enabled, selected, revision) = engine;
            let (present, engaged) = card;
            let (routed, running, error) = route;
            let once = app.saw_engine(enabled, selected, revision).0.saw_card(
                present,
                enabled,
                engaged,
            ).0.saw_route(routed, enabled, running, error);
            &&& once.saw_engine(enabled, selected, revision) == (once, seq![Effect::LookForCard])
            &&& once.saw_card(present, enabled, engaged) == (once, seq![Effect::LookAtRoute])
            &&& once.saw_route(routed, enabled, running, error) == once
        }),
{
    let (enabled, selected, revision) = engine;
    let (present, engaged) = card;
    let (routed, running, error) = route;
    let first = app.saw_engine(enabled, selected, revision).0;
    let second = first.saw_card(present, enabled, engaged).0;
    let once = second.saw_route(routed, enabled, running, error);
    assert(once.saw_engine(enabled, selected, revision).0 =~= once);
    assert(once.saw_engine(enabled, selected, revision).1 =~= seq![Effect::LookForCard]);
    let again = once.saw_card(present, enabled, engaged);
    assert(again.0.tray =~= once.tray);
    assert(again.0 =~= once);
    assert(again.1 =~= seq![Effect::LookAtRoute]);
    assert(once.saw_route(routed, enabled, running, error).tray =~= once.tray);
}

/// Carrying out what was asked for comes to an end: what an effect finds out is
/// only ever answered with effects of a lower rank.
pub proof fn carrying_out_ends(app: AppView, effect: Effect, event: Event, next: Effect)
    requires
        event.answers(effect),
        app.after(event).1.contains(next),
    ensures
        next.rank() < effect.rank(),
{
    let effects = app.after(event).1;
    let i = effects.index_of(next);
    assert(effects[i] == next);
}

/// A preset that cannot be read changes nothing.
pub proof fn an_unreadable_preset_changes_nothing(app: AppView, path: PresetId)
    ensures
        app.read_preset(path, false) == (app, Seq::<Effect>::empty()),
{
}

/// A menu choice is never shadowed by clicks on the icon.
pub proof fn the_menu_is_asked_first(app: AppView, menu: Seq<u64>, icon: Seq<IconEvent>)
    requires
        app.tray.polled(menu).0 is Some,
    ensures
        app.pending(menu, icon) == app.tray.polled(menu).0,
{
}

/// The tooltip of an enhancer that is bypassed differs from that of one that is
/// not: with the output elsewhere, the same state reads otherwise.
pub proof fn a_lost_route_is_told(app: AppView, error: Option<Seq<char>>)
    requires
        app.tray.driver_present,
        app.config.take_over_default,
    ensures
        app.tip(false, true, true, error) != app.tip(true, true, true, error),
{
    reveal_strlit(" — ");
    assert(app.tip(false, true, true, error).len() != app.tip(true, true, true, error).len());
}

// ---------------------------------------------------------------------------
// What each event comes to

/// A card that is there is taken over exactly when the config asks for it,
/// processing is on, the output has not been taken over and no takeover has been
/// tried for this appearance, whatever else the application holds. Either way the
/// route is looked at afterwards, a card that is gone may be tried again, and
/// nothing but the driver's own entries changes.
pub proof fn a_card_that_appears_is_taken_over(
    app: AppView,
    engine_sees: bool,
    system_sees: bool,
    enabled: bool,
    engaged: bool,
)
    ensures
        ({
            let present = engine_sees || system_sees;
            let wanted = present && app.config.take_over_default && enabled && !engaged
                && !app.routing_attempted;
            let (next, effects) = app.after(
                Event::CardSeen { engine_sees, system_sees, enabled, engaged },
            );
            &&& effects.contains(Effect::EngageRouting) <==> wanted
            &&& wanted ==> effects == seq![Effect::EngageRouting, Effect::LookAtRoute]
            &&& !wanted ==> effects == seq![Effect::LookAtRoute]
            &&& !present ==> !next.routing_attempted
            &&& wanted ==> next.routing_attempted
            &&& present && !wanted ==> next.routing_attempted == app.routing_attempted
            &&& next.tray.driver_present == present
            &&& next.tray.fixed.install.enabled == !present
            &&& next.tray.fixed.remove.enabled == present
            &&& next.tray.route_item.enabled == (present && !app.tray.routed)
            &&& next.tray.route_item.checked == app.tray.routed
            &&& next.tray == (TrayView {
                driver_present: present,
                route_item: next.tray.route_item,
                fixed: FixedItems {
                    install: Item { enabled: !present, ..app.tray.fixed.install },
                    remove: Item { enabled: present, ..app.tray.fixed.remove },
                    ..app.tray.fixed
                },
                ..app.tray
            })
            &&& next == (AppView {
                tray: next.tray,
                routing_attempted: next.routing_attempted,
                ..app
            })
        }),
{
    let present = engine_sees || system_sees;
    let wanted = present && app.config.take_over_default && enabled && !engaged
        && !app.routing_attempted;
    let (next, effects) = app.after(Event::CardSeen { engine_sees, system_sees, enabled, engaged });
    if wanted {
        assert(effects =~= seq![Effect::EngageRouting, Effect::LookAtRoute]);
        assert(effects[0] == Effect::EngageRouting);
    } else {
        assert(effects =~= seq![Effect::LookAtRoute]);
    }
}

/// A look at the engine rescans the presets exactly when the count of saves is
/// another one than was seen last, and writes the config exactly when processing
/// or the preset is another one than the application knew, once for each. The
/// card is looked for last, and nothing else is asked for.
pub proof fn a_look_at_the_engine_follows_it(
    app: AppView,
    enabled: bool,
    selected: Option<PresetId>,
    revision: u64,
)
    ensures
        ({
            let switched = enabled != app.config.enabled;
            let chosen = selected != app.active_preset;
            let saved = revision != app.seen_presets_revision;
            let (next, effects) = app.after(Event::EngineSeen { enabled, selected, revision });
            &&& effects.contains(Effect::ReadLibrary) <==> saved
            &&& effects.contains(Effect::SaveConfig) <==> switched || chosen
            &&& effects.last() == Effect::LookForCard
            &&& effects.to_multiset().count(Effect::SaveConfig) == (if switched { 1nat } else { 0 })
                + (if chosen { 1nat } else { 0 })
            &&& effects.len() == 1 + (if switched { 1nat } else { 0 }) + (if chosen {
                1nat
            } else {
                0
            }) + (if saved { 1nat } else { 0 })
            &&& saved ==> effects[effects.len() - 2] == Effect::ReadLibrary
            &&& next.seen_presets_revision == revision
            &&& next.active_preset == selected
            &&& next.config == (ConfigView {
                enabled,
                active_preset: if chosen { selected } else { app.config.active_preset },
                ..app.config
            })
            &&& next.tray == (TrayView {
                fixed: FixedItems {
                    enabled: Item {
                        checked: if switched { enabled } else { app.tray.fixed.enabled.checked },
                        ..app.tray.fixed.enabled
                    },
                    ..app.tray.fixed
                },
                preset_items: next.tray.preset_items,
                ..app.tray
            })
            &&& !chosen ==> next.tray.preset_items == app.tray.preset_items
            &&& chosen ==> reticked(app.tray.preset_items, next.tray.preset_items, selected)
            &&& next.presets == app.presets
            &&& next.routing_attempted == app.routing_attempted
            &&& next.lang == app.lang
        }),
{
    let switched = enabled != app.config.enabled;
    let chosen = selected != app.active_preset;
    let saved = revision != app.seen_presets_revision;
    let effects = app.after(Event::EngineSeen { enabled, selected, revision }).1;
    let saves: Seq<Effect> = if switched && chosen {
        seq![Effect::SaveConfig, Effect::SaveConfig]
    } else if switched || chosen {
        seq![Effect::SaveConfig]
    } else {
        Seq::empty()
    };
    let reads: Seq<Effect> = if saved {
        seq![Effect::ReadLibrary]
    } else {
        Seq::empty()
    };
    assert(effects =~= saves + reads + seq![Effect::LookForCard]);
    if switched || chosen {
        assert(effects[0] == Effect::SaveConfig);
    }
    if saved {
        assert(effects[effects.len() - 2] == Effect::ReadLibrary);
    }
    broadcast use vstd::seq_lib::group_to_multiset_ensures;

    let none = Seq::<Effect>::empty();
    let one = none.push(Effect::SaveConfig);
    let two = one.push(Effect::SaveConfig);
    let start = if switched && chosen {
        two
    } else if switched || chosen {
        one
    } else {
        none
    };
    let middle = if saved {
        start.push(Effect::ReadLibrary)
    } else {
        start
    };
    assert(effects =~= middle.push(Effect::LookForCard));
    assert(none.to_multiset().count(Effect::SaveConfig) == 0) by {
        none.to_multiset_ensures();
        assert(!none.contains(Effect::SaveConfig));
    }
    none.to_multiset_ensures();
    one.to_multiset_ensures();
    two.to_multiset_ensures();
    start.to_multiset_ensures();
    middle.to_multiset_ensures();
}

/// Whether a list is the same list with `active` ticked and nothing else.
pub open spec fn reticked(
    before: Seq<PresetItemView>,
    now: Seq<PresetItemView>,
    active: Option<PresetId>,
) -> bool {
    &&& now.len() == before.len()
    &&& forall|i: int|
        0 <= i < now.len() ==> {
            &&& (#[trigger] now[i]).id == before[i].id
            &&& now[i].path == before[i].path
            &&& now[i].label == before[i].label
            &&& now[i].checked == (active == Some(before[i].path))
        }
}

/// A rescan replaces the presets and their rows in the menu, ticks the active
/// one, and asks for nothing.
pub proof fn a_rescan_replaces_the_presets(
    app: AppView,
    presets: Vec<PresetEntry>,
    rows: Vec<Option<u64>>,
)
    ensures
        ({
            let (next, effects) = app.after(Event::LibraryRead { presets, rows });
            &&& effects.len() == 0
            &&& next.presets.len() == presets.len()
            &&& forall|i: int|
                0 <= i < presets.len() ==> {
                    &&& (#[trigger] next.presets[i]).name == presets[i].name@
                    &&& next.presets[i].path == presets[i].path
                    &&& next.presets[i].stem == string_of(presets[i].stem)
                    &&& next.presets[i].file_name == string_of(presets[i].file_name)
                }
            &&& reticked(
                preset_items_for(next.presets, rows@),
                next.tray.preset_items,
                app.active_preset,
            )
            &&& next.tray == (TrayView {
                preset_items: next.tray.preset_items,
                preset_empty: next.tray.preset_empty,
                ..app.tray
            })
            &&& next == (AppView { presets: next.presets, tray: next.tray, ..app })
        }),
{
}

/// A takeover changes the marker and saves it where it succeeded, and changes
/// nothing otherwise.
pub proof fn a_takeover_is_recorded(app: AppView, outcome: EngageOutcome)
    ensures
        ({
            let (next, effects) = app.after(Event::RoutingTried(outcome));
            match outcome {
                EngageOutcome::Engaged { previous } => {
                    &&& effects == seq![Effect::SaveConfig]
                    &&& next.config.previous_default_id == string_of(previous)
                    &&& next == (AppView {
                        config: ConfigView {
                            previous_default_id: next.config.previous_default_id,
                            ..app.config
                        },
                        ..app
                    })
                },
                EngageOutcome::AlreadyRouted => next == app && effects.len() == 0,
                EngageOutcome::NoVirtualCard => next == app && effects.len() == 0,
                EngageOutcome::Failed => next == app && effects.len() == 0,
            }
        }),
{
}

/// A look at the route shows it in the menu and in the tooltip, and changes
/// nothing else. Without a card the tooltip says so, whatever else holds; with
/// processing off it says that; and only then does it matter whether audio
/// runs. That the output bypasses the enhancer is remarked exactly when the
/// config asks for it not to.
pub proof fn a_look_at_the_route_is_shown(
    app: AppView,
    routed: bool,
    enabled: bool,
    running: bool,
    error: Option<String>,
)
    ensures
        ({
            let (next, effects) = app.after(Event::RouteSeen { routed, enabled, running, error });
            let text = app.lang.strings().tray;
            let tip = next.tray.tooltip;
            &&& effects.len() == 0
            &&& next.tray.routed == routed
            &&& next.tray.route_item.checked == routed
            &&& next.tray.route_item.enabled == (!routed && app.tray.driver_present)
            &&& next.tray.route_item.text == (if routed {
                text.route_through_done
            } else {
                text.route_through
            })
            &&& !app.tray.driver_present ==> tip == text.tooltip_no_card@
            &&& app.tray.driver_present && !enabled ==> tip == text.tooltip_disabled@
            &&& app.tray.driver_present && enabled && !running ==> tip == text.tooltip_idle@
            &&& app.tray.driver_present && enabled && running ==> tip == text.playing(
                active_name_of(app.presets, app.active_preset),
                string_of(error),
                app.config.take_over_default && !routed,
            )
            &&& next.tray == (TrayView {
                routed,
                route_item: next.tray.route_item,
                tooltip: tip,
                ..app.tray
            })
            &&& next == (AppView { tray: next.tray, ..app })
        }),
{
}

/// A preset that was read is loaded, then published, then remembered, and ticked
/// alone; nothing else changes. One that could not be read changes nothing.
pub proof fn a_preset_that_was_read_is_loaded(app: AppView, path: PresetId, readable: bool)
    ensures
        ({
            let (next, effects) = app.after(Event::PresetRead { path, readable });
            &&& !readable ==> next == app && effects.len() == 0
            &&& readable ==> {
                &&& effects == seq![
                    Effect::LoadPreset(path),
                    Effect::PublishPreset(path),
                    Effect::SaveConfig,
                ]
                &&& next.active_preset == Some(path)
                &&& next.config == (ConfigView { active_preset: Some(path), ..app.config })
                &&& reticked(app.tray.preset_items, next.tray.preset_items, Some(path))
                &&& next.tray == (TrayView { preset_items: next.tray.preset_items, ..app.tray })
                &&& next == (AppView {
                    active_preset: Some(path),
                    config: next.config,
                    tray: next.tray,
                    ..app
                })
            }
        }),
{
}

/// Running at logon is switched to the opposite of what the machine does, and
/// what the machine then does is shown and saved, whatever was asked for.
pub proof fn running_at_logon_follows_the_machine(app: AppView, on: bool)
    ensures
        app.after(Event::AutostartSeen { on }) == (app, seq![Effect::ApplyAutostart(!on)]),
        ({
            let (next, effects) = app.after(Event::AutostartApplied { on });
            &&& effects == seq![Effect::SaveConfig]
            &&& next.config == (ConfigView { autostart: on, ..app.config })
            &&& next.tray == (TrayView {
                fixed: FixedItems {
                    autostart: Item { checked: on, ..app.tray.fixed.autostart },
                    ..app.tray.fixed
                },
                ..app.tray
            })
            &&& next == (AppView { config: next.config, tray: next.tray, ..app })
        }),
{
}

/// Asking to change the virtual card changes it by the task that was asked for
/// and by no other: here and now in an elevated process, and by running again
/// with elevation otherwise. So installing never removes, and removing never
/// installs.
pub proof fn the_driver_task_is_the_one_asked_for(app: AppView, task: DriverTask, elevated: bool)
    ensures
        ({
            let (next, effects) = app.after(Event::ElevationSeen { task, elevated });
            &&& next == app
            &&& forall|t: DriverTask|
                effects.contains(Effect::RunDriverTask(t)) <==> elevated && t == task
            &&& forall|t: DriverTask|
                effects.contains(Effect::RelaunchElevated(t)) <==> !elevated && t == task
            &&& elevated ==> effects == seq![Effect::RunDriverTask(task), Effect::Refresh]
            &&& !elevated ==> effects.len() == 1
        }),
        app.after(Event::Chosen(TrayAction::InstallDriver)) == (
            app,
            seq![Effect::LookAtElevation(DriverTask::Install)],
        ),
        app.after(Event::Chosen(TrayAction::RemoveDriver)) == (
            app,
            seq![Effect::LookAtElevation(DriverTask::Remove)],
        ),
{
    let effects = app.after(Event::ElevationSeen { task, elevated }).1;
    if elevated {
        assert(effects =~= seq![Effect::RunDriverTask(task), Effect::Refresh]);
        assert(effects[0] == Effect::RunDriverTask(task));
    } else {
        assert(effects =~= seq![Effect::RelaunchElevated(task)]);
        assert(effects[0] == Effect::RelaunchElevated(task));
    }
}

/// Handing the output back clears the marker if it worked and keeps it if not,
/// changes nothing else, and is saved either way.
pub proof fn a_marker_is_cleared_by_handing_back(app: AppView, restored: bool)
    ensures
        ({
            let (next, effects) = app.after(Event::RoutingReleased { restored });
            &&& effects == seq![Effect::SaveConfig]
            &&& restored ==> next.config.previous_default_id is None
            &&& !restored ==> next == app
            &&& next == (AppView {
                config: ConfigView {
                    previous_default_id: next.config.previous_default_id,
                    ..app.config
                },
                ..app
            })
        }),
{
}

/// Each request of the tray asks for its own thing. Those that have to find
/// something out first change nothing yet.
pub proof fn each_request_asks_for_its_own_thing(app: AppView, path: PresetId)
    ensures
        app.after(Event::Chosen(TrayAction::Quit)) == (app, seq![Effect::Exit]),
        app.after(Event::Chosen(TrayAction::OpenPanel)) == (app, seq![Effect::OpenPanel]),
        app.after(Event::Chosen(TrayAction::ReloadPresets)) == (app, seq![Effect::ReadLibrary]),
        app.after(Event::Chosen(TrayAction::SelectPreset(path))) == (
            app,
            seq![Effect::ReadPreset(path)],
        ),
        app.after(Event::Chosen(TrayAction::ToggleAutostart)) == (
            app,
            seq![Effect::LookAtAutostart],
        ),
{
}

/// Switching processing turns it to the opposite of what the config says: in the
/// engine, in the config and in the menu, and nowhere else.
pub proof fn switching_processing_turns_it_over(app: AppView)
    ensures
        ({
            let (next, effects) = app.after(Event::Chosen(TrayAction::ToggleEnabled));
            let on = !app.config.enabled;
            &&& effects == seq![Effect::SetEnabled(on), Effect::SaveConfig, Effect::Refresh]
            &&& next.config == (ConfigView { enabled: on, ..app.config })
            &&& next.tray == (TrayView {
                fixed: FixedItems {
                    enabled: Item { checked: on, ..app.tray.fixed.enabled },
                    ..app.tray.fixed
                },
                ..app.tray
            })
            &&& next == (AppView { config: next.config, tray: next.tray, ..app })
        }),
{
}

/// Asking for the output to be routed tries it at once, is the wish from now on,
/// and counts as the try for this appearance of the card.
pub proof fn routing_by_hand_is_tried_at_once(app: AppView)
    ensures
        ({
            let (next, effects) = app.after(Event::Chosen(TrayAction::RouteOutput));
            &&& effects == seq![Effect::EngageRouting, Effect::Refresh]
            &&& next == (AppView {
                config: ConfigView { take_over_default: true, ..app.config },
                routing_attempted: true,
                ..app
            })
        }),
{
}

/// Choosing another language puts it in force, in the config and in every label
/// of the menu, and saves it. The ticks, what can be chosen, the presets, the
/// route and the tooltip are left to the look that follows.
pub proof fn choosing_a_language_puts_it_in_force(app: AppView, lang: Lang)
    requires
        lang != app.lang,
    ensures
        ({
            let (next, effects) = app.after(Event::Chosen(TrayAction::SetLanguage(lang)));
            let text = lang.strings().tray;
            let (before, now) = (app.tray, next.tray);
            &&& effects == seq![Effect::SaveConfig, Effect::Refresh]
            &&& next.lang == lang
            &&& next.config == (ConfigView {
                language: (if lang == Lang::Zh { "zh"@ } else { "en"@ }),
                ..app.config
            })
            &&& now.fixed == (FixedItems {
                open: Item { text: text.panel, ..before.fixed.open },
                enabled: Item { text: text.enabled, ..before.fixed.enabled },
                presets: text.presets,
                rescan: Item { text: text.rescan, ..before.fixed.rescan },
                autostart: Item { text: text.autostart, ..before.fixed.autostart },
                language: text.language,
                install: Item { text: text.install_driver, ..before.fixed.install },
                remove: Item { text: text.remove_driver, ..before.fixed.remove },
                quit: Item { text: text.quit, ..before.fixed.quit },
            })
            &&& now.route_item.text == (if before.routed {
                text.route_through_done
            } else {
                text.route_through
            })
            &&& now.route_item.checked == before.routed
            &&& now.route_item.enabled == (!before.routed && before.driver_present)
            &&& now == (TrayView {
                fixed: now.fixed,
                route_item: now.route_item,
                preset_empty: now.preset_empty,
                ..before
            })
            &&& next == (AppView { lang, config: next.config, tray: now, ..app })
        }),
        app.after(Event::Chosen(TrayAction::SetLanguage(app.lang))) == (app, Seq::<Effect>::empty()),
{
}

/// Where the menu has nothing to ask for, the clicks on the icon decide.
pub proof fn clicks_count_where_the_menu_is_silent(
    app: AppView,
    menu: Seq<u64>,
    icon: Seq<IconEvent>,
)
    ensures
        (forall|i: int| 0 <= i < menu.len() ==> app.tray.action_of(#[trigger] menu[i]) is None)
            ==> app.pending(menu, icon) == icon_request(icon),
        forall|i: int|
            0 <= i < menu.len() && app.tray.action_of(#[trigger] menu[i]) is Some && (forall|k: int|
                0 <= k < i ==> app.tray.action_of(#[trigger] menu[k]) is None)
                ==> app.pending(menu, icon) == app.tray.action_of(menu[i]),
    decreases menu.len(),
{
    if menu.len() > 0 && app.tray.action_of(menu[0]) is None {
        let rest = menu.drop_first();
        clicks_count_where_the_menu_is_silent(app, rest, icon);
        if forall|i: int| 0 <= i < menu.len() ==> app.tray.action_of(#[trigger] menu[i]) is None {
            assert forall|i: int| 0 <= i < rest.len() implies app.tray.action_of(
                #[trigger] rest[i],
            ) is None by {
                assert(rest[i] == menu[i + 1]);
            }
        }
        assert forall|i: int|
            0 <= i < menu.len() && app.tray.action_of(#[trigger] menu[i]) is Some && (forall|k: int|
                0 <= k < i ==> app.tray.action_of(#[trigger] menu[k]) is None) implies app.pending(
            menu,
            icon,
        ) == app.tray.action_of(menu[i]) by {
            assert(i > 0);
            assert(rest[i - 1] == menu[i]);
            assert forall|k: int| 0 <= k < i - 1 implies app.tray.action_of(
                #[trigger] rest[k],
            ) is None by {
                assert(rest[k] == menu[k + 1]);
            }
        }
    }
}

/// An application that starts holds the settings it was given, has no preset
/// active yet, has seen no save, and counts the takeover at start, if there was
/// one, as the try for this appearance of the card. The tray is built for the
/// same language and settings.
pub proof fn an_application_starts_as_configured(
    config: ConfigView,
    lang: Lang,
    presets: Seq<PresetView>,
    autostart: bool,
    endpoint_active: bool,
    ids: MenuIds,
    rows: Seq<Option<u64>>,
)
    ensures
        ({
            let app = AppView::started(
                config,
                lang,
                presets,
                autostart,
                endpoint_active,
                ids,
                rows,
            );
            &&& app.config == config
            &&& app.lang == lang
            &&& app.presets == presets
            &&& app.active_preset is None
            &&& app.routing_attempted == config.take_over_default
            &&& app.seen_presets_revision == 0
            &&& app.tray.fixed.enabled.checked == config.enabled
            &&& app.tray.fixed.autostart.checked == autostart
            &&& app.tray.driver_present == endpoint_active
            &&& app.tray.fixed.install.enabled == !endpoint_active
            &&& app.tray.fixed.remove.enabled == endpoint_active
            &&& !app.tray.routed
            &&& !app.tray.route_item.checked
            &&& app.tray.route_item.enabled == endpoint_active
            &&& app.tray.actions == fixed_actions(ids)
            &&& app.tray.preset_items == preset_items_for(presets, rows)
        }),
{
}

/// What a start begins with: the remembered preset while its file is there, else
/// what the library offers, and then a look at everything. A tray that could not
/// be built is an error that hands the output back.
pub proof fn a_start_reads_its_preset(
    startup: Startup,
    presets: Vec<PresetEntry>,
    remembered_is_file: bool,
    autostart: bool,
    endpoint_active: bool,
    menu: Result<MenuIds, String>,
    rows: Vec<Option<u64>>,
    r: Result<(App, Vec<Effect>), StartFailure>,
)
    requires
        call_ensures(
            App::start,
            (startup, presets, remembered_is_file, autostart, endpoint_active, menu, &rows),
            r,
        ),
    ensures
        menu is Ok <==> r is Ok,
        menu matches Err(error) ==> {
            &&& r->Err_0.message@ == error@
            &&& r->Err_0.effects@ == seq![StartEffect::ReleaseRouting]
        },
        r matches Ok((app, effects)) ==> {
            let offered = start_preset(
                startup.config.active_preset,
                remembered_is_file,
                library(presets@),
            );
            &&& effects@.last() == Effect::Refresh
            &&& offered matches Some(path) ==> effects@.len() == 2 && effects@[0]
                == Effect::ReadPreset(path)
            &&& offered is None ==> effects@.len() == 1
            &&& startup.config.active_preset is Some && remembered_is_file ==> effects@[0]
                == Effect::ReadPreset(startup.config.active_preset->0)
            &&& app@.config == startup.config@
            &&& app@.lang == startup.language.lang()
            &&& app@.presets == library(presets@)
        },
{
}

/// A start unpacks the presets before it reads them, gives back what an earlier
/// run still owes before it takes the output over, and takes it over exactly
/// when the config asks for it. The language is the one the config names, and
/// the system's where it names none.
pub proof fn a_start_begins_in_order(
    config: Config,
    langid: u16,
    r: (Startup, Vec<StartEffect>),
)
    requires
        call_ensures(Startup::begin, (config, langid), r),
    ensures
        r.0.config == config,
        i18n::lang_named(config.language@) matches Some(lang) ==> r.0.language.lang() == lang,
        i18n::lang_named(config.language@) is None ==> r.0.language.lang() == i18n::lang_of_system(
            langid,
        ),
        r.1@.len() == (if config.take_over_default { 4nat } else { 3 }),
        r.1@[0] == StartEffect::UnpackPresets,
        r.1@[1] == StartEffect::ReadLibrary,
        r.1@[2] == StartEffect::RecoverRouting,
        config.take_over_default ==> r.1@[3] == StartEffect::EngageRouting,
{
}

/// Once the engine runs it is told whether processing is on, before the tray is
/// built. An engine that did not start is an error that names its reason and
/// hands the output back.
pub proof fn a_start_tells_the_engine_first(
    startup: Startup,
    outcome: Result<(), String>,
    r: Result<Vec<StartEffect>, StartFailure>,
)
    requires
        call_ensures(Startup::engine_started, (&startup, outcome), r),
    ensures
        outcome is Ok <==> r is Ok,
        r matches Ok(effects) ==> effects@ == seq![
            StartEffect::SetEnabled(startup.config.enabled),
            StartEffect::BuildTray,
        ],
        outcome matches Err(error) ==> {
            &&& r->Err_0.message@ == "could not start the audio engine: "@ + error@
            &&& r->Err_0.effects@ == seq![StartEffect::ReleaseRouting]
        },
{
}

/// Everything is looked at again once a second has passed, and shutting down
/// stops the engine before it hands the output back.
pub proof fn looks_are_a_second_apart(app: App, elapsed: u128, due: bool, effects: Vec<Effect>)
    requires
        call_ensures(App::refresh_due, (elapsed,), due),
        call_ensures(App::shutdown, (&app,), effects),
    ensures
        due <==> elapsed >= 1_000_000_000,
        effects@ == seq![Effect::StopEngine, Effect::ReleaseRouting],
{
}

/// The displaced device is recorded, or blanked where there was none, and
/// written to disk before the engine starts; no other setting changes.
pub proof fn a_start_records_what_it_displaced(
    startup: &mut Startup,
    previous: Option<String>,
    r: Vec<StartEffect>,
)
    requires
        call_ensures(Startup::routed, (startup, previous), r),
    ensures
        string_of(final(startup).config.previous_default_id) == string_of(previous),
        final(startup).config@ == (ConfigView {
            previous_default_id: string_of(previous),
            ..old(startup).config@
        }),
        final(startup).language == old(startup).language,
        r@ == seq![StartEffect::SaveConfig, StartEffect::StartEngine],
{
}

/// One pass of the loop answers the first menu choice that is known, or else a
/// click on the icon, as the same request would be answered on its own; with
/// neither it does nothing. The clicks wait while the menu has a request.
pub proof fn a_pass_answers_one_request(
    app: &mut App,
    menu: &mut VecDeque<u64>,
    icon: &mut Vec<IconEvent>,
    r: Vec<Effect>,
    i: int,
)
    requires
        call_ensures(App::tick, (app, menu, icon), r),
        0 <= i <= old(menu)@.len(),
        forall|k: int| 0 <= k < i ==> old(app)@.tray.action_of(#[trigger] old(menu)@[k]) is None,
        i < old(menu)@.len() ==> old(app)@.tray.action_of(old(menu)@[i]) is Some,
    ensures
        i < old(menu)@.len() ==> {
            let action = old(app)@.tray.action_of(old(menu)@[i])->0;
            &&& (final(app)@, r@) == old(app)@.after(Event::Chosen(action))
            &&& final(menu)@ == old(menu)@.skip(i + 1)
            &&& final(icon)@ == old(icon)@
        },
        i == old(menu)@.len() ==> {
            &&& final(menu)@.len() == 0
            &&& final(icon)@.len() == 0
            &&& icon_request(old(icon)@) is None ==> final(app)@ == old(app)@ && r@.len() == 0
            &&& icon_request(old(icon)@) matches Some(action) ==> (final(app)@, r@) == old(
                app,
            )@.after(Event::Chosen(action))
        },
{
    first_known_event(old(app)@.tray, old(menu)@, i);
}

proof fn first_known_event(tray: TrayView, queue: Seq<u64>, i: int)
    requires
        0 <= i <= queue.len(),
        forall|k: int| 0 <= k < i ==> tray.action_of(#[trigger] queue[k]) is None,
        i < queue.len() ==> tray.action_of(queue[i]) is Some,
    ensures
        i < queue.len() ==> tray.polled(queue) == (tray.action_of(queue[i]), queue.skip(i + 1)),
        i == queue.len() ==> tray.polled(queue).0 is None && tray.polled(queue).1.len() == 0,
    decreases queue.len(),
{
    if queue.len() > 0 {
        let rest = queue.drop_first();
        if i > 0 {
            assert forall|k: int| 0 <= k < i - 1 implies tray.action_of(#[trigger] rest[k]) is None by {
                assert(rest[k] == queue[k + 1]);
            }
            if i < queue.len() {
                assert(rest[i - 1] == queue[i]);
            }
            first_known_event(tray, rest, i - 1);
            if i < queue.len() {
                assert(rest.skip(i) =~= queue.skip(i + 1));
            }
        } else {
            assert(queue.drop_first() =~= queue.skip(1));
        }
    }
}

/// Asking for the panel opens one exactly when none exists, with the presets as
/// they are, and otherwise focuses the one there is. Either way one exists, or
/// is on its way, afterwards.
pub proof fn asking_twice_focuses_the_panel(app: App, gate: &mut PanelGate, r: PanelRequest)
    requires
        call_ensures(App::open_panel_now, (&app, gate), r),
    ensures
        r is Focus <==> old(gate).is_open(),
        r is Open <==> !old(gate).is_open(),
        r matches PanelRequest::Open { presets } ==> {
            &&& presets.len() == app.presets.len()
            &&& forall|i: int|
                0 <= i < presets.len() ==> (#[trigger] presets[i])@ == app.presets[i]@
        },
        final(gate).is_open(),
{
    if let PanelRequest::Open { presets } = r {
        assert(library(presets@).len() == library(app.presets@).len());
        assert forall|i: int| 0 <= i < presets.len() implies (#[trigger] presets[i])@
            == app.presets[i]@ by {
            assert(library(presets@)[i] == library(app.presets@)[i]);
        }
    }
}

/// The application as values is the application.
pub proof fn the_application_is_seen_as_it_is(app: App)
    ensures
        app@.config == app.config@,
        app@.tray == app.tray@,
        app@.presets == library(app.presets@),
        app@.active_preset == app.active_preset,
        app@.routing_attempted == app.routing_attempted,
        app@.seen_presets_revision == app.seen_presets_revision,
        app@.lang == app.language.lang(),
{
}

/// What a step does is what its event comes to.
pub proof fn a_step_is_what_its_event_comes_to(app: &mut App, event: Event, r: Vec<Effect>)
    requires
        call_ensures(App::step, (app, event), r),
    ensures
        final(app)@ == old(app)@.after(event).0,
        r@ == old(app)@.after(event).1,
{
}

} // verus!
