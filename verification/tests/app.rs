use fxmini::app::{
    App, DriverTask, Effect, EngageOutcome, Event, PanelRequest, StartEffect, Startup,
    REFRESH_INTERVAL,
};
use fxmini::i18n::{current, Lang};
use fxmini::preset::PresetId;
use fxmini::ui::panel::{handed_over, is_open, Delivery, PanelGate};
use fxmini::ui::tray::{ButtonState, IconEvent, MenuIds, MouseButton, TrayAction};
use fxmini::{Config, PresetEntry};
use std::collections::VecDeque;

fn id(index: u64) -> PresetId {
    PresetId { index }
}

fn entry(index: u64, name: &str) -> PresetEntry {
    PresetEntry { name: name.to_owned(), path: id(index), stem: None, file_name: None }
}

fn config() -> Config {
    Config {
        enabled: true,
        autostart: true,
        take_over_default: true,
        language: "en".to_owned(),
        active_preset: None,
        previous_default_id: None,
    }
}

fn ids() -> MenuIds {
    MenuIds {
        open: 1,
        enabled: 2,
        route: 3,
        rescan: 4,
        autostart: 5,
        install: 6,
        remove: 7,
        quit: 8,
        languages: vec![Some(9), Some(10)],
    }
}

fn start(config: Config) -> (App, Vec<Effect>) {
    let (startup, _) = Startup::begin(config, 0x0409);
    let presets = vec![entry(1, "Rock"), entry(2, "Music")];
    let rows = vec![Some(100), Some(101)];
    match App::start(startup, presets, true, true, true, Ok(ids()), &rows) {
        Ok(started) => started,
        Err(failure) => panic!("{}", failure.message),
    }
}

fn card(present: bool, engaged: bool) -> Event {
    Event::CardSeen { engine_sees: false, system_sees: present, enabled: true, engaged }
}

#[test]
fn starting_goes_through_its_stages() {
    let (mut startup, effects) = Startup::begin(config(), 0x0804);
    assert_eq!(current(&startup.language), Lang::En);
    assert_eq!(
        effects,
        vec![
            StartEffect::UnpackPresets,
            StartEffect::ReadLibrary,
            StartEffect::RecoverRouting,
            StartEffect::EngageRouting,
        ]
    );
    // The marker is written before the engine starts.
    assert_eq!(
        startup.routed(Some("speakers".to_owned())),
        vec![StartEffect::SaveConfig, StartEffect::StartEngine]
    );
    assert_eq!(startup.config.previous_default_id, Some("speakers".to_owned()));
    assert_eq!(
        startup.engine_started(Ok(())).unwrap(),
        vec![StartEffect::SetEnabled(true), StartEffect::BuildTray]
    );
}

#[test]
fn a_start_that_leaves_the_output_alone_engages_nothing() {
    let (startup, effects) = Startup::begin(
        Config { take_over_default: false, language: "auto".to_owned(), ..config() },
        0x0804,
    );
    assert_eq!(current(&startup.language), Lang::Zh);
    assert!(!effects.contains(&StartEffect::EngageRouting));
}

#[test]
fn an_old_marker_is_blanked_when_nothing_was_displaced() {
    let (mut startup, _) =
        Startup::begin(Config { previous_default_id: Some("old".to_owned()), ..config() }, 0x0409);
    startup.routed(None);
    assert_eq!(startup.config.previous_default_id, None);
}

#[test]
fn an_engine_that_does_not_start_hands_the_output_back() {
    let (startup, _) = Startup::begin(config(), 0x0409);
    let failure = startup.engine_started(Err("no device".to_owned())).unwrap_err();
    assert_eq!(failure.message, "could not start the audio engine: no device");
    assert_eq!(failure.effects, vec![StartEffect::ReleaseRouting]);
}

#[test]
fn a_tray_that_cannot_be_built_hands_the_output_back() {
    let (startup, _) = Startup::begin(config(), 0x0409);
    let failed = App::start(
        startup,
        Vec::new(),
        false,
        false,
        false,
        Err("no shell".to_owned()),
        &Vec::new(),
    );
    match failed {
        Ok(_) => panic!("there is no tray"),
        Err(failure) => {
            assert_eq!(failure.message, "no shell");
            assert_eq!(failure.effects, vec![StartEffect::ReleaseRouting]);
        }
    }
}

#[test]
fn the_start_preset_is_read_and_then_everything_is_looked_at() {
    let (app, effects) = start(config());
    assert_eq!(effects, vec![Effect::ReadPreset(id(2)), Effect::Refresh]);
    assert!(app.active_preset.is_none());
    assert!(app.routing_attempted);
    assert_eq!(app.seen_presets_revision, 0);

    let (_, effects) = start(Config { active_preset: Some(id(7)), ..config() });
    assert_eq!(effects, vec![Effect::ReadPreset(id(7)), Effect::Refresh]);

    let (startup, _) = Startup::begin(config(), 0x0409);
    let bare = App::start(startup, Vec::new(), false, true, true, Ok(ids()), &Vec::new());
    assert_eq!(bare.ok().unwrap().1, vec![Effect::Refresh]);
}

#[test]
fn everything_is_looked_at_once_a_second() {
    assert_eq!(REFRESH_INTERVAL, 1_000_000_000);
    assert!(!App::refresh_due(999_999_999));
    assert!(App::refresh_due(1_000_000_000));
}

#[test]
fn processing_is_switched_from_the_tray() {
    let (mut app, _) = start(config());
    let effects = app.step(Event::Chosen(TrayAction::ToggleEnabled));
    assert_eq!(effects, vec![Effect::SetEnabled(false), Effect::SaveConfig, Effect::Refresh]);
    assert!(!app.config.enabled);
    assert!(!app.tray.fixed.enabled.checked);
    // The engine has been told, so there is nothing left to reconcile.
    let seen = app.step(Event::EngineSeen { enabled: false, selected: None, revision: 0 });
    assert_eq!(seen, vec![Effect::LookForCard]);
    app.step(Event::Chosen(TrayAction::ToggleEnabled));
    assert!(app.config.enabled);
    assert!(app.tray.fixed.enabled.checked);
}

#[test]
fn the_panel_is_followed() {
    let (mut app, _) = start(config());
    let seen = Event::EngineSeen { enabled: false, selected: Some(id(1)), revision: 3 };
    assert_eq!(
        app.step(seen),
        vec![Effect::SaveConfig, Effect::SaveConfig, Effect::ReadLibrary, Effect::LookForCard]
    );
    assert!(!app.config.enabled);
    assert_eq!(app.config.active_preset, Some(id(1)));
    assert_eq!(app.active_preset, Some(id(1)));
    assert!(app.tray.preset_items[0].checked);
    let again = Event::EngineSeen { enabled: false, selected: Some(id(1)), revision: 3 };
    assert_eq!(app.step(again), vec![Effect::LookForCard]);
}

#[test]
fn a_preset_is_loaded_published_and_remembered() {
    let (mut app, _) = start(config());
    assert_eq!(
        app.step(Event::Chosen(TrayAction::SelectPreset(id(1)))),
        vec![Effect::ReadPreset(id(1))]
    );
    assert!(app.step(Event::PresetRead { path: id(1), readable: false }).is_empty());
    assert_eq!(app.active_preset, None);
    assert_eq!(
        app.step(Event::PresetRead { path: id(1), readable: true }),
        vec![Effect::LoadPreset(id(1)), Effect::PublishPreset(id(1)), Effect::SaveConfig]
    );
    assert_eq!(app.active_preset, Some(id(1)));
    assert_eq!(app.config.active_preset, Some(id(1)));
    assert!(app.tray.preset_items[0].checked);
}

#[test]
fn a_rescan_keeps_the_tick() {
    let (mut app, _) = start(config());
    app.step(Event::PresetRead { path: id(2), readable: true });
    assert_eq!(app.step(Event::Chosen(TrayAction::ReloadPresets)), vec![Effect::ReadLibrary]);
    let presets = vec![entry(2, "Music"), entry(3, "Pop")];
    let rows = vec![Some(200), Some(201)];
    assert!(app.step(Event::LibraryRead { presets, rows }).is_empty());
    assert_eq!(app.presets.len(), 2);
    assert!(app.tray.preset_items[0].checked);
    assert!(!app.tray.preset_items[1].checked);
}

#[test]
fn a_takeover_is_not_retried_until_the_card_returns() {
    let (mut app, _) = start(config());
    // Tried at start already.
    assert_eq!(app.step(card(true, false)), vec![Effect::LookAtRoute]);
    assert_eq!(app.step(card(false, false)), vec![Effect::LookAtRoute]);
    assert!(!app.routing_attempted);
    assert_eq!(app.step(card(true, false)), vec![Effect::EngageRouting, Effect::LookAtRoute]);
    assert!(app.step(Event::RoutingTried(EngageOutcome::Failed)).is_empty());
    assert_eq!(app.step(card(true, false)), vec![Effect::LookAtRoute]);
}

#[test]
fn an_output_moved_by_hand_is_left_there() {
    let (mut app, _) = start(config());
    app.step(card(false, true));
    assert_eq!(app.step(card(true, true)), vec![Effect::LookAtRoute]);
    let off = Event::CardSeen { engine_sees: true, system_sees: false, enabled: false, engaged: false };
    assert_eq!(app.step(off), vec![Effect::LookAtRoute]);
}

#[test]
fn a_successful_takeover_leaves_a_marker() {
    let (mut app, _) = start(config());
    assert!(app.step(Event::RoutingTried(EngageOutcome::AlreadyRouted)).is_empty());
    assert!(app.step(Event::RoutingTried(EngageOutcome::NoVirtualCard)).is_empty());
    let engaged = EngageOutcome::Engaged { previous: Some("speakers".to_owned()) };
    assert_eq!(app.step(Event::RoutingTried(engaged)), vec![Effect::SaveConfig]);
    assert_eq!(app.config.previous_default_id, Some("speakers".to_owned()));

    assert_eq!(app.shutdown(), vec![Effect::StopEngine, Effect::ReleaseRouting]);
    assert_eq!(app.step(Event::RoutingReleased { restored: false }), vec![Effect::SaveConfig]);
    assert_eq!(app.config.previous_default_id, Some("speakers".to_owned()));
    assert_eq!(app.step(Event::RoutingReleased { restored: true }), vec![Effect::SaveConfig]);
    assert_eq!(app.config.previous_default_id, None);
}

#[test]
fn routing_by_hand_asks_for_it_from_now_on() {
    let (mut app, _) = start(Config { take_over_default: false, ..config() });
    assert!(!app.routing_attempted);
    assert_eq!(
        app.step(Event::Chosen(TrayAction::RouteOutput)),
        vec![Effect::EngageRouting, Effect::Refresh]
    );
    assert!(app.config.take_over_default);
    assert!(app.routing_attempted);
}

#[test]
fn the_tooltip_says_what_is_going_on() {
    let (mut app, _) = start(config());
    app.step(Event::PresetRead { path: id(2), readable: true });
    let seen = |routed: bool, enabled: bool, running: bool, error: Option<&str>| Event::RouteSeen {
        routed,
        enabled,
        running,
        error: error.map(str::to_owned),
    };
    app.step(seen(true, true, true, None));
    assert_eq!(app.tray.tooltip, "FxMini — Music");
    assert!(app.tray.route_item.checked);
    app.step(seen(false, true, true, Some("boom")));
    assert_eq!(
        app.tray.tooltip,
        "FxMini — Music (boom) — output is NOT enhanced (default device is not the virtual card)"
    );
    app.step(seen(true, true, false, None));
    assert_eq!(app.tray.tooltip, "FxMini — idle");
    app.step(seen(true, false, true, None));
    assert_eq!(app.tray.tooltip, "FxMini — disabled");
    app.step(card(false, false));
    app.step(seen(false, true, true, None));
    assert_eq!(app.tray.tooltip, "FxMini — virtual sound card not installed");
}

#[test]
fn the_language_is_switched_and_remembered() {
    let (mut app, _) = start(Config { language: "auto".to_owned(), ..config() });
    assert!(app.step(Event::Chosen(TrayAction::SetLanguage(Lang::En))).is_empty());
    assert_eq!(app.config.language, "auto");
    assert_eq!(
        app.step(Event::Chosen(TrayAction::SetLanguage(Lang::Zh))),
        vec![Effect::SaveConfig, Effect::Refresh]
    );
    assert_eq!(current(&app.language), Lang::Zh);
    assert_eq!(app.config.language, "zh");
    assert_eq!(app.tray.fixed.quit.text, "退出");
}

#[test]
fn running_at_logon_is_what_the_machine_says() {
    let (mut app, _) = start(config());
    assert_eq!(
        app.step(Event::Chosen(TrayAction::ToggleAutostart)),
        vec![Effect::LookAtAutostart]
    );
    assert_eq!(app.step(Event::AutostartSeen { on: false }), vec![Effect::ApplyAutostart(true)]);
    // A policy blocked the write.
    assert_eq!(app.step(Event::AutostartApplied { on: false }), vec![Effect::SaveConfig]);
    assert!(!app.config.autostart);
    assert!(!app.tray.fixed.autostart.checked);
}

#[test]
fn the_driver_is_changed_with_elevation() {
    let (mut app, _) = start(config());
    assert_eq!(
        app.step(Event::Chosen(TrayAction::InstallDriver)),
        vec![Effect::LookAtElevation(DriverTask::Install)]
    );
    assert_eq!(
        app.step(Event::ElevationSeen { task: DriverTask::Install, elevated: true }),
        vec![Effect::RunDriverTask(DriverTask::Install), Effect::Refresh]
    );
    assert_eq!(
        app.step(Event::Chosen(TrayAction::RemoveDriver)),
        vec![Effect::LookAtElevation(DriverTask::Remove)]
    );
    assert_eq!(
        app.step(Event::ElevationSeen { task: DriverTask::Remove, elevated: false }),
        vec![Effect::RelaunchElevated(DriverTask::Remove)]
    );
}

#[test]
fn a_menu_choice_comes_before_a_click() {
    let (mut app, _) = start(config());
    let click = IconEvent::Click { button: MouseButton::Left, state: ButtonState::Up };
    let mut menu = VecDeque::from(vec![77, 8]);
    let mut icon = vec![click, click];
    assert_eq!(app.tick(&mut menu, &mut icon), vec![Effect::Exit]);
    assert!(menu.is_empty());
    assert_eq!(icon.len(), 2);
    assert_eq!(app.tick(&mut menu, &mut icon), vec![Effect::OpenPanel]);
    assert!(icon.is_empty());
    assert!(app.tick(&mut menu, &mut icon).is_empty());
}

#[test]
fn a_second_click_focuses_the_panel() {
    let (app, _) = start(config());
    let mut gate = PanelGate::new();
    match app.open_panel_now(&mut gate) {
        PanelRequest::Open { presets } => {
            assert_eq!(presets.len(), 2);
            assert_eq!(presets[1].name, "Music");
        }
        PanelRequest::Focus => panic!("there is no window"),
    }
    assert!(is_open(&gate));
    assert!(matches!(app.open_panel_now(&mut gate), PanelRequest::Focus));
    assert!(handed_over(&mut gate, Delivery::Delivered));
    assert!(matches!(app.open_panel_now(&mut gate), PanelRequest::Focus));
    gate.close();
    assert!(matches!(app.open_panel_now(&mut gate), PanelRequest::Open { .. }));
}

#[test]
fn a_second_look_at_the_same_things_is_quiet() {
    let (mut app, _) = start(config());
    let engine = || Event::EngineSeen { enabled: true, selected: Some(id(2)), revision: 1 };
    let route = || Event::RouteSeen { routed: false, enabled: true, running: true, error: None };
    app.step(engine());
    app.step(card(true, false));
    app.step(route());
    let tooltip = app.tray.tooltip.clone();
    assert_eq!(app.step(engine()), vec![Effect::LookForCard]);
    assert_eq!(app.step(card(true, false)), vec![Effect::LookAtRoute]);
    assert!(app.step(route()).is_empty());
    assert_eq!(app.tray.tooltip, tooltip);
}

/// What carrying out an effect finds out, on a machine where everything works.
fn found(effect: Effect) -> Option<Event> {
    match effect {
        Effect::Refresh => {
            Some(Event::EngineSeen { enabled: true, selected: Some(id(1)), revision: 8 })
        }
        Effect::ReadLibrary => {
            Some(Event::LibraryRead { presets: vec![entry(1, "Rock")], rows: vec![Some(300)] })
        }
        Effect::LookForCard => Some(card(true, false)),
        Effect::EngageRouting => {
            Some(Event::RoutingTried(EngageOutcome::Engaged { previous: Some("out".to_owned()) }))
        }
        Effect::LookAtRoute => {
            Some(Event::RouteSeen { routed: true, enabled: true, running: true, error: None })
        }
        Effect::ReadPreset(path) => Some(Event::PresetRead { path, readable: true }),
        Effect::LookAtAutostart => Some(Event::AutostartSeen { on: true }),
        Effect::ApplyAutostart(on) => Some(Event::AutostartApplied { on }),
        Effect::LookAtElevation(task) => Some(Event::ElevationSeen { task, elevated: true }),
        Effect::ReleaseRouting => Some(Event::RoutingReleased { restored: true }),
        _ => None,
    }
}

/// Carries effects out depth first, and counts them.
fn carry_out(app: &mut App, effects: Vec<Effect>) -> usize {
    let mut count = 0;
    for effect in effects {
        count += 1;
        assert!(count < 100);
        if let Some(event) = found(effect) {
            let answer = app.step(event);
            count += carry_out(app, answer);
        }
    }
    count
}

#[test]
fn every_request_comes_to_an_end() {
    for action in [
        TrayAction::ToggleEnabled,
        TrayAction::ToggleAutostart,
        TrayAction::SelectPreset(id(1)),
        TrayAction::OpenPanel,
        TrayAction::InstallDriver,
        TrayAction::RemoveDriver,
        TrayAction::ReloadPresets,
        TrayAction::RouteOutput,
        TrayAction::SetLanguage(Lang::Zh),
        TrayAction::Quit,
    ] {
        let (mut app, first) = start(config());
        carry_out(&mut app, first);
        let effects = app.step(Event::Chosen(action));
        assert!(carry_out(&mut app, effects) < 20);
        // Whatever was asked, the tray shows what the application holds.
        assert_eq!(app.tray.fixed.enabled.checked, app.config.enabled);
        assert_eq!(app.tray.fixed.quit.text, current(&app.language).table().tray.quit);
        for item in &app.tray.preset_items {
            assert_eq!(item.checked, app.active_preset == Some(item.path));
        }
    }
}

#[test]
fn choices_outlive_the_run() {
    let (mut app, _) = start(config());
    app.step(Event::Chosen(TrayAction::SetLanguage(Lang::Zh)));
    app.step(Event::PresetRead { path: id(1), readable: true });
    let (mut again, effects) = start(app.config);
    assert_eq!(current(&again.language), Lang::Zh);
    assert_eq!(effects, vec![Effect::ReadPreset(id(1)), Effect::Refresh]);
    again.step(Event::PresetRead { path: id(1), readable: true });
    assert_eq!(again.active_preset, Some(id(1)));
}

#[test]
fn only_routing_by_hand_changes_settings_without_saving_them() {
    let (mut app, _) = start(Config { take_over_default: false, ..config() });
    let effects = app.step(Event::Chosen(TrayAction::RouteOutput));
    assert!(app.config.take_over_default);
    assert!(!effects.contains(&Effect::SaveConfig));
    // It is saved if the takeover succeeds.
    let engaged = EngageOutcome::Engaged { previous: None };
    assert_eq!(app.step(Event::RoutingTried(engaged)), vec![Effect::SaveConfig]);
}
