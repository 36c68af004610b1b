use fxmini::i18n::Lang;
use fxmini::preset::PresetId;
use fxmini::ui::tray::{
    language_layout, menu_layout, preset_layout, ButtonState, IconEvent, MenuIds, MenuRow,
    MouseButton, PresetRow, Tray, TrayAction,
};
use fxmini::PresetEntry;
use std::collections::VecDeque;

fn id(index: u64) -> PresetId {
    PresetId { index }
}

fn entry(index: u64, name: &str) -> PresetEntry {
    PresetEntry { name: name.to_owned(), path: id(index), stem: None, file_name: None }
}

fn ids() -> MenuIds {
    MenuIds {
        open: 1,
        enabled: 2,
        route: 3,
        rescan: 4,
        autostart: 5,
        install: 6,
        remove: 7,
        quit: 8,
        languages: vec![Some(9), Some(10)],
    }
}

fn library() -> Vec<PresetEntry> {
    vec![entry(1, "Rock"), entry(2, "Jazz")]
}

fn tray(lang: Lang) -> Tray {
    Tray::new(lang, &library(), true, false, true, Ok(ids()), &vec![Some(100), Some(101)]).unwrap()
}

fn ask(tray: &Tray, id: u64) -> Option<TrayAction> {
    tray.poll(&mut VecDeque::from(vec![id]))
}

#[test]
fn a_menu_that_cannot_be_built_is_an_error() {
    let built =
        Tray::new(Lang::En, &library(), true, false, true, Err("no shell".to_owned()), &Vec::new());
    assert!(matches!(built, Err(message) if message == "no shell"));
}

#[test]
fn a_new_menu_shows_the_state_it_was_given() {
    let tray = tray(Lang::En);
    assert_eq!(tray.fixed.open.text, "Tuning panel…");
    assert!(tray.fixed.enabled.checked);
    assert!(!tray.fixed.autostart.checked);
    assert!(!tray.fixed.install.enabled);
    assert!(tray.fixed.remove.enabled);
    assert!(tray.route_item.enabled);
    assert!(!tray.route_item.checked);
    assert_eq!(tray.tooltip, "FxMini");
    assert_eq!(tray.preset_items.len(), 2);
    assert_eq!(tray.preset_items[1].label, "Jazz");
    assert!(!tray.preset_items[1].checked);
    assert!(tray.preset_empty.is_none());
}

#[test]
fn every_entry_asks_for_its_own_thing() {
    let tray = tray(Lang::En);
    assert_eq!(ask(&tray, 1), Some(TrayAction::OpenPanel));
    assert_eq!(ask(&tray, 2), Some(TrayAction::ToggleEnabled));
    assert_eq!(ask(&tray, 3), Some(TrayAction::RouteOutput));
    assert_eq!(ask(&tray, 4), Some(TrayAction::ReloadPresets));
    assert_eq!(ask(&tray, 5), Some(TrayAction::ToggleAutostart));
    assert_eq!(ask(&tray, 6), Some(TrayAction::InstallDriver));
    assert_eq!(ask(&tray, 7), Some(TrayAction::RemoveDriver));
    assert_eq!(ask(&tray, 8), Some(TrayAction::Quit));
    assert_eq!(ask(&tray, 9), Some(TrayAction::SetLanguage(Lang::Zh)));
    assert_eq!(ask(&tray, 10), Some(TrayAction::SetLanguage(Lang::En)));
    assert_eq!(ask(&tray, 101), Some(TrayAction::SelectPreset(id(2))));
    assert_eq!(ask(&tray, 77), None);
}

#[test]
fn polling_discards_stale_ids_and_stops_at_a_request() {
    let tray = tray(Lang::En);
    let mut queue = VecDeque::from(vec![77, 78, 8, 2]);
    assert_eq!(tray.poll(&mut queue), Some(TrayAction::Quit));
    assert_eq!(queue, VecDeque::from(vec![2]));
    assert_eq!(tray.poll(&mut queue), Some(TrayAction::ToggleEnabled));
    assert_eq!(tray.poll(&mut queue), None);
}

#[test]
fn ids_of_a_replaced_list_ask_for_nothing() {
    let mut tray = tray(Lang::En);
    tray.set_presets(Lang::En, &vec![entry(5, "Pop")], &vec![Some(200)]);
    assert_eq!(ask(&tray, 100), None);
    assert_eq!(ask(&tray, 200), Some(TrayAction::SelectPreset(id(5))));
}

#[test]
fn a_row_the_system_refused_is_left_out() {
    let mut tray = tray(Lang::En);
    tray.set_presets(Lang::En, &library(), &vec![None, Some(300)]);
    assert_eq!(tray.preset_items.len(), 1);
    assert_eq!(ask(&tray, 300), Some(TrayAction::SelectPreset(id(2))));
}

#[test]
fn an_empty_list_says_so_in_the_language() {
    let mut tray = tray(Lang::En);
    tray.set_presets(Lang::En, &Vec::new(), &vec![Some(1000)]);
    let shown = tray.preset_empty.unwrap();
    assert_eq!((shown.text, shown.enabled, shown.checked), ("(none found)", false, false));
    assert_eq!(ask(&tray, 1000), None);
    tray.retitle(Lang::Zh);
    let shown = tray.preset_empty.unwrap();
    assert_eq!((shown.text, shown.enabled, shown.checked), ("（无预设）", false, false));
    tray.set_presets(Lang::Zh, &Vec::new(), &vec![None]);
    assert!(tray.preset_empty.is_none());
}

#[test]
fn one_preset_is_ticked() {
    let mut tray = tray(Lang::En);
    let ticks = |tray: &Tray| tray.preset_items.iter().map(|item| item.checked).collect::<Vec<bool>>();
    tray.set_active_preset(Some(id(2)));
    assert_eq!(ticks(&tray), vec![false, true]);
    tray.set_active_preset(Some(id(1)));
    assert_eq!(ticks(&tray), vec![true, false]);
    tray.set_active_preset(None);
    assert_eq!(ticks(&tray), vec![false, false]);
}

#[test]
fn the_route_entry_follows_the_route_and_the_driver() {
    let mut tray = tray(Lang::En);
    tray.set_routed(Lang::En, true);
    assert_eq!(tray.route_item.text, "Output routed via FxMini");
    assert!(tray.route_item.checked);
    assert!(!tray.route_item.enabled);
    tray.set_routed(Lang::En, false);
    assert_eq!(tray.route_item.text, "Route through FxMini");
    assert!(tray.route_item.enabled);
    tray.set_driver_present(Lang::En, false);
    assert!(!tray.route_item.enabled);
    assert!(!tray.route_item.checked);
    assert!(tray.fixed.install.enabled);
    assert!(!tray.fixed.remove.enabled);
}

#[test]
fn switching_language_changes_the_words_and_nothing_else() {
    let mut tray = tray(Lang::En);
    tray.set_routed(Lang::En, true);
    tray.set_active_preset(Some(id(1)));
    tray.retitle(Lang::Zh);
    assert_eq!(tray.fixed.quit.text, "退出");
    assert_eq!(tray.fixed.presets, "预设");
    assert_eq!(tray.fixed.language, "语言");
    assert_eq!(tray.route_item.text, "输出已走 FxMini");
    assert!(tray.route_item.checked);
    assert!(tray.fixed.enabled.checked);
    assert!(tray.preset_items[0].checked);
    assert_eq!(tray.preset_items[0].label, "Rock");
    assert_eq!(ask(&tray, 8), Some(TrayAction::Quit));
}

#[test]
fn ticks_and_the_tooltip_are_kept_in_sync() {
    let mut tray = tray(Lang::En);
    tray.set_enabled_checked(false);
    tray.set_autostart_checked(true);
    tray.set_tooltip("FxMini — idle");
    assert!(!tray.fixed.enabled.checked);
    assert!(tray.fixed.autostart.checked);
    assert_eq!(tray.tooltip, "FxMini — idle");
}

#[test]
fn a_double_click_opens_one_panel() {
    let tray = tray(Lang::En);
    let left = |state: ButtonState| IconEvent::Click { button: MouseButton::Left, state };
    let mut events = vec![
        IconEvent::Other,
        left(ButtonState::Down),
        left(ButtonState::Up),
        IconEvent::DoubleClick { button: MouseButton::Left },
        left(ButtonState::Up),
    ];
    assert_eq!(tray.poll_icon(&mut events), Some(TrayAction::OpenPanel));
    assert!(events.is_empty());
    assert_eq!(tray.poll_icon(&mut events), None);
}

#[test]
fn other_clicks_open_nothing() {
    let tray = tray(Lang::En);
    let mut events = vec![
        IconEvent::Click { button: MouseButton::Left, state: ButtonState::Down },
        IconEvent::Click { button: MouseButton::Right, state: ButtonState::Up },
        IconEvent::DoubleClick { button: MouseButton::Middle },
        IconEvent::Other,
    ];
    assert_eq!(tray.poll_icon(&mut events), None);
    assert!(events.is_empty());
}

#[test]
fn the_menu_is_grouped() {
    let rows = menu_layout();
    assert_eq!(rows.len(), 13);
    assert_eq!(rows[0], MenuRow::Open);
    assert_eq!(rows[4], MenuRow::Presets);
    assert_eq!(rows[12], MenuRow::Quit);
    assert_eq!(rows.iter().filter(|row| **row == MenuRow::Separator).count(), 4);
}

#[test]
fn rescanning_stands_below_the_presets() {
    assert_eq!(
        preset_layout(2),
        vec![PresetRow::Preset(0), PresetRow::Preset(1), PresetRow::Separator, PresetRow::Rescan]
    );
    assert_eq!(
        preset_layout(0),
        vec![PresetRow::Placeholder, PresetRow::Separator, PresetRow::Rescan]
    );
}

#[test]
fn the_language_in_use_is_ticked() {
    let entries = language_layout(Lang::En);
    assert_eq!(entries.len(), 2);
    assert_eq!((entries[0].lang, entries[0].label, entries[0].checked), (Lang::Zh, "中文", false));
    assert_eq!((entries[1].lang, entries[1].label, entries[1].checked), (Lang::En, "English", true));
}
