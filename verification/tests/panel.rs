use fxmini::engine::{EngineStatus, SaveReport, SharedParams};
use fxmini::i18n::Lang;
use fxmini::preset::PresetId;
use fxmini::ui::panel::{
    card_columns, effect_rows, fitted_height, footer_text, handed_over, is_a_usable_filename,
    is_open, output_rows, save_pressed, spawn, status_pill, Card, Delivery, OutputSetting, PanelApp,
    PanelEffect, PanelGate, PanelShared, Tone, DEFAULT_PANEL_WIDTH, FIT_MARGIN, MIN_PANEL_HEIGHT,
    POINT, TWO_COLUMN_MIN_WIDTH,
};
use fxmini::PresetEntry;

#[test]
fn a_preset_name_cannot_escape_the_preset_folder() {
    // The name becomes a filename verbatim, so a separator would let a preset be
    // written anywhere the process can write.
    for bad in [
        r"..\..\evil",
        "a/b",
        r"C:\Windows\System32\x",
        "trailing.",
        "trailing ",
        "with:colon",
        "star*",
        "quote\"",
        "pipe|",
        "less<more",
        "question?",
        "new\nline",
        "nul\u{0}byte",
    ] {
        assert!(!is_a_usable_filename(bad), "{bad:?} should be refused");
    }
}

#[test]
fn reserved_device_names_are_refused_whatever_the_extension() {
    // `CON.fac` is still the console: the reservation is on the stem.
    for bad in ["CON", "con", "PRN", "AUX", "NUL", "COM1", "lpt9"] {
        assert!(!is_a_usable_filename(bad), "{bad:?} should be refused");
    }
    // …but only the exact stem, and only digits 1-9.
    for good in ["CON2", "COM0", "LPT", "COM10", "CONSOLE", "My Preset 1"] {
        assert!(is_a_usable_filename(good), "{good:?} should be allowed");
    }
}

#[test]
fn ordinary_names_are_usable() {
    for good in ["音乐", "Bass boost", "My Tune (v2)", "低音_2"] {
        assert!(is_a_usable_filename(good), "{good:?} should be allowed");
    }
}

#[test]
fn characters_past_ascii_do_not_make_a_device() {
    for good in ["", "COM¹", "COM１", "ÇON", "音乐音1", " con", "a.b"] {
        assert!(is_a_usable_filename(good), "{good:?} should be allowed");
    }
    for bad in ["a\u{7f}", "a\u{85}b", "tab\t", ".", "..", " "] {
        assert!(!is_a_usable_filename(bad), "{bad:?} should be refused");
    }
}

/// A length in points.
fn points(length: f32) -> i64 {
    (length * POINT as f32) as i64
}

/// The height of a window, in points.
fn height_of(content: f32, chrome: f32, monitor: Option<f32>) -> f32 {
    fitted_height(points(content), points(chrome), monitor.map(points)) as f32 / POINT as f32
}

/// The window has to be tall enough for its own content.
#[test]
fn the_window_is_asked_to_fit_its_content() {
    // Header 38 + footer 152, and enough cards to need scrolling at any window
    // size a person would accept.
    assert_eq!(height_of(760.0, 190.0, Some(1080.0)), 950.0);
}

/// A window taller than the monitor hides its own bottom edge.
#[test]
fn a_short_screen_shortens_the_window_instead_of_the_content() {
    // A 720-point laptop screen, with content that wants 950.
    assert_eq!(
        height_of(760.0, 190.0, Some(720.0)),
        720.0 - FIT_MARGIN as f32 / POINT as f32
    );

    // With no monitor size reported yet, unclamped.
    assert_eq!(height_of(760.0, 190.0, None), 950.0);
}

/// A window shorter than the floor is useless even when it fits.
#[test]
fn the_window_never_shrinks_past_the_header_and_the_footer() {
    let floor = MIN_PANEL_HEIGHT as f32 / POINT as f32;
    assert_eq!(height_of(0.0, 0.0, Some(1080.0)), floor);
    // A tiny monitor: the floor still wins, so the OS clamps the window instead
    // of this code producing one too short for its own controls.
    assert_eq!(height_of(600.0, 190.0, Some(300.0)), floor);
}

#[test]
fn a_fraction_of_a_point_is_a_whole_point() {
    assert_eq!(height_of(760.25, 190.5, None), 951.0);
    assert_eq!(height_of(760.5, 189.5, None), 950.0);
    assert_eq!(height_of(-20.0, -5.5, None), 480.0);
}

fn id(index: u64) -> PresetId {
    PresetId { index }
}

fn entry(index: u64, name: &str, file_name: &str) -> PresetEntry {
    PresetEntry {
        name: name.to_owned(),
        path: id(index),
        stem: Some(file_name.trim_end_matches(".fac").to_owned()),
        file_name: Some(file_name.to_owned()),
    }
}

fn status() -> EngineStatus {
    EngineStatus {
        running: true,
        virtual_present: true,
        active_preset: None,
        presets_revision: 4,
        last_save: None,
        last_error: None,
        source_description: None,
        sink_description: None,
        latency_ms: 120,
        underruns: 3,
        overruns: 0,
    }
}

fn panel() -> PanelApp {
    PanelApp::new(PanelShared {
        params: SharedParams { enabled: true, eq_on: true, num_bands: 10 },
        status: status(),
        presets: vec![entry(1, "Rock", "rock.fac"), entry(2, "Jazz", "jazz.fac")],
    })
}

fn saved(file_name: &str, ok: bool, revision: u64) -> EngineStatus {
    EngineStatus {
        presets_revision: revision,
        last_save: Some(SaveReport { file_name: file_name.to_owned(), ok }),
        ..status()
    }
}

#[test]
fn one_window_exists_at_a_time() {
    let mut gate = PanelGate::new();
    assert!(!is_open(&gate));
    for failed in [Delivery::NoThread, Delivery::ThreadStopped] {
        assert!(spawn(&mut gate));
        assert!(is_open(&gate));
        assert!(!handed_over(&mut gate, failed));
        assert!(!is_open(&gate));
    }
    assert!(spawn(&mut gate));
    // Reserved from here on: nothing more is sent.
    assert!(!spawn(&mut gate));
    assert!(handed_over(&mut gate, Delivery::Delivered));
    assert!(is_open(&gate));
    assert!(!spawn(&mut gate));
    gate.close();
    assert!(!is_open(&gate));
    assert!(spawn(&mut gate));
}

#[test]
fn a_window_that_closes_at_once_can_be_reopened() {
    let mut gate = PanelGate::new();
    assert!(spawn(&mut gate));
    gate.close();
    assert!(handed_over(&mut gate, Delivery::Delivered));
    assert!(!is_open(&gate));
    assert!(spawn(&mut gate));
}

#[test]
fn a_name_is_asked_for_and_checked() {
    let mut app = panel();
    app.save_name = " \u{3000} ".to_owned();
    assert_eq!(app.request_save(Lang::En), None);
    let feedback = app.save_feedback.as_ref().unwrap();
    assert_eq!(feedback.message, "Give the preset a name first");
    assert!(!feedback.ok);

    app.save_name = "a/b".to_owned();
    assert_eq!(app.request_save(Lang::Zh), None);
    let feedback = app.save_feedback.as_ref().unwrap();
    assert_eq!(
        feedback.message,
        "名称含文件名不允许的字符（\\ / : * ? \" < > |），或与系统保留名重名"
    );
    assert!(!feedback.ok);

    app.save_name = "  My Tune  ".to_owned();
    assert_eq!(app.request_save(Lang::En), Some("My Tune".to_owned()));
}

#[test]
fn a_folder_that_cannot_be_made_fails_the_save() {
    let mut app = panel();
    assert!(!app.folder_prepared(Lang::En, false));
    assert_eq!(app.save_feedback.as_ref().unwrap().message, "Could not save; see the log");
    assert!(app.folder_prepared(Lang::En, true));
    assert!(app.save_feedback.is_none());
}

#[test]
fn a_save_is_reported_once() {
    let mut app = panel();
    assert_eq!(app.adopt_preset_changes(Lang::En, &saved("old.fac", true, 4)), None);
    assert!(app.save_feedback.is_none());

    let written = app.adopt_preset_changes(Lang::En, &saved("new.fac", true, 5));
    assert_eq!(written, Some("new.fac".to_owned()));
    assert_eq!(app.save_feedback.as_ref().unwrap().message, "Saved new.fac");
    assert!(app.save_feedback.as_ref().unwrap().ok);
    assert_eq!(app.adopt_preset_changes(Lang::En, &saved("new.fac", true, 5)), None);

    let written = app.adopt_preset_changes(Lang::En, &saved("jazz.fac", true, 6));
    assert_eq!(written, Some("jazz.fac".to_owned()));
    assert_eq!(app.save_feedback.as_ref().unwrap().message, "Overwrote jazz.fac");

    assert_eq!(app.adopt_preset_changes(Lang::Zh, &saved("x.fac", false, 7)), None);
    assert_eq!(app.save_feedback.as_ref().unwrap().message, "保存失败，详见日志");
    assert!(!app.save_feedback.as_ref().unwrap().ok);
}

#[test]
fn a_new_revision_without_a_report_is_only_noted() {
    let mut app = panel();
    let bare = EngineStatus { presets_revision: 9, ..status() };
    assert_eq!(app.adopt_preset_changes(Lang::En, &bare), None);
    assert!(app.save_feedback.is_none());
    assert_eq!(app.seen_revision, 9);
}

#[test]
fn what_was_written_becomes_the_choice() {
    let mut app = panel();
    let effect = app.rescanned(vec![entry(3, "New", "new.fac")], id(3), true);
    assert_eq!(effect, Some(PanelEffect::PublishPreset(id(3))));
    assert_eq!(app.presets.len(), 1);
    assert_eq!(app.rescanned(Vec::new(), id(3), false), None);
    assert!(app.presets.is_empty());
}

#[test]
fn loading_a_preset_tells_the_engine_and_then_everyone() {
    let app = panel();
    assert_eq!(
        app.load_preset(id(2), true),
        vec![PanelEffect::LoadPreset(id(2)), PanelEffect::PublishPreset(id(2))]
    );
    assert!(app.load_preset(id(2), false).is_empty());
}

#[test]
fn the_preset_list_shows_the_choice() {
    let app = panel();
    let text = &Lang::En.table().panel;
    let card = app.preset_card(text, Some(id(2)));
    assert_eq!(card.current, "Jazz");
    assert_eq!(card.selected, vec![false, true]);
    let card = app.preset_card(text, Some(id(7)));
    assert_eq!(card.current, "—");
    assert_eq!(card.selected, vec![false, false]);
    assert_eq!(app.preset_card(text, None).current, "—");
}

#[test]
fn the_window_is_resized_once() {
    let mut app = panel();
    assert_eq!(app.fit_to_content(POINT - 1, 0, None, None), None);
    assert_eq!(
        app.fit_to_content(700 * POINT, 190 * POINT, None, Some(1080 * POINT)),
        Some((DEFAULT_PANEL_WIDTH, 890 * POINT))
    );
    assert_eq!(app.fit_to_content(300 * POINT, 190 * POINT, None, None), None);

    let mut wide = panel();
    assert_eq!(
        wide.fit_to_content(700 * POINT, 190 * POINT, Some(800 * POINT), None),
        Some((800 * POINT, 890 * POINT))
    );
}

#[test]
fn the_footer_reads_as_one_line() {
    let text = &Lang::En.table().panel;
    let quiet = footer_text(text, &status());
    assert_eq!(quiet.source, "in:  —");
    assert_eq!(quiet.sink, "out:  —");
    assert_eq!(quiet.error, None);
    assert_eq!(quiet.summary, "latency 120 ms · underruns 3 · drops 0");

    let loud = EngineStatus {
        source_description: Some("FxSound".to_owned()),
        sink_description: Some("Speakers".to_owned()),
        last_error: Some("device lost".to_owned()),
        ..status()
    };
    let loud = footer_text(text, &loud);
    assert_eq!(loud.source, "in:  FxSound");
    assert_eq!(loud.sink, "out:  Speakers");
    assert_eq!(loud.error, Some("⚠ device lost".to_owned()));
}

#[test]
fn enter_in_the_name_box_saves() {
    assert!(save_pressed(true, false, false));
    assert!(save_pressed(false, true, true));
    assert!(!save_pressed(false, true, false));
    assert!(!save_pressed(false, false, true));
}

#[test]
fn the_status_says_what_is_missing() {
    let text = &Lang::En.table().panel;
    assert_eq!(status_pill(text, true, false), (Tone::Success, "processing"));
    assert_eq!(status_pill(text, false, true), (Tone::Warning, "idle"));
    assert_eq!(status_pill(text, false, false), (Tone::Danger, "no virtual sound card"));
}

#[test]
fn cards_stand_side_by_side_where_there_is_room() {
    assert_eq!(
        card_columns(TWO_COLUMN_MIN_WIDTH),
        vec![vec![Card::Preset, Card::Effects], vec![Card::Output, Card::Meter]]
    );
    assert_eq!(
        card_columns(TWO_COLUMN_MIN_WIDTH - 1),
        vec![vec![Card::Preset, Card::Effects, Card::Output, Card::Meter]]
    );
}

#[test]
fn the_sliders_are_listed_in_order() {
    let text = &Lang::En.table().panel;
    let effects: Vec<(i32, &str)> =
        effect_rows(text).iter().map(|row| (row.effect, row.label)).collect();
    assert_eq!(
        effects,
        vec![(0, "Fidelity"), (2, "Surround"), (1, "Ambience"), (3, "Dynamic boost"), (4, "Bass")]
    );
    let rows: Vec<(OutputSetting, &str, i32, i32)> = output_rows(text)
        .iter()
        .map(|row| (row.setting, row.label, row.min, row.max))
        .collect();
    assert_eq!(
        rows,
        vec![
            (OutputSetting::Balance, "Balance", -20, 20),
            (OutputSetting::MasterGain, "Master gain", -20, 20),
            (OutputSetting::Normalization, "Normalization", 0, 4),
            (OutputSetting::VolumeLeveling, "Volume leveling", 0, 4),
            (OutputSetting::FilterQ, "Filter Q", 1, 3),
        ]
    );
}

#[test]
fn more_content_is_never_a_shorter_window() {
    let mut last = 0;
    for content in 0..1200 {
        let height = fitted_height(content * POINT + content, 190 * POINT, Some(1080 * POINT));
        assert!(height >= last);
        assert!(height >= MIN_PANEL_HEIGHT);
        assert!(height <= 1080 * POINT - FIT_MARGIN);
        assert_eq!(height % POINT, 0);
        last = height;
    }
}

#[test]
fn what_goes_to_the_engine_is_a_usable_name() {
    for typed in ["", " ", "con", "a/b", " ok ", "end.", "音乐", "\ttab", "x\ty"] {
        let mut app = panel();
        app.save_name = typed.to_owned();
        match app.request_save(Lang::En) {
            Some(name) => {
                assert_eq!(name, typed.trim());
                assert!(is_a_usable_filename(&name));
                assert!(app.save_feedback.is_none());
            }
            None => assert!(!app.save_feedback.unwrap().ok),
        }
    }
}
