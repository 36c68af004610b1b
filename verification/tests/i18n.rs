use fxmini::i18n::{current, index_of, lang_of, resolve, t, CurrentLang, Lang, AUTO};

#[test]
fn config_codes_round_trip() {
    for lang in Lang::ALL {
        assert_eq!(Lang::from_code(lang.code()), Some(lang));
    }
}

#[test]
fn aliases_and_junk() {
    assert_eq!(Lang::from_code("ZH-CN"), Some(Lang::Zh));
    assert_eq!(Lang::from_code(" en "), Some(Lang::En));
    // `auto` must not resolve to a language here: that is `resolve`'s job.
    assert_eq!(Lang::from_code(AUTO), None);
    assert!(Lang::is_auto(AUTO));
    assert!(Lang::is_auto(" Auto "));
    assert!(!Lang::is_auto("zh"));
}

#[test]
fn every_string_is_present_in_both_languages() {
    // The types make a *missing* field impossible; this catches the other
    // mistake, a field left as an empty string because a translation was
    // forgotten.
    for lang in Lang::ALL {
        let strings = lang.table();
        let tray = &strings.tray;
        for (name, value) in [
            ("enabled", tray.enabled),
            ("route_through", tray.route_through),
            ("route_through_done", tray.route_through_done),
            ("panel", tray.panel),
            ("presets", tray.presets),
            ("no_presets", tray.no_presets),
            ("autostart", tray.autostart),
            ("install_driver", tray.install_driver),
            ("remove_driver", tray.remove_driver),
            ("rescan", tray.rescan),
            ("language", tray.language),
            ("quit", tray.quit),
            ("no_preset", tray.no_preset),
            ("not_enhanced", tray.not_enhanced),
            ("tooltip_idle", tray.tooltip_idle),
            ("tooltip_disabled", tray.tooltip_disabled),
            ("tooltip_no_card", tray.tooltip_no_card),
        ] {
            assert!(!value.trim().is_empty(), "{} tray.{name} is empty", lang.code());
        }

        let panel = &strings.panel;
        for (name, value) in [
            ("enabled", panel.enabled),
            ("status_processing", panel.status_processing),
            ("status_idle", panel.status_idle),
            ("status_no_card", panel.status_no_card),
            ("preset", panel.preset),
            ("no_selection", panel.no_selection),
            ("effects", panel.effects),
            ("effect_fidelity", panel.effect_fidelity),
            ("effect_surround", panel.effect_surround),
            ("effect_ambience", panel.effect_ambience),
            ("effect_dynamic_boost", panel.effect_dynamic_boost),
            ("effect_bass", panel.effect_bass),
            ("equalizer", panel.equalizer),
            ("bands", panel.bands),
            ("output", panel.output),
            ("balance", panel.balance),
            ("master_gain", panel.master_gain),
            ("normalization", panel.normalization),
            ("volume_leveling", panel.volume_leveling),
            ("filter_q", panel.filter_q),
            ("spectrum", panel.spectrum),
            ("save_heading", panel.save_heading),
            ("save_name_hint", panel.save_name_hint),
            ("save_button", panel.save_button),
            ("save_help", panel.save_help),
            ("latency_label", panel.latency_label),
            ("underruns_label", panel.underruns_label),
            ("drops_label", panel.drops_label),
            ("saved_ok", panel.saved_ok),
            ("save_name_required", panel.save_name_required),
            ("save_name_invalid", panel.save_name_invalid),
            ("save_overwrote", panel.save_overwrote),
            ("save_failed", panel.save_failed),
        ] {
            assert!(!value.trim().is_empty(), "{} panel.{name} is empty", lang.code());
        }
    }
}

#[test]
fn the_save_messages_actually_interpolate() {
    // `PanelText::saved` substitutes by hand because a format template cannot be
    // a runtime value, so a template that lost its `{}` would silently drop the
    // filename.
    for lang in Lang::ALL {
        let panel = &lang.table().panel;
        for template in [panel.saved_ok, panel.save_overwrote] {
            assert!(
                template.contains("{}"),
                "{}: {template:?} has no placeholder",
                lang.code()
            );
        }
        assert!(panel.saved("x.fac", false).contains("x.fac"));
        assert!(panel.saved("x.fac", true).contains("x.fac"));
    }
}

#[test]
fn selecting_a_language_is_visible_through_t() {
    let mut selected = CurrentLang::new();
    let before = current(&selected);
    fxmini::i18n::set(&mut selected, Lang::En);
    assert_eq!(current(&selected), Lang::En);
    assert_eq!(t(&selected).tray.quit, "Quit");
    fxmini::i18n::set(&mut selected, Lang::Zh);
    assert_eq!(current(&selected), Lang::Zh);
    assert_eq!(t(&selected).tray.quit, "退出");
    fxmini::i18n::set(&mut selected, before);
}

#[test]
fn tooltip_composition_covers_all_four_cases() {
    let text = &Lang::Zh.table().tray;
    assert_eq!(
        text.tooltip_playing(Some("音乐"), None, false),
        "FxMini — 音乐"
    );
    assert_eq!(
        text.tooltip_playing(None, None, false),
        "FxMini — 无预设"
    );
    assert_eq!(
        text.tooltip_playing(None, Some("boom"), false),
        "FxMini — 无预设 (boom)"
    );
    assert_eq!(
        text.tooltip_playing(Some("音乐"), None, true),
        "FxMini — 音乐 — 输出未经增强（默认设备不是虚拟声卡）"
    );
}

#[test]
fn device_lines_fall_back_to_a_dash() {
    assert_eq!(Lang::Zh.table().panel.input_line(None), "in:  —");
    assert_eq!(Lang::En.table().panel.output_line(Some("Speakers")), "out:  Speakers");
    assert_eq!(Lang::Zh.table().panel.latency(120), "延迟 120 ms");
    assert_eq!(Lang::En.table().panel.underruns(3), "underruns 3");
}

#[test]
fn figures_are_exact_at_both_ends() {
    let panel = &Lang::En.table().panel;
    assert_eq!(panel.drops(0), "drops 0");
    assert_eq!(panel.drops(u64::MAX), "drops 18446744073709551615");
    assert_eq!(panel.latency(u32::MAX), "latency 4294967295 ms");
}

#[test]
fn tooltips_carry_an_error_and_a_remark_at_once() {
    assert_eq!(
        Lang::En.table().tray.tooltip_playing(Some("Rock"), Some("boom"), true),
        "FxMini — Rock (boom) — output is NOT enhanced (default device is not the virtual card)"
    );
}

#[test]
fn every_alias_is_known() {
    for code in ["zh", "cn", "zh-cn", "zh-hans", "ZH-Hans", "\tCN\n"] {
        assert_eq!(Lang::from_code(code), Some(Lang::Zh));
    }
    for code in ["en", "en-us", "en-gb", " EN-GB "] {
        assert_eq!(Lang::from_code(code), Some(Lang::En));
    }
    for code in ["", "fr", "zh_cn", "english", "e n", "auto", "中文"] {
        assert_eq!(Lang::from_code(code), None);
    }
    assert!(!Lang::is_auto(""));
    assert!(Lang::is_auto("AUTO"));
}

#[test]
fn the_system_decides_where_the_config_names_no_language() {
    // Simplified, Traditional and Hong Kong Chinese; then English and Japanese.
    for langid in [0x0804, 0x0404, 0x0c04] {
        assert_eq!(Lang::from_system(langid), Lang::Zh);
        assert_eq!(resolve("auto", langid), Lang::Zh);
        assert_eq!(resolve("klingon", langid), Lang::Zh);
        assert_eq!(resolve("en", langid), Lang::En);
    }
    for langid in [0x0409, 0x0809, 0x0411, 0x0400, 0x0014] {
        let expected = if langid & 0xff == 4 { Lang::Zh } else { Lang::En };
        assert_eq!(Lang::from_system(langid), expected);
        assert_eq!(resolve("auto", langid), expected);
        assert_eq!(resolve("zh", langid), Lang::Zh);
    }
}

#[test]
fn a_stored_byte_always_names_a_language() {
    for lang in Lang::ALL {
        assert_eq!(lang_of(index_of(lang)), lang);
    }
    assert_eq!(lang_of(0), Lang::Zh);
    assert_eq!(lang_of(1), Lang::En);
    assert_eq!(lang_of(2), Lang::Zh);
    assert_eq!(lang_of(255), Lang::Zh);
}

#[test]
fn languages_are_listed_by_their_own_names() {
    assert_eq!(Lang::Zh.endonym(), "中文");
    assert_eq!(Lang::En.endonym(), "English");
    assert_eq!(Lang::Zh.code(), "zh");
    assert_eq!(Lang::En.code(), "en");
}

#[test]
fn a_save_message_reads_as_written() {
    let zh = &Lang::Zh.table().panel;
    let en = &Lang::En.table().panel;
    assert_eq!(zh.saved("低音.fac", false), "已保存 低音.fac");
    assert_eq!(zh.saved("低音.fac", true), "已覆盖 低音.fac");
    assert_eq!(en.saved("a{}b.fac", false), "Saved a{}b.fac");
    assert_eq!(en.saved("x.fac", true), "Overwrote x.fac");
}

#[test]
fn long_texts_are_joined_with_one_space() {
    let panel = &Lang::En.table().panel;
    assert_eq!(
        panel.save_help,
        "Stores the current effects, equalizer and output settings as a .fac file, selectable from the tray menu or the list above."
    );
    assert_eq!(
        panel.save_name_invalid,
        "The name has a character Windows forbids in a filename (\\ / : * ? \" < > |), or collides with a reserved device name"
    );
}
