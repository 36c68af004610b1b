//! User-visible text, in Chinese and English.
//!
//! Both languages are one [`Strings`] value each, so a missing translation is a
//! compile error rather than a blank label, and there is no key to misspell.
//!
//! What the engine or a driver hands back is not translated, and neither are
//! `dB`, `Hz` and `kHz`, which are symbols rather than words.
//!
//! Adding a language means a variant of [`Lang`], its spellings, and its table.
use crate::text;
use vstd::prelude::*;

verus! {

broadcast use vstd::string::group_string_axioms;

/// A language the interface can be drawn in.
#[derive(Debug, Clone, Copy, PartialEq, Eq, Structural)]
pub enum Lang {
    Zh,
    En,
}

/// The config spelling that means "ask the system".
///
/// Deliberately not a [`Lang`]: it is an instruction, and [`resolve`] carries it
/// out once, at startup.
pub const AUTO: &'static str = "auto";

/// The language a config spelling names, if it names one.
///
/// White space around the spelling and the case of its ASCII letters are
/// ignored.
pub open spec fn lang_named(code: Seq<char>) -> Option<Lang> {
    let key = text::lowered(text::trimmed(code));
    if key == "zh"@ || key == "cn"@ || key == "zh-cn"@ || key == "zh-hans"@ {
        Some(Lang::Zh)
    } else if key == "en"@ || key == "en-us"@ || key == "en-gb"@ {
        Some(Lang::En)
    } else {
        None
    }
}

/// Whether a config spelling asks for the language to be chosen automatically.
pub open spec fn asks_for_auto(code: Seq<char>) -> bool {
    text::lowered(text::trimmed(code)) == "auto"@
}

/// The language of an interface whose Windows language identifier is `langid`.
///
/// The low byte is the primary language, where 4 is Chinese; the rest is the
/// sublanguage.
pub open spec fn lang_of_system(langid: u16) -> Lang {
    if langid % 256 == 4 {
        Lang::Zh
    } else {
        Lang::En
    }
}

/// The language a config value resolves to: the one it names, and otherwise the
/// system's.
pub open spec fn resolved(config_code: Seq<char>, langid: u16) -> Lang {
    match lang_named(config_code) {
        Some(lang) => lang,
        None => lang_of_system(langid),
    }
}

impl Lang {
    /// Every language, in the order the switcher lists them.
    pub const ALL: [Lang; 2] = [Lang::Zh, Lang::En];

    /// The config-file spelling.
    pub open spec fn spelling(self) -> Seq<char> {
        match self {
            Lang::Zh => "zh"@,
            Lang::En => "en"@,
        }
    }

    /// What the language calls itself.
    pub open spec fn own_name(self) -> Seq<char> {
        match self {
            Lang::Zh => "中文"@,
            Lang::En => "English"@,
        }
    }

    /// This language's strings.
    pub open spec fn strings(self) -> Strings {
        match self {
            Lang::Zh => zh_strings(),
            Lang::En => en_strings(),
        }
    }

    /// The byte this language is stored as.
    pub open spec fn index(self) -> u8 {
        match self {
            Lang::Zh => 0,
            Lang::En => 1,
        }
    }

    /// The config-file spelling.
    pub fn code(self) -> (r: &'static str)
        ensures
            r@ == self.spelling(),
    {
        match self {
            Lang::Zh => "zh",
            Lang::En => "en",
        }
    }

    /// A language's name *in that language*, for the switcher.
    ///
    /// Someone who has landed in the wrong language is looking for the word they
    /// recognise.
    pub fn endonym(self) -> (r: &'static str)
        ensures
            r@ == self.own_name(),
    {
        match self {
            Lang::Zh => "中文",
            Lang::En => "English",
        }
    }

    /// Parses a config-file spelling. `None` for anything unrecognised,
    /// including `"auto"`.
    pub fn from_code(code: &str) -> (r: Option<Self>)
        ensures
            r == lang_named(code@),
    {
        let key = text::trim(code);
        proof {
            spellings_are_lower_case();
        }
        if text::same_ignoring_case(key, "zh") || text::same_ignoring_case(key, "cn")
            || text::same_ignoring_case(key, "zh-cn") || text::same_ignoring_case(key, "zh-hans") {
            Some(Lang::Zh)
        } else if text::same_ignoring_case(key, "en") || text::same_ignoring_case(key, "en-us")
            || text::same_ignoring_case(key, "en-gb") {
            Some(Lang::En)
        } else {
            None
        }
    }

    /// Whether the config asks for this language to be chosen automatically.
    pub fn is_auto(code: &str) -> (r: bool)
        ensures
            r == asks_for_auto(code@),
    {
        proof {
            spellings_are_lower_case();
        }
        text::same_ignoring_case(text::trim(code), AUTO)
    }

    /// What the operating system is set to, given the language identifier of
    /// its interface.
    ///
    /// Any Chinese variant maps to [`Lang::Zh`]; the strings are Simplified,
    /// which a Traditional reader can also read.
    pub fn from_system(langid: u16) -> (r: Self)
        ensures
            r == lang_of_system(langid),
    {
        assert(langid & 0x00ff == langid % 256) by (bit_vector);
        if langid & 0x00ff == 0x04 {
            Lang::Zh
        } else {
            Lang::En
        }
    }

    /// This language's strings.
    pub fn table(self) -> (r: &'static Strings)
        ensures
            *r == self.strings(),
    {
        match self {
            Lang::Zh => &Strings {
                tray: TrayText {
                    enabled: "启用音效",
                    route_through: "输出走 FxMini",
                    route_through_done: "输出已走 FxMini",
                    panel: "调音面板…",
                    presets: "预设",
                    no_presets: "（无预设）",
                    autostart: "开机自启",
                    install_driver: "安装虚拟声卡…",
                    remove_driver: "卸载虚拟声卡",
                    rescan: "重新扫描预设",
                    language: "语言",
                    quit: "退出",
                    no_preset: "无预设",
                    not_enhanced: "输出未经增强（默认设备不是虚拟声卡）",
                    tooltip_idle: "FxMini — 空闲",
                    tooltip_disabled: "FxMini — 已停用",
                    tooltip_no_card: "FxMini — 未安装虚拟声卡",
                },
                panel: PanelText {
                    enabled: "启用",
                    status_processing: "处理中",
                    status_idle: "空闲",
                    status_no_card: "未安装虚拟声卡",
                    preset: "预设",
                    no_selection: "—",
                    effects: "音效",
                    effect_fidelity: "保真度",
                    effect_surround: "环绕",
                    effect_ambience: "空间感",
                    effect_dynamic_boost: "动态增强",
                    effect_bass: "低音",
                    equalizer: "均衡器",
                    bands: "频段数",
                    output: "输出",
                    balance: "左右平衡",
                    master_gain: "总增益",
                    normalization: "响度归一",
                    volume_leveling: "音量均衡",
                    filter_q: "滤波器 Q 值",
                    spectrum: "频谱",
                    save_heading: "保存为预设",
                    save_name_hint: "预设名称",
                    save_button: "保存",
                    save_help: "把当前的音效、均衡与输出设置存成一个 .fac 文件，之后可在托盘菜单或上方列表中选用。",
                    latency_label: "延迟",
                    underruns_label: "欠载",
                    drops_label: "丢帧",
                    saved_ok: "已保存 {}",
                    save_name_required: "请先填写预设名称",
                    save_name_invalid: "名称含文件名不允许的字符（\\ / : * ? \" < > |），或与系统保留名重名",
                    save_overwrote: "已覆盖 {}",
                    save_failed: "保存失败，详见日志",
                },
            },
            Lang::En => &Strings {
                tray: TrayText {
                    enabled: "Enabled",
                    route_through: "Route through FxMini",
                    route_through_done: "Output routed via FxMini",
                    panel: "Tuning panel…",
                    presets: "Presets",
                    no_presets: "(none found)",
                    autostart: "Start with Windows",
                    install_driver: "Install sound card…",
                    remove_driver: "Remove sound card",
                    rescan: "Rescan presets",
                    language: "Language",
                    quit: "Quit",
                    no_preset: "no preset",
                    not_enhanced: "output is NOT enhanced (default device is not the virtual card)",
                    tooltip_idle: "FxMini — idle",
                    tooltip_disabled: "FxMini — disabled",
                    tooltip_no_card: "FxMini — virtual sound card not installed",
                },
                panel: PanelText {
                    enabled: "Enabled",
                    status_processing: "processing",
                    status_idle: "idle",
                    status_no_card: "no virtual sound card",
                    preset: "Preset",
                    no_selection: "—",
                    effects: "Effects",
                    effect_fidelity: "Fidelity",
                    effect_surround: "Surround",
                    effect_ambience: "Ambience",
                    effect_dynamic_boost: "Dynamic boost",
                    effect_bass: "Bass",
                    equalizer: "Equalizer",
                    bands: "Bands",
                    output: "Output",
                    balance: "Balance",
                    master_gain: "Master gain",
                    normalization: "Normalization",
                    volume_leveling: "Volume leveling",
                    filter_q: "Filter Q",
                    spectrum: "Spectrum",
                    save_heading: "Save as preset",
                    save_name_hint: "Preset name",
                    save_button: "Save",
                    save_help: "Stores the current effects, equalizer and output settings as a .fac file, selectable from the tray menu or the list above.",
                    latency_label: "latency",
                    underruns_label: "underruns",
                    drops_label: "drops",
                    saved_ok: "Saved {}",
                    save_name_required: "Give the preset a name first",
                    save_name_invalid: "The name has a character Windows forbids in a filename (\\ / : * ? \" < > |), or collides with a reserved device name",
                    save_overwrote: "Overwrote {}",
                    save_failed: "Could not save; see the log",
                },
            },
        }
    }
}

proof fn spellings_are_lower_case()
    ensures
        text::lowered("zh"@) == "zh"@,
        text::lowered("cn"@) == "cn"@,
        text::lowered("zh-cn"@) == "zh-cn"@,
        text::lowered("zh-hans"@) == "zh-hans"@,
        text::lowered("en"@) == "en"@,
        text::lowered("en-us"@) == "en-us"@,
        text::lowered("en-gb"@) == "en-gb"@,
        text::lowered("auto"@) == "auto"@,
{
    reveal_strlit("zh");
    reveal_strlit("cn");
    reveal_strlit("zh-cn");
    reveal_strlit("zh-hans");
    reveal_strlit("en");
    reveal_strlit("en-us");
    reveal_strlit("en-gb");
    reveal_strlit("auto");
    assert(text::lowered("zh"@) =~= "zh"@);
    assert(text::lowered("cn"@) =~= "cn"@);
    assert(text::lowered("zh-cn"@) =~= "zh-cn"@);
    assert(text::lowered("zh-hans"@) =~= "zh-hans"@);
    assert(text::lowered("en"@) =~= "en"@);
    assert(text::lowered("en-us"@) =~= "en-us"@);
    assert(text::lowered("en-gb"@) =~= "en-gb"@);
    assert(text::lowered("auto"@) =~= "auto"@);
}

/// The interface language in force, stored as an index.
///
/// An index rather than the enum itself, so that it fits one byte that several
/// threads can share. [`index_of`] and [`lang_of`] are the only places that
/// mapping lives.
pub struct CurrentLang {
    index: u8,
}

impl CurrentLang {
    /// The language in force.
    pub closed spec fn lang(self) -> Lang {
        lang_at(self.index)
    }

    /// The first language of [`Lang::ALL`], until one is set.
    pub fn new() -> (r: Self)
        ensures
            r.lang() == Lang::Zh,
    {
        CurrentLang { index: 0 }
    }
}

/// Sets the interface language.
pub fn set(selected: &mut CurrentLang, lang: Lang)
    ensures
        final(selected).lang() == lang,
{
    selected.index = index_of(lang);
}

/// The current language.
pub fn current(selected: &CurrentLang) -> (r: Lang)
    ensures
        r == selected.lang(),
{
    lang_of(selected.index)
}

/// The current language's strings. The one call most code makes.
pub fn t(selected: &CurrentLang) -> (r: &'static Strings)
    ensures
        *r == selected.lang().strings(),
{
    current(selected).table()
}

/// Turns a config value into a language, consulting the system (whose language
/// identifier is `langid`) for `"auto"`.
///
/// An unrecognised value is treated as `"auto"` rather than as an error: a
/// hand-edited config with a typo in it should still show *a* language.
pub fn resolve(config_code: &str, langid: u16) -> (r: Lang)
    ensures
        r == resolved(config_code@, langid),
{
    match Lang::from_code(config_code) {
        Some(lang) => lang,
        None => Lang::from_system(langid),
    }
}

/// The language a stored byte stands for. Every byte stands for one.
pub open spec fn lang_at(index: u8) -> Lang {
    if index == 1 {
        Lang::En
    } else {
        Lang::Zh
    }
}

/// The byte a language is stored as.
pub fn index_of(lang: Lang) -> (r: u8)
    ensures
        r == lang.index(),
{
    match lang {
        Lang::Zh => 0,
        Lang::En => 1,
    }
}

/// The language a stored byte stands for.
pub fn lang_of(index: u8) -> (r: Lang)
    ensures
        r == lang_at(index),
{
    match index {
        1 => Lang::En,
        _ => Lang::Zh,
    }
}

/// Every string the interface can show.
pub struct Strings {
    pub tray: TrayText,
    pub panel: PanelText,
}

/// The tray menu.
///
/// Kept terse on purpose: the menu is scanned rather than read, and it is drawn
/// against the screen edge, where a long label is clipped rather than wrapped.
pub struct TrayText {
    pub enabled: &'static str,
    pub route_through: &'static str,
    /// The route entry once the output is routed.
    pub route_through_done: &'static str,
    pub panel: &'static str,
    pub presets: &'static str,
    pub no_presets: &'static str,
    pub autostart: &'static str,
    pub install_driver: &'static str,
    pub remove_driver: &'static str,
    pub rescan: &'static str,
    pub language: &'static str,
    pub quit: &'static str,
    /// Tooltip fragments; composed by [`TrayText::tooltip_playing`].
    pub no_preset: &'static str,
    pub not_enhanced: &'static str,
    pub tooltip_idle: &'static str,
    pub tooltip_disabled: &'static str,
    pub tooltip_no_card: &'static str,
}

impl TrayText {
    /// The tray tooltip while audio is being processed: the name of the preset
    /// or the word for none, the error in brackets if there is one, and the
    /// remark that the output bypasses the enhancer if it does.
    pub open spec fn playing(
        self,
        preset: Option<Seq<char>>,
        error: Option<Seq<char>>,
        not_enhanced: bool,
    ) -> Seq<char> {
        let name = match preset {
            Some(name) => name,
            None => self.no_preset@,
        };
        let trouble = match error {
            Some(error) => " ("@ + error + ")"@,
            None => Seq::empty(),
        };
        let remark = if not_enhanced {
            " — "@ + self.not_enhanced@
        } else {
            Seq::empty()
        };
        "FxMini — "@ + name + trouble + remark
    }

    /// The tray tooltip while audio is being processed, e.g.
    /// `FxMini — 音乐 — 输出未经增强（默认设备不是虚拟声卡）`.
    pub fn tooltip_playing(
        &self,
        preset: Option<&str>,
        error: Option<&str>,
        not_enhanced: bool,
    ) -> (r: String)
        ensures
            r@ == self.playing(text_of(preset), text_of(error), not_enhanced),
    {
        let mut tip = String::new();
        tip.append("FxMini — ");
        match preset {
            Some(name) => tip.append(name),
            None => tip.append(self.no_preset),
        }
        if let Some(error) = error {
            tip.append(" (");
            tip.append(error);
            tip.append(")");
        }
        if not_enhanced {
            tip.append(" — ");
            tip.append(self.not_enhanced);
        }
        assert(tip@ =~= self.playing(text_of(preset), text_of(error), not_enhanced));
        tip
    }
}

/// The characters of a text that may be absent.
pub open spec fn text_of(s: Option<&str>) -> Option<Seq<char>> {
    match s {
        Some(s) => Some(s@),
        None => None,
    }
}

/// The tuning panel.
pub struct PanelText {
    pub enabled: &'static str,
    pub status_processing: &'static str,
    pub status_idle: &'static str,
    pub status_no_card: &'static str,
    pub preset: &'static str,
    pub no_selection: &'static str,
    pub effects: &'static str,
    pub effect_fidelity: &'static str,
    pub effect_surround: &'static str,
    pub effect_ambience: &'static str,
    pub effect_dynamic_boost: &'static str,
    pub effect_bass: &'static str,
    pub equalizer: &'static str,
    pub bands: &'static str,
    pub output: &'static str,
    pub balance: &'static str,
    pub master_gain: &'static str,
    pub normalization: &'static str,
    pub volume_leveling: &'static str,
    pub filter_q: &'static str,
    pub spectrum: &'static str,
    pub save_heading: &'static str,
    pub save_name_hint: &'static str,
    pub save_button: &'static str,
    pub save_help: &'static str,
    /// Footer counters. The number is appended by the methods below.
    pub latency_label: &'static str,
    pub underruns_label: &'static str,
    pub drops_label: &'static str,
    /// Save-result messages.
    pub saved_ok: &'static str,
    pub save_name_required: &'static str,
    pub save_name_invalid: &'static str,
    pub save_overwrote: &'static str,
    pub save_failed: &'static str,
}

/// A device line: the label, two spaces, and the device or a dash.
pub open spec fn device_text(label: Seq<char>, description: Option<Seq<char>>) -> Seq<char> {
    label + "  "@ + match description {
        Some(device) => device,
        None => "—"@,
    }
}

/// A counter: the label, a space, and the figure.
pub open spec fn counter_text(label: Seq<char>, count: nat) -> Seq<char> {
    label + " "@ + text::decimal(count)
}

impl PanelText {
    /// The template of the message shown after a save.
    pub open spec fn save_template(self, overwrote: bool) -> Seq<char> {
        if overwrote {
            self.save_overwrote@
        } else {
            self.saved_ok@
        }
    }

    /// The latency counter, with its unit.
    pub open spec fn latency_text(self, ms: nat) -> Seq<char> {
        counter_text(self.latency_label@, ms) + " ms"@
    }

    /// `in:  <device>`, or `in:  —` when there is nothing to report.
    pub fn input_line(&self, description: Option<&str>) -> (r: String)
        ensures
            r@ == device_text("in:"@, text_of(description)),
    {
        self.device_line("in:", description)
    }

    /// `out:  <device>`, or `out:  —`.
    pub fn output_line(&self, description: Option<&str>) -> (r: String)
        ensures
            r@ == device_text("out:"@, text_of(description)),
    {
        self.device_line("out:", description)
    }

    /// `in:` and `out:` stay as they are in both languages: they are narrow
    /// enough not to wrap, and a device name beside them explains itself.
    fn device_line(&self, label: &str, description: Option<&str>) -> (r: String)
        ensures
            r@ == device_text(label@, text_of(description)),
    {
        let mut line = label.to_owned();
        line.append("  ");
        match description {
            Some(device) => line.append(device),
            None => line.append("—"),
        }
        line
    }

    /// A counter: the label, a space, and the figure.
    fn counter(&self, label: &str, count: u64) -> (r: String)
        ensures
            r@ == counter_text(label@, count as nat),
    {
        let mut line = label.to_owned();
        line.append(" ");
        text::push_decimal(&mut line, count);
        line
    }

    pub fn latency(&self, ms: u32) -> (r: String)
        ensures
            r@ == self.latency_text(ms as nat),
    {
        let mut line = self.counter(self.latency_label, ms as u64);
        line.append(" ms");
        line
    }

    pub fn underruns(&self, count: u64) -> (r: String)
        ensures
            r@ == counter_text(self.underruns_label@, count as nat),
    {
        self.counter(self.underruns_label, count)
    }

    pub fn drops(&self, count: u64) -> (r: String)
        ensures
            r@ == counter_text(self.drops_label@, count as nat),
    {
        self.counter(self.drops_label, count)
    }

    /// The message shown after a save, given the file that was written and
    /// whether it replaced something.
    pub fn saved(&self, filename: &str, overwrote: bool) -> (r: String)
        ensures
            r@ == text::filled(self.save_template(overwrote), filename@),
    {
        let template = if overwrote {
            self.save_overwrote
        } else {
            self.saved_ok
        };
        text::fill(template, filename)
    }
}

/// Chinese (Simplified).
pub open spec fn zh_strings() -> Strings {
    Strings {
        tray: TrayText {
            enabled: "启用音效",
            route_through: "输出走 FxMini",
            route_through_done: "输出已走 FxMini",
            panel: "调音面板…",
            presets: "预设",
            no_presets: "（无预设）",
            autostart: "开机自启",
            install_driver: "安装虚拟声卡…",
            remove_driver: "卸载虚拟声卡",
            rescan: "重新扫描预设",
            language: "语言",
            quit: "退出",
            no_preset: "无预设",
            not_enhanced: "输出未经增强（默认设备不是虚拟声卡）",
            tooltip_idle: "FxMini — 空闲",
            tooltip_disabled: "FxMini — 已停用",
            tooltip_no_card: "FxMini — 未安装虚拟声卡",
        },
        panel: PanelText {
            enabled: "启用",
            status_processing: "处理中",
            status_idle: "空闲",
            status_no_card: "未安装虚拟声卡",
            preset: "预设",
            no_selection: "—",
            effects: "音效",
            effect_fidelity: "保真度",
            effect_surround: "环绕",
            effect_ambience: "空间感",
            effect_dynamic_boost: "动态增强",
            effect_bass: "低音",
            equalizer: "均衡器",
            bands: "频段数",
            output: "输出",
            balance: "左右平衡",
            master_gain: "总增益",
            normalization: "响度归一",
            volume_leveling: "音量均衡",
            filter_q: "滤波器 Q 值",
            spectrum: "频谱",
            save_heading: "保存为预设",
            save_name_hint: "预设名称",
            save_button: "保存",
            save_help: "把当前的音效、均衡与输出设置存成一个 .fac 文件，之后可在托盘菜单或上方列表中选用。",
            latency_label: "延迟",
            underruns_label: "欠载",
            drops_label: "丢帧",
            saved_ok: "已保存 {}",
            save_name_required: "请先填写预设名称",
            save_name_invalid: "名称含文件名不允许的字符（\\ / : * ? \" < > |），或与系统保留名重名",
            save_overwrote: "已覆盖 {}",
            save_failed: "保存失败，详见日志",
        },
    }
}

/// English.
pub open spec fn en_strings() -> Strings {
    Strings {
        tray: TrayText {
            enabled: "Enabled",
            route_through: "Route through FxMini",
            route_through_done: "Output routed via FxMini",
            panel: "Tuning panel…",
            presets: "Presets",
            no_presets: "(none found)",
            autostart: "Start with Windows",
            install_driver: "Install sound card…",
            remove_driver: "Remove sound card",
            rescan: "Rescan presets",
            language: "Language",
            quit: "Quit",
            no_preset: "no preset",
            not_enhanced: "output is NOT enhanced (default device is not the virtual card)",
            tooltip_idle: "FxMini — idle",
            tooltip_disabled: "FxMini — disabled",
            tooltip_no_card: "FxMini — virtual sound card not installed",
        },
        panel: PanelText {
            enabled: "Enabled",
            status_processing: "processing",
            status_idle: "idle",
            status_no_card: "no virtual sound card",
            preset: "Preset",
            no_selection: "—",
            effects: "Effects",
            effect_fidelity: "Fidelity",
            effect_surround: "Surround",
            effect_ambience: "Ambience",
            effect_dynamic_boost: "Dynamic boost",
            effect_bass: "Bass",
            equalizer: "Equalizer",
            bands: "Bands",
            output: "Output",
            balance: "Balance",
            master_gain: "Master gain",
            normalization: "Normalization",
            volume_leveling: "Volume leveling",
            filter_q: "Filter Q",
            spectrum: "Spectrum",
            save_heading: "Save as preset",
            save_name_hint: "Preset name",
            save_button: "Save",
            save_help: "Stores the current effects, equalizer and output settings as a .fac file, selectable from the tray menu or the list above.",
            latency_label: "latency",
            underruns_label: "underruns",
            drops_label: "drops",
            saved_ok: "Saved {}",
            save_name_required: "Give the preset a name first",
            save_name_invalid: "The name has a character Windows forbids in a filename (\\ / : * ? \" < > |), or collides with a reserved device name",
            save_overwrote: "Overwrote {}",
            save_failed: "Could not save; see the log",
        },
    }
}

/// Whether there is something to read in `s`.
pub open spec fn has_text(s: &str) -> bool {
    text::trimmed(s@).len() > 0
}

/// Whether no string of a table is blank.
pub open spec fn complete(strings: Strings) -> bool {
    &&& has_text(strings.tray.enabled)
    &&& has_text(strings.tray.route_through)
    &&& has_text(strings.tray.route_through_done)
    &&& has_text(strings.tray.panel)
    &&& has_text(strings.tray.presets)
    &&& has_text(strings.tray.no_presets)
    &&& has_text(strings.tray.autostart)
    &&& has_text(strings.tray.install_driver)
    &&& has_text(strings.tray.remove_driver)
    &&& has_text(strings.tray.rescan)
    &&& has_text(strings.tray.language)
    &&& has_text(strings.tray.quit)
    &&& has_text(strings.tray.no_preset)
    &&& has_text(strings.tray.not_enhanced)
    &&& has_text(strings.tray.tooltip_idle)
    &&& has_text(strings.tray.tooltip_disabled)
    &&& has_text(strings.tray.tooltip_no_card)
    &&& has_text(strings.panel.enabled)
    &&& has_text(strings.panel.status_processing)
    &&& has_text(strings.panel.status_idle)
    &&& has_text(strings.panel.status_no_card)
    &&& has_text(strings.panel.preset)
    &&& has_text(strings.panel.no_selection)
    &&& has_text(strings.panel.effects)
    &&& has_text(strings.panel.effect_fidelity)
    &&& has_text(strings.panel.effect_surround)
    &&& has_text(strings.panel.effect_ambience)
    &&& has_text(strings.panel.effect_dynamic_boost)
    &&& has_text(strings.panel.effect_bass)
    &&& has_text(strings.panel.equalizer)
    &&& has_text(strings.panel.bands)
    &&& has_text(strings.panel.output)
    &&& has_text(strings.panel.balance)
    &&& has_text(strings.panel.master_gain)
    &&& has_text(strings.panel.normalization)
    &&& has_text(strings.panel.volume_leveling)
    &&& has_text(strings.panel.filter_q)
    &&& has_text(strings.panel.spectrum)
    &&& has_text(strings.panel.save_heading)
    &&& has_text(strings.panel.save_name_hint)
    &&& has_text(strings.panel.save_button)
    &&& has_text(strings.panel.save_help)
    &&& has_text(strings.panel.latency_label)
    &&& has_text(strings.panel.underruns_label)
    &&& has_text(strings.panel.drops_label)
    &&& has_text(strings.panel.saved_ok)
    &&& has_text(strings.panel.save_name_required)
    &&& has_text(strings.panel.save_name_invalid)
    &&& has_text(strings.panel.save_overwrote)
    &&& has_text(strings.panel.save_failed)
}

proof fn a_visible_first_character_is_text()
    ensures
        forall|s: &str|
            s@.len() > 0 && !text::white_space(#[trigger] s@[0]) ==> has_text(s),
{
    assert forall|s: &str| s@.len() > 0 && !text::white_space(#[trigger] s@[0]) implies has_text(
        s,
    ) by {
        text::trimming_takes_white_space_only(s@);
        let (from, to) = choose|from: int, to: int|
            {
                &&& 0 <= from <= to <= s@.len()
                &&& text::trimmed(s@) == #[trigger] s@.subrange(from, to)
                &&& forall|i: int| 0 <= i < from || to <= i < s@.len() ==> text::white_space(s@[i])
            };
        assert(from <= 0 < to);
    }
}

/// No string is left blank in any language.
pub proof fn every_language_is_complete(lang: Lang)
    ensures
        complete(lang.strings()),
{
    a_visible_first_character_is_text();
    match lang {
        Lang::Zh => {
            reveal_strlit("启用音效");
            reveal_strlit("输出走 FxMini");
            reveal_strlit("输出已走 FxMini");
            reveal_strlit("调音面板…");
            reveal_strlit("预设");
            reveal_strlit("（无预设）");
            reveal_strlit("开机自启");
            reveal_strlit("安装虚拟声卡…");
            reveal_strlit("卸载虚拟声卡");
            reveal_strlit("重新扫描预设");
            reveal_strlit("语言");
            reveal_strlit("退出");
            reveal_strlit("无预设");
            reveal_strlit("输出未经增强（默认设备不是虚拟声卡）");
            reveal_strlit("FxMini — 空闲");
            reveal_strlit("FxMini — 已停用");
            reveal_strlit("FxMini — 未安装虚拟声卡");
            reveal_strlit("启用");
            reveal_strlit("处理中");
            reveal_strlit("空闲");
            reveal_strlit("未安装虚拟声卡");
            reveal_strlit("—");
            reveal_strlit("音效");
            reveal_strlit("保真度");
            reveal_strlit("环绕");
            reveal_strlit("空间感");
            reveal_strlit("动态增强");
            reveal_strlit("低音");
            reveal_strlit("均衡器");
            reveal_strlit("频段数");
            reveal_strlit("输出");
            reveal_strlit("左右平衡");
            reveal_strlit("总增益");
            reveal_strlit("响度归一");
            reveal_strlit("音量均衡");
            reveal_strlit("滤波器 Q 值");
            reveal_strlit("频谱");
            reveal_strlit("保存为预设");
            reveal_strlit("预设名称");
            reveal_strlit("保存");
            reveal_strlit("把当前的音效、均衡与输出设置存成一个 .fac 文件，之后可在托盘菜单或上方列表中选用。");
            reveal_strlit("延迟");
            reveal_strlit("欠载");
            reveal_strlit("丢帧");
            reveal_strlit("已保存 {}");
            reveal_strlit("请先填写预设名称");
            reveal_strlit("名称含文件名不允许的字符（\\ / : * ? \" < > |），或与系统保留名重名");
            reveal_strlit("已覆盖 {}");
            reveal_strlit("保存失败，详见日志");
        },
        Lang::En => {
            reveal_strlit("Enabled");
            reveal_strlit("Route through FxMini");
            reveal_strlit("Output routed via FxMini");
            reveal_strlit("Tuning panel…");
            reveal_strlit("Presets");
            reveal_strlit("(none found)");
            reveal_strlit("Start with Windows");
            reveal_strlit("Install sound card…");
            reveal_strlit("Remove sound card");
            reveal_strlit("Rescan presets");
            reveal_strlit("Language");
            reveal_strlit("Quit");
            reveal_strlit("no preset");
            reveal_strlit("output is NOT enhanced (default device is not the virtual card)");
            reveal_strlit("FxMini — idle");
            reveal_strlit("FxMini — disabled");
            reveal_strlit("FxMini — virtual sound card not installed");
            reveal_strlit("processing");
            reveal_strlit("idle");
            reveal_strlit("no virtual sound card");
            reveal_strlit("Preset");
            reveal_strlit("—");
            reveal_strlit("Effects");
            reveal_strlit("Fidelity");
            reveal_strlit("Surround");
            reveal_strlit("Ambience");
            reveal_strlit("Dynamic boost");
            reveal_strlit("Bass");
            reveal_strlit("Equalizer");
            reveal_strlit("Bands");
            reveal_strlit("Output");
            reveal_strlit("Balance");
            reveal_strlit("Master gain");
            reveal_strlit("Normalization");
            reveal_strlit("Volume leveling");
            reveal_strlit("Filter Q");
            reveal_strlit("Spectrum");
            reveal_strlit("Save as preset");
            reveal_strlit("Preset name");
            reveal_strlit("Save");
            reveal_strlit("Stores the current effects, equalizer and output settings as a .fac file, selectable from the tray menu or the list above.");
            reveal_strlit("latency");
            reveal_strlit("underruns");
            reveal_strlit("drops");
            reveal_strlit("Saved {}");
            reveal_strlit("Give the preset a name first");
            reveal_strlit("The name has a character Windows forbids in a filename (\\ / : * ? \" < > |), or collides with a reserved device name");
            reveal_strlit("Overwrote {}");
            reveal_strlit("Could not save; see the log");
        },
    }
}

/// A language's own config spelling names that language.
pub proof fn config_spellings_round_trip(lang: Lang)
    ensures
        lang_named(lang.spelling()) == Some(lang),
{
    reveal_strlit("zh");
    reveal_strlit("en");
    spellings_are_lower_case();
    let code = lang.spelling();
    reveal_with_fuel(text::trim_start, 2);
    reveal_with_fuel(text::trim_end, 2);
    assert(text::trimmed(code) == code);
    assert("zh"@[0] != "en"@[0]);
    reveal_strlit("cn");
    reveal_strlit("zh-cn");
    reveal_strlit("zh-hans");
    assert("cn"@[0] != "en"@[0]);
}

/// White space around a spelling and the case of its letters change nothing:
/// two spellings that agree up to those name the same language, and agree on
/// whether they ask for it to be chosen automatically.
pub proof fn spelling_details_do_not_matter(a: Seq<char>, b: Seq<char>)
    requires
        text::lowered(text::trimmed(a)) == text::lowered(text::trimmed(b)),
    ensures
        lang_named(a) == lang_named(b),
        asks_for_auto(a) == asks_for_auto(b),
{
}

/// A spelling that asks for the language to be chosen automatically names none,
/// so the system decides.
pub proof fn auto_names_no_language(code: Seq<char>, langid: u16)
    requires
        asks_for_auto(code),
    ensures
        lang_named(code) is None,
        resolved(code, langid) == lang_of_system(langid),
{
    reveal_strlit("auto");
    reveal_strlit("zh");
    reveal_strlit("cn");
    reveal_strlit("zh-cn");
    reveal_strlit("zh-hans");
    reveal_strlit("en");
    reveal_strlit("en-us");
    reveal_strlit("en-gb");
    assert("auto"@[0] == 'a');
    assert("zh"@[0] == 'z');
    assert("cn"@[0] == 'c');
    assert("zh-cn"@[0] == 'z');
    assert("zh-hans"@[0] == 'z');
    assert("en"@[0] == 'e');
    assert("en-us"@[0] == 'e');
    assert("en-gb"@[0] == 'e');
}

/// The stored byte gives back the language it was stored for, and no two
/// languages share one.
pub proof fn stored_languages_come_back(a: Lang, b: Lang)
    ensures
        lang_at(a.index()) == a,
        a.index() == b.index() ==> a == b,
{
}

/// The message after a save names the file, in every language, whether or not
/// the save replaced something.
pub proof fn the_save_message_names_the_file(lang: Lang, filename: Seq<char>, overwrote: bool)
    ensures
        text::contains_text(
            text::filled(lang.strings().panel.save_template(overwrote), filename),
            filename,
        ),
{
    reveal_strlit("已保存 {}");
    reveal_strlit("已覆盖 {}");
    reveal_strlit("Saved {}");
    reveal_strlit("Overwrote {}");
    let template = lang.strings().panel.save_template(overwrote);
    text::a_placeholder_shows_its_value(template, filename, template.len() - 2);
}

// ---------------------------------------------------------------------------
// What each text reads

/// Whether a text reads `chinese` in Chinese and `english` in English.
pub open spec fn reads(lang: Lang, shown: Seq<char>, chinese: Seq<char>, english: Seq<char>) -> bool {
    match lang {
        Lang::Zh => shown == chinese,
        Lang::En => shown == english,
    }
}

/// The dictionary: what the interface says in either language.
pub proof fn both_languages_say_the_same(lang: Lang, words: &'static Strings)
    requires
        call_ensures(Lang::table, (lang,), words),
    ensures
        reads(lang, words.tray.enabled@, "启用音效"@, "Enabled"@),
        reads(lang, words.tray.route_through@, "输出走 FxMini"@, "Route through FxMini"@),
        reads(lang, words.tray.route_through_done@, "输出已走 FxMini"@, "Output routed via FxMini"@),
        reads(lang, words.tray.panel@, "调音面板…"@, "Tuning panel…"@),
        reads(lang, words.tray.presets@, "预设"@, "Presets"@),
        reads(lang, words.tray.no_presets@, "（无预设）"@, "(none found)"@),
        reads(lang, words.tray.autostart@, "开机自启"@, "Start with Windows"@),
        reads(lang, words.tray.install_driver@, "安装虚拟声卡…"@, "Install sound card…"@),
        reads(lang, words.tray.remove_driver@, "卸载虚拟声卡"@, "Remove sound card"@),
        reads(lang, words.tray.rescan@, "重新扫描预设"@, "Rescan presets"@),
        reads(lang, words.tray.language@, "语言"@, "Language"@),
        reads(lang, words.tray.quit@, "退出"@, "Quit"@),
        reads(lang, words.tray.no_preset@, "无预设"@, "no preset"@),
        reads(lang, words.tray.not_enhanced@, "输出未经增强（默认设备不是虚拟声卡）"@, "output is NOT enhanced (default device is not the virtual card)"@),
        reads(lang, words.tray.tooltip_idle@, "FxMini — 空闲"@, "FxMini — idle"@),
        reads(lang, words.tray.tooltip_disabled@, "FxMini — 已停用"@, "FxMini — disabled"@),
        reads(lang, words.tray.tooltip_no_card@, "FxMini — 未安装虚拟声卡"@, "FxMini — virtual sound card not installed"@),
        reads(lang, words.panel.enabled@, "启用"@, "Enabled"@),
        reads(lang, words.panel.status_processing@, "处理中"@, "processing"@),
        reads(lang, words.panel.status_idle@, "空闲"@, "idle"@),
        reads(lang, words.panel.status_no_card@, "未安装虚拟声卡"@, "no virtual sound card"@),
        reads(lang, words.panel.preset@, "预设"@, "Preset"@),
        reads(lang, words.panel.no_selection@, "—"@, "—"@),
        reads(lang, words.panel.effects@, "音效"@, "Effects"@),
        reads(lang, words.panel.effect_fidelity@, "保真度"@, "Fidelity"@),
        reads(lang, words.panel.effect_surround@, "环绕"@, "Surround"@),
        reads(lang, words.panel.effect_ambience@, "空间感"@, "Ambience"@),
        reads(lang, words.panel.effect_dynamic_boost@, "动态增强"@, "Dynamic boost"@),
        reads(lang, words.panel.effect_bass@, "低音"@, "Bass"@),
        reads(lang, words.panel.equalizer@, "均衡器"@, "Equalizer"@),
        reads(lang, words.panel.bands@, "频段数"@, "Bands"@),
        reads(lang, words.panel.output@, "输出"@, "Output"@),
        reads(lang, words.panel.balance@, "左右平衡"@, "Balance"@),
        reads(lang, words.panel.master_gain@, "总增益"@, "Master gain"@),
        reads(lang, words.panel.normalization@, "响度归一"@, "Normalization"@),
        reads(lang, words.panel.volume_leveling@, "音量均衡"@, "Volume leveling"@),
        reads(lang, words.panel.filter_q@, "滤波器 Q 值"@, "Filter Q"@),
        reads(lang, words.panel.spectrum@, "频谱"@, "Spectrum"@),
        reads(lang, words.panel.save_heading@, "保存为预设"@, "Save as preset"@),
        reads(lang, words.panel.save_name_hint@, "预设名称"@, "Preset name"@),
        reads(lang, words.panel.save_button@, "保存"@, "Save"@),
        reads(lang, words.panel.save_help@, "把当前的音效、均衡与输出设置存成一个 .fac 文件，之后可在托盘菜单或上方列表中选用。"@, "Stores the current effects, equalizer and output settings as a .fac file, selectable from the tray menu or the list above."@),
        reads(lang, words.panel.latency_label@, "延迟"@, "latency"@),
        reads(lang, words.panel.underruns_label@, "欠载"@, "underruns"@),
        reads(lang, words.panel.drops_label@, "丢帧"@, "drops"@),
        reads(lang, words.panel.saved_ok@, "已保存 {}"@, "Saved {}"@),
        reads(lang, words.panel.save_name_required@, "请先填写预设名称"@, "Give the preset a name first"@),
        reads(lang, words.panel.save_name_invalid@, "名称含文件名不允许的字符（\\ / : * ? \" < > |），或与系统保留名重名"@, "The name has a character Windows forbids in a filename (\\ / : * ? \" < > |), or collides with a reserved device name"@),
        reads(lang, words.panel.save_overwrote@, "已覆盖 {}"@, "Overwrote {}"@),
        reads(lang, words.panel.save_failed@, "保存失败，详见日志"@, "Could not save; see the log"@),
{
}

/// A spelling names a language exactly when, up to white space around it and the
/// case of its letters, it is one of that language's own; every other spelling
/// names none.
pub proof fn only_known_spellings_name_a_language(code: &str, r: Option<Lang>, auto: bool)
    requires
        call_ensures(Lang::from_code, (code,), r),
        call_ensures(Lang::is_auto, (code,), auto),
    ensures
        ({
            let key = text::lowered(text::trimmed(code@));
            &&& r == Some(Lang::Zh) <==> seq!["zh"@, "cn"@, "zh-cn"@, "zh-hans"@].contains(key)
            &&& r == Some(Lang::En) <==> seq!["en"@, "en-us"@, "en-gb"@].contains(key)
            &&& auto <==> key == "auto"@
            &&& auto ==> r is None
        }),
{
    let key = text::lowered(text::trimmed(code@));
    let zh = seq!["zh"@, "cn"@, "zh-cn"@, "zh-hans"@];
    let en = seq!["en"@, "en-us"@, "en-gb"@];
    assert(zh[0] == "zh"@ && zh[1] == "cn"@ && zh[2] == "zh-cn"@ && zh[3] == "zh-hans"@);
    assert(en[0] == "en"@ && en[1] == "en-us"@ && en[2] == "en-gb"@);
    if auto {
        auto_names_no_language(code@, 0);
    }
    reveal_strlit("zh");
    reveal_strlit("cn");
    reveal_strlit("zh-cn");
    reveal_strlit("zh-hans");
    reveal_strlit("en");
    reveal_strlit("en-us");
    reveal_strlit("en-gb");
    assert("zh"@[0] == 'z' && "cn"@[0] == 'c' && "zh-cn"@[0] == 'z' && "zh-hans"@[0] == 'z');
    assert("en"@[0] == 'e' && "en-us"@[0] == 'e' && "en-gb"@[0] == 'e');
    if zh.contains(key) {
        let i = zh.index_of(key);
        assert(0 <= i < 4);
    }
    if en.contains(key) {
        let i = en.index_of(key);
        assert(0 <= i < 3);
    }
}

/// The system's language is Chinese exactly when the low byte of its id is 4,
/// and it decides exactly where the config names no language.
pub proof fn the_system_decides_where_the_config_does_not(
    code: &str,
    langid: u16,
    named: Option<Lang>,
    system: Lang,
    r: Lang,
)
    requires
        call_ensures(Lang::from_code, (code,), named),
        call_ensures(Lang::from_system, (langid,), system),
        call_ensures(resolve, (code, langid), r),
    ensures
        system == Lang::Zh <==> exists|rest: int| langid == #[trigger] (rest * 256) + 4,
        named matches Some(lang) ==> r == lang,
        named is None ==> r == system,
{
    if system == Lang::Zh {
        let rest = langid as int / 256;
        assert(langid == rest * 256 + 4);
    }
    if exists|rest: int| langid == #[trigger] (rest * 256) + 4 {
        let rest = choose|rest: int| langid == #[trigger] (rest * 256) + 4;
        assert(langid % 256 == 4);
    }
}

/// A language has one spelling of its own and one name of its own, and is stored
/// as a byte that gives it back; a byte that is not English's is Chinese.
pub proof fn languages_have_their_own_names(
    lang: Lang,
    code: &'static str,
    name: &'static str,
    index: u8,
    stored: Lang,
    byte: u8,
    read: Lang,
)
    requires
        call_ensures(Lang::code, (lang,), code),
        call_ensures(Lang::endonym, (lang,), name),
        call_ensures(index_of, (lang,), index),
        call_ensures(lang_of, (index,), stored),
        call_ensures(lang_of, (byte,), read),
    ensures
        reads(lang, code@, "zh"@, "en"@),
        reads(lang, name@, "中文"@, "English"@),
        index == (if lang == Lang::Zh { 0u8 } else { 1 }),
        stored == lang,
        read == Lang::En <==> byte == 1,
{
}

/// The language that was set is the one in force and the one texts are taken
/// from; before any is set it is Chinese.
pub proof fn the_language_set_is_in_force(
    selected: &mut CurrentLang,
    lang: Lang,
    now: Lang,
    words: &'static Strings,
    fresh: CurrentLang,
)
    requires
        call_ensures(set, (selected, lang), ()),
        call_ensures(current, (&*final(selected),), now),
        call_ensures(t, (&*final(selected),), words),
        call_ensures(CurrentLang::new, (), fresh),
    ensures
        now == lang,
        *words == lang.strings(),
        fresh.lang() == Lang::Zh,
{
}

/// The tooltip names the preset, or says that there is none; an error follows in
/// brackets, and the remark that the output is not enhanced comes last.
pub proof fn a_tooltip_is_put_together(
    tray: TrayText,
    name: Seq<char>,
    error: Seq<char>,
    preset: Option<Seq<char>>,
    trouble: Option<Seq<char>>,
    not_enhanced: bool,
)
    ensures
        tray.playing(Some(name), None, false) == "FxMini — "@ + name,
        tray.playing(None, trouble, not_enhanced) == tray.playing(
            Some(tray.no_preset@),
            trouble,
            not_enhanced,
        ),
        tray.playing(preset, Some(error), false) == tray.playing(preset, None, false) + " ("@ + error
            + ")"@,
        tray.playing(preset, trouble, true) == tray.playing(preset, trouble, false) + " — "@
            + tray.not_enhanced@,
{
    assert(tray.playing(Some(name), None, false) =~= "FxMini — "@ + name);
    assert(tray.playing(preset, Some(error), false) =~= tray.playing(preset, None, false) + " ("@
        + error + ")"@);
    assert(tray.playing(preset, trouble, true) =~= tray.playing(preset, trouble, false) + " — "@
        + tray.not_enhanced@);
}

/// A device line ends in the device, or in a dash where there is none, and says
/// which way it goes.
pub proof fn a_device_line_names_the_device(
    panel: PanelText,
    device: Option<&str>,
    input: String,
    output: String,
)
    requires
        call_ensures(PanelText::input_line, (&panel, device), input),
        call_ensures(PanelText::output_line, (&panel, device), output),
    ensures
        device matches Some(name) ==> input@ == "in:  "@ + name@ && output@ == "out:  "@ + name@,
        device is None ==> input@ == "in:  —"@ && output@ == "out:  —"@,
{
    reveal_strlit("in:");
    reveal_strlit("out:");
    reveal_strlit("  ");
    reveal_strlit("in:  ");
    reveal_strlit("out:  ");
    reveal_strlit("—");
    reveal_strlit("in:  —");
    reveal_strlit("out:  —");
    match device {
        Some(name) => {
            assert(input@ =~= "in:  "@ + name@);
            assert(output@ =~= "out:  "@ + name@);
        },
        None => {
            assert(input@ =~= "in:  —"@);
            assert(output@ =~= "out:  —"@);
        },
    }
}

/// A counter is its own label, a space, and the figure in decimal digits; only
/// the latency has a unit.
pub proof fn a_counter_shows_its_figure(
    panel: PanelText,
    ms: u32,
    count: u64,
    latency: String,
    underruns: String,
    drops: String,
)
    requires
        call_ensures(PanelText::latency, (&panel, ms), latency),
        call_ensures(PanelText::underruns, (&panel, count), underruns),
        call_ensures(PanelText::drops, (&panel, count), drops),
    ensures
        latency@ == panel.latency_label@ + " "@ + text::decimal(ms as nat) + " ms"@,
        underruns@ == panel.underruns_label@ + " "@ + text::decimal(count as nat),
        drops@ == panel.drops_label@ + " "@ + text::decimal(count as nat),
{
}

/// The message after a save is the language's word for it, a space, and the
/// file's name as it is; a file that was replaced gets another word than a new
/// one.
pub proof fn a_save_message_reads_the_name(
    lang: Lang,
    filename: &str,
    overwrote: bool,
    words: &'static Strings,
    r: String,
)
    requires
        call_ensures(Lang::table, (lang,), words),
        call_ensures(PanelText::saved, (&words.panel, filename, overwrote), r),
    ensures
        !overwrote ==> reads(lang, r@, "已保存 "@ + filename@, "Saved "@ + filename@),
        overwrote ==> reads(lang, r@, "已覆盖 "@ + filename@, "Overwrote "@ + filename@),
{
    reveal_strlit("已保存 {}");
    reveal_strlit("已覆盖 {}");
    reveal_strlit("Saved {}");
    reveal_strlit("Overwrote {}");
    reveal_strlit("已保存 ");
    reveal_strlit("已覆盖 ");
    reveal_strlit("Saved ");
    reveal_strlit("Overwrote ");
    reveal_strlit("{}");
    let template = words.panel.save_template(overwrote);
    let lead = template.take(template.len() - 2);
    assert(template =~= lead + "{}"@ + Seq::empty());
    text::what_stands_around_a_placeholder_stays(lead, Seq::empty(), filename@);
    assert(text::filled(Seq::empty(), filename@) =~= Seq::empty());
    match lang {
        Lang::Zh => if overwrote {
            assert(lead =~= "已覆盖 "@);
        } else {
            assert(lead =~= "已保存 "@);
        },
        Lang::En => if overwrote {
            assert(lead =~= "Overwrote "@);
        } else {
            assert(lead =~= "Saved "@);
        },
    }
    assert(r@ =~= lead + filename@);
}

} // verus!
