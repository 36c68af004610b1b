//! The tuning panel — a window that exists only while it is open.
//!
//! A windowing toolkit keeps a renderer and a font atlas alive for as long as
//! its window exists, so the cheapest way to stay small when idle is to have no
//! window when idle.
//!
//! ## Saving a preset
//!
//! The panel does not write the file: the engine owns the serializer. The panel
//! asks for a save and *waits to be told what happened*, through the revision
//! counter and the save report of [`EngineStatus`]. A button that reported
//! success on its own would be guessing.
//!
//! ## Lengths
//!
//! Lengths on screen are whole numbers of `1 / POINT` of a point.
use crate::engine::{text_or_none, EngineStatus, SharedParams};
use crate::i18n::{counter_text, device_text, Lang, PanelText, Strings};
use crate::preset::{active_name, active_name_of, library, string_of, PresetEntry, PresetId, PresetView};
use crate::text;
use vstd::prelude::*;

verus! {

broadcast use vstd::string::group_string_axioms;

/// One point on screen.
pub const POINT: i64 = 65536;

/// How wide the panel opens: wide enough for two columns of labelled sliders.
pub const DEFAULT_PANEL_WIDTH: i64 = 660 * POINT;

/// Below this the two columns would each be narrower than a labelled slider can
/// be, so the panel goes back to one column and scrolls.
pub const TWO_COLUMN_MIN_WIDTH: i64 = 560 * POINT;

/// The shortest the panel can be squeezed to.
pub const MIN_PANEL_HEIGHT: i64 = 480 * POINT;

/// How much of the monitor the fitted window leaves alone: a window exactly as
/// tall as the monitor hides its own bottom edge behind the taskbar.
pub const FIT_MARGIN: i64 = 72 * POINT;

// ---------------------------------------------------------------------------
// Opening and closing

/// Whether a panel window exists, or has been asked for, so that a second tray
/// click focuses the existing one instead of opening another.
#[derive(Debug)]
pub struct PanelGate {
    open: bool,
}

/// What came of handing an open request to the panel thread.
#[derive(Debug, Clone, Copy, PartialEq, Eq, Structural)]
pub enum Delivery {
    /// The thread could not be started.
    NoThread,
    /// The thread has stopped and takes no more requests.
    ThreadStopped,
    Delivered,
}

impl PanelGate {
    pub closed spec fn is_open(self) -> bool {
        self.open
    }

    /// No window yet.
    pub fn new() -> (r: Self)
        ensures
            !r.is_open(),
    {
        PanelGate { open: false }
    }

    /// The window is gone, or never came up; the next click may open one.
    pub fn close(&mut self)
        ensures
            final(self).is_open() == open_after(old(self).is_open(), GateEvent::Closed),
    {
        self.open = false;
    }
}

/// Whether a panel is currently on screen.
pub fn is_open(gate: &PanelGate) -> (r: bool)
    ensures
        r == gate.is_open(),
{
    gate.open
}

/// Reserves the window, before anything is handed to the panel thread. Returns
/// whether an open request is to be handed over now.
///
/// Returns `false` if a window exists, which is no error: the click was
/// redundant. What comes of handing the request over is told to [`handed_over`].
pub fn spawn(gate: &mut PanelGate) -> (send: bool)
    ensures
        send == !old(gate).is_open(),
        final(gate).is_open() == open_after(old(gate).is_open(), GateEvent::Asked),
{
    if gate.open {
        return false;
    }
    gate.open = true;
    true
}

/// Takes what came of handing the request over. Returns whether it opens a
/// window. A request that was not delivered gives the reservation back; one that
/// was changes nothing more, since the window may be gone again by now.
pub fn handed_over(gate: &mut PanelGate, delivery: Delivery) -> (opened: bool)
    ensures
        opened == (delivery == Delivery::Delivered),
        final(gate).is_open() == open_after(old(gate).is_open(), GateEvent::HandedOver(delivery)),
{
    match delivery {
        Delivery::NoThread | Delivery::ThreadStopped => {
            gate.open = false;
            false
        },
        Delivery::Delivered => true,
    }
}

/// Something that happens to a [`PanelGate`].
#[derive(Debug, Clone, Copy, PartialEq, Eq, Structural)]
pub enum GateEvent {
    /// The panel is asked for ([`spawn`]).
    Asked,
    /// A request was handed over, or could not be ([`handed_over`]).
    HandedOver(Delivery),
    /// The window is gone ([`PanelGate::close`]).
    Closed,
}

/// Whether a window exists, or has been asked for, after an event.
pub open spec fn open_after(open: bool, event: GateEvent) -> bool {
    match event {
        GateEvent::Asked => true,
        GateEvent::HandedOver(delivery) => open && delivery == Delivery::Delivered,
        GateEvent::Closed => false,
    }
}

/// Whether a window exists, or has been asked for, after the first `n` events,
/// where none did at first.
pub open spec fn open_at(events: Seq<GateEvent>, n: int) -> bool
    decreases n,
{
    n > 0 && open_after(open_at(events, n - 1), events[n - 1])
}

/// Whether an open request is handed to the panel thread at event `i`.
pub open spec fn sent_at(events: Seq<GateEvent>, i: int) -> bool {
    events[i] == GateEvent::Asked && !open_at(events, i)
}

/// Whether an event makes room for another window: the one there was is gone, or
/// the request for it never arrived.
pub open spec fn makes_room(event: GateEvent) -> bool {
    match event {
        GateEvent::Asked => false,
        GateEvent::HandedOver(delivery) => delivery != Delivery::Delivered,
        GateEvent::Closed => true,
    }
}

/// Everything the panel needs when the window opens.
#[derive(Debug)]
pub struct PanelShared {
    pub params: SharedParams,
    pub status: EngineStatus,
    pub presets: Vec<PresetEntry>,
}

// ---------------------------------------------------------------------------
// The rows and columns

/// One effect row: the engine's number for the effect, and its label.
#[derive(Debug, Clone, Copy)]
pub struct EffectRow {
    pub effect: i32,
    pub label: &'static str,
}

/// The five effect knobs, in the order a user expects to see them, which is not
/// the order of the engine's numbers.
pub open spec fn effects(panel: PanelText) -> Seq<EffectRow> {
    seq![
        EffectRow { effect: 0, label: panel.effect_fidelity },
        EffectRow { effect: 2, label: panel.effect_surround },
        EffectRow { effect: 1, label: panel.effect_ambience },
        EffectRow { effect: 3, label: panel.effect_dynamic_boost },
        EffectRow { effect: 4, label: panel.effect_bass },
    ]
}

/// The five effect knobs.
pub fn effect_rows(panel: &PanelText) -> (r: Vec<EffectRow>)
    ensures
        r@ == effects(*panel),
{
    vec![
        EffectRow { effect: 0, label: panel.effect_fidelity },
        EffectRow { effect: 2, label: panel.effect_surround },
        EffectRow { effect: 1, label: panel.effect_ambience },
        EffectRow { effect: 3, label: panel.effect_dynamic_boost },
        EffectRow { effect: 4, label: panel.effect_bass },
    ]
}

/// A setting of the output card.
#[derive(Debug, Clone, Copy, PartialEq, Eq, Structural)]
pub enum OutputSetting {
    Balance,
    MasterGain,
    Normalization,
    VolumeLeveling,
    FilterQ,
}

/// One row of the output card: what it sets, its label, and the range its
/// slider spans.
#[derive(Debug, Clone, Copy)]
pub struct OutputRow {
    pub setting: OutputSetting,
    pub label: &'static str,
    pub min: i32,
    pub max: i32,
}

/// The rows of the output card. All but the last are gains in decibels.
pub open spec fn outputs(panel: PanelText) -> Seq<OutputRow> {
    seq![
        OutputRow { setting: OutputSetting::Balance, label: panel.balance, min: -20i32, max: 20 },
        OutputRow { setting: OutputSetting::MasterGain, label: panel.master_gain, min: -20i32, max: 20 },
        OutputRow { setting: OutputSetting::Normalization, label: panel.normalization, min: 0, max: 4 },
        OutputRow { setting: OutputSetting::VolumeLeveling, label: panel.volume_leveling, min: 0, max: 4 },
        OutputRow { setting: OutputSetting::FilterQ, label: panel.filter_q, min: 1, max: 3 },
    ]
}

/// The rows of the output card.
pub fn output_rows(panel: &PanelText) -> (r: Vec<OutputRow>)
    ensures
        r@ == outputs(*panel),
{
    vec![
        OutputRow { setting: OutputSetting::Balance, label: panel.balance, min: -20, max: 20 },
        OutputRow { setting: OutputSetting::MasterGain, label: panel.master_gain, min: -20, max: 20 },
        OutputRow { setting: OutputSetting::Normalization, label: panel.normalization, min: 0, max: 4 },
        OutputRow { setting: OutputSetting::VolumeLeveling, label: panel.volume_leveling, min: 0, max: 4 },
        OutputRow { setting: OutputSetting::FilterQ, label: panel.filter_q, min: 1, max: 3 },
    ]
}

/// A card below the equalizer.
#[derive(Debug, Clone, Copy, PartialEq, Eq, Structural)]
pub enum Card {
    Preset,
    Effects,
    Output,
    Meter,
}

/// The columns of cards below the equalizer, left to right.
///
/// The pairing is by priority: a preset is chosen before effects are tuned, and
/// the output is set before the meter that shows what came of it.
pub open spec fn columns(available_width: int) -> Seq<Seq<Card>> {
    if available_width >= TWO_COLUMN_MIN_WIDTH {
        seq![seq![Card::Preset, Card::Effects], seq![Card::Output, Card::Meter]]
    } else {
        seq![seq![Card::Preset, Card::Effects, Card::Output, Card::Meter]]
    }
}

/// The columns of cards below the equalizer, left to right.
pub fn card_columns(available_width: i64) -> (r: Vec<Vec<Card>>)
    ensures
        r@.map_values(|column: Vec<Card>| column@) == columns(available_width as int),
{
    let mut out: Vec<Vec<Card>> = Vec::new();
    if available_width >= TWO_COLUMN_MIN_WIDTH {
        out.push(vec![Card::Preset, Card::Effects]);
        out.push(vec![Card::Output, Card::Meter]);
    } else {
        out.push(vec![Card::Preset, Card::Effects, Card::Output, Card::Meter]);
    }
    assert(out@.map_values(|column: Vec<Card>| column@) =~= columns(available_width as int));
    out
}

/// How the status reads at a glance.
#[derive(Debug, Clone, Copy, PartialEq, Eq, Structural)]
pub enum Tone {
    Success,
    Warning,
    Danger,
}

/// The status at the top of the panel: processing, idle, or no card.
pub fn status_pill(panel: &PanelText, running: bool, virtual_present: bool) -> (r: (
    Tone,
    &'static str,
))
    ensures
        r == (if running {
            (Tone::Success, panel.status_processing)
        } else if virtual_present {
            (Tone::Warning, panel.status_idle)
        } else {
            (Tone::Danger, panel.status_no_card)
        }),
{
    if running {
        (Tone::Success, panel.status_processing)
    } else if virtual_present {
        (Tone::Warning, panel.status_idle)
    } else {
        (Tone::Danger, panel.status_no_card)
    }
}

// ---------------------------------------------------------------------------
// The window's height

/// The larger of two numbers.
pub open spec fn larger(a: int, b: int) -> int {
    if a < b {
        b
    } else {
        a
    }
}

/// The smaller of two numbers.
pub open spec fn smaller(a: int, b: int) -> int {
    if a < b {
        a
    } else {
        b
    }
}

/// A length rounded up to whole points.
pub open spec fn whole_points(length: int) -> int {
    (length + POINT - 1) / POINT as int * POINT
}

/// The window height a panel of this content wants: the content and the chrome
/// in whole points, capped by the monitor where its size is known, and never
/// below the floor.
pub open spec fn wanted_height(content: int, chrome: int, monitor: Option<int>) -> int {
    let wanted = whole_points(content + chrome);
    let capped = match monitor {
        Some(height) => smaller(wanted, height - FIT_MARGIN),
        None => wanted,
    };
    larger(capped, MIN_PANEL_HEIGHT as int)
}

/// A monitor's height as a number, if it is known.
pub open spec fn known(monitor: Option<i64>) -> Option<int> {
    match monitor {
        Some(height) => Some(height as int),
        None => None,
    }
}

/// Whether the arithmetic on these lengths stays within range.
pub open spec fn measurable(content: i64, chrome: i64, monitor: Option<i64>) -> bool {
    &&& i64::MIN <= content + chrome <= i64::MAX - POINT
    &&& monitor matches Some(height) ==> height - FIT_MARGIN >= i64::MIN
}

/// The window height a panel of this content wants.
///
/// `monitor` is `None` while its size is not known yet; unclamped is the right
/// answer there. The floor wins over the cap: a window the system then clamps
/// is better than one too small to hold its own controls.
pub fn fitted_height(content: i64, chrome: i64, monitor: Option<i64>) -> (r: i64)
    requires
        measurable(content, chrome, monitor),
    ensures
        r == wanted_height(content as int, chrome as int, known(monitor)),
{
    let sum: i64 = content + chrome;
    let wanted: i64 = if sum <= 0 {
        assert(whole_points(sum as int) <= 0) by (nonlinear_arith)
            requires
                sum <= 0,
        ;
        0
    } else {
        assert(0 <= (sum + POINT - 1) / POINT as int * POINT <= sum + POINT - 1) by (nonlinear_arith)
            requires
                sum > 0,
        ;
        (sum + (POINT - 1)) / POINT * POINT
    };
    let capped: i64 = match monitor {
        Some(height) => if wanted < height - FIT_MARGIN {
            wanted
        } else {
            height - FIT_MARGIN
        },
        None => wanted,
    };
    if capped < MIN_PANEL_HEIGHT {
        MIN_PANEL_HEIGHT
    } else {
        capped
    }
}

// ---------------------------------------------------------------------------
// File names

/// Whether a character may not stand in a Windows filename.
pub open spec fn forbidden(c: char) -> bool {
    ||| c == '\\'
    ||| c == '/'
    ||| c == ':'
    ||| c == '*'
    ||| c == '?'
    ||| c == '"'
    ||| c == '<'
    ||| c == '>'
    ||| c == '|'
    ||| text::control(c)
}

/// Whether a filename stem is the name of a device, in any case.
pub open spec fn names_device(stem: Seq<char>) -> bool {
    let low = text::lowered(stem);
    ||| low == "con"@
    ||| low == "prn"@
    ||| low == "aux"@
    ||| low == "nul"@
    ||| {
        &&& stem.len() == 4
        &&& text::lowered(stem.take(3)) == "com"@ || text::lowered(stem.take(3)) == "lpt"@
        &&& '1' <= stem[3] <= '9'
    }
}

/// Whether `name` can be used as a Windows filename stem.
pub open spec fn usable_filename(name: Seq<char>) -> bool {
    &&& forall|i: int| 0 <= i < name.len() ==> !forbidden(#[trigger] name[i])
    // Windows silently strips a trailing dot or space.
    &&& name.len() > 0 ==> name.last() != '.' && name.last() != ' '
    &&& !names_device(name)
}

/// Whether a character may not stand in a Windows filename.
fn is_forbidden(c: char) -> (r: bool)
    ensures
        r == forbidden(c),
{
    c == '\\' || c == '/' || c == ':' || c == '*' || c == '?' || c == '"' || c == '<' || c == '>' || c
        == '|' || text::is_control(c)
}

proof fn device_names_are_lower_case()
    ensures
        text::lowered("con"@) == "con"@,
        text::lowered("prn"@) == "prn"@,
        text::lowered("aux"@) == "aux"@,
        text::lowered("nul"@) == "nul"@,
        text::lowered("com"@) == "com"@,
        text::lowered("lpt"@) == "lpt"@,
{
    reveal_strlit("con");
    reveal_strlit("prn");
    reveal_strlit("aux");
    reveal_strlit("nul");
    reveal_strlit("com");
    reveal_strlit("lpt");
    assert(text::lowered("con"@) =~= "con"@);
    assert(text::lowered("prn"@) =~= "prn"@);
    assert(text::lowered("aux"@) =~= "aux"@);
    assert(text::lowered("nul"@) =~= "nul"@);
    assert(text::lowered("com"@) =~= "com"@);
    assert(text::lowered("lpt"@) =~= "lpt"@);
}

/// Whether a filename stem is the name of a device.
fn is_device_name(stem: &str) -> (r: bool)
    ensures
        r == names_device(stem@),
{
    proof {
        device_names_are_lower_case();
    }
    if text::same_ignoring_case(stem, "con") || text::same_ignoring_case(stem, "prn")
        || text::same_ignoring_case(stem, "aux") || text::same_ignoring_case(stem, "nul") {
        return true;
    }
    if stem.unicode_len() != 4 {
        return false;
    }
    let family = stem.substring_char(0, 3);
    assert(family@ =~= stem@.take(3));
    let last = stem.get_char(3);
    (text::same_ignoring_case(family, "com") || text::same_ignoring_case(family, "lpt")) && '1'
        <= last && last <= '9'
}

/// Whether `name` can be used as a Windows filename stem.
///
/// The name becomes a filename verbatim: the engine appends `.fac` and joins it
/// to the preset directory. So anything that changes *where* the file lands is
/// refused, and so are the reserved device names, which apply to the stem
/// whatever the extension.
pub fn is_a_usable_filename(name: &str) -> (r: bool)
    ensures
        r == usable_filename(name@),
{
    let cs = text::chars_of(name);
    let mut i: usize = 0;
    while i < cs.len()
        invariant
            cs@ == name@,
            i <= cs.len(),
            forall|k: int| 0 <= k < i ==> !forbidden(#[trigger] cs@[k]),
        decreases cs.len() - i,
    {
        if is_forbidden(cs[i]) {
            assert(forbidden(name@[i as int]));
            return false;
        }
        i = i + 1;
    }
    if cs.len() > 0 {
        let last = cs[cs.len() - 1];
        if last == '.' || last == ' ' {
            return false;
        }
    }
    !is_device_name(name)
}

// ---------------------------------------------------------------------------
// The panel's own state

/// What the panel shows after a save attempt.
#[derive(Debug)]
pub struct SaveFeedback {
    pub message: String,
    pub ok: bool,
}

/// A save result, with its message as characters.
#[verifier::ext_equal]
pub struct FeedbackView {
    pub message: Seq<char>,
    pub ok: bool,
}

/// Something the panel asks of the engine or publishes.
#[derive(Debug, Clone, Copy, PartialEq, Eq, Structural)]
pub enum PanelEffect {
    /// Load this preset in the engine.
    LoadPreset(PresetId),
    /// Publish this preset as the active one.
    PublishPreset(PresetId),
}

/// The panel.
#[derive(Debug)]
pub struct PanelApp {
    pub presets: Vec<PresetEntry>,
    /// The name typed into the save box.
    pub save_name: String,
    /// The last save result, shown under the box.
    pub save_feedback: Option<SaveFeedback>,
    /// The preset-folder revision this panel has already reacted to.
    pub seen_revision: u64,
    /// Whether the window has already been resized to its content. Once only:
    /// after that the size belongs to whoever dragged the frame.
    pub fitted: bool,
}

/// The panel, as values.
#[verifier::ext_equal]
pub struct PanelView {
    pub presets: Seq<PresetView>,
    pub save_name: Seq<char>,
    pub feedback: Option<FeedbackView>,
    pub seen_revision: u64,
    pub fitted: bool,
}

impl View for PanelApp {
    type V = PanelView;

    open spec fn view(&self) -> PanelView {
        PanelView {
            presets: library(self.presets@),
            save_name: self.save_name@,
            feedback: match self.save_feedback {
                Some(feedback) => Some(
                    FeedbackView { message: feedback.message@, ok: feedback.ok },
                ),
                None => None,
            },
            seen_revision: self.seen_revision,
            fitted: self.fitted,
        }
    }
}

/// Whether a preset of this file name is in the library.
pub open spec fn has_file(presets: Seq<PresetView>, file_name: Seq<char>) -> bool {
    exists|i: int| 0 <= i < presets.len() && (#[trigger] presets[i]).file_name == Some(file_name)
}

impl PanelView {
    /// A panel that has just been opened.
    pub open spec fn opened(presets: Seq<PresetView>, revision: u64) -> PanelView {
        PanelView {
            presets,
            save_name: Seq::empty(),
            feedback: None,
            seen_revision: revision,
            fitted: false,
        }
    }

    /// With a failure to show.
    pub open spec fn failing(self, message: Seq<char>) -> PanelView {
        PanelView { feedback: Some(FeedbackView { message, ok: false }), ..self }
    }

    /// The name a save would use.
    pub open spec fn name_to_save(self) -> Seq<char> {
        text::trimmed(self.save_name)
    }

    /// Whether a save with the name in the box can go ahead.
    pub open spec fn can_save(self) -> bool {
        self.name_to_save().len() > 0 && usable_filename(self.name_to_save())
    }

    /// The panel after Save was pressed: as it was where the name will do, and
    /// otherwise showing what is wrong with the name.
    pub open spec fn asked_to_save(self, lang: Lang) -> PanelView {
        let panel = lang.strings().panel;
        if self.name_to_save().len() == 0 {
            self.failing(panel.save_name_required@)
        } else if !usable_filename(self.name_to_save()) {
            self.failing(panel.save_name_invalid@)
        } else {
            self
        }
    }

    /// The panel once the preset folder was, or could not be, prepared.
    pub open spec fn folder_prepared(self, lang: Lang, ready: bool) -> PanelView {
        if ready {
            PanelView { feedback: None, ..self }
        } else {
            self.failing(lang.strings().panel.save_failed@)
        }
    }

    /// The panel once it has seen the engine's status.
    ///
    /// A revision already seen changes nothing. A new one means a save ended,
    /// and the report says how; whether it replaced a file is decided against
    /// the library from before the save.
    pub open spec fn adopting(self, lang: Lang, status: EngineStatus) -> PanelView {
        let panel = lang.strings().panel;
        let seen = PanelView { seen_revision: status.presets_revision, ..self };
        if status.presets_revision == self.seen_revision {
            self
        } else {
            match status.last_save {
                None => seen,
                Some(report) => if report.ok {
                    PanelView {
                        feedback: Some(
                            FeedbackView {
                                message: text::filled(
                                    panel.save_template(has_file(self.presets, report.file_name@)),
                                    report.file_name@,
                                ),
                                ok: true,
                            },
                        ),
                        ..seen
                    }
                } else {
                    seen.failing(panel.save_failed@)
                },
            }
        }
    }

    /// The file a rescan has to look for, once the panel has seen the engine's
    /// status: the one that has just been written.
    pub open spec fn written_file(self, status: EngineStatus) -> Option<Seq<char>> {
        match status.last_save {
            Some(report) => if status.presets_revision != self.seen_revision && report.ok {
                Some(report.file_name@)
            } else {
                None
            },
            None => None,
        }
    }

    /// With the library as a rescan found it.
    pub open spec fn rescanned(self, presets: Seq<PresetView>) -> PanelView {
        PanelView { presets, ..self }
    }

    /// Whether the window is to be resized to content of this height: once, as
    /// soon as there is any.
    pub open spec fn fits_now(self, content: int) -> bool {
        !self.fitted && content >= POINT
    }
}

/// What loading a preset asks for: nothing if the file cannot be read, and
/// otherwise that the engine loads it and that it is published as the choice.
pub open spec fn load_effects(path: PresetId, readable: bool) -> Seq<PanelEffect> {
    if readable {
        seq![PanelEffect::LoadPreset(path), PanelEffect::PublishPreset(path)]
    } else {
        Seq::empty()
    }
}

/// The preset list as the panel draws it.
#[derive(Debug)]
pub struct PresetCard {
    /// The name of the active preset, or a dash.
    pub current: String,
    /// For each preset, whether it is the active one.
    pub selected: Vec<bool>,
}

/// The texts of the footer.
#[derive(Debug)]
pub struct FooterText {
    pub source: String,
    pub sink: String,
    pub error: Option<String>,
    pub summary: String,
}

/// The runtime figures in one line.
pub open spec fn summary_text(panel: PanelText, status: EngineStatus) -> Seq<char> {
    panel.latency_text(status.latency_ms as nat) + " · "@ + counter_text(
        panel.underruns_label@,
        status.underruns as nat,
    ) + " · "@ + counter_text(panel.drops_label@, status.overruns as nat)
}

/// The texts of the footer: the two device lines, the error behind a warning
/// sign if there is one, and the runtime figures in one line.
pub fn footer_text(panel: &PanelText, status: &EngineStatus) -> (r: FooterText)
    ensures
        r.source@ == device_text("in:"@, string_of(status.source_description)),
        r.sink@ == device_text("out:"@, string_of(status.sink_description)),
        string_of(r.error) == (match status.last_error {
            Some(error) => Some("⚠ "@ + error@),
            None => None,
        }),
        r.summary@ == summary_text(*panel, *status),
{
    let mut summary = panel.latency(status.latency_ms);
    summary.append(" · ");
    summary.append(panel.underruns(status.underruns).as_str());
    summary.append(" · ");
    summary.append(panel.drops(status.overruns).as_str());
    let error = match &status.last_error {
        Some(error) => {
            let mut line = "⚠ ".to_owned();
            line.append(error.as_str());
            Some(line)
        },
        None => None,
    };
    FooterText {
        source: panel.input_line(text_or_none(&status.source_description)),
        sink: panel.output_line(text_or_none(&status.sink_description)),
        error,
        summary,
    }
}

/// Whether this frame asks for a save: the button, or Enter in the name box,
/// which is the shorter path after typing.
pub fn save_pressed(clicked: bool, left_the_box: bool, enter: bool) -> (r: bool)
    ensures
        r == (clicked || (left_the_box && enter)),
{
    clicked || (left_the_box && enter)
}

impl PanelApp {
    pub fn new(shared: PanelShared) -> (r: Self)
        ensures
            r@ == PanelView::opened(library(shared.presets@), shared.status.presets_revision),
    {
        let revision = shared.status.presets_revision;
        PanelApp {
            presets: shared.presets,
            save_name: String::new(),
            save_feedback: None,
            seen_revision: revision,
            fitted: false,
        }
    }

    /// The size the window is to be resized to, once, on the first frame whose
    /// content can be measured.
    ///
    /// The height cannot be a constant: it depends on the cards, on the font
    /// and on the width. The width stays what it is, where it is known.
    pub fn fit_to_content(
        &mut self,
        content: i64,
        chrome: i64,
        width: Option<i64>,
        monitor: Option<i64>,
    ) -> (r: Option<(i64, i64)>)
        requires
            measurable(content, chrome, monitor),
        ensures
            final(self)@ == (if old(self)@.fits_now(content as int) {
                PanelView { fitted: true, ..old(self)@ }
            } else {
                old(self)@
            }),
            match r {
                Some((w, h)) => {
                    &&& old(self)@.fits_now(content as int)
                    &&& w == (if width is Some {
                        width->0
                    } else {
                        DEFAULT_PANEL_WIDTH
                    })
                    &&& h == wanted_height(content as int, chrome as int, known(monitor))
                },
                None => !old(self)@.fits_now(content as int),
            },
    {
        if self.fitted || content < POINT {
            return None;
        }
        self.fitted = true;
        let height = fitted_height(content, chrome, monitor);
        let width: i64 = match width {
            Some(width) => width,
            None => DEFAULT_PANEL_WIDTH,
        };
        Some((width, height))
    }

    /// Applies a preset: load it in the engine, then publish the choice, so that
    /// it survives a restart and shows in the tray. `readable` says whether the
    /// file could be read.
    pub fn load_preset(&self, path: PresetId, readable: bool) -> (r: Vec<PanelEffect>)
        ensures
            r@ == load_effects(path, readable),
    {
        let mut effects: Vec<PanelEffect> = Vec::new();
        if readable {
            effects.push(PanelEffect::LoadPreset(path));
            effects.push(PanelEffect::PublishPreset(path));
        }
        assert(effects@ =~= load_effects(path, readable));
        effects
    }

    /// Shows that something about a save went wrong.
    fn fail(&mut self, message: &str)
        ensures
            final(self)@ == old(self)@.failing(message@),
    {
        self.save_feedback = Some(SaveFeedback { message: message.to_owned(), ok: false });
    }

    /// Save was pressed. Returns the name to save under, for which the preset
    /// folder is prepared next ([`Self::folder_prepared`]), or shows what is
    /// wrong with the name.
    pub fn request_save(&mut self, lang: Lang) -> (r: Option<String>)
        ensures
            final(self)@ == old(self)@.asked_to_save(lang),
            string_of(r) == (if old(self)@.can_save() {
                Some(old(self)@.name_to_save())
            } else {
                None
            }),
    {
        let panel: &'static PanelText = &lang.table().panel;
        let name = text::trim(self.save_name.as_str()).to_owned();
        if name.as_str().is_empty() {
            self.fail(panel.save_name_required);
            return None;
        }
        if !is_a_usable_filename(name.as_str()) {
            self.fail(panel.save_name_invalid);
            return None;
        }
        Some(name)
    }

    /// The preset folder was, or could not be, prepared. Returns whether the
    /// save goes to the engine, whose answer arrives later
    /// ([`Self::adopt_preset_changes`]).
    ///
    /// What was shown before is cleared, so that a second identical save still
    /// produces a visible change.
    pub fn folder_prepared(&mut self, lang: Lang, ready: bool) -> (send: bool)
        ensures
            send == ready,
            final(self)@ == old(self)@.folder_prepared(lang, ready),
    {
        if ready {
            self.save_feedback = None;
        } else {
            self.fail(lang.table().panel.save_failed);
        }
        ready
    }

    /// Whether a preset of this file name is in the library.
    fn knows_file(&self, file_name: &String) -> (r: bool)
        ensures
            r == has_file(self@.presets, file_name@),
    {
        let mut i: usize = 0;
        while i < self.presets.len()
            invariant
                i <= self.presets.len(),
                forall|k: int|
                    0 <= k < i ==> (#[trigger] library(self.presets@)[k]).file_name != Some(
                        file_name@,
                    ),
            decreases self.presets.len() - i,
        {
            assert(library(self.presets@)[i as int] == self.presets[i as int]@);
            if let Some(existing) = &self.presets[i].file_name {
                if *existing == *file_name {
                    return true;
                }
            }
            i = i + 1;
        }
        false
    }

    /// Picks up a save that ended. Returns the file that was written, if one
    /// was, so that the preset folder can be rescanned ([`Self::rescanned`]).
    pub fn adopt_preset_changes(&mut self, lang: Lang, status: &EngineStatus) -> (r: Option<String>)
        ensures
            final(self)@ == old(self)@.adopting(lang, *status),
            string_of(r) == old(self)@.written_file(*status),
    {
        if status.presets_revision == self.seen_revision {
            return None;
        }
        self.seen_revision = status.presets_revision;
        let panel: &'static PanelText = &lang.table().panel;
        match &status.last_save {
            None => None,
            Some(report) => {
                if !report.ok {
                    self.fail(panel.save_failed);
                    return None;
                }
                // Decided against the list as it stands before the rescan:
                // afterwards the new file is in there whether it replaced
                // something or not.
                let overwrote = self.knows_file(&report.file_name);
                let message = panel.saved(report.file_name.as_str(), overwrote);
                self.save_feedback = Some(SaveFeedback { message, ok: true });
                Some(report.file_name.clone())
            },
        }
    }

    /// The preset folder was rescanned after a save. `written` is the preset
    /// that was saved, and `is_file` whether it is there; if so it becomes the
    /// choice, so that the header and the tray agree with it.
    pub fn rescanned(
        &mut self,
        presets: Vec<PresetEntry>,
        written: PresetId,
        is_file: bool,
    ) -> (r: Option<PanelEffect>)
        ensures
            final(self)@ == old(self)@.rescanned(library(presets@)),
            r == (if is_file {
                Some(PanelEffect::PublishPreset(written))
            } else {
                None
            }),
    {
        self.presets = presets;
        if is_file {
            Some(PanelEffect::PublishPreset(written))
        } else {
            None
        }
    }

    /// The preset list: the name of the active preset, or a dash, and which
    /// entries are it. The choice is read from the engine's status, so a preset
    /// changed from the tray shows here as well.
    pub fn preset_card(&self, panel: &PanelText, active: Option<PresetId>) -> (r: PresetCard)
        ensures
            r.current@ == (match active_name_of(self@.presets, active) {
                Some(name) => name,
                None => panel.no_selection@,
            }),
            r.selected@ == self@.presets.map_values(
                |entry: PresetView| active == Some(entry.path),
            ),
    {
        let current = match active_name(&self.presets, active) {
            Some(name) => name,
            None => panel.no_selection.to_owned(),
        };
        let mut selected: Vec<bool> = Vec::new();
        let mut i: usize = 0;
        while i < self.presets.len()
            invariant
                i <= self.presets.len(),
                selected.len() == i,
                forall|k: int|
                    0 <= k < i ==> selected[k] == (active == Some(self.presets[k].path)),
            decreases self.presets.len() - i,
        {
            selected.push(
                match active {
                    Some(path) => path == self.presets[i].path,
                    None => false,
                },
            );
            i = i + 1;
        }
        assert(selected@ =~= self@.presets.map_values(
            |entry: PresetView| active == Some(entry.path),
        ));
        PresetCard { current, selected }
    }
}

// ---------------------------------------------------------------------------
// Laws

proof fn a_window_stays_until_room_is_made(events: Seq<GateEvent>, from: int, to: int)
    requires
        0 <= from <= to <= events.len(),
        open_at(events, from),
        forall|k: int| from <= k < to ==> !makes_room(#[trigger] events[k]),
    ensures
        open_at(events, to),
    decreases to - from,
{
    if from < to {
        a_window_stays_until_room_is_made(events, from, to - 1);
    }
}

/// Nothing is sent while a window exists, or while one has been asked for:
/// whatever happens in whatever order, between two requests that are handed over
/// the first window has gone, or the first request was not delivered.
pub proof fn nothing_is_sent_while_a_window_exists(events: Seq<GateEvent>, i: int, j: int)
    requires
        0 <= i < j < events.len(),
        sent_at(events, i),
        sent_at(events, j),
    ensures
        exists|k: int| i < k < j && makes_room(#[trigger] events[k]),
{
    if forall|k: int| i < k < j ==> !makes_room(#[trigger] events[k]) {
        assert(open_at(events, i + 1));
        a_window_stays_until_room_is_made(events, i + 1, j);
    }
}

/// A window that opens and closes before its delivery is told is gone: the
/// delivery does not bring it back.
pub proof fn a_quick_window_stays_gone(open: bool)
    ensures
        !open_after(
            open_after(open_after(open, GateEvent::Asked), GateEvent::Closed),
            GateEvent::HandedOver(Delivery::Delivered),
        ),
{
}

/// After the window has gone, or a request was not delivered, the next request
/// is handed over.
pub proof fn a_closed_panel_reopens(events: Seq<GateEvent>, i: int)
    requires
        0 < i < events.len(),
        makes_room(events[i - 1]),
        events[i] == GateEvent::Asked,
    ensures
        sent_at(events, i),
        open_at(events, i + 1),
{
}

/// A usable name cannot move the file out of the preset folder: it holds no
/// separator and no drive letter's colon, and is neither `.` nor `..`.
pub proof fn a_usable_name_stays_in_the_folder(name: Seq<char>)
    requires
        usable_filename(name),
    ensures
        !name.contains('\\'),
        !name.contains('/'),
        !name.contains(':'),
        name != "."@,
        name != ".."@,
{
    reveal_strlit(".");
    reveal_strlit("..");
    assert("."@.last() == '.');
    assert(".."@.last() == '.');
}

proof fn lowering_commutes_with_take(s: Seq<char>, n: int)
    requires
        0 <= n <= s.len(),
    ensures
        text::lowered(s.take(n)) == text::lowered(s).take(n),
{
    assert(text::lowered(s.take(n)) =~= text::lowered(s).take(n));
}

/// The case of a name does not matter to whether it is a device's.
pub proof fn device_names_ignore_case(a: Seq<char>, b: Seq<char>)
    requires
        text::lowered(a) == text::lowered(b),
    ensures
        names_device(a) == names_device(b),
{
    assert(a.len() == text::lowered(a).len());
    assert(b.len() == text::lowered(b).len());
    if a.len() == 4 {
        lowering_commutes_with_take(a, 3);
        lowering_commutes_with_take(b, 3);
        assert(text::lowered(a)[3] == text::ascii_lower(a[3]));
        assert(text::lowered(b)[3] == text::ascii_lower(b[3]));
    }
}

/// What goes to the engine to be saved is a usable name with no white space
/// around it, and not an empty one.
pub proof fn what_is_saved_is_usable(panel: PanelView)
    requires
        panel.can_save(),
    ensures
        panel.name_to_save().len() > 0,
        usable_filename(panel.name_to_save()),
        !text::white_space(panel.name_to_save()[0]),
        !text::white_space(panel.name_to_save().last()),
{
    text::trimming_takes_white_space_only(panel.save_name);
}

/// Success is never guessed: pressing Save and preparing the folder show a
/// failure, or nothing new, and a success shows only once the engine has
/// reported a save that the panel had not seen.
pub proof fn success_is_reported_by_the_engine(
    panel: PanelView,
    lang: Lang,
    ready: bool,
    status: EngineStatus,
)
    ensures
        panel.asked_to_save(lang) == panel || (panel.asked_to_save(lang).feedback matches Some(shown)
            && !shown.ok),
        panel.folder_prepared(lang, ready).feedback matches Some(shown) ==> !shown.ok,
        panel.adopting(lang, status).feedback != panel.feedback && (panel.adopting(
            lang,
            status,
        ).feedback matches Some(shown) && shown.ok) ==> {
            &&& status.presets_revision != panel.seen_revision
            &&& (status.last_save matches Some(report) && report.ok)
        },
{
}

/// The message after a save names the file, in every language.
pub proof fn the_feedback_names_the_file(panel: PanelView, lang: Lang, status: EngineStatus)
    requires
        panel.written_file(status) is Some,
    ensures
        panel.adopting(lang, status).feedback matches Some(shown) && shown.ok && text::contains_text(
            shown.message,
            panel.written_file(status)->0,
        ),
{
    crate::i18n::the_save_message_names_the_file(
        lang,
        panel.written_file(status)->0,
        has_file(panel.presets, panel.written_file(status)->0),
    );
}

/// A save is reacted to once: seeing the same status again changes nothing and
/// asks for no rescan.
pub proof fn a_save_is_adopted_once(panel: PanelView, lang: Lang, status: EngineStatus)
    ensures
        panel.adopting(lang, status).adopting(lang, status) == panel.adopting(lang, status),
        panel.adopting(lang, status).written_file(status) is None,
{
}

/// A panel that has just been opened does not report a save from before.
pub proof fn an_old_save_is_not_news(
    presets: Seq<PresetView>,
    lang: Lang,
    status: EngineStatus,
)
    ensures
        PanelView::opened(presets, status.presets_revision).adopting(lang, status)
            == PanelView::opened(presets, status.presets_revision),
{
}

/// A length rounded up to whole points is at least the length, and less than a
/// point more.
pub proof fn whole_points_round_up(length: int)
    ensures
        length <= whole_points(length) < length + POINT,
        whole_points(length) % POINT as int == 0,
{
    let q = (length + POINT - 1) / POINT as int;
    vstd::arithmetic::div_mod::lemma_fundamental_div_mod(length + POINT - 1, POINT as int);
    vstd::arithmetic::div_mod::lemma_mod_multiples_basic(q, POINT as int);
}

/// The fitted window is never shorter than the floor. It holds its content
/// unless the monitor is too short for it, and where there is room for the floor
/// it stays within the monitor with the margin to spare.
pub proof fn the_window_fits(content: int, chrome: int, monitor: Option<int>)
    ensures
        wanted_height(content, chrome, monitor) >= MIN_PANEL_HEIGHT,
        monitor is None ==> wanted_height(content, chrome, monitor) >= content + chrome,
        monitor matches Some(height) ==> {
            &&& whole_points(content + chrome) <= height - FIT_MARGIN ==> wanted_height(
                content,
                chrome,
                monitor,
            ) >= content + chrome
            &&& height - FIT_MARGIN >= MIN_PANEL_HEIGHT ==> wanted_height(content, chrome, monitor)
                <= height - FIT_MARGIN
        },
{
    whole_points_round_up(content + chrome);
}

/// More content never asks for a shorter window.
pub proof fn more_content_is_no_shorter(a: int, b: int, chrome: int, monitor: Option<int>)
    requires
        a <= b,
    ensures
        wanted_height(a, chrome, monitor) <= wanted_height(b, chrome, monitor),
{
    vstd::arithmetic::div_mod::lemma_div_is_ordered(
        a + chrome + POINT - 1,
        b + chrome + POINT - 1,
        POINT as int,
    );
}

/// The window is fitted once.
pub proof fn the_window_is_fitted_once(panel: PanelView, first: int, later: int)
    requires
        panel.fits_now(first),
    ensures
        !(PanelView { fitted: true, ..panel }).fits_now(later),
{
}

/// However wide the panel is, every card is there once, and reading the columns
/// left to right gives the same order.
pub proof fn every_card_is_placed_once(width: int)
    ensures
        columns(width).flatten() == seq![Card::Preset, Card::Effects, Card::Output, Card::Meter],
{
    reveal_with_fuel(Seq::flatten, 3);
    let all = columns(width);
    if width >= TWO_COLUMN_MIN_WIDTH {
        assert(all.drop_first() =~= seq![seq![Card::Output, Card::Meter]]);
        assert(all.drop_first().drop_first() =~= Seq::empty());
    } else {
        assert(all.drop_first() =~= Seq::empty());
    }
    assert(all.flatten() =~= seq![Card::Preset, Card::Effects, Card::Output, Card::Meter]);
}

/// Each of the five effects has one row.
pub proof fn every_effect_has_one_row(panel: PanelText, effect: i32)
    requires
        0 <= effect < 5,
    ensures
        exists|i: int| 0 <= i < effects(panel).len() && (#[trigger] effects(panel)[i]).effect == effect,
        forall|i: int, j: int|
            0 <= i < effects(panel).len() && 0 <= j < effects(panel).len() && (#[trigger] effects(
                panel,
            )[i]).effect == (#[trigger] effects(panel)[j]).effect ==> i == j,
{
    let rows = effects(panel);
    assert(rows[0].effect == 0);
    assert(rows[1].effect == 2);
    assert(rows[2].effect == 1);
    assert(rows[3].effect == 3);
    assert(rows[4].effect == 4);
}

// ---------------------------------------------------------------------------
// What each operation comes to

/// A request is handed over exactly when no window exists and none has been
/// asked for, and counts as a window from then on. One that does not arrive
/// gives the place back, one that arrives changes nothing more, and a window
/// that closes always makes room.
pub proof fn a_window_is_asked_for_once(
    asked: &mut PanelGate,
    told: &mut PanelGate,
    closed: &mut PanelGate,
    fresh: PanelGate,
    delivery: Delivery,
    send: bool,
    opened: bool,
    open: bool,
)
    requires
        call_ensures(PanelGate::new, (), fresh),
        call_ensures(spawn, (asked,), send),
        call_ensures(handed_over, (told, delivery), opened),
        call_ensures(PanelGate::close, (closed,), ()),
        call_ensures(is_open, (&*final(asked),), open),
    ensures
        !fresh.is_open(),
        send <==> !old(asked).is_open(),
        final(asked).is_open(),
        open,
        opened <==> delivery == Delivery::Delivered,
        delivery == Delivery::Delivered ==> final(told).is_open() == old(told).is_open(),
        delivery != Delivery::Delivered ==> !final(told).is_open(),
        !final(closed).is_open(),
{
}

/// Each effect goes under its own label and drives its own number in the engine;
/// each setting of the output goes under its own label, within its own range.
pub proof fn each_row_is_labelled_for_what_it_sets(
    panel: PanelText,
    effects: Vec<EffectRow>,
    outputs: Vec<OutputRow>,
)
    requires
        call_ensures(effect_rows, (&panel,), effects),
        call_ensures(output_rows, (&panel,), outputs),
    ensures
        effects.len() == 5,
        effects[0].effect == 0 && effects[0].label == panel.effect_fidelity,
        effects[1].effect == 2 && effects[1].label == panel.effect_surround,
        effects[2].effect == 1 && effects[2].label == panel.effect_ambience,
        effects[3].effect == 3 && effects[3].label == panel.effect_dynamic_boost,
        effects[4].effect == 4 && effects[4].label == panel.effect_bass,
        outputs.len() == 5,
        forall|i: int|
            0 <= i < 5 ==> {
                let row = #[trigger] outputs[i];
                &&& row.setting == OutputSetting::Balance ==> row.label == panel.balance && row.min
                    == -20 && row.max == 20
                &&& row.setting == OutputSetting::MasterGain ==> row.label == panel.master_gain
                    && row.min == -20 && row.max == 20
                &&& row.setting == OutputSetting::Normalization ==> row.label
                    == panel.normalization && row.min == 0 && row.max == 4
                &&& row.setting == OutputSetting::VolumeLeveling ==> row.label
                    == panel.volume_leveling && row.min == 0 && row.max == 4
                &&& row.setting == OutputSetting::FilterQ ==> row.label == panel.filter_q && row.min
                    == 1 && row.max == 3
            },
        outputs[0].setting == OutputSetting::Balance,
        outputs[1].setting == OutputSetting::MasterGain,
        outputs[2].setting == OutputSetting::Normalization,
        outputs[3].setting == OutputSetting::VolumeLeveling,
        outputs[4].setting == OutputSetting::FilterQ,
{
}

/// From five hundred and sixty points on the cards stand in two columns, the
/// preset above the effects and the output above the meter; below that they
/// stand in one, in the same order.
pub proof fn cards_stand_side_by_side_where_there_is_room(width: i64, r: Vec<Vec<Card>>)
    requires
        call_ensures(card_columns, (width,), r),
    ensures
        width >= 560 * 65536 ==> {
            &&& r.len() == 2
            &&& r[0]@ == seq![Card::Preset, Card::Effects]
            &&& r[1]@ == seq![Card::Output, Card::Meter]
        },
        width < 560 * 65536 ==> {
            &&& r.len() == 1
            &&& r[0]@ == seq![Card::Preset, Card::Effects, Card::Output, Card::Meter]
        },
{
    let shape = |column: Vec<Card>| column@;
    assert(r@.map_values(shape) == columns(width as int));
    assert(r@.map_values(shape).len() == r.len());
    assert(r@.map_values(shape)[0] == r[0]@);
    if width >= 560 * 65536 {
        assert(r@.map_values(shape)[1] == r[1]@);
    }
}

/// The status says that audio is processed whenever it is, else that the card
/// idles where there is one, else that there is none.
pub proof fn the_status_says_what_is_missing(
    panel: PanelText,
    running: bool,
    present: bool,
    r: (Tone, &'static str),
)
    requires
        call_ensures(status_pill, (&panel, running, present), r),
    ensures
        running ==> r == (Tone::Success, panel.status_processing),
        !running && present ==> r == (Tone::Warning, panel.status_idle),
        !running && !present ==> r == (Tone::Danger, panel.status_no_card),
{
}

/// Without a monitor the height is the content and the chrome in whole points,
/// rounded up, but at least four hundred and eighty; a monitor caps that at its
/// own height less seventy-two points, and the floor wins over the cap.
pub proof fn the_height_is_the_content_within_bounds(
    content: i64,
    chrome: i64,
    height: i64,
    free: i64,
    capped: i64,
)
    requires
        measurable(content, chrome, Some(height)),
        call_ensures(fitted_height, (content, chrome, None::<i64>), free),
        call_ensures(fitted_height, (content, chrome, Some(height)), capped),
    ensures
        content + chrome <= 480 * 65536 ==> free == 480 * 65536,
        content + chrome > 480 * 65536 ==> {
            &&& free % 65536 == 0
            &&& content + chrome <= free < content + chrome + 65536
        },
        ({
            let room = height - 72 * 65536;
            &&& room >= free ==> capped == free
            &&& room < free && room >= 480 * 65536 ==> capped == room
            &&& room < 480 * 65536 ==> capped == 480 * 65536
        }),
{
    let sum = content + chrome;
    let up = whole_points(sum);
    assert(up % 65536 == 0 && sum <= up < sum + 65536) by (nonlinear_arith)
        requires
            up == (sum + 65536 - 1) / 65536int * 65536,
    ;
    if sum <= 480 * 65536 {
        assert(up <= 480 * 65536) by (nonlinear_arith)
            requires
                up == (sum + 65536 - 1) / 65536int * 65536,
                sum <= 480 * 65536,
        ;
    }
}

/// The window is resized exactly once, on the first frame with at least a point
/// of content: to the height that fits, and to the width it has, or to six
/// hundred and sixty points where that is not known.
pub proof fn the_window_is_resized_on_its_first_content(
    app: &mut PanelApp,
    content: i64,
    chrome: i64,
    width: Option<i64>,
    monitor: Option<i64>,
    height: i64,
    r: Option<(i64, i64)>,
)
    requires
        measurable(content, chrome, monitor),
        call_ensures(PanelApp::fit_to_content, (app, content, chrome, width, monitor), r),
        call_ensures(fitted_height, (content, chrome, monitor), height),
    ensures
        r is Some <==> !old(app)@.fitted && content >= 65536,
        r matches Some((w, h)) ==> {
            &&& h == height
            &&& width matches Some(known) ==> w == known
            &&& width is None ==> w == 660 * 65536
            &&& final(app)@.fitted
        },
        r is None ==> final(app)@ == old(app)@,
        final(app)@ == (PanelView { fitted: final(app)@.fitted, ..old(app)@ }),
{
}

/// Whether a name is that of a device: one of the four words, or one of the two
/// families with a digit from one to nine, in any case.
pub open spec fn reserved(name: Seq<char>) -> bool {
    let low = text::lowered(name);
    ||| low == seq!['c', 'o', 'n']
    ||| low == seq!['p', 'r', 'n']
    ||| low == seq!['a', 'u', 'x']
    ||| low == seq!['n', 'u', 'l']
    ||| {
        &&& low.len() == 4
        &&& low[0] == 'c' && low[1] == 'o' && low[2] == 'm' || low[0] == 'l' && low[1] == 'p'
            && low[2] == 't'
        &&& '1' <= low[3] <= '9'
    }
}

proof fn reserved_names_are_devices(name: Seq<char>)
    ensures
        reserved(name) <==> names_device(name),
{
    reveal_strlit("con");
    reveal_strlit("prn");
    reveal_strlit("aux");
    reveal_strlit("nul");
    reveal_strlit("com");
    reveal_strlit("lpt");
    assert("con"@ =~= seq!['c', 'o', 'n']);
    assert("prn"@ =~= seq!['p', 'r', 'n']);
    assert("aux"@ =~= seq!['a', 'u', 'x']);
    assert("nul"@ =~= seq!['n', 'u', 'l']);
    assert("com"@ =~= seq!['c', 'o', 'm']);
    assert("lpt"@ =~= seq!['l', 'p', 't']);
    let low = text::lowered(name);
    assert(low.len() == name.len());
    if name.len() == 4 {
        let family = text::lowered(name.take(3));
        assert(family =~= low.take(3));
        assert(low[3] == text::ascii_lower(name[3]));
        assert(family[0] == low[0] && family[1] == low[1] && family[2] == low[2]);
        if low[0] == 'c' && low[1] == 'o' && low[2] == 'm' {
            assert(family =~= "com"@);
        }
        if low[0] == 'l' && low[1] == 'p' && low[2] == 't' {
            assert(family =~= "lpt"@);
        }
    }
}

/// A name can be used exactly when it holds none of the nine characters that
/// Windows forbids and no control character, does not end in a dot or a space,
/// and is not the name of a device.
pub proof fn a_name_is_usable_unless_windows_forbids_it(name: &str, r: bool)
    requires
        call_ensures(is_a_usable_filename, (name,), r),
    ensures
        r <==> {
            &&& forall|i: int|
                0 <= i < name@.len() ==> {
                    let c = #[trigger] name@[i];
                    &&& c != '\\' && c != '/' && c != ':' && c != '*' && c != '?'
                    &&& c != '"' && c != '<' && c != '>' && c != '|'
                    &&& c as u32 > 0x1f && !(0x7f <= c as u32 <= 0x9f)
                }
            &&& name@.len() == 0 || (name@.last() != '.' && name@.last() != ' ')
            &&& !reserved(name@)
        },
{
    reserved_names_are_devices(name@);
    if r {
        assert forall|i: int| 0 <= i < name@.len() implies {
            let c = #[trigger] name@[i];
            &&& c != '\\' && c != '/' && c != ':' && c != '*' && c != '?'
            &&& c != '"' && c != '<' && c != '>' && c != '|'
            &&& c as u32 > 0x1f && !(0x7f <= c as u32 <= 0x9f)
        } by {
            assert(!forbidden(name@[i]));
        }
    }
    if (forall|i: int|
        0 <= i < name@.len() ==> {
            let c = #[trigger] name@[i];
            &&& c != '\\' && c != '/' && c != ':' && c != '*' && c != '?'
            &&& c != '"' && c != '<' && c != '>' && c != '|'
            &&& c as u32 > 0x1f && !(0x7f <= c as u32 <= 0x9f)
        }) {
        assert forall|i: int| 0 <= i < name@.len() implies !forbidden(#[trigger] name@[i]) by {
            assert(name@[i] == name@[i]);
        }
    }
}

/// A name of letters, digits, hyphens, underscores and inner spaces, of any
/// alphabet past ASCII too, can be used unless it is the name of a device.
pub proof fn an_ordinary_name_is_usable(name: &str, r: bool)
    requires
        call_ensures(is_a_usable_filename, (name,), r),
        forall|i: int|
            0 <= i < name@.len() ==> {
                let c = #[trigger] name@[i];
                ||| 'a' <= c <= 'z'
                ||| 'A' <= c <= 'Z'
                ||| '0' <= c <= '9'
                ||| c == '-'
                ||| c == '_'
                ||| c == ' ' && i + 1 < name@.len()
                ||| c as u32 >= 0xa0
            },
        !reserved(name@),
    ensures
        r,
{
    reserved_names_are_devices(name@);
    assert forall|i: int| 0 <= i < name@.len() implies !forbidden(#[trigger] name@[i]) by {
        assert(name@[i] == name@[i]);
    }
    if name@.len() > 0 {
        assert(name@[name@.len() - 1] == name@.last());
    }
}

/// Saving goes ahead exactly under a name that is left once the white space
/// around it is taken off, and that can be used; then nothing of the panel
/// changes. Otherwise the panel says, in the language, that a name is missing or
/// that it will not do, and nothing else of it changes.
pub proof fn a_save_needs_a_usable_name(
    app: &mut PanelApp,
    lang: Lang,
    words: &'static Strings,
    name: &str,
    usable: bool,
    r: Option<String>,
)
    requires
        call_ensures(PanelApp::request_save, (app, lang), r),
        call_ensures(Lang::table, (lang,), words),
        name@ == text::trimmed(old(app).save_name@),
        call_ensures(is_a_usable_filename, (name,), usable),
    ensures
        r is Some <==> name@.len() > 0 && usable,
        r matches Some(saved) ==> saved@ == name@ && final(app)@ == old(app)@,
        name@.len() == 0 ==> final(app)@.feedback == Some(
            FeedbackView { message: words.panel.save_name_required@, ok: false },
        ),
        name@.len() > 0 && !usable ==> final(app)@.feedback == Some(
            FeedbackView { message: words.panel.save_name_invalid@, ok: false },
        ),
        final(app)@ == (PanelView { feedback: final(app)@.feedback, ..old(app)@ }),
{
}

/// A save goes to the engine exactly when the folder is ready, and then whatever
/// was shown is cleared; otherwise the panel says that the save failed.
pub proof fn a_save_needs_its_folder(
    app: &mut PanelApp,
    lang: Lang,
    ready: bool,
    words: &'static Strings,
    send: bool,
)
    requires
        call_ensures(PanelApp::folder_prepared, (app, lang, ready), send),
        call_ensures(Lang::table, (lang,), words),
    ensures
        send == ready,
        ready ==> final(app)@.feedback is None,
        !ready ==> final(app)@.feedback == Some(
            FeedbackView { message: words.panel.save_failed@, ok: false },
        ),
        final(app)@ == (PanelView { feedback: final(app)@.feedback, ..old(app)@ }),
{
}

/// A save that ended since the last look is reported as it ended: by name, and
/// as replacing a file exactly when the library had one of that name, or as a
/// failure. A rescan is asked for exactly after a success. A count that was seen
/// already is no news, whatever the report says.
pub proof fn a_save_is_reported_as_it_ended(
    app: &mut PanelApp,
    lang: Lang,
    status: EngineStatus,
    words: &'static Strings,
    r: Option<String>,
)
    requires
        call_ensures(PanelApp::adopt_preset_changes, (app, lang, &status), r),
        call_ensures(Lang::table, (lang,), words),
    ensures
        final(app)@.seen_revision == status.presets_revision,
        final(app)@ == (PanelView {
            feedback: final(app)@.feedback,
            seen_revision: final(app)@.seen_revision,
            ..old(app)@
        }),
        status.presets_revision == old(app)@.seen_revision || status.last_save is None ==> r is None
            && final(app)@.feedback == old(app)@.feedback,
        status.presets_revision != old(app)@.seen_revision && status.last_save is Some ==> {
            let report = status.last_save->0;
            let replaced = exists|i: int|
                0 <= i < old(app)@.presets.len() && (#[trigger] old(app)@.presets[i]).file_name
                    == Some(report.file_name@);
            &&& !report.ok ==> r is None && final(app)@.feedback == Some(
                FeedbackView { message: words.panel.save_failed@, ok: false },
            )
            &&& report.ok ==> {
                &&& r matches Some(written)
                &&& written@ == report.file_name@
                &&& final(app)@.feedback matches Some(feedback)
                &&& feedback.ok
                &&& replaced ==> feedback.message == text::filled(
                    words.panel.save_overwrote@,
                    report.file_name@,
                )
                &&& !replaced ==> feedback.message == text::filled(
                    words.panel.saved_ok@,
                    report.file_name@,
                )
            }
        },
{
}

/// A rescan replaces the presets and nothing else, and the file that was written
/// becomes the choice exactly when it is there. A preset is loaded and then
/// published exactly when it can be read. A new panel has the presets it was
/// given, and takes no save from before it opened for news.
pub proof fn the_panel_follows_the_files(
    app: &mut PanelApp,
    presets: Vec<PresetEntry>,
    path: PresetId,
    there: bool,
    r: Option<PanelEffect>,
    panel: PanelApp,
    effects: Vec<PanelEffect>,
    shared: PanelShared,
    fresh: PanelApp,
)
    requires
        call_ensures(PanelApp::rescanned, (app, presets, path, there), r),
        call_ensures(PanelApp::load_preset, (&panel, path, there), effects),
        call_ensures(PanelApp::new, (shared,), fresh),
    ensures
        there ==> r == Some(PanelEffect::PublishPreset(path)),
        !there ==> r is None,
        final(app)@ == (PanelView { presets: library(presets@), ..old(app)@ }),
        there ==> effects@ == seq![
            PanelEffect::LoadPreset(path),
            PanelEffect::PublishPreset(path),
        ],
        !there ==> effects@.len() == 0,
        fresh@ == (PanelView {
            presets: library(shared.presets@),
            save_name: Seq::empty(),
            feedback: None,
            seen_revision: shared.status.presets_revision,
            fitted: false,
        }),
{
}

/// The list marks exactly the presets with the active path, and is headed by the
/// name of the first of them, or by a dash.
pub proof fn the_list_marks_the_choice(
    app: PanelApp,
    panel: PanelText,
    active: Option<PresetId>,
    name: Option<String>,
    r: PresetCard,
)
    requires
        call_ensures(PanelApp::preset_card, (&app, &panel, active), r),
        call_ensures(active_name, (&app.presets, active), name),
    ensures
        name matches Some(name) ==> r.current@ == name@,
        name is None ==> r.current@ == panel.no_selection@,
        r.selected.len() == app.presets.len(),
        forall|i: int|
            0 <= i < app.presets.len() ==> ((#[trigger] r.selected[i]) <==> active == Some(
                app.presets[i].path,
            )),
{
    let shape = |entry: PresetView| active == Some(entry.path);
    assert(r.selected@ == app@.presets.map_values(shape));
    assert forall|i: int| 0 <= i < app.presets.len() implies ((#[trigger] r.selected[i]) <==> active
        == Some(app.presets[i].path)) by {
        assert(app@.presets[i] == app.presets[i]@);
    }
}

/// The footer says which devices are in use, warns of an error exactly when
/// there is one, and gives latency, underruns and drops in that order. Saving is
/// asked for by the button, or by Enter on leaving the box.
pub proof fn the_footer_says_what_the_engine_says(
    panel: PanelText,
    status: EngineStatus,
    r: FooterText,
    clicked: bool,
    left: bool,
    enter: bool,
    save: bool,
)
    requires
        call_ensures(footer_text, (&panel, &status), r),
        call_ensures(save_pressed, (clicked, left, enter), save),
    ensures
        status.source_description matches Some(device) ==> r.source@ == "in:"@ + "  "@ + device@,
        status.source_description is None ==> r.source@ == "in:"@ + "  "@ + "—"@,
        status.sink_description matches Some(device) ==> r.sink@ == "out:"@ + "  "@ + device@,
        status.sink_description is None ==> r.sink@ == "out:"@ + "  "@ + "—"@,
        status.last_error matches Some(error) ==> string_of(r.error) == Some("⚠ "@ + error@),
        status.last_error is None ==> r.error is None,
        r.summary@ == (panel.latency_label@ + " "@ + text::decimal(status.latency_ms as nat) + " ms"@)
            + " · "@ + (panel.underruns_label@ + " "@ + text::decimal(status.underruns as nat))
            + " · "@ + (panel.drops_label@ + " "@ + text::decimal(status.overruns as nat)),
        save <==> clicked || (left && enter),
{
}

/// The panel as values is the panel.
pub proof fn the_panel_is_seen_as_it_is(app: PanelApp)
    ensures
        app@.presets == library(app.presets@),
        app@.save_name == app.save_name@,
        app.save_feedback matches Some(feedback) ==> app@.feedback == Some(
            FeedbackView { message: feedback.message@, ok: feedback.ok },
        ),
        app.save_feedback is None ==> app@.feedback is None,
        app@.seen_revision == app.seen_revision,
        app@.fitted == app.fitted,
{
}

} // verus!
