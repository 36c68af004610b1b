//! The equalizer: one frequency-response curve with draggable points.
//!
//! The dots are the settings, and the line between them is a drawing of them.
//! Arrow keys move the selected band, because a curve with no keyboard path
//! would be a regression on the sliders it replaced.
//!
//! Gains are whole tenths of a decibel, which is the resolution the panel
//! displays. Distances on screen are given as the bit patterns of non-negative
//! single-precision floats, which order as the floats do.
use crate::engine::SharedParams;
use crate::text;
use vstd::prelude::*;

verus! {

broadcast use vstd::string::group_string_axioms;

/// The half-range of the vertical axis, in tenths of a decibel. Bands reach
/// twelve decibels either way, so the axis does too.
pub const EQ_DB_RANGE: i32 = 120;

/// The gain step for one arrow-key press, in tenths of a decibel.
pub const EQ_KEY_STEP: i32 = 5;

/// The gain step for one arrow-key press with shift held.
pub const EQ_KEY_STEP_FINE: i32 = 1;

/// How far from a point a press counts as grabbing it: twenty points on screen,
/// as the bit pattern of a float. Generous on purpose, because "the nearest one"
/// is what a user means.
pub const EQ_GRAB_RADIUS: u32 = 0x41a0_0000;

/// Band counts the engine accepts.
pub const BAND_CHOICES: [usize; 5] = [5, 10, 15, 20, 31];

/// Octave landmarks on the frequency axis, in hertz.
pub const TICKS: [u32; 13] = [
    20, 31, 50, 100, 200, 500, 1000, 2000, 4000, 8000, 16000, 20000, 24000,
];

// ---------------------------------------------------------------------------
// Gains

/// A gain brought onto the axis.
pub open spec fn bounded(tenths: int) -> int {
    if tenths > EQ_DB_RANGE {
        EQ_DB_RANGE as int
    } else if tenths < -EQ_DB_RANGE {
        -EQ_DB_RANGE
    } else {
        tenths
    }
}

/// A gain brought onto the axis, with a hair either side of zero taken as zero.
pub open spec fn snapped(tenths: int) -> int {
    if -1 <= tenths <= 1 {
        0
    } else {
        bounded(tenths)
    }
}

/// Where a key press leaves a band, given the sum of its gain and the step.
///
/// A fine step is a tenth of a decibel, the resolution the panel displays, so it
/// leaves the band exactly where it leads; any other step is snapped.
pub open spec fn landed(sum: int, delta: int) -> int {
    if delta == EQ_KEY_STEP_FINE || delta == -EQ_KEY_STEP_FINE {
        bounded(sum)
    } else {
        snapped(sum)
    }
}

/// Brings a gain onto the axis.
fn bound(tenths: i64) -> (r: i32)
    ensures
        r == bounded(tenths as int),
{
    if tenths > EQ_DB_RANGE as i64 {
        EQ_DB_RANGE
    } else if tenths < -EQ_DB_RANGE as i64 {
        -EQ_DB_RANGE
    } else {
        tenths as i32
    }
}

/// Brings a gain, rounded to tenths of a decibel, onto the axis, snapping a hair
/// either side of zero to exactly zero.
///
/// Without the snap a band dragged back to the middle lands beside zero, and
/// "is this band flat?" has no exact answer.
pub fn snap_gain(tenths: i32) -> (r: i32)
    ensures
        r == snapped(tenths as int),
{
    if -1 <= tenths && tenths <= 1 {
        0
    } else {
        bound(tenths as i64)
    }
}

/// Where a key press leaves a band, given the sum of its gain and the step,
/// rounded to tenths of a decibel.
pub fn land(sum: i32, delta: i32) -> (r: i32)
    ensures
        r == landed(sum as int, delta as int),
{
    if delta == EQ_KEY_STEP_FINE || delta == -EQ_KEY_STEP_FINE {
        bound(sum as i64)
    } else {
        snap_gain(sum)
    }
}

/// A band's gain as the engine has it: the nearest tenth of a decibel, and
/// whether the gain is exactly that.
#[derive(Debug, Clone, Copy, PartialEq, Eq, Structural)]
pub struct BandGain {
    pub tenths: i32,
    pub exact: bool,
}

/// The gain a key press leaves a band with, in tenths of a decibel. A gain that
/// is not a whole number of tenths has its sum rounded first ([`land`]).
pub open spec fn step_of(gain: BandGain, delta: int) -> Option<int> {
    if gain.exact {
        Some(landed(gain.tenths + delta, delta))
    } else {
        None
    }
}

/// The gain a key press leaves a band with, where the band has a whole number
/// of tenths of a decibel.
pub fn stepped(gain: BandGain, delta: i32) -> (r: Option<i32>)
    ensures
        match r {
            Some(tenths) => step_of(gain, delta as int) == Some(tenths as int),
            None => step_of(gain, delta as int) is None,
        },
{
    if gain.exact {
        Some(land(bound(gain.tenths as i64 + delta as i64), delta))
    } else {
        None
    }
}

// ---------------------------------------------------------------------------
// Finding things on the curve

/// Where a position lies among the points of a curve.
#[derive(Debug, Clone, Copy, PartialEq, Eq, Structural)]
pub enum Segment {
    /// There are no points.
    Empty,
    /// At or beyond an end, or there is only one point: the curve holds the
    /// value of this point.
    Hold(usize),
    /// Between this point and the next.
    Between(usize),
}

/// Whether `s` says where `at` lies among the points at `xs`.
pub open spec fn lies_in(xs: Seq<i32>, at: i32, s: Segment) -> bool {
    if xs.len() == 0 {
        s == Segment::Empty
    } else if xs.len() == 1 || at <= xs[0] {
        s == Segment::Hold(0)
    } else if at >= xs.last() {
        s == Segment::Hold((xs.len() - 1) as usize)
    } else {
        // The first interval that reaches `at`.
        &&& s matches Segment::Between(i)
        &&& i + 1 < xs.len()
        &&& at <= xs[i + 1]
        &&& forall|k: int| 0 <= k <= i ==> xs[k] < at
    }
}

/// Says where `at` lies among the points at `xs`. Positions are given by
/// integers that order as they do.
pub fn locate(xs: &Vec<i32>, at: i32) -> (r: Segment)
    ensures
        lies_in(xs@, at, r),
{
    let n: usize = xs.len();
    if n == 0 {
        return Segment::Empty;
    }
    if n == 1 || at <= xs[0] {
        return Segment::Hold(0);
    }
    if at >= xs[n - 1] {
        return Segment::Hold(n - 1);
    }
    let mut i: usize = 0;
    while i + 2 < n && at > xs[i + 1]
        invariant
            n == xs.len(),
            i + 1 < n,
            at < xs[n - 1],
            forall|k: int| 0 <= k <= i ==> xs[k] < at,
        decreases n - i,
    {
        i = i + 1;
    }
    Segment::Between(i)
}

/// Whether `i` is the first of the nearest points, and near enough to grab.
pub open spec fn is_nearest(distances: Seq<u32>, i: int) -> bool {
    &&& 0 <= i < distances.len()
    &&& distances[i] <= EQ_GRAB_RADIUS
    &&& forall|k: int| 0 <= k < i ==> distances[k] > distances[i]
    &&& forall|k: int| i <= k < distances.len() ==> distances[k] >= distances[i]
}

/// Whether no point is near enough to grab.
pub open spec fn none_near(distances: Seq<u32>) -> bool {
    forall|k: int| 0 <= k < distances.len() ==> (#[trigger] distances[k]) > EQ_GRAB_RADIUS
}

/// The band whose point is nearest, if any is near enough to grab.
pub fn nearest(distances: &Vec<u32>) -> (r: Option<usize>)
    ensures
        match r {
            Some(i) => is_nearest(distances@, i as int),
            None => none_near(distances@),
        },
{
    let mut best: Option<usize> = None;
    let mut i: usize = 0;
    while i < distances.len()
        invariant
            i <= distances.len(),
            match best {
                Some(b) => b < i && is_nearest(distances@.take(i as int), b as int),
                None => forall|k: int| 0 <= k < i ==> distances[k] > EQ_GRAB_RADIUS,
            },
        decreases distances.len() - i,
    {
        let closer = distances[i] <= EQ_GRAB_RADIUS && match best {
            Some(b) => distances[i] < distances[b],
            None => true,
        };
        let ghost now = distances@.take(i + 1);
        let ghost before = distances@.take(i as int);
        assert(forall|k: int| 0 <= k < i ==> now[k] == before[k]);
        if closer {
            best = Some(i);
        }
        i = i + 1;
    }
    assert(distances@.take(i as int) =~= distances@);
    best
}

// ---------------------------------------------------------------------------
// Dragging, clicking and keys

/// Where the pointer is on the curve.
#[derive(Debug, Clone, Copy)]
pub struct EqPointer {
    /// The band whose point is nearest, if it is near enough to grab.
    pub nearest: Option<usize>,
    /// The gain at the pointer's height, rounded to tenths of a decibel.
    pub tenths: i32,
}

/// What happened on the curve during one frame.
#[derive(Debug, Clone, Copy)]
pub struct EqInput {
    pub double_clicked: bool,
    /// Whether the button is held down on the curve.
    pub pressed: bool,
    pub pointer: Option<EqPointer>,
    pub focused: bool,
    pub shift: bool,
    pub up: bool,
    pub down: bool,
}

/// A change to a band.
#[derive(Debug, Clone, Copy, PartialEq, Eq, Structural)]
pub enum EqCommand {
    /// Set the gain, in tenths of a decibel.
    Gain { band: usize, tenths: i32 },
    /// Add to a gain that is not a whole number of tenths of a decibel, and let
    /// the sum [`land`].
    Step { band: usize, delta: i32 },
}

/// Which band is held by the pointer, and which one the arrow keys move.
#[derive(Debug, Clone, Copy, PartialEq, Eq, Structural)]
pub struct EqState {
    pub dragging: Option<usize>,
    /// The band last clicked.
    pub selected: Option<usize>,
}

/// The band nearest to the pointer.
pub open spec fn under_pointer(input: EqInput) -> Option<usize> {
    match input.pointer {
        Some(pointer) => pointer.nearest,
        None => None,
    }
}

/// Whether a band's gain is exactly `tenths`.
pub open spec fn has_gain(gain: BandGain, tenths: int) -> bool {
    gain.exact && gain.tenths == tenths
}

/// The state after what the pointer did.
///
/// A double-click selects and lets go. A press grabs the nearest point, once:
/// dragging past a neighbour keeps hold of the band that was caught. Letting go
/// lets go.
pub open spec fn after_pointer(s: EqState, input: EqInput) -> EqState {
    let caught = under_pointer(input);
    if input.double_clicked {
        EqState { dragging: None, selected: if caught is Some { caught } else { s.selected } }
    } else if input.pressed {
        if s.dragging is Some {
            s
        } else {
            EqState { dragging: caught, selected: if caught is Some { caught } else { s.selected } }
        }
    } else {
        EqState { dragging: None, ..s }
    }
}

/// What the pointer changes: a double-click resets the band under it, and a
/// drag sets the band that is held to the pointer's height where that differs
/// from what it has.
pub open spec fn pointer_commands(s: EqState, input: EqInput, gains: Seq<BandGain>) -> Seq<
    EqCommand,
> {
    if input.double_clicked {
        match under_pointer(input) {
            Some(band) => seq![EqCommand::Gain { band, tenths: 0 }],
            None => Seq::empty(),
        }
    } else if input.pressed {
        match (after_pointer(s, input).dragging, input.pointer) {
            (Some(band), Some(pointer)) => if has_gain(
                gains[band as int],
                snapped(pointer.tenths as int),
            ) {
                Seq::empty()
            } else {
                seq![EqCommand::Gain { band, tenths: snapped(pointer.tenths as int) as i32 }]
            },
            _ => Seq::empty(),
        }
    } else {
        Seq::empty()
    }
}

/// How far the arrow keys move a band, in tenths of a decibel.
pub open spec fn key_delta(input: EqInput) -> int {
    let step = if input.shift {
        EQ_KEY_STEP_FINE
    } else {
        EQ_KEY_STEP
    };
    if input.up == input.down {
        0
    } else if input.up {
        step as int
    } else {
        -step
    }
}

/// The gain a band has once the pointer has had its say.
pub open spec fn gain_after(pointer: Seq<EqCommand>, gains: Seq<BandGain>, band: usize) -> BandGain {
    if pointer.len() > 0 && (pointer[0] matches EqCommand::Gain { band: set, .. } && set == band) {
        BandGain { tenths: pointer[0]->tenths, exact: true }
    } else {
        gains[band as int]
    }
}

/// What the keys change of the selected band, whose gain is `gain`.
pub open spec fn key_command(band: usize, gain: BandGain, delta: int) -> EqCommand {
    match step_of(gain, delta) {
        Some(tenths) => EqCommand::Gain { band, tenths: tenths as i32 },
        None => EqCommand::Step { band, delta: delta as i32 },
    }
}

/// What the keys change, once the pointer has had its say.
pub open spec fn key_commands(
    selected: Option<usize>,
    input: EqInput,
    pointer: Seq<EqCommand>,
    gains: Seq<BandGain>,
) -> Seq<EqCommand> {
    match selected {
        Some(band) => if input.focused && band < gains.len() && key_delta(input) != 0 {
            seq![key_command(band, gain_after(pointer, gains, band), key_delta(input))]
        } else {
            Seq::empty()
        },
        None => Seq::empty(),
    }
}

/// Everything one frame changes, in order.
pub open spec fn frame_commands(s: EqState, input: EqInput, gains: Seq<BandGain>) -> Seq<
    EqCommand,
> {
    let pointer = pointer_commands(s, input, gains);
    pointer + key_commands(after_pointer(s, input).selected, input, pointer, gains)
}

/// Whether the band that a drag moves is one of the bands there are.
pub open spec fn holds_a_band(s: EqState, input: EqInput, bands: nat) -> bool {
    !input.double_clicked && input.pressed && input.pointer is Some ==> {
        after_pointer(s, input).dragging matches Some(band) ==> band < bands
    }
}

/// How far the arrow keys move a band, in tenths of a decibel.
fn delta_of(input: &EqInput) -> (r: i32)
    ensures
        r == key_delta(*input),
{
    let step: i32 = if input.shift {
        EQ_KEY_STEP_FINE
    } else {
        EQ_KEY_STEP
    };
    if input.up == input.down {
        0
    } else if input.up {
        step
    } else {
        -step
    }
}

impl EqState {
    /// Nothing held, nothing selected.
    pub fn new() -> (r: Self)
        ensures
            r.dragging is None,
            r.selected is None,
    {
        EqState { dragging: None, selected: None }
    }

    /// Takes one frame's input, and returns what to change, in order. `gains`
    /// has one entry per band.
    pub fn interact(&mut self, input: &EqInput, gains: &Vec<BandGain>) -> (r: Vec<EqCommand>)
        requires
            holds_a_band(*old(self), *input, gains.len() as nat),
        ensures
            *final(self) == after_pointer(*old(self), *input),
            r@ == frame_commands(*old(self), *input, gains@),
    {
        let mut commands: Vec<EqCommand> = Vec::new();
        let caught = match input.pointer {
            Some(pointer) => pointer.nearest,
            None => None,
        };
        // Double-click is looked at before the drag, because a double-click is
        // also a press, and the press would set the band to where the pointer
        // is: the opposite of resetting it.
        if input.double_clicked {
            if let Some(band) = caught {
                commands.push(EqCommand::Gain { band, tenths: 0 });
                self.selected = Some(band);
            }
            self.dragging = None;
        } else if input.pressed {
            if self.dragging.is_none() {
                self.dragging = caught;
                if let Some(band) = caught {
                    self.selected = Some(band);
                }
            }
            if let Some(band) = self.dragging {
                if let Some(pointer) = input.pointer {
                    let tenths = snap_gain(pointer.tenths);
                    let unchanged = gains[band].exact && gains[band].tenths == tenths;
                    if !unchanged {
                        commands.push(EqCommand::Gain { band, tenths });
                    }
                }
            }
        } else {
            self.dragging = None;
        }
        assert(commands@ =~= pointer_commands(*old(self), *input, gains@));
        assert(*self == after_pointer(*old(self), *input));
        if input.focused {
            if let Some(band) = self.selected {
                let delta = delta_of(input);
                if band < gains.len() && delta != 0 {
                    let mut gain = gains[band];
                    if commands.len() > 0 {
                        if let EqCommand::Gain { band: set, tenths } = commands[0] {
                            if set == band {
                                gain = BandGain { tenths, exact: true };
                            }
                        }
                    }
                    match stepped(gain, delta) {
                        Some(tenths) => commands.push(EqCommand::Gain { band, tenths }),
                        None => commands.push(EqCommand::Step { band, delta }),
                    }
                }
            }
        }
        assert(commands@ =~= frame_commands(*old(self), *input, gains@));
        commands
    }

    /// The band drawn as active: the one held, else the one hovered.
    pub fn active(&self, hovered: Option<usize>) -> (r: Option<usize>)
        ensures
            r == (if self.dragging is Some {
                self.dragging
            } else {
                hovered
            }),
    {
        if self.dragging.is_some() {
            self.dragging
        } else {
            hovered
        }
    }

    /// Whether a point gets the ring of the selected one: not while it is
    /// active, which shows already.
    pub fn ringed(&self, hovered: Option<usize>, band: usize) -> (r: bool)
        ensures
            r == (self.selected == Some(band) && !(self.dragging == Some(band) || (self.dragging is None
                && hovered == Some(band)))),
    {
        let active = match self.active(hovered) {
            Some(b) => b == band,
            None => false,
        };
        let selected = match self.selected {
            Some(b) => b == band,
            None => false,
        };
        selected && !active
    }

    /// The band whose figures are shown: the active one, else the selected one,
    /// if it is one of the bands there are.
    pub fn readout(&self, hovered: Option<usize>, bands: usize) -> (r: Option<usize>)
        ensures
            r == ({
                let shown = if self.dragging is Some {
                    self.dragging
                } else if hovered is Some {
                    hovered
                } else {
                    self.selected
                };
                match shown {
                    Some(band) => if band < bands {
                        shown
                    } else {
                        None
                    },
                    None => None,
                }
            }),
    {
        let shown = match self.active(hovered) {
            Some(band) => Some(band),
            None => self.selected,
        };
        match shown {
            Some(band) => if band < bands {
                Some(band)
            } else {
                None
            },
            None => None,
        }
    }
}

// ---------------------------------------------------------------------------
// The card around the curve

/// What was clicked in the row above the curve during one frame.
#[derive(Debug, Clone, Copy)]
pub struct EqCardInput {
    /// The new state of the switch, if it was flipped.
    pub switched: Option<bool>,
    /// The band count that was picked.
    pub picked: Option<usize>,
    pub reset: bool,
}

/// A change to the equalizer as a whole.
#[derive(Debug, Clone, Copy, PartialEq, Eq, Structural)]
pub enum EqCardCommand {
    SetOn(bool),
    SetBands(usize),
    /// Bring every band back to zero.
    Flatten,
}

/// The number of bands shown.
pub open spec fn shown_bands(num_bands: usize, max_bands: usize) -> usize {
    if num_bands < max_bands {
        num_bands
    } else {
        max_bands
    }
}

/// What the row above the curve changes, in order. Picking the band count there
/// already is changes nothing.
pub open spec fn card_commands(
    params: SharedParams,
    max_bands: usize,
    input: EqCardInput,
) -> Seq<EqCardCommand> {
    let on = match input.switched {
        Some(on) => seq![EqCardCommand::SetOn(on)],
        None => Seq::empty(),
    };
    let bands = match input.picked {
        Some(picked) => if picked != shown_bands(params.num_bands, max_bands) {
            seq![EqCardCommand::SetBands(picked)]
        } else {
            Seq::empty()
        },
        None => Seq::empty(),
    };
    let flat = if input.reset {
        seq![EqCardCommand::Flatten]
    } else {
        Seq::empty()
    };
    on + bands + flat
}

/// The number of bands shown: what the engine has, up to the most it can have.
pub fn band_count(params: &SharedParams, max_bands: usize) -> (r: usize)
    ensures
        r == shown_bands(params.num_bands, max_bands),
{
    if params.num_bands < max_bands {
        params.num_bands
    } else {
        max_bands
    }
}

/// What the row above the curve changes, in order.
pub fn eq_card(params: &SharedParams, max_bands: usize, input: &EqCardInput) -> (r: Vec<
    EqCardCommand,
>)
    ensures
        r@ == card_commands(*params, max_bands, *input),
{
    let mut commands: Vec<EqCardCommand> = Vec::new();
    if let Some(on) = input.switched {
        commands.push(EqCardCommand::SetOn(on));
    }
    if let Some(picked) = input.picked {
        if picked != band_count(params, max_bands) {
            commands.push(EqCardCommand::SetBands(picked));
        }
    }
    if input.reset {
        commands.push(EqCardCommand::Flatten);
    }
    assert(commands@ =~= card_commands(*params, max_bands, *input));
    commands
}

/// The changes that bring every band back to zero.
pub fn flatten_eq(params: &SharedParams, max_bands: usize) -> (r: Vec<EqCommand>)
    ensures
        r@ == Seq::new(
            shown_bands(params.num_bands, max_bands) as nat,
            |band: int| EqCommand::Gain { band: band as usize, tenths: 0 },
        ),
{
    let bands = band_count(params, max_bands);
    let mut commands: Vec<EqCommand> = Vec::new();
    let mut band: usize = 0;
    while band < bands
        invariant
            band <= bands,
            commands.len() == band,
            forall|k: int|
                0 <= k < band ==> commands[k] == (EqCommand::Gain { band: k as usize, tenths: 0 }),
        decreases bands - band,
    {
        commands.push(EqCommand::Gain { band, tenths: 0 });
        band = band + 1;
    }
    commands
}

// ---------------------------------------------------------------------------
// The graticule and the area under the curve

/// A horizontal line of the graticule.
#[derive(Debug, Clone, Copy)]
pub struct DbLine {
    /// Its gain, in decibels.
    pub db: i32,
    pub label: &'static str,
    /// Whether it is the line every other is read against.
    pub reference: bool,
}

/// The horizontal lines, top to bottom.
pub open spec fn db_lines() -> Seq<DbLine> {
    seq![
        DbLine { db: 12, label: "12", reference: false },
        DbLine { db: 6, label: "6", reference: false },
        DbLine { db: 0, label: "0", reference: true },
        DbLine { db: -6i32, label: "-6", reference: false },
        DbLine { db: -12i32, label: "-12", reference: false },
    ]
}

/// The horizontal lines, top to bottom.
pub fn graticule_lines() -> (r: Vec<DbLine>)
    ensures
        r@ == db_lines(),
{
    vec![
        DbLine { db: 12, label: "12", reference: false },
        DbLine { db: 6, label: "6", reference: false },
        DbLine { db: 0, label: "0", reference: true },
        DbLine { db: -6, label: "-6", reference: false },
        DbLine { db: -12, label: "-12", reference: false },
    ]
}

/// A labelled tick on the frequency axis.
#[derive(Debug)]
pub struct Tick {
    pub hz: u32,
    pub label: String,
}

/// The landmarks between two frequencies.
pub open spec fn visible_ticks(lo: u32, hi: u32) -> Seq<u32> {
    TICKS@.filter(|hz: u32| lo <= hz <= hi)
}

/// How many landmarks there are from one label to the next.
pub open spec fn stride_of(visible: nat) -> nat {
    if visible < 5 {
        1
    } else {
        visible / 5
    }
}

/// Every `stride`-th element, from the first on.
pub open spec fn every<A>(s: Seq<A>, stride: nat) -> Seq<A>
    recommends
        stride > 0,
{
    Seq::new(((s.len() + stride - 1) / stride as int) as nat, |i: int| s[i * stride])
}

proof fn length_of_every<A>(s: Seq<A>, stride: nat)
    requires
        stride == 1 || stride == 2,
    ensures
        every(s, stride).len() == (if stride == 1 {
            s.len()
        } else {
            (s.len() + 1) / 2
        }),
{
    vstd::arithmetic::div_mod::lemma_div_basics(s.len() as int);
}

/// The landmarks that get a label.
pub open spec fn labelled_ticks(lo: u32, hi: u32) -> Seq<u32> {
    every(visible_ticks(lo, hi), stride_of(visible_ticks(lo, hi).len()))
}

/// What a landmark is labelled: hertz, or kilohertz with a `k`.
pub open spec fn tick_text(hz: u32) -> Seq<char> {
    if hz >= 1000 {
        text::decimal((hz / 1000) as nat) + "k"@
    } else {
        text::decimal(hz as nat)
    }
}

/// What a landmark is labelled.
///
/// Prefixes are not translated: `1k` reads the same in both languages.
fn tick_label(hz: u32) -> (r: String)
    ensures
        r@ == tick_text(hz),
{
    let mut label = String::new();
    if hz >= 1000 {
        text::push_decimal(&mut label, (hz / 1000) as u64);
        label.append("k");
    } else {
        text::push_decimal(&mut label, hz as u64);
    }
    assert(label@ =~= tick_text(hz));
    label
}

/// The labelled ticks of an axis that spans the whole hertz from `lo` to `hi`.
pub fn frequency_ticks(lo: u32, hi: u32) -> (r: Vec<Tick>)
    ensures
        r@.map_values(|tick: Tick| (tick.hz, tick.label@)) == labelled_ticks(lo, hi).map_values(
            |hz: u32| (hz, tick_text(hz)),
        ),
{
    let ticks: [u32; 13] = TICKS;
    let ghost shown = |hz: u32| lo <= hz <= hi;
    let mut visible: Vec<u32> = Vec::new();
    let mut i: usize = 0;
    reveal(Seq::filter);
    assert(ticks@.take(0).filter(shown) =~= Seq::empty());
    while i < 13
        invariant
            i <= 13,
            ticks@.len() == 13,
            shown == (|hz: u32| lo <= hz <= hi),
            visible@ == ticks@.take(i as int).filter(shown),
            visible.len() <= i,
        decreases 13 - i,
    {
        reveal(Seq::filter);
        assert(ticks@.take(i + 1).drop_last() =~= ticks@.take(i as int));
        assert(ticks@.take(i + 1).last() == ticks@[i as int]);
        if lo <= ticks[i] && ticks[i] <= hi {
            visible.push(ticks[i]);
        }
        i = i + 1;
    }
    assert(ticks@.take(13) =~= TICKS@);
    assert(visible@ == visible_ticks(lo, hi));
    let n: usize = visible.len();
    let stride: usize = if n < 5 {
        1
    } else {
        n / 5
    };
    let mut out: Vec<Tick> = Vec::new();
    let mut at: usize = 0;
    while at < n
        invariant
            visible@ == visible_ticks(lo, hi),
            n == visible.len(),
            n <= 13,
            stride == stride_of(n as nat),
            stride == 1 || stride == 2,
            at == (if stride == 1 {
                out.len() as int
            } else {
                2 * out.len()
            }),
            at < n + stride,
            forall|k: int|
                0 <= k < out.len() ==> (#[trigger] out[k]).hz == visible[if stride == 1 {
                    k
                } else {
                    2 * k
                }] && out[k].label@ == tick_text(out[k].hz),
        decreases n + stride - at,
    {
        out.push(Tick { hz: visible[at], label: tick_label(visible[at]) });
        at = at + stride;
    }
    let ghost want = labelled_ticks(lo, hi);
    let ghost shape = |tick: Tick| (tick.hz, tick.label@);
    let ghost wanted = |hz: u32| (hz, tick_text(hz));
    proof {
        length_of_every(visible_ticks(lo, hi), stride as nat);
    }
    assert(out.len() == want.len());
    assert forall|k: int| 0 <= k < out.len() implies #[trigger] want[k] == out[k].hz by {
        assert(k * 1 == k && k * 2 == 2 * k);
    }
    assert(out@.map_values(shape) =~= want.map_values(wanted));
    out
}

/// How many steps the curve is drawn in, given half the width of the plot in
/// whole points.
pub fn curve_steps(half_width: i32) -> (r: usize)
    ensures
        r == (if half_width < 32 {
            32
        } else if half_width > 240 {
            240
        } else {
            half_width as int
        }),
{
    if half_width < 32 {
        32
    } else if half_width > 240 {
        240
    } else {
        half_width as usize
    }
}

/// The triangles of the strip between the curve and zero, for `points` samples
/// of the curve. Sample `i` has two vertices: `2 * i` on the curve and
/// `2 * i + 1` at zero.
pub open spec fn strip(points: nat) -> Seq<(u32, u32, u32)> {
    Seq::new(
        if points == 0 {
            0
        } else {
            ((points - 1) * 2) as nat
        },
        |i: int|
            if i % 2 == 0 {
                (i as u32, (i + 1) as u32, (i + 2) as u32)
            } else {
                (i as u32, (i + 2) as u32, (i + 1) as u32)
            },
    )
}

/// The triangles of the strip between the curve and zero.
///
/// A strip rather than a polygon: the region is not convex.
pub fn area_triangles(points: usize) -> (r: Vec<(u32, u32, u32)>)
    requires
        points * 2 <= u32::MAX,
    ensures
        r@ == strip(points as nat),
{
    let mut out: Vec<(u32, u32, u32)> = Vec::new();
    let mut step: usize = 0;
    while step + 1 < points
        invariant
            points * 2 <= u32::MAX,
            step == 0 || step < points,
            out.len() == step * 2,
            forall|i: int| 0 <= i < out.len() ==> out[i] == strip(points as nat)[i],
        decreases points - step,
    {
        let base: u32 = (step * 2) as u32;
        out.push((base, base + 1, base + 2));
        out.push((base + 1, base + 3, base + 2));
        step = step + 1;
    }
    assert(out@ =~= strip(points as nat));
    out
}

// ---------------------------------------------------------------------------
// Laws

/// A snapped gain lies on the axis, is never a hair off zero, stays where it is
/// when snapped again, and snaps alike above and below zero.
pub proof fn a_snapped_gain_is_settled(tenths: int)
    ensures
        -EQ_DB_RANGE <= snapped(tenths) <= EQ_DB_RANGE,
        snapped(tenths) != 1,
        snapped(tenths) != -1,
        snapped(snapped(tenths)) == snapped(tenths),
        snapped(-tenths) == -snapped(tenths),
{
}

/// Snapping keeps the order of gains.
pub proof fn snapping_keeps_order(a: int, b: int)
    requires
        a <= b,
    ensures
        snapped(a) <= snapped(b),
{
}

/// A band that is held stays held, whatever the pointer passes, until it is let
/// go or double-clicked.
pub proof fn a_drag_keeps_its_band(s: EqState, input: EqInput)
    requires
        s.dragging is Some,
        input.pressed,
        !input.double_clicked,
    ensures
        after_pointer(s, input) == s,
{
}

/// Letting go, or double-clicking, leaves nothing held.
pub proof fn letting_go_lets_go(s: EqState, input: EqInput)
    requires
        !input.pressed || input.double_clicked,
    ensures
        after_pointer(s, input).dragging is None,
{
}

/// A band that has just been caught or double-clicked is the one the arrow keys
/// move.
pub proof fn what_is_caught_is_selected(s: EqState, input: EqInput)
    requires
        input.double_clicked || (input.pressed && s.dragging is None),
        under_pointer(input) is Some,
    ensures
        after_pointer(s, input).selected == under_pointer(input),
{
}

/// A key press with shift moves a band by exactly a tenth of a decibel, up to the
/// end of the axis; so it can leave zero, and the opposite key brings it back.
pub proof fn a_fine_step_is_a_tenth(gain: BandGain, up: bool)
    requires
        gain.exact,
        -EQ_DB_RANGE <= gain.tenths <= EQ_DB_RANGE,
    ensures
        ({
            let delta = if up { EQ_KEY_STEP_FINE as int } else { -EQ_KEY_STEP_FINE };
            let there = gain.tenths + delta;
            &&& -EQ_DB_RANGE <= there <= EQ_DB_RANGE ==> {
                &&& step_of(gain, delta) == Some(there)
                &&& step_of(BandGain { tenths: there as i32, exact: true }, -delta) == Some(
                    gain.tenths as int,
                )
            }
            &&& !(-EQ_DB_RANGE <= there <= EQ_DB_RANGE) ==> step_of(gain, delta) == Some(
                gain.tenths as int,
            )
        }),
{
}

/// An arrow key in a frame without a press changes the selected band and no
/// other: a whole step by what the key says, brought onto the axis.
pub proof fn a_key_moves_the_selected_band(s: EqState, input: EqInput, gains: Seq<BandGain>)
    requires
        !input.double_clicked,
        !input.pressed,
        input.focused,
        key_delta(input) != 0,
        s.selected matches Some(band) && band < gains.len() && gains[band as int].exact,
    ensures
        ({
            let band = s.selected->0;
            let sum = gains[band as int].tenths + key_delta(input);
            frame_commands(s, input, gains) == seq![
                EqCommand::Gain { band, tenths: landed(sum, key_delta(input)) as i32 },
            ]
        }),
{
    assert(frame_commands(s, input, gains) =~= seq![
        key_command(s.selected->0, gains[s.selected->0 as int], key_delta(input)),
    ]);
}

/// A frame changes only bands there are, sets only gains that lie on the axis,
/// and makes at most two changes; what the pointer sets is snapped.
pub proof fn a_frame_stays_on_the_axis(s: EqState, input: EqInput, gains: Seq<BandGain>, i: int)
    requires
        holds_a_band(s, input, gains.len()),
        under_pointer(input) matches Some(band) ==> band < gains.len(),
        0 <= i < frame_commands(s, input, gains).len(),
    ensures
        frame_commands(s, input, gains).len() <= 2,
        match frame_commands(s, input, gains)[i] {
            EqCommand::Gain { band, tenths } => {
                &&& band < gains.len()
                &&& -EQ_DB_RANGE <= tenths <= EQ_DB_RANGE
                &&& i < pointer_commands(s, input, gains).len() ==> tenths == snapped(tenths as int)
            },
            EqCommand::Step { band, delta } => band < gains.len() && (delta == EQ_KEY_STEP || delta
                == -EQ_KEY_STEP || delta == EQ_KEY_STEP_FINE || delta == -EQ_KEY_STEP_FINE),
        },
{
}

/// A frame in which nothing happens changes nothing.
pub proof fn an_idle_frame_changes_nothing(s: EqState, input: EqInput, gains: Seq<BandGain>)
    requires
        !input.double_clicked,
        !input.pressed,
        !input.focused || input.up == input.down,
    ensures
        frame_commands(s, input, gains) == Seq::<EqCommand>::empty(),
        after_pointer(s, input).selected == s.selected,
{
}

/// Holding the pointer still on a band changes it once: when the band has the
/// gain at the pointer, the drag asks for nothing more.
pub proof fn a_still_drag_asks_once(s: EqState, input: EqInput, gains: Seq<BandGain>)
    requires
        input.pressed,
        !input.double_clicked,
        s.dragging matches Some(band) && band < gains.len(),
        input.pointer is Some,
        has_gain(gains[s.dragging->0 as int], snapped(input.pointer->0.tenths as int)),
    ensures
        pointer_commands(s, input, gains) == Seq::<EqCommand>::empty(),
{
}

/// There is at most one nearest point.
pub proof fn the_nearest_point_is_one(distances: Seq<u32>, i: int, j: int)
    requires
        is_nearest(distances, i),
        is_nearest(distances, j),
    ensures
        i == j,
{
}

/// Where a position lies is one thing only.
pub proof fn a_position_lies_in_one_segment(xs: Seq<i32>, at: i32, a: Segment, b: Segment)
    requires
        lies_in(xs, at, a),
        lies_in(xs, at, b),
    ensures
        a == b,
{
    if let Segment::Between(i) = a {
        if let Segment::Between(j) = b {
            if i < j {
                assert(xs[i + 1] < at);
            }
            if j < i {
                assert(xs[j + 1] < at);
            }
        }
    }
}

/// Every triangle of the area names vertices that exist, and there are two for
/// each step of the curve.
pub proof fn the_strip_names_its_own_vertices(points: nat, i: int)
    requires
        points * 2 <= u32::MAX,
        0 <= i < strip(points).len(),
    ensures
        strip(points).len() == (points - 1) * 2,
        strip(points)[i].0 < points * 2,
        strip(points)[i].1 < points * 2,
        strip(points)[i].2 < points * 2,
{
}

/// The decade a frequency falls in, by its lower end.
pub open spec fn decade(hz: u32) -> int {
    if hz < 100 {
        10
    } else if hz < 1000 {
        100
    } else if hz < 10000 {
        1000
    } else {
        10000
    }
}

proof fn visible_ticks_are_a_run(lo: u32, hi: u32, n: int) -> (run: (int, int))
    requires
        0 <= n <= 13,
    ensures
        0 <= run.0 <= run.1 <= n,
        TICKS@.take(n).filter(|hz: u32| lo <= hz <= hi) == TICKS@.subrange(run.0, run.1),
        forall|k: int| 0 <= k < run.0 ==> TICKS@[k] < lo,
        forall|k: int| run.1 <= k < n ==> TICKS@[k] > hi,
    decreases n,
{
    reveal(Seq::filter);
    let shown = |hz: u32| lo <= hz <= hi;
    if n == 0 {
        assert(TICKS@.take(0).filter(shown) =~= TICKS@.subrange(0, 0));
        (0, 0)
    } else {
        let (a, b) = visible_ticks_are_a_run(lo, hi, n - 1);
        let hz = TICKS@[n - 1];
        assert(TICKS@.take(n).drop_last() =~= TICKS@.take(n - 1));
        assert(TICKS@.take(n).last() == hz);
        assert(forall|k: int| 0 <= k < n - 1 ==> TICKS@[k] < hz);
        if hz < lo {
            assert(forall|k: int| a <= k < b ==> lo <= #[trigger] TICKS@[k]) by {
                assert forall|k: int| a <= k < b implies lo <= #[trigger] TICKS@[k] by {
                    let inside = TICKS@.take(n - 1).filter(shown);
                    assert(inside[k - a] == TICKS@[k]);
                    TICKS@.take(n - 1).lemma_filter_pred(shown, k - a);
                }
            }
            if a < b {
                assert(TICKS@[a] < hz);
            }
            assert(TICKS@.subrange(a, b) =~= TICKS@.subrange(n, n));
            if b < n - 1 {
                assert(TICKS@[b] > hi);
                if a == b {
                    (b, b)
                } else {
                    (a, b)
                }
            } else {
                (n, n)
            }
        } else if hz > hi {
            (a, b)
        } else {
            if b < n - 1 {
                assert(TICKS@[b] > hi);
            }
            assert(TICKS@.subrange(a, b).push(hz) =~= TICKS@.subrange(a, n));
            (a, n)
        }
    }
}

/// The axis stays readable: no five labels in a row share a decade, so no
/// decade has more than four, whatever span is shown.
pub proof fn at_most_four_labels_per_decade(lo: u32, hi: u32, i: int)
    requires
        0 <= i,
        i + 4 < labelled_ticks(lo, hi).len(),
    ensures
        decade(labelled_ticks(lo, hi)[i]) != decade(labelled_ticks(lo, hi)[i + 4]),
{
    let (a, b) = visible_ticks_are_a_run(lo, hi, 13);
    assert(TICKS@.take(13) =~= TICKS@);
    let visible = visible_ticks(lo, hi);
    let stride = stride_of(visible.len());
    let first = i * stride;
    let last = (i + 4) * stride;
    assert(1 <= stride <= 2);
    assert(last == first + 4 * stride) by (nonlinear_arith)
        requires
            first == i * stride,
            last == (i + 4) * stride,
    ;
    assert(0 <= first && last < visible.len()) by {
        length_of_every(visible, stride);
        if stride == 1 {
            vstd::arithmetic::mul::lemma_mul_basics(i);
            vstd::arithmetic::mul::lemma_mul_basics(i + 4);
            assert(first == i && last == i + 4);
        } else {
            assert(stride == 2);
            assert(first == 2 * i) by (nonlinear_arith)
                requires
                    first == i * stride,
                    stride == 2,
            ;
            assert(last == 2 * i + 8);
        }
    }
    assert(visible[first] == TICKS@[a + first]);
    assert(visible[last] == TICKS@[a + last]);
}

// ---------------------------------------------------------------------------
// What each operation comes to

/// Whether `r` is `tenths` brought onto an axis of twelve decibels either way,
/// with a tenth either side of zero taken as zero.
pub open spec fn is_snapped(tenths: int, r: int) -> bool {
    &&& -1 <= tenths <= 1 ==> r == 0
    &&& 2 <= tenths <= 120 || -120 <= tenths <= -2 ==> r == tenths
    &&& tenths > 120 ==> r == 120
    &&& tenths < -120 ==> r == -120
}

/// A gain on the axis is kept, one beyond it is brought to its end, and a tenth
/// either side of zero is zero.
pub proof fn a_gain_is_brought_onto_the_axis(tenths: i32, r: i32)
    requires
        call_ensures(snap_gain, (tenths,), r),
    ensures
        is_snapped(tenths as int, r as int),
{
}

/// A fine step lands where it leads, any other step is snapped, and both stay on
/// the axis. A gain between two tenths is left to be rounded first.
pub proof fn a_step_lands_on_the_axis(
    sum: i32,
    delta: i32,
    r: i32,
    gain: BandGain,
    stepped_to: Option<i32>,
)
    requires
        call_ensures(land, (sum, delta), r),
        call_ensures(stepped, (gain, delta), stepped_to),
    ensures
        delta != 1 && delta != -1 ==> is_snapped(sum as int, r as int),
        delta == 1 || delta == -1 ==> {
            &&& -120 <= sum <= 120 ==> r == sum
            &&& sum > 120 ==> r == 120
            &&& sum < -120 ==> r == -120
        },
        stepped_to is Some <==> gain.exact,
        stepped_to matches Some(to) ==> {
            let there = gain.tenths + delta;
            &&& delta != 1 && delta != -1 ==> is_snapped(there, to as int)
            &&& delta == 1 || delta == -1 ==> {
                &&& -120 <= there <= 120 ==> to == there
                &&& there > 120 ==> to == 120
                &&& there < -120 ==> to == -120
            }
        },
{
}

/// A frame with keys only: `double_clicked` and `pressed` are not set.
pub open spec fn keys_only(input: EqInput) -> bool {
    !input.double_clicked && !input.pressed
}

/// Up raises the selected band and down lowers it, and nothing else changes: by
/// half a decibel, as long as that stays on the axis and away from zero, and with
/// shift by a tenth, as long as that stays on the axis. Both keys at once, and
/// no key, change nothing.
pub proof fn keys_move_the_band_their_own_way(
    state: &mut EqState,
    input: EqInput,
    gains: Vec<BandGain>,
    r: Vec<EqCommand>,
)
    requires
        call_ensures(EqState::interact, (state, &input, &gains), r),
        keys_only(input),
        input.focused,
        old(state).selected matches Some(band) && band < gains.len(),
    ensures
        input.up == input.down ==> r@.len() == 0,
        input.up != input.down ==> {
            let band = old(state).selected->0;
            let gain = gains[band as int];
            let size = if input.shift { 1int } else { 5 };
            let there = if input.up { gain.tenths + size } else { gain.tenths - size };
            &&& r@.len() == 1
            &&& !gain.exact ==> r@[0] == (EqCommand::Step {
                band,
                delta: (if input.up { size } else { -size }) as i32,
            })
            &&& gain.exact ==> (r@[0] matches EqCommand::Gain { band: moved, tenths } && {
                &&& moved == band
                &&& -120 <= gain.tenths <= 120 && input.up ==> tenths >= gain.tenths
                &&& -120 <= gain.tenths <= 120 && input.down ==> tenths <= gain.tenths
                &&& input.shift && -120 <= there <= 120 ==> tenths == there
                &&& input.shift && there > 120 ==> tenths == 120
                &&& input.shift && there < -120 ==> tenths == -120
                &&& !input.shift ==> is_snapped(there, tenths as int)
            })
        },
        final(state).selected == old(state).selected,
        final(state).dragging is None,
{
}

/// Without focus, or without a selected band that is there, keys change nothing.
pub proof fn keys_need_focus_and_a_band(
    state: &mut EqState,
    input: EqInput,
    gains: Vec<BandGain>,
    r: Vec<EqCommand>,
)
    requires
        call_ensures(EqState::interact, (state, &input, &gains), r),
        keys_only(input),
        !input.focused || old(state).selected is None || old(state).selected->0 >= gains.len(),
    ensures
        r@.len() == 0,
        final(state).selected == old(state).selected,
        final(state).dragging is None,
{
}

/// A double-click resets the band under the pointer, selects it and lets go of
/// whatever was held, whether or not the button is down; beside every point it
/// only lets go.
pub proof fn a_double_click_resets(
    state: &mut EqState,
    input: EqInput,
    gains: Vec<BandGain>,
    r: Vec<EqCommand>,
)
    requires
        call_ensures(EqState::interact, (state, &input, &gains), r),
        input.double_clicked,
        !input.focused,
    ensures
        final(state).dragging is None,
        match input.pointer {
            Some(EqPointer { nearest: Some(band), .. }) => {
                &&& r@ == seq![EqCommand::Gain { band, tenths: 0 }]
                &&& final(state).selected == Some(band)
            },
            _ => r@.len() == 0 && final(state).selected == old(state).selected,
        },
{
}

/// A press holds the band it caught, else catches the one under the pointer and
/// selects it; what is held follows the pointer's height, and is written only
/// where that differs from what it has. Nothing else is written.
pub proof fn a_press_moves_what_it_holds(
    state: &mut EqState,
    input: EqInput,
    gains: Vec<BandGain>,
    r: Vec<EqCommand>,
)
    requires
        call_ensures(EqState::interact, (state, &input, &gains), r),
        holds_a_band(*old(state), input, gains.len() as nat),
        input.pressed,
        !input.double_clicked,
        !input.focused,
    ensures
        old(state).dragging is Some ==> *final(state) == *old(state),
        old(state).dragging is None ==> {
            match input.pointer {
                Some(EqPointer { nearest: Some(band), .. }) => final(state).dragging == Some(band)
                    && final(state).selected == Some(band),
                _ => *final(state) == *old(state),
            }
        },
        r@.len() <= 1,
        match (final(state).dragging, input.pointer) {
            (Some(band), Some(pointer)) => {
                &&& r@.len() == 1 ==> (r@[0] matches EqCommand::Gain { band: moved, tenths } && moved
                    == band && is_snapped(pointer.tenths as int, tenths as int))
                &&& r@.len() == 0 <==> gains[band as int].exact && is_snapped(
                    pointer.tenths as int,
                    gains[band as int].tenths as int,
                )
            },
            _ => r@.len() == 0,
        },
{
}

/// In a frame with focus the pointer has its say first, as without focus, and
/// the keys then move the band from where the pointer left it.
pub proof fn keys_follow_the_pointer(
    state: &mut EqState,
    alone: &mut EqState,
    then: &mut EqState,
    input: EqInput,
    gains: Vec<BandGain>,
    left: Vec<BandGain>,
    both: Vec<EqCommand>,
    pointer: Vec<EqCommand>,
    keys: Vec<EqCommand>,
)
    requires
        *old(alone) == *old(state),
        old(then).selected == final(alone).selected,
        call_ensures(EqState::interact, (state, &input, &gains), both),
        call_ensures(
            EqState::interact,
            (alone, &(EqInput { focused: false, ..input }), &gains),
            pointer,
        ),
        call_ensures(
            EqState::interact,
            (then, &(EqInput { pressed: false, double_clicked: false, ..input }), &left),
            keys,
        ),
        left.len() == gains.len(),
        forall|i: int|
            0 <= i < gains.len() ==> (#[trigger] left[i]) == (if pointer@.len() > 0 && (pointer@[0]
                matches EqCommand::Gain { band, .. } && band == i) {
                BandGain { tenths: pointer@[0]->tenths, exact: true }
            } else {
                gains[i]
            }),
    ensures
        both@ == pointer@ + keys@,
        *final(state) == *final(alone),
{
    assert(pointer@ =~= pointer_commands(*old(state), input, gains@));
    let selected = final(alone).selected;
    assert(selected == after_pointer(*old(state), input).selected);
    if let Some(band) = selected {
        if band < gains.len() {
            assert(left[band as int] == gain_after(pointer@, gains@, band));
        }
    }
    assert(both@ =~= pointer@ + keys@);
}

/// The active point is the one held, else the one hovered. The ring marks the
/// selected one unless it is active. The figures are those of the active point,
/// else of the selected one, and only of a band that is there.
pub proof fn the_held_point_comes_first(
    state: EqState,
    hovered: Option<usize>,
    band: usize,
    bands: usize,
    active: Option<usize>,
    ringed: bool,
    shown: Option<usize>,
)
    requires
        call_ensures(EqState::active, (&state, hovered), active),
        call_ensures(EqState::ringed, (&state, hovered, band), ringed),
        call_ensures(EqState::readout, (&state, hovered, bands), shown),
    ensures
        state.dragging is Some ==> active == state.dragging,
        state.dragging is None ==> active == hovered,
        ringed <==> state.selected == Some(band) && active != Some(band),
        active matches Some(b) ==> shown == (if b < bands { Some(b) } else { None }),
        active is None ==> (state.selected matches Some(b) ==> shown == (if b < bands {
            Some(b)
        } else {
            None
        })),
        active is None && state.selected is None ==> shown is None,
{
}

/// A position strictly inside the points lies between two of them, after the
/// first and not past the second; any other holds the value of the end it lies
/// at or beyond.
pub proof fn a_position_lies_between_its_neighbours(xs: Vec<i32>, at: i32, r: Segment)
    requires
        call_ensures(locate, (&xs, at), r),
    ensures
        r is Empty <==> xs.len() == 0,
        r is Between <==> xs.len() >= 2 && xs[0] < at < xs[xs.len() - 1],
        r matches Segment::Between(i) ==> {
            &&& i + 1 < xs.len()
            &&& xs[i as int] < at <= xs[i + 1]
            &&& forall|k: int| 0 <= k <= i ==> (#[trigger] xs[k]) < at
        },
        xs.len() == 1 ==> r == Segment::Hold(0),
        xs.len() > 0 && at <= xs[0] ==> r == Segment::Hold(0),
        xs.len() > 1 && at > xs[0] && at >= xs[xs.len() - 1] ==> r == Segment::Hold(
            (xs.len() - 1) as usize,
        ),
{
}

/// A point is caught exactly when one is within twenty points on screen, and the
/// one caught is nearer than those before it and no farther than those after it.
pub proof fn the_nearest_point_within_reach_is_caught(distances: Vec<u32>, r: Option<usize>)
    requires
        call_ensures(nearest, (&distances,), r),
    ensures
        r is None ==> forall|k: int|
            0 <= k < distances@.len() ==> (#[trigger] distances@[k]) > 0x41a0_0000,
        r matches Some(i) ==> {
            &&& i < distances.len()
            &&& distances[i as int] <= 0x41a0_0000
            &&& forall|k: int| 0 <= k < i ==> (#[trigger] distances[k]) > distances[i as int]
            &&& forall|k: int|
                i <= k < distances.len() ==> (#[trigger] distances[k]) >= distances[i as int]
        },
{
}

/// The row above the curve changes exactly what was touched, in the order of the
/// row: the switch, the band count where it is another one, and the reset. The
/// bands shown are those there are, up to the most there can be.
pub proof fn the_card_changes_what_was_touched(
    params: SharedParams,
    max_bands: usize,
    input: EqCardInput,
    bands: usize,
    r: Vec<EqCardCommand>,
)
    requires
        call_ensures(band_count, (&params, max_bands), bands),
        call_ensures(eq_card, (&params, max_bands, &input), r),
    ensures
        bands <= params.num_bands && bands <= max_bands,
        bands == params.num_bands || bands == max_bands,
        ({
            let picks = input.picked is Some && input.picked->0 != bands;
            let first = if input.switched is Some { 1int } else { 0 };
            let second = first + if picks { 1int } else { 0 };
            &&& r@.len() == second + if input.reset { 1int } else { 0 }
            &&& input.switched matches Some(on) ==> r@[0] == EqCardCommand::SetOn(on)
            &&& picks ==> r@[first] == EqCardCommand::SetBands(input.picked->0)
            &&& input.reset ==> r@[second] == EqCardCommand::Flatten
        }),
{
}

/// Flattening sets every band that is shown to zero, once, and no other.
pub proof fn flattening_reaches_every_band(
    params: SharedParams,
    max_bands: usize,
    r: Vec<EqCommand>,
)
    requires
        call_ensures(flatten_eq, (&params, max_bands), r),
    ensures
        r@.len() == params.num_bands || r@.len() == max_bands,
        r@.len() <= params.num_bands && r@.len() <= max_bands,
        forall|i: int|
            0 <= i < r@.len() ==> (#[trigger] r@[i]) == (EqCommand::Gain {
                band: i as usize,
                tenths: 0,
            }),
{
}

/// The graticule has a line every six decibels from the top of the axis to its
/// bottom, each under its own figure, and the one at zero is the reference.
pub proof fn the_graticule_spans_the_axis(r: Vec<DbLine>)
    requires
        call_ensures(graticule_lines, (), r),
    ensures
        r.len() == 5,
        forall|i: int|
            0 <= i < 5 ==> (#[trigger] r[i]).db == 12 - 6 * i && (r[i].reference <==> r[i].db == 0),
        r[0].label@ == "12"@,
        r[1].label@ == "6"@,
        r[2].label@ == "0"@,
        r[3].label@ == "-6"@,
        r[4].label@ == "-12"@,
{
}

/// The landmarks of the axis.
pub proof fn the_landmarks_are_known()
    ensures
        TICKS@ == seq![
            20u32,
            31,
            50,
            100,
            200,
            500,
            1000,
            2000,
            4000,
            8000,
            16000,
            20000,
            24000,
        ],
        BAND_CHOICES@ == seq![5usize, 10, 15, 20, 31],
{
    assert(TICKS@ =~= seq![
        20u32,
        31,
        50,
        100,
        200,
        500,
        1000,
        2000,
        4000,
        8000,
        16000,
        20000,
        24000,
    ]);
    assert(BAND_CHOICES@ =~= seq![5usize, 10, 15, 20, 31]);
}

/// The ticks are the landmarks within the span, in order: every one where there
/// are fewer than ten, and every second from the first on otherwise. Below a
/// thousand a label is the figure itself, and from there on the thousands and a
/// `k`.
pub proof fn the_ticks_are_the_landmarks_in_the_span(lo: u32, hi: u32, r: Vec<Tick>) -> (run: (
    int,
    int,
))
    requires
        call_ensures(frequency_ticks, (lo, hi), r),
    ensures
        0 <= run.0 <= run.1 <= 13,
        forall|k: int| 0 <= k < 13 && run.0 < run.1 ==> ((lo <= #[trigger] TICKS@[k] <= hi) <==> run.0
            <= k < run.1),
        run.0 == run.1 ==> r.len() == 0 && forall|k: int|
            0 <= k < 13 ==> !(lo <= #[trigger] TICKS@[k] <= hi),
        run.1 - run.0 < 10 ==> r.len() == run.1 - run.0,
        run.1 - run.0 >= 10 ==> r.len() == (run.1 - run.0 + 1) / 2,
        forall|i: int|
            0 <= i < r.len() ==> {
                let k = if run.1 - run.0 < 10 { run.0 + i } else { run.0 + 2 * i };
                let hz = TICKS@[k];
                &&& (#[trigger] r[i]).hz == hz
                &&& hz < 1000 ==> r[i].label@ == text::decimal(hz as nat)
                &&& hz >= 1000 ==> r[i].label@ == text::decimal((hz / 1000) as nat) + "k"@
            },
{
    let run = visible_ticks_are_a_run(lo, hi, 13);
    let (a, b) = run;
    assert(TICKS@.take(13) =~= TICKS@);
    let visible = visible_ticks(lo, hi);
    assert(visible == TICKS@.subrange(a, b));
    let stride = stride_of(visible.len());
    length_of_every(visible, stride);
    let shape = |tick: Tick| (tick.hz, tick.label@);
    let wanted = |hz: u32| (hz, tick_text(hz));
    let want = labelled_ticks(lo, hi);
    assert(r@.map_values(shape) == want.map_values(wanted));
    assert(r@.map_values(shape).len() == want.map_values(wanted).len());
    assert forall|i: int| 0 <= i < r.len() implies {
        let k = if b - a < 10 { a + i } else { a + 2 * i };
        let hz = TICKS@[k];
        &&& (#[trigger] r[i]).hz == hz
        &&& hz < 1000 ==> r[i].label@ == text::decimal(hz as nat)
        &&& hz >= 1000 ==> r[i].label@ == text::decimal((hz / 1000) as nat) + "k"@
    } by {
        assert(r@.map_values(shape)[i] == want.map_values(wanted)[i]);
        assert(i * 1 == i && i * 2 == 2 * i);
        assert(want[i] == visible[i * stride]);
    }
    assert forall|k: int| a <= k < b implies lo <= #[trigger] TICKS@[k] <= hi by {
        assert(visible[k - a] == TICKS@[k]);
        TICKS@.lemma_filter_pred(|hz: u32| lo <= hz <= hi, k - a);
    }
    run
}

/// The curve is drawn in one step for each two points of width, but in at least
/// thirty-two and at most two hundred and forty.
pub proof fn the_curve_has_a_bounded_number_of_steps(half_width: i32, r: usize)
    requires
        call_ensures(curve_steps, (half_width,), r),
    ensures
        32 <= r <= 240,
        32 <= half_width <= 240 ==> r == half_width,
        half_width < 32 ==> r == 32,
        half_width > 240 ==> r == 240,
{
}

/// Between each two samples stand two triangles, which share the edge from the
/// second sample's curve point to the first one's point at zero.
pub proof fn two_triangles_fill_each_gap(points: usize, r: Vec<(u32, u32, u32)>, step: int)
    requires
        points * 2 <= u32::MAX,
        call_ensures(area_triangles, (points,), r),
    ensures
        points <= 1 ==> r.len() == 0,
        points > 1 ==> r.len() == 2 * (points - 1),
        0 <= step < points - 1 ==> {
            &&& r[2 * step] == (
                (2 * step) as u32,
                (2 * step + 1) as u32,
                (2 * step + 2) as u32,
            )
            &&& r[2 * step + 1] == (
                (2 * step + 1) as u32,
                (2 * step + 3) as u32,
                (2 * step + 2) as u32,
            )
        },
{
}

} // verus!
