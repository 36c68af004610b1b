use fxmini::engine::SharedParams;
use fxmini::ui::equalizer::{
    area_triangles, band_count, curve_steps, eq_card, flatten_eq, frequency_ticks, graticule_lines,
    land, locate, nearest, snap_gain, stepped, BandGain, EqCardCommand, EqCardInput, EqCommand, EqInput,
    EqPointer, EqState, Segment, BAND_CHOICES, EQ_DB_RANGE, EQ_GRAB_RADIUS,
};

/// A gain in decibels, snapped.
fn snap(db: f32) -> f32 {
    snap_gain((db * 10.0).round() as i32) as f32 / 10.0
}

/// The snap is what makes "this band is flat" an exact question.
#[test]
fn a_gain_snaps_to_the_displayed_resolution() {
    assert_eq!(snap(0.0), 0.0);
    assert_eq!(snap(0.04), 0.0);
    assert_eq!(snap(-0.14), 0.0);
    assert_eq!(snap(0.16), 0.2);
    assert_eq!(snap(3.27), 3.3);
    assert_eq!(snap(-3.24), -3.2);
    // And the axis is a hard bound, whatever the pointer reports.
    assert_eq!(snap(40.0), EQ_DB_RANGE as f32 / 10.0);
    assert_eq!(snap(-40.0), -EQ_DB_RANGE as f32 / 10.0);
}

#[test]
fn the_axis_spans_twelve_decibels() {
    assert_eq!(EQ_DB_RANGE, 120);
    assert_eq!(snap_gain(i32::MAX), 120);
    assert_eq!(snap_gain(i32::MIN), -120);
    assert_eq!(snap_gain(2), 2);
    assert_eq!(snap_gain(1), 0);
    assert_eq!(snap_gain(-2), -2);
}

fn quiet() -> EqInput {
    EqInput {
        double_clicked: false,
        pressed: false,
        pointer: None,
        focused: false,
        shift: false,
        up: false,
        down: false,
    }
}

fn at(nearest: Option<usize>, tenths: i32) -> Option<EqPointer> {
    Some(EqPointer { nearest, tenths })
}

fn flat(bands: usize) -> Vec<BandGain> {
    vec![BandGain { tenths: 0, exact: true }; bands]
}

#[test]
fn dragging_past_a_neighbour_keeps_the_band() {
    let mut state = EqState::new();
    let gains = flat(3);
    let press = EqInput { pressed: true, pointer: at(Some(1), 30), ..quiet() };
    assert_eq!(state.interact(&press, &gains), vec![EqCommand::Gain { band: 1, tenths: 30 }]);
    assert_eq!(state, EqState { dragging: Some(1), selected: Some(1) });

    let past = EqInput { pressed: true, pointer: at(Some(2), 45), ..quiet() };
    assert_eq!(state.interact(&past, &gains), vec![EqCommand::Gain { band: 1, tenths: 45 }]);
    assert_eq!(state.dragging, Some(1));

    assert!(state.interact(&quiet(), &gains).is_empty());
    assert_eq!(state, EqState { dragging: None, selected: Some(1) });
}

#[test]
fn a_press_on_nothing_grabs_nothing() {
    let mut state = EqState { dragging: None, selected: Some(0) };
    let press = EqInput { pressed: true, pointer: at(None, 30), ..quiet() };
    assert!(state.interact(&press, &flat(3)).is_empty());
    assert_eq!(state, EqState { dragging: None, selected: Some(0) });
}

#[test]
fn a_still_drag_stores_nothing_twice() {
    let mut state = EqState { dragging: Some(0), selected: Some(0) };
    let hold = EqInput { pressed: true, pointer: at(None, 30), ..quiet() };
    let settled = vec![BandGain { tenths: 30, exact: true }];
    assert!(state.interact(&hold, &settled).is_empty());
    // A gain that only rounds to the same tenth is stored exactly.
    let near = vec![BandGain { tenths: 30, exact: false }];
    assert_eq!(state.interact(&hold, &near), vec![EqCommand::Gain { band: 0, tenths: 30 }]);
}

#[test]
fn a_double_click_resets_the_band_under_it() {
    let mut state = EqState { dragging: Some(0), selected: Some(0) };
    let click = EqInput { double_clicked: true, pressed: true, pointer: at(Some(2), 90), ..quiet() };
    assert_eq!(state.interact(&click, &flat(3)), vec![EqCommand::Gain { band: 2, tenths: 0 }]);
    assert_eq!(state, EqState { dragging: None, selected: Some(2) });

    let beside = EqInput { double_clicked: true, pointer: at(None, 90), ..quiet() };
    assert!(state.interact(&beside, &flat(3)).is_empty());
    assert_eq!(state.selected, Some(2));
}

#[test]
fn arrow_keys_move_the_selected_band() {
    let mut state = EqState { dragging: None, selected: Some(1) };
    let up = EqInput { focused: true, up: true, ..quiet() };
    assert_eq!(state.interact(&up, &flat(3)), vec![EqCommand::Gain { band: 1, tenths: 5 }]);
    let both = EqInput { focused: true, up: true, down: true, ..quiet() };
    assert!(state.interact(&both, &flat(3)).is_empty());
    // Without focus, or with a band that is no longer there, nothing moves.
    let unfocused = EqInput { up: true, ..quiet() };
    assert!(state.interact(&unfocused, &flat(3)).is_empty());
    assert!(state.interact(&up, &flat(1)).is_empty());
    // A gain between two tenths is stepped where it is kept.
    let between = vec![BandGain { tenths: 30, exact: false }; 3];
    assert_eq!(state.interact(&up, &between), vec![EqCommand::Step { band: 1, delta: 5 }]);
}

#[test]
fn shift_moves_a_band_by_a_tenth() {
    let mut state = EqState { dragging: None, selected: Some(0) };
    let fine = |up: bool| EqInput { focused: true, shift: true, up, down: !up, ..quiet() };
    for tenths in -120..120 {
        let here = vec![BandGain { tenths, exact: true }];
        let there = vec![BandGain { tenths: tenths + 1, exact: true }];
        assert_eq!(
            state.interact(&fine(true), &here),
            vec![EqCommand::Gain { band: 0, tenths: tenths + 1 }]
        );
        assert_eq!(
            state.interact(&fine(false), &there),
            vec![EqCommand::Gain { band: 0, tenths }]
        );
    }
    // The axis is a hard bound.
    let top = vec![BandGain { tenths: 120, exact: true }];
    assert_eq!(
        state.interact(&fine(true), &top),
        vec![EqCommand::Gain { band: 0, tenths: 120 }]
    );
}

#[test]
fn a_step_lands_on_the_axis() {
    let gain = |tenths: i32| BandGain { tenths, exact: true };
    assert_eq!(stepped(gain(0), 1), Some(1));
    assert_eq!(stepped(gain(0), -1), Some(-1));
    assert_eq!(stepped(gain(30), 5), Some(35));
    assert_eq!(stepped(gain(118), 5), Some(120));
    // A whole step that ends a hair beside zero ends at zero.
    assert_eq!(stepped(gain(4), -5), Some(0));
    assert_eq!(stepped(gain(i32::MAX), 5), Some(120));
    assert_eq!(stepped(gain(i32::MIN), -5), Some(-120));
    assert_eq!(stepped(BandGain { tenths: 0, exact: false }, 1), None);
    assert_eq!(land(1, 1), 1);
    assert_eq!(land(1, 5), 0);
    assert_eq!(land(500, -1), 120);
}

#[test]
fn keys_step_from_where_the_pointer_left_the_band() {
    let mut state = EqState { dragging: Some(0), selected: Some(0) };
    let input = EqInput { pressed: true, pointer: at(None, 30), focused: true, up: true, ..quiet() };
    assert_eq!(
        state.interact(&input, &flat(1)),
        vec![EqCommand::Gain { band: 0, tenths: 30 }, EqCommand::Gain { band: 0, tenths: 35 }]
    );
}

#[test]
fn the_active_point_is_the_held_one_then_the_hovered_one() {
    let held = EqState { dragging: Some(3), selected: Some(1) };
    assert_eq!(held.active(Some(2)), Some(3));
    assert!(held.ringed(Some(1), 1));
    let idle = EqState { dragging: None, selected: Some(1) };
    assert_eq!(idle.active(Some(2)), Some(2));
    assert_eq!(idle.active(None), None);
    assert!(!idle.ringed(Some(1), 1));
    assert!(!idle.ringed(None, 2));
    assert_eq!(idle.readout(Some(2), 5), Some(2));
    assert_eq!(idle.readout(None, 5), Some(1));
    assert_eq!(idle.readout(None, 1), None);
    assert_eq!(EqState::new().readout(None, 5), None);
}

#[test]
fn the_nearest_point_within_reach_is_grabbed() {
    let bits = |distances: &[f32]| distances.iter().map(|d| d.to_bits()).collect::<Vec<u32>>();
    assert_eq!(EQ_GRAB_RADIUS, 20.0f32.to_bits());
    assert_eq!(nearest(&bits(&[30.0, 12.5, 3.0, 3.0])), Some(2));
    assert_eq!(nearest(&bits(&[20.0])), Some(0));
    assert_eq!(nearest(&bits(&[20.000002, 400.0])), None);
    assert_eq!(nearest(&Vec::new()), None);
}

#[test]
fn a_position_is_located_among_the_points() {
    let xs = vec![10, 20, 30, 40];
    assert_eq!(locate(&xs, 5), Segment::Hold(0));
    assert_eq!(locate(&xs, 10), Segment::Hold(0));
    assert_eq!(locate(&xs, 11), Segment::Between(0));
    assert_eq!(locate(&xs, 20), Segment::Between(0));
    assert_eq!(locate(&xs, 21), Segment::Between(1));
    assert_eq!(locate(&xs, 39), Segment::Between(2));
    assert_eq!(locate(&xs, 40), Segment::Hold(3));
    assert_eq!(locate(&vec![7], 100), Segment::Hold(0));
    assert_eq!(locate(&Vec::new(), 1), Segment::Empty);
}

fn params(num_bands: usize) -> SharedParams {
    SharedParams { enabled: true, eq_on: true, num_bands }
}

#[test]
fn the_card_changes_only_what_was_touched() {
    let nothing = EqCardInput { switched: None, picked: None, reset: false };
    assert!(eq_card(&params(10), 31, &nothing).is_empty());
    let same = EqCardInput { switched: None, picked: Some(10), reset: false };
    assert!(eq_card(&params(10), 31, &same).is_empty());
    let all = EqCardInput { switched: Some(false), picked: Some(15), reset: true };
    assert_eq!(
        eq_card(&params(10), 31, &all),
        vec![EqCardCommand::SetOn(false), EqCardCommand::SetBands(15), EqCardCommand::Flatten]
    );
}

#[test]
fn flattening_touches_every_band_there_is() {
    assert_eq!(
        flatten_eq(&params(2), 31),
        vec![EqCommand::Gain { band: 0, tenths: 0 }, EqCommand::Gain { band: 1, tenths: 0 }]
    );
    assert_eq!(flatten_eq(&params(40), 31).len(), 31);
    assert_eq!(band_count(&params(40), 31), 31);
    assert_eq!(BAND_CHOICES, [5, 10, 15, 20, 31]);
}

#[test]
fn the_graticule_is_labelled_in_decibels() {
    let lines = graticule_lines();
    let labels: Vec<&str> = lines.iter().map(|line| line.label).collect();
    assert_eq!(labels, vec!["12", "6", "0", "-6", "-12"]);
    for line in &lines {
        assert_eq!(format!("{}", line.db), line.label);
        assert_eq!(line.reference, line.db == 0);
    }
}

#[test]
fn ticks_are_thinned_and_labelled() {
    let labels = |lo: u32, hi: u32| {
        frequency_ticks(lo, hi).into_iter().map(|tick| tick.label).collect::<Vec<String>>()
    };
    // Ten or more landmarks: every second one.
    assert_eq!(labels(20, 24000), vec!["20", "50", "200", "1k", "4k", "16k", "24k"]);
    // Fewer: every one.
    assert_eq!(labels(44, 2800), vec!["50", "100", "200", "500", "1k", "2k"]);
    assert!(labels(21, 30).is_empty());
    assert_eq!(frequency_ticks(1000, 1000)[0].hz, 1000);
}

#[test]
fn the_curve_is_drawn_in_a_bounded_number_of_steps() {
    assert_eq!(curve_steps(-1), 32);
    assert_eq!(curve_steps(31), 32);
    assert_eq!(curve_steps(100), 100);
    assert_eq!(curve_steps(500), 240);
}

#[test]
fn the_area_is_a_strip_of_triangles() {
    assert!(area_triangles(0).is_empty());
    assert!(area_triangles(1).is_empty());
    assert_eq!(
        area_triangles(3),
        vec![(0, 1, 2), (1, 3, 2), (2, 3, 4), (3, 5, 4)]
    );
}

#[test]
fn snapping_keeps_order_and_settles() {
    for tenths in -200..200 {
        assert!(snap_gain(tenths) <= snap_gain(tenths + 1));
        assert_eq!(snap_gain(snap_gain(tenths)), snap_gain(tenths));
        assert_eq!(snap_gain(-tenths), -snap_gain(tenths));
    }
}

#[test]
fn no_decade_has_five_labels() {
    for lo in [1, 20, 21, 32, 60, 150, 700, 1000, 3000] {
        for hi in [10, 31, 99, 100, 999, 1000, 9000, 16000, 24000, 50000] {
            for decade in [1u32, 10, 100, 1000, 10000] {
                let within = frequency_ticks(lo, hi)
                    .iter()
                    .filter(|tick| decade <= tick.hz && tick.hz < decade * 10)
                    .count();
                assert!(within <= 4, "{within} labels from {decade} Hz in {lo}..{hi}");
            }
        }
    }
}

#[test]
fn the_strip_stays_within_its_vertices() {
    for points in 0..20usize {
        let triangles = area_triangles(points);
        assert_eq!(triangles.len(), points.saturating_sub(1) * 2);
        for (a, b, c) in triangles {
            assert!(a.max(b).max(c) < points as u32 * 2);
            assert!(a != b && b != c && a != c);
        }
    }
}

#[test]
fn a_drag_stays_on_the_axis() {
    for tenths in [-10000, -121, -1, 0, 1, 2, 121, 10000] {
        let mut state = EqState { dragging: Some(0), selected: Some(0) };
        let hold = EqInput { pressed: true, pointer: at(None, tenths), ..quiet() };
        let unsettled = vec![BandGain { tenths: 7, exact: false }];
        match state.interact(&hold, &unsettled)[0] {
            EqCommand::Gain { band, tenths } => {
                assert_eq!(band, 0);
                assert!(-EQ_DB_RANGE <= tenths && tenths <= EQ_DB_RANGE);
                assert!(tenths != 1 && tenths != -1);
            }
            EqCommand::Step { .. } => panic!("no key was pressed"),
        }
    }
}
