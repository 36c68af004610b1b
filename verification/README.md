# FxMini

A small tray application around an audio enhancer: a tray menu, a tuning panel
that exists only while it is open, and the wiring between them, the settings and
the audio engine.

What the application decides is a library, written and proved in Verus. It takes
what was observed of the system as plain values and answers with what to do.

* `src/` is the library.
  * `app` turns events (a menu choice, a look at the engine, a takeover that
    succeeded or failed) into the next state and a list of effects.
  * `i18n` holds the string tables and the choice of a language.
  * `ui/tray` is the state of the tray menu and what each entry asks for.
  * `ui/panel` is the tuning panel: opening it once, saving a preset, fitting
    the window to its content.
  * `ui/equalizer` is the frequency-response curve: dragging, keys, the
    graticule.
  * `ui/window_shape` decides when the window's corners have to be cut.
  * `preset`, `engine`, `config` and `text` are what the others share.
* `app/` is the shell: it observes the system, carries the effects out and draws.
  The interpolation of the curve and the meters are floating point and live here.
* `tests/` runs the library on concrete values.

Nothing in the library is trusted: it calls no outside crate, and every function
is verified against its contract. What holds of the library as a whole stands in
public proof functions beside the types they speak of, such as
`app::the_tray_stays_truthful`, `app::a_takeover_is_tried_once_per_appearance`,
`ui::panel::a_usable_name_stays_in_the_folder` or
`ui::tray::a_stale_id_asks_for_nothing`.
