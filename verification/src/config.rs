//! The settings that the application's decisions depend on.
use crate::preset::{string_of, PresetId};
use vstd::prelude::*;

verus! {

/// The settings.
#[derive(Debug)]
pub struct Config {
    /// Whether processing is on.
    pub enabled: bool,
    /// Whether the application runs at logon.
    pub autostart: bool,
    /// Whether the system's default output is pointed at the virtual card.
    pub take_over_default: bool,
    /// A language's config spelling, or `"auto"`.
    pub language: String,
    /// The preset to start with.
    pub active_preset: Option<PresetId>,
    /// The output device that was displaced, while one is owed its place back.
    pub previous_default_id: Option<String>,
}

/// The settings, with their texts as characters.
#[verifier::ext_equal]
pub struct ConfigView {
    pub enabled: bool,
    pub autostart: bool,
    pub take_over_default: bool,
    pub language: Seq<char>,
    pub active_preset: Option<PresetId>,
    pub previous_default_id: Option<Seq<char>>,
}

impl View for Config {
    type V = ConfigView;

    open spec fn view(&self) -> ConfigView {
        ConfigView {
            enabled: self.enabled,
            autostart: self.autostart,
            take_over_default: self.take_over_default,
            language: self.language@,
            active_preset: self.active_preset,
            previous_default_id: string_of(self.previous_default_id),
        }
    }
}

/// The settings as values are the settings.
pub proof fn the_settings_are_seen_as_they_are(config: Config)
    ensures
        config@.enabled == config.enabled,
        config@.autostart == config.autostart,
        config@.take_over_default == config.take_over_default,
        config@.language == config.language@,
        config@.active_preset == config.active_preset,
        config.previous_default_id matches Some(device) ==> config@.previous_default_id == Some(
            device@,
        ),
        config.previous_default_id is None ==> config@.previous_default_id is None,
{
}

} // verus!
