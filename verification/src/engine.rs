//! What the audio engine publishes, as the interface reads it.
//!
//! The engine shares these facts with the interface as atomics; a value of one
//! of the types below is one reading of them.
use crate::preset::{string_of, PresetId};
use vstd::prelude::*;

verus! {

/// How a save ended.
#[derive(Debug)]
pub struct SaveReport {
    /// The file that was, or would have been, written.
    pub file_name: String,
    pub ok: bool,
}

/// The engine's live status.
#[derive(Debug)]
pub struct EngineStatus {
    /// Whether audio is being processed.
    pub running: bool,
    /// Whether the virtual sound card is there.
    pub virtual_present: bool,
    pub active_preset: Option<PresetId>,
    /// Counts the saves that have ended.
    pub presets_revision: u64,
    /// The save that ended last.
    pub last_save: Option<SaveReport>,
    pub last_error: Option<String>,
    pub source_description: Option<String>,
    pub sink_description: Option<String>,
    pub latency_ms: u32,
    pub underruns: u64,
    pub overruns: u64,
}

/// The parameters the panel shares with the audio thread, as far as its
/// decisions depend on them.
#[derive(Debug, Clone, Copy)]
pub struct SharedParams {
    pub enabled: bool,
    pub eq_on: bool,
    pub num_bands: usize,
}

/// A text of the status, if it has one.
pub fn text_or_none(s: &Option<String>) -> (r: Option<&str>)
    ensures
        crate::i18n::text_of(r) == string_of(*s),
{
    match s {
        Some(s) => Some(s.as_str()),
        None => None,
    }
}

} // verus!
