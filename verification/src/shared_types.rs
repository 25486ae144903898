use vstd::prelude::*;

verus! {

/// Display names in English and Korean, indexed by level.
#[derive(Clone, Debug)]
pub struct LocalizedLabels {
    pub en: Vec<String>,
    pub ko: Vec<String>,
}

/// One entry of the monitor picker: its 1-based index and its label.
#[derive(Clone, Debug)]
pub struct MonitorOption {
    pub index: usize,
    pub label: String,
}

/// The overlay's colours, timing, display switches, session tally and language.
#[derive(Clone, Debug)]
pub struct OverlayInitColorsDurationPayload {
    pub colors: [Option<String>; 4],
    pub duration: u32,
    pub show_charts: bool,
    pub show_session: bool,
    pub hide_nicknames_in_overlay: bool,
    pub session_victory: u32,
    pub session_defeat: u32,
    pub language: String,
}

} // verus!
