//! The shared configuration: repetition rate, duty cycle, button selector
//! and shortcut text. A single instance lives behind a lock owned by the
//! process; workers snapshot it each cycle, so every reader observes a
//! self-consistent value.

use vstd::prelude::*;

verus! {

/// One self-consistent configuration snapshot.
///
/// `rate` is counted in units of 1e-12 actuations per second and `duty`
/// in units of 1e-12 percent (see `crate::timing::PICOS_PER_UNIT`), so
/// decimal settings with up to twelve fractional digits are held exactly.
#[derive(Clone)]
pub struct Settings {
    /// Actuations per second, fixed-point; zero is floored at use.
    pub rate: u64,
    /// Percent of each cycle spent pressed, fixed-point; clamped at use.
    pub duty: u64,
    /// Button selector text: "left" | "middle" | "right" | "1".."9".
    pub button_name: String,
    /// Shortcut text: the name of a keyboard symbol, resolved lazily.
    pub hotkey: String,
}

impl Default for Settings {
    /// The configuration a fresh process starts from.
    fn default() -> (s: Settings)
        ensures
            s.rate == 24_323_452_375_730u64,
            s.duty == 36_836_218_324_712u64,
            s.button_name@ == "left"@,
            s.hotkey@ == "F6"@,
    {
        Settings {
            rate: 24_323_452_375_730,
            duty: 36_836_218_324_712,
            button_name: "left".to_owned(),
            hotkey: "F6".to_owned(),
        }
    }
}

} // verus!
