use vstd::prelude::*;

use crate::resource::Resource;
use crate::scraper::{Scraper, VALUE_MIN};

verus! {

/// Play ticks per in-game minute of the office clock.
pub const TICKS_PER_MINUTE: u64 = 20;
/// Hour at which the working day starts on the office clock.
pub const START_HOUR: u64 = 8;

/// The office clock after `timer` play ticks, as `(hours, minutes)`: twenty ticks make a
/// minute and the day starts at eight o'clock.
pub fn clock(timer: u64) -> (hm: (u64, u64))
    ensures
        hm.0 == timer / 20 / 60 + 8,
        hm.1 == timer / 20 % 60,
        hm.1 < 60,
{
    let minutes_total = timer / TICKS_PER_MINUTE;
    (minutes_total / 60 + START_HOUR, minutes_total % 60)
}

/// Colour of the ring drawn around an object under the cursor: it shows the first stat,
/// in the order energy, lubrication, sharpening, that the object would raise.
#[derive(Clone, Copy, PartialEq, Eq, Debug)]
pub enum Highlight {
    Energy,
    Lubrication,
    Sharpening,
    Nothing,
}

/// The ring colour for an object.
pub open spec fn highlight_of(r: Resource) -> Highlight {
    if r.energy > 0 {
        Highlight::Energy
    } else if r.lubrication > 0 {
        Highlight::Lubrication
    } else if r.sharpening > 0 {
        Highlight::Sharpening
    } else {
        Highlight::Nothing
    }
}

/// The ring colour for an object.
pub fn highlight(r: &Resource) -> (h: Highlight)
    ensures
        h == highlight_of(*r),
        (h == Highlight::Energy) == (r.energy > 0),
        (h == Highlight::Lubrication) == (r.energy <= 0 && r.lubrication > 0),
        (h == Highlight::Sharpening) == (r.energy <= 0 && r.lubrication <= 0 && r.sharpening > 0),
        (h == Highlight::Nothing) == (r.energy <= 0 && r.lubrication <= 0 && r.sharpening <= 0),
{
    if r.energy > 0 {
        Highlight::Energy
    } else if r.lubrication > 0 {
        Highlight::Lubrication
    } else if r.sharpening > 0 {
        Highlight::Sharpening
    } else {
        Highlight::Nothing
    }
}

/// Which face the shredder's control panel shows.
#[derive(Clone, Copy, PartialEq, Eq, Debug)]
pub enum Panel {
    /// Not jammed.
    Clear,
    /// Jammed, the key on screen is drawn pressed.
    JammedKeyDown,
    /// Jammed, the key on screen is drawn released.
    JammedKeyUp,
}

/// Warning lights of the shredder, as `(lubrication, energy, sharpening)`: each is on when
/// its stat is at or below `VALUE_MIN`.
pub fn warning_lights(s: &Scraper) -> (w: (bool, bool, bool))
    ensures
        w.0 == (s.lubrication <= VALUE_MIN),
        w.1 == (s.energy <= VALUE_MIN),
        w.2 == (s.sharpening <= VALUE_MIN),
{
    (s.lubrication <= VALUE_MIN, s.energy <= VALUE_MIN, s.sharpening <= VALUE_MIN)
}

/// The panel face: `Clear` unless the shredder is jammed, and then the key drawing alternates
/// with `key_down`.
pub fn panel(s: &Scraper) -> (p: Panel)
    ensures
        p == (if s.waiting_key is None {
            Panel::Clear
        } else if s.key_down {
            Panel::JammedKeyDown
        } else {
            Panel::JammedKeyUp
        }),
{
    if s.waiting_key.is_none() {
        Panel::Clear
    } else if s.key_down {
        Panel::JammedKeyDown
    } else {
        Panel::JammedKeyUp
    }
}

/// The ring shows the first stat, in the order energy, lubrication, sharpening, that the
/// object raises, and no colour when it raises none.
pub proof fn lemma_highlight_meaning(r: Resource)
    ensures
        (highlight_of(r) == Highlight::Energy) == (r.energy > 0),
        (highlight_of(r) == Highlight::Lubrication) == (r.energy <= 0 && r.lubrication > 0),
        (highlight_of(r) == Highlight::Sharpening) == (r.energy <= 0 && r.lubrication <= 0
            && r.sharpening > 0),
        (highlight_of(r) == Highlight::Nothing) == (r.energy <= 0 && r.lubrication <= 0
            && r.sharpening <= 0),
{
}

/// The clock reads minutes and hours of a day that starts at eight: one more minute every
/// twenty play ticks, one more hour every sixty minutes.
pub proof fn lemma_clock_meaning(timer: u64, hours: u64, minutes: u64)
    requires
        hours == timer / 20 / 60 + 8,
        minutes == timer / 20 % 60,
    ensures
        minutes < 60,
        (hours - 8) * 60 + minutes == timer / 20,
        ((hours - 8) * 60 + minutes) * 20 <= timer < ((hours - 8) * 60 + minutes + 1) * 20,
{
    let m = timer / 20;
    assert(m * 20 <= timer < (m + 1) * 20) by (nonlinear_arith)
        requires
            m == timer / 20,
    ;
    assert((m / 60) * 60 + m % 60 == m) by (nonlinear_arith)
        requires
            m >= 0,
    ;
}

} // verus!
