//! The indicator in the notification area: which picture and which text it
//! shows for each output.

use crate::text::{encode_utf16, lemma_utf16_len, utf16_units, zero_padded};
use vstd::prelude::*;

verus! {

/// Number of the message by which the indicator reports what happens to it.
pub const WM_TRAYICON: u32 = 0x8001;

/// The mouse event that a click on the indicator ends with.
pub const WM_LBUTTONUP: u32 = 0x0202;

/// The id of the indicator.
pub const TRAY_ICON_ID: u32 = 1;

/// The width, in pixels, in which the indicator is shown.
pub const TRAY_ICON_SIZE: u32 = 16;

/// The length of the indicator's text buffer, in UTF-16 code units.
pub const TIP_LEN: usize = 128;

/// The picture that the indicator shows.
#[derive(Clone, Copy, Debug, PartialEq, Eq, Structural)]
pub enum Indicator {
    Speakers,
    Headphones,
}

/// What is done with the console window.
#[derive(Clone, Copy, Debug, PartialEq, Eq, Structural)]
pub enum ConsoleAction {
    Hide,
    Show,
}

/// The text that the indicator shows for an output.
pub open spec fn tooltip_text(is_speakers: bool) -> Seq<char> {
    if is_speakers {
        "Audio: Speakers"@
    } else {
        "Audio: Headphones"@
    }
}

/// The picture that the indicator shows for an output.
pub fn indicator_for(is_speakers: bool) -> (r: Indicator)
    ensures
        r == (if is_speakers {
            Indicator::Speakers
        } else {
            Indicator::Headphones
        }),
{
    if is_speakers {
        Indicator::Speakers
    } else {
        Indicator::Headphones
    }
}

/// The text that the indicator shows for an output.
pub fn tooltip(is_speakers: bool) -> (r: &'static str)
    ensures
        r@ == tooltip_text(is_speakers),
{
    if is_speakers {
        "Audio: Speakers"
    } else {
        "Audio: Headphones"
    }
}

/// The indicator's text buffer for a text: the text in UTF-16, and zeros
/// up to the length of the buffer. A text that does not fit has no buffer.
pub fn tooltip_buffer(text: &str) -> (r: Option<Vec<u16>>)
    ensures
        r is Some <==> utf16_units(text@).len() <= TIP_LEN,
        r matches Some(buffer) ==> buffer@ == utf16_units(text@) + Seq::new(
            (TIP_LEN - utf16_units(text@).len()) as nat,
            |i: int| 0u16,
        ),
{
    let units: Vec<u16> = encode_utf16(text);
    zero_padded(&units, TIP_LEN)
}

/// The indicator's text buffer for an output: the text of `tooltip` in
/// UTF-16, and zeros up to the length of the buffer. Both texts fit.
pub fn indicator_tip(is_speakers: bool) -> (r: Vec<u16>)
    ensures
        r@.len() == TIP_LEN,
        r@ == utf16_units(tooltip_text(is_speakers)) + Seq::new(
            (TIP_LEN - utf16_units(tooltip_text(is_speakers)).len()) as nat,
            |i: int| 0u16,
        ),
{
    proof {
        reveal_strlit("Audio: Speakers");
        reveal_strlit("Audio: Headphones");
        lemma_utf16_len(tooltip_text(is_speakers));
    }
    let buffer: Option<Vec<u16>> = tooltip_buffer(tooltip(is_speakers));
    buffer.unwrap()
}

/// Whether a message reports a click on the indicator. `event` is the
/// message's second parameter.
pub fn is_tray_click(message: u32, event: u32) -> (r: bool)
    ensures
        r == (message == WM_TRAYICON && event == WM_LBUTTONUP),
{
    message == WM_TRAYICON && event == WM_LBUTTONUP
}

/// What a click on the indicator does with the console window: it hides a
/// visible one and shows a hidden one.
pub fn console_action(visible: bool) -> (r: ConsoleAction)
    ensures
        r == (if visible {
            ConsoleAction::Hide
        } else {
            ConsoleAction::Show
        }),
{
    if visible {
        ConsoleAction::Hide
    } else {
        ConsoleAction::Show
    }
}

} // verus!
