use vstd::prelude::*;

use vstd::utf8::{is_ascii_chars, is_ascii_chars_encode_utf8};

use crate::sensiron_sensor_reading::DisplayMessage;
use crate::text::{string32_eq, string32_new, string32_push_str, text32, utf8_len};

verus! {

/// Bytes the screen's text buffer holds.
pub const LABEL_CAPACITY: usize = 32;

/// The text the screen shows for a message: "OK" for live data, the error's
/// short code otherwise.
pub open spec fn label_for(msg: DisplayMessage) -> Seq<char> {
    match msg {
        DisplayMessage::ActiveData(_) => "OK"@,
        DisplayMessage::SystemError(se) => se.code@,
    }
}

/// What the screen shows after `msg` arrives while it shows `shown`, and
/// whether it has to be repainted: a label that does not fit the buffer is
/// dropped, and an unchanged label is not repainted.
pub open spec fn screen_step(shown: Seq<char>, msg: DisplayMessage) -> (Seq<char>, bool) {
    let label = label_for(msg);
    if utf8_len(label) <= LABEL_CAPACITY && label != shown {
        (label, true)
    } else {
        (shown, false)
    }
}

/// The screen's memory of what it shows.
pub struct Screen {
    last: heapless::String<32>,
}

impl Screen {
    /// The characters on the screen.
    pub closed spec fn shown(&self) -> Seq<char> {
        text32(self.last)
    }

    /// A cleared screen shows nothing.
    pub fn new() -> (screen: Screen)
        ensures
            screen.shown() == Seq::<char>::empty(),
    {
        Screen { last: string32_new() }
    }

    /// Takes the next message; returns whether the screen has to be repainted
    /// with the new text (see `screen_step`).
    pub fn show(&mut self, msg: &DisplayMessage) -> (repaint: bool)
        ensures
            (final(self).shown(), repaint) == screen_step(old(self).shown(), *msg),
    {
        let mut next = string32_new();
        proof {
            assert(utf8_len(Seq::<char>::empty()) == 0);
        }
        let written = match msg {
            DisplayMessage::ActiveData(_) => {
                let ok = "OK";
                proof {
                    reveal_strlit("OK");
                    assert(is_ascii_chars(ok@));
                    is_ascii_chars_encode_utf8(ok@);
                }
                string32_push_str(&mut next, ok)
            },
            DisplayMessage::SystemError(se) => string32_push_str(&mut next, se.code),
        };
        proof {
            assert(Seq::<char>::empty() + label_for(*msg) =~= label_for(*msg));
        }
        if written.is_ok() && !string32_eq(&next, &self.last) {
            self.last = next;
            true
        } else {
            false
        }
    }

    /// The text buffer to paint.
    pub fn label(&self) -> (label: &heapless::String<32>)
        ensures
            text32(*label) == self.shown(),
    {
        &self.last
    }
}

/// Showing the same message twice in a row repaints the screen at most once:
/// the second time the screen already shows its label, or the label does not
/// fit.
pub proof fn same_message_twice_repaints_once(shown: Seq<char>, msg: DisplayMessage)
    ensures
        !screen_step(screen_step(shown, msg).0, msg).1,
        screen_step(screen_step(shown, msg).0, msg).0 == screen_step(shown, msg).0,
{
}

/// The screen never shows more than its buffer holds, given that it started
/// within it.
pub proof fn shown_text_fits_the_buffer(shown: Seq<char>, msg: DisplayMessage)
    requires
        utf8_len(shown) <= LABEL_CAPACITY,
    ensures
        utf8_len(screen_step(shown, msg).0) <= LABEL_CAPACITY,
{
}

/// What the screen does with a message, in terms of the message alone: live
/// data shows "OK", an error shows its code; a label that fits in 32 bytes
/// and differs from the shown text replaces it and is repainted, and
/// otherwise nothing changes.
pub proof fn a_changed_label_that_fits_is_shown(shown: Seq<char>, msg: DisplayMessage)
    ensures
        ({
            let label = match msg {
                DisplayMessage::ActiveData(_) => "OK"@,
                DisplayMessage::SystemError(se) => se.code@,
            };
            &&& (utf8_len(label) <= 32 && label != shown) ==> screen_step(shown, msg) == (label, true)
            &&& !(utf8_len(label) <= 32 && label != shown) ==> screen_step(shown, msg) == (shown, false)
        }),
{
}

} // verus!
