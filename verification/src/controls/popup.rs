use vstd::prelude::*;

use crate::color::Color;
use crate::controls::{Control, RenderError};
use crate::display::DisplayBuffer;
use crate::draw;
use crate::draw::{large_text_baseline_center_drawn, medium_text_top_center_drawn};
use crate::text::str_eq;

verus! {

/// A centered popup: a fixed title with a message below it, each in its
/// own color, dirty tracked.
pub struct Popup {
    title: &'static str,
    message: String,
    title_color: Color,
    message_color: Color,
    dirty: bool,
}

impl Popup {
    /// The title text.
    pub closed spec fn spec_title(&self) -> Seq<char> {
        self.title@
    }

    /// The message text.
    pub closed spec fn spec_message(&self) -> Seq<char> {
        self.message@
    }

    /// The color of the title.
    pub closed spec fn spec_title_color(&self) -> Color {
        self.title_color
    }

    /// The color of the message.
    pub closed spec fn spec_message_color(&self) -> Color {
        self.message_color
    }

    /// Creates a popup in the neutral foreground color, marked dirty so
    /// the first cycle renders it.
    pub fn new(title: &'static str, message: String) -> (r: Popup)
        ensures
            r.dirty(),
            r.spec_title() == title@,
            r.spec_message() == message@,
            r.spec_title_color() == Color::Black,
            r.spec_message_color() == Color::Black,
    {
        Popup {
            title,
            message,
            title_color: Color::Black,
            message_color: Color::Black,
            dirty: true,
        }
    }

    /// Replaces the title, marking the popup dirty exactly when the text
    /// changes.
    pub fn set_title(&mut self, title: &'static str)
        ensures
            final(self).spec_title() == title@,
            final(self).spec_message() == old(self).spec_message(),
            final(self).spec_title_color() == old(self).spec_title_color(),
            final(self).spec_message_color() == old(self).spec_message_color(),
            final(self).dirty() == (old(self).dirty() || old(self).spec_title() != title@),
    {
        let same = str_eq(self.title, title);
        self.dirty = self.dirty || !same;
        self.title = title;
    }

    /// Replaces the message, marking the popup dirty exactly when the
    /// text changes.
    pub fn set_message(&mut self, message: String)
        ensures
            final(self).spec_title() == old(self).spec_title(),
            final(self).spec_message() == message@,
            final(self).spec_title_color() == old(self).spec_title_color(),
            final(self).spec_message_color() == old(self).spec_message_color(),
            final(self).dirty() == (old(self).dirty() || old(self).spec_message() != message@),
    {
        let same = str_eq(self.message.as_str(), message.as_str());
        self.dirty = self.dirty || !same;
        self.message = message;
    }

    /// Recolors the title, marking the popup dirty exactly when the
    /// color changes.
    pub fn set_title_color(&mut self, color: Color)
        ensures
            final(self).spec_title() == old(self).spec_title(),
            final(self).spec_message() == old(self).spec_message(),
            final(self).spec_title_color() == color,
            final(self).spec_message_color() == old(self).spec_message_color(),
            final(self).dirty() == (old(self).dirty() || old(self).spec_title_color() != color),
    {
        self.dirty = self.dirty || self.title_color != color;
        self.title_color = color;
    }

    /// Recolors the message, marking the popup dirty exactly when the
    /// color changes.
    pub fn set_message_color(&mut self, color: Color)
        ensures
            final(self).spec_title() == old(self).spec_title(),
            final(self).spec_message() == old(self).spec_message(),
            final(self).spec_title_color() == old(self).spec_title_color(),
            final(self).spec_message_color() == color,
            final(self).dirty() == (old(self).dirty() || old(self).spec_message_color() != color),
    {
        self.dirty = self.dirty || self.message_color != color;
        self.message_color = color;
    }
}

/// Clearing the popup's dirty flag keeps everything it shows: the texts
/// and their colors survive, only the flag falls.
pub proof fn lemma_popup_clean_keeps_content(p: Popup)
    ensures
        p.marked_clean().spec_title() == p.spec_title(),
        p.marked_clean().spec_message() == p.spec_message(),
        p.marked_clean().spec_title_color() == p.spec_title_color(),
        p.marked_clean().spec_message_color() == p.spec_message_color(),
        !p.marked_clean().dirty(),
{
}

impl Control for Popup {
    open spec fn inv(&self) -> bool {
        true
    }

    closed spec fn dirty(&self) -> bool {
        self.dirty
    }

    closed spec fn marked_clean(&self) -> Popup {
        Popup {
            title: self.title,
            message: self.message,
            title_color: self.title_color,
            message_color: self.message_color,
            dirty: false,
        }
    }

    open spec fn rendered(&self, pre: Seq<u8>) -> Option<Seq<u8>> {
        match large_text_baseline_center_drawn(
            pre,
            self.spec_title(),
            299,
            203,
            self.spec_title_color().spec_nibble(),
        ) {
            None => None,
            Some(b) => medium_text_top_center_drawn(
                b,
                self.spec_message(),
                299,
                243,
                self.spec_message_color().spec_nibble(),
            ),
        }
    }

    fn is_dirty(&self) -> (r: bool) {
        self.dirty
    }

    fn clear_dirty(&mut self) {
        self.dirty = false;
    }

    /// Draws the title above the panel center and the message below it.
    fn render(&self, display: &mut DisplayBuffer) -> (r: Result<(), RenderError>) {
        let cx = (display.width() as i32 - 1) / 2;
        let cy = (display.height() as i32 - 1) / 2;
        draw::text_large_baseline_center(
            display,
            self.title,
            cx,
            cy - 20,
            self.title_color.nibble(),
        )?;
        draw::text_medium_top_center(
            display,
            self.message.as_str(),
            cx,
            cy + 20,
            self.message_color.nibble(),
        )?;
        Ok(())
    }
}

} // verus!
