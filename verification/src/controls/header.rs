use vstd::prelude::*;

use crate::color::Color;
use crate::controls::{Control, RenderError};
use crate::display::DisplayBuffer;
use crate::draw;
use crate::draw::{
    head_text_center_center_drawn, head_text_center_left_drawn, info_text_center_right_drawn,
    line_drawn,
};
use crate::schedule::{format_date_long, long_date_label_of, spec_day_month, DateParts};
use crate::text::str_eq;

verus! {

/// The header bar: the application title, today's date in the middle and
/// the time of the last successful update at the right, all dirty
/// tracked.
pub struct Header {
    date: Option<DateParts>,
    last_update: Option<String>,
    last_update_color: Color,
    dirty: bool,
}

impl Header {
    /// The date shown in the middle of the bar.
    pub closed spec fn spec_date(&self) -> Option<DateParts> {
        self.date
    }

    /// The text shown at the right of the bar.
    pub closed spec fn spec_last_update(&self) -> Option<Seq<char>> {
        match self.last_update {
            Some(u) => Some(u@),
            None => None,
        }
    }

    /// The color of the text at the right of the bar.
    pub closed spec fn spec_last_update_color(&self) -> Color {
        self.last_update_color
    }

    /// Creates a header with nothing shown yet, marked dirty so the
    /// first cycle renders it.
    pub fn new() -> (r: Header)
        ensures
            r.dirty(),
            r.spec_date() is None,
            r.spec_last_update() is None,
            r.spec_last_update_color() == Color::Black,
    {
        Header { date: None, last_update: None, last_update_color: Color::Black, dirty: true }
    }

    /// Shows a date, marking the header dirty exactly when the date
    /// changes.
    pub fn set_date(&mut self, date: DateParts)
        requires
            date.valid(),
        ensures
            final(self).inv(),
            final(self).spec_date() == Some(date),
            final(self).spec_last_update() == old(self).spec_last_update(),
            final(self).spec_last_update_color() == old(self).spec_last_update_color(),
            final(self).dirty() == (old(self).dirty() || old(self).spec_date() != Some(date)),
    {
        let changed = match &self.date {
            Some(d) => !(d.year == date.year && d.month == date.month && d.day == date.day),
            None => true,
        };
        self.dirty = self.dirty || changed;
        self.date = Some(date);
    }

    /// Shows an update message in a color, marking the header dirty
    /// exactly when the message text or its color changes (a header with
    /// no message yet always becomes dirty).
    pub fn set_last_update(&mut self, message: String, color: Color)
        ensures
            final(self).inv() == old(self).inv(),
            final(self).spec_date() == old(self).spec_date(),
            final(self).spec_last_update() == Some(message@),
            final(self).spec_last_update_color() == color,
            final(self).dirty() == (old(self).dirty() || old(self).spec_last_update() != Some(
                message@,
            ) || old(self).spec_last_update_color() != color),
    {
        let same_text = match &self.last_update {
            Some(u) => str_eq(u.as_str(), message.as_str()),
            None => false,
        };
        let same_color = self.last_update_color == color;
        self.dirty = self.dirty || !same_text || !same_color;
        self.last_update = Some(message);
        self.last_update_color = color;
    }
}

/// Clearing the header's dirty flag keeps everything it shows: the date,
/// the update message and its color survive, only the flag falls.
pub proof fn lemma_header_clean_keeps_content(h: Header)
    ensures
        h.marked_clean().spec_date() == h.spec_date(),
        h.marked_clean().spec_last_update() == h.spec_last_update(),
        h.marked_clean().spec_last_update_color() == h.spec_last_update_color(),
        !h.marked_clean().dirty(),
        h.marked_clean().inv() == h.inv(),
{
}

/// The text the header shows for a date: the date library's long form
/// where the fields make a real date, day slash month otherwise.
pub open spec fn spec_date_label(d: DateParts) -> Seq<char> {
    match long_date_label_of(d.year as int, d.month as int, d.day as int) {
        Some(t) => t,
        None => spec_day_month(d),
    }
}

impl Control for Header {
    open spec fn inv(&self) -> bool {
        match self.spec_date() {
            Some(d) => d.valid(),
            None => true,
        }
    }

    closed spec fn dirty(&self) -> bool {
        self.dirty
    }

    closed spec fn marked_clean(&self) -> Header {
        Header {
            date: self.date,
            last_update: self.last_update,
            last_update_color: self.last_update_color,
            dirty: false,
        }
    }

    open spec fn rendered(&self, pre: Seq<u8>) -> Option<Seq<u8>> {
        match line_drawn(pre, 0, 29, 599, 29, Color::Black.spec_nibble()) {
            None => None,
            Some(b1) => match head_text_center_left_drawn(
                b1,
                "Todoist"@,
                10,
                14,
                Color::Red.spec_nibble(),
            ) {
                None => None,
                Some(b2) => {
                    let after_date = match self.spec_date() {
                        Some(d) => head_text_center_center_drawn(
                            b2,
                            spec_date_label(d),
                            299,
                            14,
                            Color::Black.spec_nibble(),
                        ),
                        None => Some(b2),
                    };
                    match after_date {
                        None => None,
                        Some(b3) => match self.spec_last_update() {
                            Some(u) => info_text_center_right_drawn(
                                b3,
                                u,
                                589,
                                14,
                                self.spec_last_update_color().spec_nibble(),
                            ),
                            None => Some(b3),
                        },
                    }
                },
            },
        }
    }

    fn is_dirty(&self) -> (r: bool) {
        self.dirty
    }

    fn clear_dirty(&mut self) {
        self.dirty = false;
    }

    /// Draws the bar across the top of the panel: a separating line, the
    /// title at the left, the date centered and the update message at the
    /// right.
    fn render(&self, display: &mut DisplayBuffer) -> (r: Result<(), RenderError>) {
        let w = display.width() as i32;
        draw::draw_line(display, 0, 29, w - 1, 29, Color::Black.nibble())?;
        draw::text_head_center_left(display, "Todoist", 10, 14, Color::Red.nibble())?;
        if let Some(date) = &self.date {
            let label = match format_date_long(date) {
                Some(l) => l,
                None => crate::text::string_from_chars(crate::schedule::day_month_chars(date)),
            };
            proof {
                assert(label@ == spec_date_label(*date));
            }
            draw::text_head_center_center(
                display,
                label.as_str(),
                (w - 1) / 2,
                14,
                Color::Black.nibble(),
            )?;
        }
        if let Some(last_update) = &self.last_update {
            draw::text_info_center_right(
                display,
                last_update.as_str(),
                w - 11,
                14,
                self.last_update_color.nibble(),
            )?;
        }
        Ok(())
    }
}

} // verus!
