pub mod header;
pub mod popup;
pub mod task_list;

pub use header::Header;
pub use popup::Popup;
pub use task_list::{TaskList, TaskSnapshot};

use vstd::prelude::*;
use vstd::string::StringExecFns;

use crate::display::DisplayBuffer;

verus! {

/// Why a render cycle failed: a font or primitive could not be drawn, a
/// drawing buffer did not fit the panel, or the panel driver itself
/// failed.
#[derive(Clone, Copy, Debug, PartialEq, Eq, Structural)]
pub enum RenderError {
    /// A glyph or primitive could not be rendered.
    Text,
    /// The drawing buffer did not match the panel extent.
    Buffer,
    /// The panel driver reported a failure.
    Panel,
}

impl RenderError {
    /// A short description of the failure.
    pub fn message(&self) -> (r: String)
        ensures
            r@ == match *self {
                RenderError::Text => "unable to render text or primitive"@,
                RenderError::Buffer => "drawing buffer does not match the panel"@,
                RenderError::Panel => "panel driver failed"@,
            },
    {
        match self {
            RenderError::Text => String::from_str("unable to render text or primitive"),
            RenderError::Buffer => String::from_str("drawing buffer does not match the panel"),
            RenderError::Panel => String::from_str("panel driver failed"),
        }
    }
}

/// A rectangle in logical pixel coordinates: its top-left corner and its
/// size.
#[derive(Clone, Copy, Debug, PartialEq, Eq, Structural)]
pub struct Rect {
    pub x: i32,
    pub y: i32,
    pub width: u32,
    pub height: u32,
}

impl Rect {
    /// A rectangle that fits drawing arithmetic: the corner and the size
    /// stay well inside the coordinate range.
    pub open spec fn valid(self) -> bool {
        &&& -16384 <= self.x <= 16384
        &&& -16384 <= self.y <= 16384
        &&& self.width <= 16384
        &&& self.height <= 16384
    }
}

/// The capability set of a dirty-tracked widget. A widget owns the field
/// values it last showed and a dirty flag; it starts dirty, setters mark
/// it dirty once a tracked value changes, and only the compositor clears
/// the flag, after a render cycle in which every widget of the batch
/// succeeded.
pub trait Control: Sized {
    /// The widget's own well-formedness: what its constructor
    /// establishes and its setters keep.
    spec fn inv(&self) -> bool;

    /// Whether the widget's visible content differs from what was last
    /// committed to the panel.
    spec fn dirty(&self) -> bool;

    /// This widget with its content kept and its dirty flag cleared.
    spec fn marked_clean(&self) -> Self;

    /// What this widget's render turns the packed buffer bytes into:
    /// `Some` of the new bytes when every drawing step succeeds, `None`
    /// when one fails. Widgets define it as the chain of their drawing
    /// steps; the default stands for a widget that cannot draw.
    open spec fn rendered(&self, pre: Seq<u8>) -> Option<Seq<u8>> {
        None
    }

    /// Reports the dirty flag.
    fn is_dirty(&self) -> (r: bool)
        ensures
            r == self.dirty(),
    ;

    /// Clears the dirty flag and changes nothing else.
    fn clear_dirty(&mut self)
        ensures
            *final(self) == old(self).marked_clean(),
            !final(self).dirty(),
            final(self).inv() == old(self).inv(),
    ;

    /// Draws the widget onto the frame buffer: on success the buffer
    /// holds exactly what `rendered` says, and success falls together
    /// with `rendered` yielding a value. Failure leaves the widget itself
    /// untouched and may leave a partial drawing; the buffer keeps its
    /// extent and rotation either way.
    fn render(&self, display: &mut DisplayBuffer) -> (r: Result<(), RenderError>)
        requires
            old(display).wf(),
            self.inv(),
        ensures
            final(display).wf(),
            final(display).spec_rotation() == old(display).spec_rotation(),
            r is Ok <==> self.rendered(old(display).buffer_view()) is Some,
            r is Ok ==> final(display).buffer_view() == self.rendered(
                old(display).buffer_view(),
            )->Some_0,
    ;
}

/// A closed choice over the widgets of this display, so one batch can
/// mix them while dispatch stays static.
pub enum Widget {
    Header(Header),
    Tasks(TaskList),
    Popup(Popup),
}

impl Control for Widget {
    open spec fn inv(&self) -> bool {
        match self {
            Widget::Header(w) => w.inv(),
            Widget::Tasks(w) => w.inv(),
            Widget::Popup(w) => w.inv(),
        }
    }

    open spec fn dirty(&self) -> bool {
        match self {
            Widget::Header(w) => w.dirty(),
            Widget::Tasks(w) => w.dirty(),
            Widget::Popup(w) => w.dirty(),
        }
    }

    open spec fn marked_clean(&self) -> Widget {
        match self {
            Widget::Header(w) => Widget::Header(w.marked_clean()),
            Widget::Tasks(w) => Widget::Tasks(w.marked_clean()),
            Widget::Popup(w) => Widget::Popup(w.marked_clean()),
        }
    }

    open spec fn rendered(&self, pre: Seq<u8>) -> Option<Seq<u8>> {
        match self {
            Widget::Header(w) => w.rendered(pre),
            Widget::Tasks(w) => w.rendered(pre),
            Widget::Popup(w) => w.rendered(pre),
        }
    }

    fn is_dirty(&self) -> (r: bool) {
        match self {
            Widget::Header(w) => w.is_dirty(),
            Widget::Tasks(w) => w.is_dirty(),
            Widget::Popup(w) => w.is_dirty(),
        }
    }

    fn clear_dirty(&mut self) {
        match self {
            Widget::Header(w) => w.clear_dirty(),
            Widget::Tasks(w) => w.clear_dirty(),
            Widget::Popup(w) => w.clear_dirty(),
        }
    }

    fn render(&self, display: &mut DisplayBuffer) -> (r: Result<(), RenderError>) {
        match self {
            Widget::Header(w) => w.render(display),
            Widget::Tasks(w) => w.render(display),
            Widget::Popup(w) => w.render(display),
        }
    }
}

} // verus!
