use vstd::prelude::*;

use crate::color::Color;
use crate::controls::{Control, RenderError};
use crate::display::DisplayBuffer;

verus! {

/// A buffer holding a color in both nibbles of every byte, as a clear
/// leaves it.
pub open spec fn spec_cleared(background: Color) -> Seq<u8> {
    Seq::new(crate::display::BUFFER_LEN as nat, |i: int| background.spec_fill_byte())
}

/// What rendering the widgets from `i` on, in order, turns the buffer
/// into: `None` as soon as one widget's drawing fails.
pub open spec fn spec_composed<C: Control>(widgets: Seq<C>, i: int, buf: Seq<u8>) -> Option<
    Seq<u8>,
>
    decreases widgets.len() - i,
    when 0 <= i
{
    if i >= widgets.len() {
        Some(buf)
    } else {
        match widgets[i].rendered(buf) {
            None => None,
            Some(b) => spec_composed(widgets, i + 1, b),
        }
    }
}

/// The compositor: sole owner of the frame buffer for the process
/// lifetime. It batches widget renders, drives the panel through an
/// injected port only when something changed, and acknowledges the batch
/// by clearing dirty flags only after the whole cycle succeeded.
pub struct Compositor {
    display: DisplayBuffer,
}

impl Compositor {
    /// The frame buffer the compositor owns.
    pub closed spec fn spec_display(&self) -> DisplayBuffer {
        self.display
    }

    /// The buffer is well formed.
    pub open spec fn wf(&self) -> bool {
        self.spec_display().wf()
    }

    /// Creates a compositor over a fresh frame buffer.
    pub fn new() -> (r: Compositor)
        ensures
            r.wf(),
    {
        Compositor { display: DisplayBuffer::new() }
    }

    /// The panel width in pixels.
    pub fn width(&self) -> (r: usize)
        ensures
            r == crate::display::WIDTH,
    {
        self.display.width()
    }

    /// The panel height in pixels.
    pub fn height(&self) -> (r: usize)
        ensures
            r == crate::display::HEIGHT,
    {
        self.display.height()
    }

    /// The full panel extent as a drawing rectangle.
    pub fn bounding_box(&self) -> (r: crate::controls::Rect)
        ensures
            r == (crate::controls::Rect {
                x: 0,
                y: 0,
                width: crate::display::WIDTH,
                height: crate::display::HEIGHT,
            }),
    {
        crate::controls::Rect { x: 0, y: 0, width: 600, height: 448 }
    }

    /// Borrows the packed bytes as they would go to the panel.
    pub fn buffer(&self) -> (r: &[u8])
        ensures
            r@ == self.spec_display().buffer_view(),
    {
        self.display.buffer()
    }

    /// Renders a batch of widgets if any of them is dirty.
    ///
    /// When no widget reports dirty the call returns at once: the buffer
    /// is not cleared, nothing is drawn and the panel port is not
    /// invoked. Otherwise the buffer is cleared to the background, every
    /// widget draws in order (later widgets draw over earlier ones), the
    /// first failure aborts the cycle, and the composed buffer goes to
    /// the panel port only once every widget succeeded. Dirty flags are
    /// cleared only after the port accepted the frame; any failure leaves
    /// every widget, and so every dirty flag, exactly as it was.
    pub fn render_controls_if_dirty<C: Control, F: FnOnce(&Vec<u8>) -> Result<(), ()>>(
        &mut self,
        background: Color,
        controls: &mut Vec<C>,
        push: F,
    ) -> (r: Result<(), RenderError>)
        requires
            old(self).wf(),
            forall|i: int| 0 <= i < old(controls)@.len() ==> (#[trigger] old(controls)@[i]).inv(),
            forall|b: &Vec<u8>| #[trigger] call_requires(push, (b,)),
        ensures
            final(self).wf(),
            final(controls)@.len() == old(controls)@.len(),
            (forall|i: int|
                0 <= i < old(controls)@.len() ==> !(#[trigger] old(controls)@[i]).dirty()) ==> (
            r is Ok && *final(self) == *old(self) && final(controls)@ == old(controls)@),
            r is Err ==> final(controls)@ == old(controls)@,
            r is Ok ==> forall|i: int|
                0 <= i < final(controls)@.len() ==> !(#[trigger] final(controls)@[i]).dirty(),
            forall|i: int|
                0 <= i < final(controls)@.len() ==> (#[trigger] final(controls)@[i]) == old(
                    controls,
                )@[i] || final(controls)@[i] == old(controls)@[i].marked_clean(),
            forall|i: int|
                0 <= i < final(controls)@.len() ==> (#[trigger] final(controls)@[i]).inv() == old(
                    controls,
                )@[i].inv(),
            r is Ok && (exists|i: int|
                0 <= i < old(controls)@.len() && (#[trigger] old(controls)@[i]).dirty()) ==> {
                &&& spec_composed(old(controls)@, 0, spec_cleared(background)) is Some
                &&& final(self).spec_display().buffer_view() == spec_composed(
                    old(controls)@,
                    0,
                    spec_cleared(background),
                )->Some_0
            },
    {
        let n = controls.len();
        let mut any_dirty = false;
        let mut i: usize = 0;
        while i < n
            invariant
                i <= n,
                n == controls@.len(),
                *self == *old(self),
                controls@ == old(controls)@,
                any_dirty == exists|k: int| 0 <= k < i && (#[trigger] controls@[k]).dirty(),
            decreases n - i,
        {
            if controls[i].is_dirty() {
                any_dirty = true;
            }
            i = i + 1;
        }
        if !any_dirty {
            return Ok(());
        }
        proof {
            assert(exists|k: int| 0 <= k < n && (#[trigger] old(controls)@[k]).dirty());
        }
        self.display.clear_buffer(background);
        proof {
            assert(self.display.buffer_view() =~= spec_cleared(background));
        }
        let mut j: usize = 0;
        while j < n
            invariant
                j <= n,
                n == controls@.len(),
                controls@ == old(controls)@,
                exists|k: int| 0 <= k < n && (#[trigger] old(controls)@[k]).dirty(),
                forall|k: int| 0 <= k < n ==> (#[trigger] controls@[k]).inv(),
                self.wf(),
                spec_composed(old(controls)@, 0, spec_cleared(background)) == spec_composed(
                    old(controls)@,
                    j as int,
                    self.spec_display().buffer_view(),
                ),
            decreases n - j,
        {
            let ghost pre = self.spec_display().buffer_view();
            let result = controls[j].render(&mut self.display);
            proof {
                assert(spec_composed(old(controls)@, j as int, pre) == match old(
                    controls,
                )@[j as int].rendered(pre) {
                    None => None,
                    Some(b) => spec_composed(old(controls)@, j as int + 1, b),
                });
            }
            if let Err(e) = result {
                proof {
                    assert(spec_composed(old(controls)@, 0, spec_cleared(background)) is None);
                }
                return Err(e);
            }
            j = j + 1;
        }
        proof {
            assert(spec_composed(old(controls)@, n as int, self.spec_display().buffer_view())
                == Some(self.spec_display().buffer_view()));
        }
        if push(&self.display.buffer).is_err() {
            return Err(RenderError::Panel);
        }
        let mut k: usize = 0;
        while k < n
            invariant
                k <= n,
                n == controls@.len(),
                self.wf(),
                spec_composed(old(controls)@, 0, spec_cleared(background)) == Some(
                    self.spec_display().buffer_view(),
                ),
                exists|m: int| 0 <= m < n && (#[trigger] old(controls)@[m]).dirty(),
                forall|m: int| 0 <= m < k ==> !(#[trigger] controls@[m]).dirty(),
                forall|m: int|
                    0 <= m < k ==> (#[trigger] controls@[m]) == old(controls)@[m].marked_clean(),
                forall|m: int|
                    0 <= m < k ==> (#[trigger] controls@[m]).inv() == old(controls)@[m].inv(),
                forall|m: int| k <= m < n ==> (#[trigger] controls@[m]) == old(controls)@[m],
            decreases n - k,
        {
            controls[k].clear_dirty();
            k = k + 1;
        }
        Ok(())
    }
}

} // verus!
