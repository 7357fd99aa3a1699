use std::cell::Cell;
use std::rc::Rc;

use taskpanel::color::Color;
use taskpanel::compose::Compositor;
use taskpanel::controls::{Control, Header, Rect, RenderError, TaskList, TaskSnapshot, Widget};
use taskpanel::display::{DisplayBuffer, BUFFER_LEN};

/// A test double that counts its render calls and can be told to fail.
struct StubWidget {
    dirty: bool,
    fail: bool,
    renders: Rc<Cell<u32>>,
}

impl StubWidget {
    fn new(dirty: bool, fail: bool) -> (StubWidget, Rc<Cell<u32>>) {
        let renders = Rc::new(Cell::new(0));
        (StubWidget { dirty, fail, renders: renders.clone() }, renders)
    }
}

impl Control for StubWidget {
    fn inv(&self) -> bool {
        true
    }

    fn dirty(&self) -> bool {
        self.dirty
    }

    fn marked_clean(&self) -> StubWidget {
        StubWidget { dirty: false, fail: self.fail, renders: self.renders.clone() }
    }

    fn is_dirty(&self) -> bool {
        self.dirty
    }

    fn clear_dirty(&mut self) {
        self.dirty = false;
    }

    fn render(&self, _display: &mut DisplayBuffer) -> Result<(), RenderError> {
        self.renders.set(self.renders.get() + 1);
        if self.fail {
            Err(RenderError::Text)
        } else {
            Ok(())
        }
    }
}

#[test]
fn refresh_is_avoided_when_nothing_is_dirty() {
    let mut compositor = Compositor::new();
    let (a, a_renders) = StubWidget::new(false, false);
    let (b, b_renders) = StubWidget::new(false, false);
    let mut widgets = vec![a, b];
    let before: Vec<u8> = compositor.buffer().to_vec();
    let pushes = Rc::new(Cell::new(0u32));
    let p = pushes.clone();
    let r = compositor.render_controls_if_dirty(Color::White, &mut widgets, move |_b| {
        p.set(p.get() + 1);
        Ok(())
    });
    assert!(r.is_ok());
    // no clear, no draw, no panel drive
    assert_eq!(compositor.buffer(), before.as_slice());
    assert_eq!(a_renders.get(), 0);
    assert_eq!(b_renders.get(), 0);
    assert_eq!(pushes.get(), 0);
}

#[test]
fn one_dirty_widget_renders_the_whole_batch_and_clears_flags() {
    let mut compositor = Compositor::new();
    let (a, a_renders) = StubWidget::new(false, false);
    let (b, b_renders) = StubWidget::new(true, false);
    let mut widgets = vec![a, b];
    let pushes = Rc::new(Cell::new(0u32));
    let pushed_len = Rc::new(Cell::new(0usize));
    let p = pushes.clone();
    let pl = pushed_len.clone();
    let r = compositor.render_controls_if_dirty(Color::White, &mut widgets, move |buf| {
        p.set(p.get() + 1);
        pl.set(buf.len());
        Ok(())
    });
    assert!(r.is_ok());
    assert_eq!(a_renders.get(), 1);
    assert_eq!(b_renders.get(), 1);
    assert_eq!(pushes.get(), 1);
    assert_eq!(pushed_len.get(), BUFFER_LEN);
    assert!(!widgets[0].is_dirty());
    assert!(!widgets[1].is_dirty());
    // the buffer was cleared to the background before drawing
    assert!(compositor.buffer().iter().all(|&byte| byte == 0x11));
}

#[test]
fn a_failing_widget_keeps_every_dirty_flag() {
    let mut compositor = Compositor::new();
    let (a, a_renders) = StubWidget::new(true, false);
    let (b, _b_renders) = StubWidget::new(true, true);
    let (c, c_renders) = StubWidget::new(true, false);
    let mut widgets = vec![a, b, c];
    let pushes = Rc::new(Cell::new(0u32));
    let p = pushes.clone();
    let r = compositor.render_controls_if_dirty(Color::White, &mut widgets, move |_b| {
        p.set(p.get() + 1);
        Ok(())
    });
    assert_eq!(r, Err(RenderError::Text));
    // the first widget did render, but nobody's flag was cleared
    assert_eq!(a_renders.get(), 1);
    assert!(widgets[0].is_dirty());
    assert!(widgets[1].is_dirty());
    assert!(widgets[2].is_dirty());
    // later widgets were never invoked, and the panel was not driven
    assert_eq!(c_renders.get(), 0);
    assert_eq!(pushes.get(), 0);
}

#[test]
fn a_failing_panel_drive_keeps_every_dirty_flag() {
    let mut compositor = Compositor::new();
    let (a, _) = StubWidget::new(true, false);
    let mut widgets = vec![a];
    let r = compositor.render_controls_if_dirty(Color::White, &mut widgets, |_b| Err(()));
    assert_eq!(r, Err(RenderError::Panel));
    assert!(widgets[0].is_dirty());
}

#[test]
fn real_widgets_compose_onto_the_panel() {
    let mut compositor = Compositor::new();
    let mut header = Header::new();
    header.set_date(taskpanel::schedule::DateParts { year: 2024, month: 1, day: 15 });
    let mut tasks = TaskList::new(Rect { x: 0, y: 30, width: 600, height: 418 });
    tasks.set_tasks(vec![
        TaskSnapshot {
            marker_color: Color::Red,
            title: "Water the plants".to_string(),
            description: Some("Both of them".to_string()),
            when: "today".to_string(),
            when_color: Color::Black,
            duration: Some("30m".to_string()),
        },
    ]);
    let mut widgets = vec![Widget::Header(header), Widget::Tasks(tasks)];
    let pushes = Rc::new(Cell::new(0u32));
    let p = pushes.clone();
    let r = compositor.render_controls_if_dirty(Color::White, &mut widgets, move |_b| {
        p.set(p.get() + 1);
        Ok(())
    });
    assert!(r.is_ok());
    assert_eq!(pushes.get(), 1);
    assert!(!widgets[0].is_dirty());
    assert!(!widgets[1].is_dirty());
    // something was actually drawn over the white background
    assert!(compositor.buffer().iter().any(|&byte| byte != 0x11));
    // a second cycle with untouched widgets does not drive the panel again
    let p2 = pushes.clone();
    let r2 = compositor.render_controls_if_dirty(Color::White, &mut widgets, move |_b| {
        p2.set(p2.get() + 1);
        Ok(())
    });
    assert!(r2.is_ok());
    assert_eq!(pushes.get(), 1);
}

#[test]
fn a_full_list_and_a_popup_render_without_failing() {
    let mut compositor = Compositor::new();
    let mut tasks = TaskList::new(Rect { x: 0, y: 30, width: 600, height: 418 });
    let many: Vec<TaskSnapshot> = (0..14)
        .map(|i| TaskSnapshot {
            marker_color: Color::Blue,
            title: format!("Task number {}", i),
            description: Some("with a description".to_string()),
            when: "12:30".to_string(),
            when_color: Color::Green,
            duration: Some("45m".to_string()),
        })
        .collect();
    tasks.set_tasks(many);
    let mut widgets = vec![Widget::Tasks(tasks)];
    let r = compositor.render_controls_if_dirty(Color::White, &mut widgets, |_b| Ok(()));
    assert!(r.is_ok());
    assert!(compositor.buffer().iter().any(|&byte| byte != 0x11));

    let mut popup_compositor = Compositor::new();
    let popup = taskpanel::controls::Popup::new("Loading Error", "Check the key.".to_string());
    let mut popup_widgets = vec![Widget::Popup(popup)];
    let r2 = popup_compositor.render_controls_if_dirty(Color::White, &mut popup_widgets, |_b| Ok(()));
    assert!(r2.is_ok());
    assert!(popup_compositor.buffer().iter().any(|&byte| byte != 0x11));
}
