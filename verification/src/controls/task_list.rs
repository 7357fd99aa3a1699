use vstd::prelude::*;

use crate::color::Color;
use crate::controls::{Control, Rect, RenderError};
use crate::display::DisplayBuffer;
use crate::draw;
use crate::draw::{
    body_text_drawn, circle_drawn, info_text_bottom_center_drawn, info_text_top_left_drawn,
    info_text_top_right_drawn, line_drawn,
};
use crate::markup::{spec_strip, strip};
use crate::schedule::{
    spec_duration_label, spec_label, spec_marker_color, spec_state_color, spec_state_post,
    DateParts, DateTimeParts, TaskDueState,
};
use crate::tasks::Task;
use vstd::string::StringExecFns;

use crate::text::{first_line_trimmed, spec_first_line, string_from_chars};

verus! {

/// The number of tasks the list renders at most; tasks beyond it are
/// only counted.
pub const MAX_RENDERED_TASKS: usize = 12;

/// An immutable, render-ready projection of one task: plain display text
/// and colors, decoupled from the raw record. Structural equality over
/// all fields is the sole signal that the visible output changed.
#[derive(Clone, Debug)]
pub struct TaskSnapshot {
    pub marker_color: Color,
    pub title: String,
    pub description: Option<String>,
    pub when: String,
    pub when_color: Color,
    pub duration: Option<String>,
}

/// The field values of two snapshots, compared as plain values.
pub open spec fn spec_snapshot_eq(a: TaskSnapshot, b: TaskSnapshot) -> bool {
    &&& a.marker_color == b.marker_color
    &&& a.title@ == b.title@
    &&& match (a.description, b.description) {
        (Some(x), Some(y)) => x@ == y@,
        (None, None) => true,
        _ => false,
    }
    &&& a.when@ == b.when@
    &&& a.when_color == b.when_color
    &&& match (a.duration, b.duration) {
        (Some(x), Some(y)) => x@ == y@,
        (None, None) => true,
        _ => false,
    }
}

/// Compares two optional strings by their text.
fn opt_str_eq(a: &Option<String>, b: &Option<String>) -> (r: bool)
    ensures
        r == match (a, b) {
            (Some(x), Some(y)) => x@ == y@,
            (None, None) => true,
            _ => false,
        },
{
    match (a, b) {
        (Some(x), Some(y)) => crate::text::str_eq(x.as_str(), y.as_str()),
        (None, None) => true,
        _ => false,
    }
}

impl PartialEq for TaskSnapshot {
    /// Snapshot equality is structural over every display field.
    fn eq(&self, other: &TaskSnapshot) -> (r: bool) {
        self.marker_color == other.marker_color && crate::text::str_eq(
            self.title.as_str(),
            other.title.as_str(),
        ) && opt_str_eq(&self.description, &other.description) && crate::text::str_eq(
            self.when.as_str(),
            other.when.as_str(),
        ) && self.when_color == other.when_color && opt_str_eq(&self.duration, &other.duration)
    }
}

impl vstd::std_specs::cmp::PartialEqSpecImpl for TaskSnapshot {
    open spec fn obeys_eq_spec() -> bool {
        true
    }

    open spec fn eq_spec(&self, other: &TaskSnapshot) -> bool {
        spec_snapshot_eq(*self, *other)
    }
}

/// What projecting a task into its snapshot promises: the marker color
/// follows completion and priority, the title and first description line
/// are stripped and bounded, the duration carries its short label, and
/// the schedule label and color are those of the task's due state at the
/// evaluation instant (a task with no due is a bare neutral to-do entry).
pub open spec fn spec_snapshot_post(t: Task, now: DateTimeParts, r: TaskSnapshot) -> bool {
    &&& r.marker_color == spec_marker_color(t.is_completed, t.priority)
    &&& r.title@ == spec_strip(t.content@, 80)
    &&& (t.description@.len() == 0 ==> r.description is None)
    &&& (t.description@.len() > 0 ==> r.description is Some && r.description->Some_0@
        == spec_strip(spec_first_line(t.description@), 120))
    &&& match t.duration {
        Some(d) => r.duration is Some && r.duration->Some_0@ == spec_duration_label(d),
        None => r.duration is None,
    }
    &&& ({
        let today = DateParts { year: now.year, month: now.month, day: now.day };
        exists|st: TaskDueState|
            {
                &&& st.wf()
                &&& match t.due {
                    Some(due) => spec_state_post(
                        due,
                        crate::schedule::spec_opt_duration_seconds(t.duration),
                        now,
                        st,
                    ),
                    None => st == TaskDueState::Unknown,
                }
                &&& r.when@ == #[trigger] spec_label(st, today)
                &&& r.when_color == spec_state_color(st)
            }
    })
    &&& (t.due is None ==> r.when@ == "todo"@ && r.when_color == Color::Black)
}

impl Task {
    /// Display fields for one record at a fixed instant: the title and
    /// the first description line stripped of markup and bounded, the
    /// schedule label and color of the due state, the duration's short
    /// label, and the marker color of completion and priority.
    pub fn into_snapshot(self, now: &DateTimeParts) -> (r: TaskSnapshot)
        requires
            now.valid(),
        ensures
            spec_snapshot_post(self, *now, r),
    {
        let state = match &self.due {
            Some(due) => due.state(self.duration.as_ref(), now),
            None => TaskDueState::Unknown,
        };
        let today = now.date();
        let when = state.label(&today);
        let when_color = match state {
            TaskDueState::NowTime => Color::Green,
            TaskDueState::PastDate(_) => Color::Red,
            TaskDueState::PastTime(_) => Color::Red,
            _ => Color::Black,
        };
        let description = if self.description.as_str().is_empty() {
            None
        } else {
            let line = first_line_trimmed(self.description.as_str());
            Some(string_from_chars(crate::markup::strip_chars(line.as_slice(), 120)))
        };
        let duration = match &self.duration {
            Some(d) => Some(d.label()),
            None => None,
        };
        proof {
            assert(state.wf() && when@ == spec_label(state, today) && when_color
                == spec_state_color(state));
        }
        TaskSnapshot {
            marker_color: crate::schedule::marker_color(self.is_completed, self.priority),
            title: strip(self.content.as_str(), 80),
            description,
            when,
            when_color,
            duration,
        }
    }
}

/// The task list widget: the bounded, sorted snapshots it renders, the
/// total number of incoming tasks, and its dirty flag, inside the
/// bounding box it draws into.
pub struct TaskList {
    bounding_box: Rect,
    tasks: Vec<TaskSnapshot>,
    count: usize,
    dirty: bool,
}

impl TaskList {
    /// The snapshots the widget renders.
    pub closed spec fn snapshots(&self) -> Seq<TaskSnapshot> {
        self.tasks@
    }

    /// How many tasks the last update carried in total.
    pub closed spec fn total(&self) -> int {
        self.count as int
    }

    /// The box the widget draws into.
    pub closed spec fn spec_bounding_box(&self) -> Rect {
        self.bounding_box
    }

    /// The number of tasks beyond the rendered subset.
    pub open spec fn spec_remaining(&self) -> int {
        self.total() - self.snapshots().len()
    }

    /// A list is well formed when it renders at most the cap and never
    /// more than it was handed, inside a box whose coordinates drawing
    /// arithmetic can carry.
    pub open spec fn wf(&self) -> bool {
        &&& self.snapshots().len() <= MAX_RENDERED_TASKS
        &&& self.snapshots().len() <= self.total()
        &&& self.spec_bounding_box().valid()
    }

    /// Creates an empty task list for a bounding box, marked dirty so
    /// the first cycle renders it.
    pub fn new(bounding_box: Rect) -> (r: TaskList)
        requires
            bounding_box.valid(),
        ensures
            r.dirty(),
            r.wf(),
            r.snapshots() =~= Seq::<TaskSnapshot>::empty(),
            r.total() == 0,
            r.spec_bounding_box() == bounding_box,
    {
        TaskList { bounding_box, dirty: true, count: 0, tasks: Vec::new() }
    }

    /// Replaces the rendered tasks: keeps at most the first twelve
    /// snapshots, records the total count for the "more tasks" line, and
    /// marks the widget dirty exactly when the total, the rendered
    /// length, or any rendered snapshot changed. Given more than twelve
    /// tasks, exactly twelve render and the remainder is the excess;
    /// given at most twelve, all render and the remainder is zero.
    pub fn set_tasks(&mut self, tasks: Vec<TaskSnapshot>)
        requires
            old(self).wf(),
        ensures
            final(self).wf(),
            final(self).spec_bounding_box() == old(self).spec_bounding_box(),
            final(self).total() == tasks@.len(),
            tasks@.len() > MAX_RENDERED_TASKS ==> final(self).snapshots() == tasks@.take(
                MAX_RENDERED_TASKS as int,
            ) && final(self).spec_remaining() == tasks@.len() - MAX_RENDERED_TASKS,
            tasks@.len() <= MAX_RENDERED_TASKS ==> final(self).snapshots() == tasks@ && final(self).spec_remaining() == 0,
            final(self).dirty() == (old(self).dirty() || old(self).total() != tasks@.len() || old(self).snapshots().len() != final(self).snapshots().len() || exists|k: int|
                0 <= k < old(self).snapshots().len() && k < final(self).snapshots().len()
                    && !spec_snapshot_eq(
                    old(self).snapshots()[k],
                    #[trigger] final(self).snapshots()[k],
                )),
    {
        let count = tasks.len();
        let mut new_tasks = tasks;
        new_tasks.truncate(MAX_RENDERED_TASKS);
        proof {
            if count <= MAX_RENDERED_TASKS {
                assert(new_tasks@ == tasks@);
            }
        }
        let mut changed = self.count != count || self.tasks.len() != new_tasks.len();
        let bound = if self.tasks.len() < new_tasks.len() {
            self.tasks.len()
        } else {
            new_tasks.len()
        };
        let mut k: usize = 0;
        while k < bound
            invariant
                k <= bound,
                *self == *old(self),
                bound <= self.tasks@.len(),
                bound <= new_tasks@.len(),
                changed == (old(self).total() != count as int || old(self).snapshots().len()
                    != new_tasks@.len() || exists|j: int|
                    0 <= j < k && !spec_snapshot_eq(
                        old(self).snapshots()[j],
                        #[trigger] new_tasks@[j],
                    )),
            decreases bound - k,
        {
            if !(self.tasks[k] == new_tasks[k]) {
                changed = true;
            }
            k = k + 1;
        }
        proof {
            assert(bound as int == vstd::math::min(
                old(self).snapshots().len() as int,
                new_tasks@.len() as int,
            ));
        }
        self.dirty = self.dirty || changed;
        self.tasks = new_tasks;
        self.count = count;
    }

    /// How many of the handed-over tasks the widget renders.
    pub fn rendered_count(&self) -> (r: usize)
        ensures
            r == self.snapshots().len(),
    {
        self.tasks.len()
    }

    /// How many tasks the last update carried in total.
    pub fn total_count(&self) -> (r: usize)
        ensures
            r == self.total(),
    {
        self.count
    }
}

/// Clearing the list's dirty flag keeps everything it shows: the
/// rendered snapshots, the total count and the bounding box survive, only
/// the flag falls. So a later update with element-wise equal content
/// provably leaves the widget clean.
pub proof fn lemma_task_list_clean_keeps_content(t: TaskList)
    ensures
        t.marked_clean().snapshots() == t.snapshots(),
        t.marked_clean().total() == t.total(),
        t.marked_clean().spec_bounding_box() == t.spec_bounding_box(),
        !t.marked_clean().dirty(),
        t.marked_clean().wf() == t.wf(),
{
}

/// A length clamped to at least one pixel, as the drawing library
/// assumes for zero-sized boxes.
pub open spec fn spec_len1(n: int) -> int {
    if n >= 1 {
        n
    } else {
        1
    }
}

/// The side length of the box shrunk by the ten-pixel margin, floored at
/// one pixel.
pub open spec fn spec_margin_len(n: int) -> int {
    if n >= 11 {
        n - 10
    } else {
        1
    }
}

/// How far the margin shifts the box's corner inward on one axis, as the
/// drawing library centers a resized box.
pub open spec fn spec_margin_shift(n: int) -> int {
    if n >= 11 {
        5
    } else if n >= 1 {
        (n - 1) / 2
    } else {
        0
    }
}

/// Whether task row `i` fits above the bottom margin.
pub open spec fn spec_row_fits(my: int, bottom: int, i: int) -> bool {
    my + i * 40 + 39 <= bottom
}

/// What drawing one task row turns the buffer into: the timeline marker
/// disc, the title, the optional first description line, the schedule
/// label and the optional duration label, in that order.
pub open spec fn spec_row_drawn(pre: Seq<u8>, t: TaskSnapshot, mx: int, ty: int) -> Option<
    Seq<u8>,
> {
    match circle_drawn(pre, mx + 43, ty, 15, t.marker_color.spec_nibble(), 0) {
        None => None,
        Some(b1) => match body_text_drawn(b1, t.title@, mx + 62, ty, 0) {
            None => None,
            Some(b2) => {
                let after_description = match t.description {
                    Some(d) => info_text_top_left_drawn(
                        b2,
                        d@,
                        mx + 62,
                        ty + 17,
                        Color::Blue.spec_nibble(),
                    ),
                    None => Some(b2),
                };
                match after_description {
                    None => None,
                    Some(b3) => match info_text_top_right_drawn(
                        b3,
                        t.when@,
                        mx + 38,
                        ty + 1,
                        t.when_color.spec_nibble(),
                    ) {
                        None => None,
                        Some(b4) => match t.duration {
                            Some(du) => info_text_top_right_drawn(
                                b4,
                                du@,
                                mx + 38,
                                ty + 17,
                                Color::Blue.spec_nibble(),
                            ),
                            None => Some(b4),
                        },
                    },
                }
            },
        },
    }
}

/// What drawing the rows from `i` on turns the buffer into; rows stop at
/// the first one that would cross the bottom margin.
pub open spec fn spec_rows_drawn(
    pre: Seq<u8>,
    tasks: Seq<TaskSnapshot>,
    i: int,
    mx: int,
    my: int,
    bottom: int,
) -> Option<Seq<u8>>
    decreases tasks.len() - i,
    when 0 <= i
{
    if i >= tasks.len() || !spec_row_fits(my, bottom, i) {
        Some(pre)
    } else {
        match spec_row_drawn(pre, tasks[i], mx, my + i * 40) {
            None => None,
            Some(b) => spec_rows_drawn(b, tasks, i + 1, mx, my, bottom),
        }
    }
}

/// How many of the rows are drawn: the index of the first row that does
/// not fit, or all of them.
pub open spec fn spec_fit_count(len: int, my: int, bottom: int, i: int) -> int
    decreases len - i,
    when 0 <= i <= len
{
    if i >= len || !spec_row_fits(my, bottom, i) {
        i
    } else {
        spec_fit_count(len, my, bottom, i + 1)
    }
}

/// The closing line reporting tasks beyond the rendered rows.
pub open spec fn spec_more_text(remaining: int) -> Seq<char> {
    "+ "@ + crate::schedule::spec_digits(remaining) + " more..."@
}

/// Draws one task row: the marker disc, the title, the optional first
/// description line, the schedule label and the optional duration label.
fn render_row(display: &mut DisplayBuffer, task: &TaskSnapshot, mx: i32, ty: i32) -> (r: Result<
    (),
    RenderError,
>)
    requires
        old(display).wf(),
        -20000 <= mx <= 20000,
        -20000 <= ty <= 20000,
    ensures
        final(display).wf(),
        final(display).spec_rotation() == old(display).spec_rotation(),
        r is Ok <==> spec_row_drawn(old(display).buffer_view(), *task, mx as int, ty as int)
            is Some,
        r is Ok ==> final(display).buffer_view() == spec_row_drawn(
            old(display).buffer_view(),
            *task,
            mx as int,
            ty as int,
        )->Some_0,
{
    draw::draw_circle(display, mx + 43, ty, 15, task.marker_color.nibble(), Color::Black.nibble())?;
    draw::text_body_top_left(display, task.title.as_str(), mx + 62, ty, Color::Black.nibble())?;
    if let Some(description) = &task.description {
        draw::text_info_top_left(
            display,
            description.as_str(),
            mx + 62,
            ty + 17,
            Color::Blue.nibble(),
        )?;
    }
    draw::text_info_top_right(
        display,
        task.when.as_str(),
        mx + 38,
        ty + 1,
        task.when_color.nibble(),
    )?;
    if let Some(duration) = &task.duration {
        draw::text_info_top_right(display, duration.as_str(), mx + 38, ty + 17, Color::Blue.nibble())?;
    }
    Ok(())
}

impl Control for TaskList {
    open spec fn inv(&self) -> bool {
        self.wf()
    }

    closed spec fn dirty(&self) -> bool {
        self.dirty
    }

    closed spec fn marked_clean(&self) -> TaskList {
        TaskList {
            bounding_box: self.bounding_box,
            tasks: self.tasks,
            count: self.count,
            dirty: false,
        }
    }

    open spec fn rendered(&self, pre: Seq<u8>) -> Option<Seq<u8>> {
        let bb = self.spec_bounding_box();
        let mx = bb.x + spec_margin_shift(bb.width as int);
        let my = bb.y + spec_margin_shift(bb.height as int);
        let mw = spec_margin_len(bb.width as int);
        let mh = spec_margin_len(bb.height as int);
        let bottom = my + mh - 1;
        match line_drawn(
            pre,
            bb.x + 55,
            bb.y as int,
            bb.x + 55,
            bb.y + spec_len1(bb.height as int) - 1,
            Color::Black.spec_nibble(),
        ) {
            None => None,
            Some(b0) => match spec_rows_drawn(b0, self.snapshots(), 0, mx, my, bottom) {
                None => None,
                Some(b1) => {
                    let drawn = spec_fit_count(self.snapshots().len() as int, my, bottom, 0);
                    let remaining = self.total() - drawn;
                    if remaining > 0 {
                        info_text_bottom_center_drawn(
                            b1,
                            spec_more_text(remaining),
                            mx + (mw - 1) / 2,
                            bottom - 5,
                            Color::Black.spec_nibble(),
                        )
                    } else {
                        Some(b1)
                    }
                },
            },
        }
    }

    fn is_dirty(&self) -> (r: bool) {
        self.dirty
    }

    fn clear_dirty(&mut self) {
        self.dirty = false;
    }

    /// Draws the calendar plumb line, then each rendered task as a
    /// timeline marker disc, its title, the first description line, the
    /// schedule label and the duration label; tasks that would overflow
    /// the box are skipped and counted, and a closing line reports how
    /// many tasks did not fit.
    fn render(&self, display: &mut DisplayBuffer) -> (r: Result<(), RenderError>) {
        let bb = self.bounding_box;
        let bw: i32 = bb.width as i32;
        let bh: i32 = bb.height as i32;
        // the plumb line runs down the full box, at the marker column
        draw::draw_line(
            display,
            bb.x + 55,
            bb.y,
            bb.x + 55,
            bb.y + (if bh >= 1 {
                bh
            } else {
                1
            }) - 1,
            Color::Black.nibble(),
        )?;
        let ghost after_line = display.buffer_view();
        // the box shrunk by the margins, kept centered; degenerate boxes
        // are clamped to one pixel as the drawing library does
        let (sx, mw): (i32, i32) = if bw >= 11 {
            (5, bw - 10)
        } else if bw >= 1 {
            ((bw - 1) / 2, 1)
        } else {
            (0, 1)
        };
        let (sy, mh): (i32, i32) = if bh >= 11 {
            (5, bh - 10)
        } else if bh >= 1 {
            ((bh - 1) / 2, 1)
        } else {
            (0, 1)
        };
        let mx: i32 = bb.x + sx;
        let my: i32 = bb.y + sy;
        let margin_bottom: i32 = my + mh - 1;
        let ghost len = self.snapshots().len() as int;
        let mut remaining = self.count;
        let mut i: usize = 0;
        while i < self.tasks.len()
            invariant
                self.wf(),
                i <= self.snapshots().len(),
                remaining == self.total() - i,
                mx == self.spec_bounding_box().x + spec_margin_shift(
                    self.spec_bounding_box().width as int,
                ),
                my == self.spec_bounding_box().y + spec_margin_shift(
                    self.spec_bounding_box().height as int,
                ),
                -20000 < my < 20000,
                -20000 < mx < 20000,
                margin_bottom == my + spec_margin_len(self.spec_bounding_box().height as int) - 1,
                display.wf(),
                display.spec_rotation() == old(display).spec_rotation(),
                len == self.snapshots().len() as int,
                spec_rows_drawn(after_line, self.snapshots(), 0, mx as int, my as int, margin_bottom as int)
                    == spec_rows_drawn(
                    display.buffer_view(),
                    self.snapshots(),
                    i as int,
                    mx as int,
                    my as int,
                    margin_bottom as int,
                ),
                spec_fit_count(len, my as int, margin_bottom as int, 0) == spec_fit_count(
                    len,
                    my as int,
                    margin_bottom as int,
                    i as int,
                ),
                line_drawn(
                    old(display).buffer_view(),
                    self.spec_bounding_box().x + 55,
                    self.spec_bounding_box().y as int,
                    self.spec_bounding_box().x + 55,
                    self.spec_bounding_box().y + spec_len1(self.spec_bounding_box().height as int)
                        - 1,
                    Color::Black.spec_nibble(),
                ) == Some(after_line),
            ensures
                self.wf(),
                i <= self.snapshots().len(),
                remaining == self.total() - i,
                line_drawn(
                    old(display).buffer_view(),
                    self.spec_bounding_box().x + 55,
                    self.spec_bounding_box().y as int,
                    self.spec_bounding_box().x + 55,
                    self.spec_bounding_box().y + spec_len1(self.spec_bounding_box().height as int)
                        - 1,
                    Color::Black.spec_nibble(),
                ) == Some(after_line),
                mx == self.spec_bounding_box().x + spec_margin_shift(
                    self.spec_bounding_box().width as int,
                ),
                my == self.spec_bounding_box().y + spec_margin_shift(
                    self.spec_bounding_box().height as int,
                ),
                margin_bottom == my + spec_margin_len(self.spec_bounding_box().height as int) - 1,
                len == self.snapshots().len() as int,
                display.wf(),
                display.spec_rotation() == old(display).spec_rotation(),
                i as int == len || !spec_row_fits(my as int, margin_bottom as int, i as int),
                spec_rows_drawn(after_line, self.snapshots(), 0, mx as int, my as int, margin_bottom as int)
                    == spec_rows_drawn(
                    display.buffer_view(),
                    self.snapshots(),
                    i as int,
                    mx as int,
                    my as int,
                    margin_bottom as int,
                ),
                spec_fit_count(len, my as int, margin_bottom as int, 0) == spec_fit_count(
                    len,
                    my as int,
                    margin_bottom as int,
                    i as int,
                ),
            decreases self.snapshots().len() - i,
        {
            let ty: i32 = my + (i as i32) * 40;
            // tasks that would cross the bottom margin are not drawn
            if ty + 39 > margin_bottom {
                break ;
            }
            let ghost pre_row = display.buffer_view();
            let result = render_row(display, &self.tasks[i], mx, ty);
            proof {
                assert(spec_rows_drawn(
                    pre_row,
                    self.snapshots(),
                    i as int,
                    mx as int,
                    my as int,
                    margin_bottom as int,
                ) == match spec_row_drawn(pre_row, self.snapshots()[i as int], mx as int, ty as int) {
                    None => None,
                    Some(b) => spec_rows_drawn(
                        b,
                        self.snapshots(),
                        i as int + 1,
                        mx as int,
                        my as int,
                        margin_bottom as int,
                    ),
                });
            }
            if let Err(e) = result {
                proof {
                    assert(self.rendered(old(display).buffer_view()) is None);
                }
                return Err(e);
            }
            remaining = remaining - 1;
            i = i + 1;
        }
        proof {
            assert(spec_fit_count(len, my as int, margin_bottom as int, i as int) == i as int);
            assert(spec_rows_drawn(
                display.buffer_view(),
                self.snapshots(),
                i as int,
                mx as int,
                my as int,
                margin_bottom as int,
            ) == Some(display.buffer_view()));
        }
        if remaining > 0 {
            let mut message = String::from_str("+ ");
            message.append(string_from_chars(crate::schedule::format_u64(remaining as u64)).as_str());
            message.append(" more...");
            proof {
                assert(message@ == spec_more_text(remaining as int));
            }
            draw::text_info_bottom_center(
                display,
                message.as_str(),
                mx + (mw - 1) / 2,
                margin_bottom - 5,
                Color::Black.nibble(),
            )?;
        }
        Ok(())
    }
}

} // verus!
