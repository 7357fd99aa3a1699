use vstd::prelude::*;

use crate::color::Color;
use vstd::string::StringExecFns;

use crate::text::{str_eq, string_from_chars};

verus! {

/// Instants this far from the epoch (about three hundred thousand years)
/// are beyond the range the date library can produce.
pub const EPOCH_BOUND: i64 = 10_000_000_000_000;

/// The largest number of seconds a task duration can denote: the largest
/// amount, taken in days.
pub const MAX_DURATION_SECONDS: i64 = 86400 * 4294967295;

/// A calendar date as plain fields, the model of a parsed due date.
#[derive(Clone, Copy, Debug, PartialEq, Eq, Structural)]
pub struct DateParts {
    pub year: i32,
    pub month: u8,
    pub day: u8,
}

impl DateParts {
    /// Field ranges as the date library guarantees them.
    pub open spec fn valid(self) -> bool {
        1 <= self.month <= 12 && 1 <= self.day <= 31
    }
}

/// A wall-clock instant as plain fields: the position on the time line in
/// seconds since the epoch, beside the local calendar fields used for
/// display.
#[derive(Clone, Copy, Debug, PartialEq, Eq, Structural)]
pub struct DateTimeParts {
    pub epoch: i64,
    pub year: i32,
    pub month: u8,
    pub day: u8,
    pub hour: u8,
    pub minute: u8,
}

impl DateTimeParts {
    /// Field ranges as the date library guarantees them.
    pub open spec fn valid(self) -> bool {
        &&& 1 <= self.month <= 12
        &&& 1 <= self.day <= 31
        &&& self.hour < 24
        &&& self.minute < 60
        &&& -EPOCH_BOUND < self.epoch < EPOCH_BOUND
    }

    /// The calendar date of this instant.
    pub open spec fn spec_date(self) -> DateParts {
        DateParts { year: self.year, month: self.month, day: self.day }
    }

    /// Extracts the calendar date of this instant.
    pub fn date(&self) -> (r: DateParts)
        ensures
            r == self.spec_date(),
    {
        DateParts { year: self.year, month: self.month, day: self.day }
    }
}

/// A raw due specification as the task source hands it over: a calendar
/// date, optionally refined by a datetime and its originating timezone.
#[derive(Clone, Debug)]
pub struct TaskDue {
    pub date: String,
    pub datetime: Option<String>,
    pub timezone: Option<String>,
}

/// A task duration as the task source hands it over: an amount of
/// minutes or days.
#[derive(Clone, Debug)]
pub struct TaskDuration {
    pub amount: u32,
    pub unit: String,
}

/// The derived, time-relative classification of a due specification.
/// Exactly one variant holds at an evaluation instant; it is never
/// stored, only recomputed.
#[derive(Clone, Copy, Debug, PartialEq, Eq, Structural)]
pub enum TaskDueState {
    Unknown,
    PastDate(DateParts),
    NowDate,
    FutureDate(DateParts),
    PastTime(DateTimeParts),
    NowTime,
    FutureTime(DateTimeParts),
}

impl TaskDueState {
    /// Carried fields lie in the ranges the date library guarantees.
    pub open spec fn wf(self) -> bool {
        match self {
            TaskDueState::PastDate(d) => d.valid(),
            TaskDueState::FutureDate(d) => d.valid(),
            TaskDueState::PastTime(p) => p.valid(),
            TaskDueState::FutureTime(p) => p.valid(),
            _ => true,
        }
    }
}

/// Seconds a duration adds to a datetime: minutes count sixty seconds,
/// days a fixed day of 86400 seconds, anything else nothing.
pub open spec fn spec_duration_seconds(d: TaskDuration) -> i64 {
    if d.unit@ == "minute"@ {
        ((d.amount as i64) * 60) as i64
    } else if d.unit@ == "day"@ {
        ((d.amount as i64) * 86400) as i64
    } else {
        0
    }
}

/// Seconds an optional duration adds; absence adds nothing.
pub open spec fn spec_opt_duration_seconds(d: Option<TaskDuration>) -> i64 {
    match d {
        Some(dur) => spec_duration_seconds(dur),
        None => 0,
    }
}

impl TaskDuration {
    /// Converts the duration to seconds on the time line.
    pub fn seconds(&self) -> (r: i64)
        ensures
            r == spec_duration_seconds(*self),
            0 <= r <= MAX_DURATION_SECONDS,
    {
        proof {
            assert((4294967295i64) * 86400 == MAX_DURATION_SECONDS) by (nonlinear_arith);
            assert((self.amount as i64) * 60 <= (4294967295i64) * 60 && 0 <= (self.amount as i64)
                * 60) by (nonlinear_arith)
                requires
                    0 <= self.amount <= 4294967295,
            ;
            assert((self.amount as i64) * 86400 <= (4294967295i64) * 86400 && 0 <= (
            self.amount as i64) * 86400) by (nonlinear_arith)
                requires
                    0 <= self.amount <= 4294967295,
            ;
            assert((4294967295i64) * 60 <= (4294967295i64) * 86400) by (nonlinear_arith);
        }
        if str_eq(self.unit.as_str(), "minute") {
            (self.amount as i64) * 60
        } else if str_eq(self.unit.as_str(), "day") {
            (self.amount as i64) * 86400
        } else {
            0
        }
    }
}

/// Lexicographic order of two calendar dates by year, month and day.
pub open spec fn spec_date_before(a: DateParts, b: DateParts) -> bool {
    ||| a.year < b.year
    ||| (a.year == b.year && a.month < b.month)
    ||| (a.year == b.year && a.month == b.month && a.day < b.day)
}

/// Classification of a date-only due against today's date: strictly
/// earlier dates are past, today's date is current, later dates are
/// future.
pub open spec fn spec_classify_date(d: DateParts, today: DateParts) -> TaskDueState {
    if spec_date_before(d, today) {
        TaskDueState::PastDate(d)
    } else if d == today {
        TaskDueState::NowDate
    } else {
        TaskDueState::FutureDate(d)
    }
}

/// Classification of a datetime-qualified due against the current
/// instant: past once the effective end `datetime + duration` lies before
/// now, current while the window is open, future before it opens.
pub open spec fn spec_classify_time(p: DateTimeParts, dur: i64, now_epoch: i64) -> TaskDueState {
    if p.epoch + dur < now_epoch {
        TaskDueState::PastTime(p)
    } else if p.epoch < now_epoch {
        TaskDueState::NowTime
    } else {
        TaskDueState::FutureTime(p)
    }
}

/// What the date-only path yields for a parse result: an unparseable
/// date is Unknown.
pub open spec fn spec_date_path(parsed: Option<(i32, u8, u8)>, today: DateParts) -> TaskDueState {
    match parsed {
        Some((y, m, d)) => spec_classify_date(DateParts { year: y, month: m, day: d }, today),
        None => TaskDueState::Unknown,
    }
}

/// Compares two calendar dates.
pub fn date_before(a: &DateParts, b: &DateParts) -> (r: bool)
    ensures
        r == spec_date_before(*a, *b),
{
    if a.year != b.year {
        a.year < b.year
    } else if a.month != b.month {
        a.month < b.month
    } else {
        a.day < b.day
    }
}

/// Classifies a date-only due against today's date.
pub fn classify_date(d: &DateParts, today: &DateParts) -> (r: TaskDueState)
    ensures
        r == spec_classify_date(*d, *today),
{
    if date_before(d, today) {
        TaskDueState::PastDate(*d)
    } else if d.year == today.year && d.month == today.month && d.day == today.day {
        TaskDueState::NowDate
    } else {
        TaskDueState::FutureDate(*d)
    }
}

/// Classifies a datetime-qualified due against the current instant.
pub fn classify_time(p: &DateTimeParts, dur: i64, now_epoch: i64) -> (r: TaskDueState)
    requires
        p.valid(),
        0 <= dur <= MAX_DURATION_SECONDS,
    ensures
        r == spec_classify_time(*p, dur, now_epoch),
{
    if p.epoch + dur < now_epoch {
        TaskDueState::PastTime(*p)
    } else if p.epoch < now_epoch {
        TaskDueState::NowTime
    } else {
        TaskDueState::FutureTime(*p)
    }
}

/// The window law of the time classification: with a due datetime `d` and
/// duration, the state is past exactly when now lies after the effective
/// end, current exactly when now lies inside the window, and future
/// exactly when the window has not opened. At the opening instant itself
/// (`now` equal to the due datetime) the window counts as not yet open,
/// so that instant is left out.
pub proof fn lemma_time_window(p: DateTimeParts, dur: i64, now_epoch: i64)
    requires
        0 <= dur,
        p.valid(),
        now_epoch != p.epoch,
    ensures
        (spec_classify_time(p, dur, now_epoch) == TaskDueState::PastTime(p)) <==> now_epoch
            > p.epoch + dur,
        (spec_classify_time(p, dur, now_epoch) == TaskDueState::NowTime) <==> (p.epoch <= now_epoch
            <= p.epoch + dur),
        (spec_classify_time(p, dur, now_epoch) == TaskDueState::FutureTime(p)) <==> now_epoch
            < p.epoch,
{
}

/// What a text parses to as a calendar date, as the date library reads a
/// year-month-day form; `None` where it is rejected.
pub uninterp spec fn date_parts_of(s: Seq<char>) -> Option<(i32, u8, u8)>;

/// What a text parses to as a local-naive datetime, as the date library
/// reads a year-month-day, letter T, hour-minute-second form: year,
/// month, day, hour and minute; `None` where it is rejected.
pub uninterp spec fn naive_fields_of(s: Seq<char>) -> Option<(i32, u8, u8, u8, u8)>;

/// Whether a text parses as an offset-qualified datetime under the
/// internet date-time grammar.
pub uninterp spec fn rfc3339_parses(s: Seq<char>) -> bool;

/// The instant on the time line an offset-qualified datetime text
/// denotes, in seconds since the epoch: absolute, so a function of the
/// text alone, unlike the local calendar fields derived from it.
pub uninterp spec fn rfc3339_epoch_of(s: Seq<char>) -> i64;

/// Relies on `chrono::NaiveDate::parse_from_str` with the `%Y-%m-%d`
/// format: the result is a function of the text alone; on success the
/// month lies in 1..=12 and the day in 1..=31, as `Datelike` documents.
#[verifier::external_body]
fn parse_due_date(s: &str) -> (r: Option<DateParts>)
    ensures
        match date_parts_of(s@) {
            Some((y, m, d)) => r == Some(DateParts { year: y, month: m, day: d }),
            None => r is None,
        },
        match r {
            Some(d) => d.valid(),
            None => true,
        },
{
    let d = chrono::NaiveDate::parse_from_str(s, "%Y-%m-%d").ok()?;
    let (year, month) = (chrono::Datelike::year(&d), chrono::Datelike::month(&d) as u8);
    let day = chrono::Datelike::day(&d) as u8;
    Some(DateParts { year, month, day })
}

/// Relies on `chrono::NaiveDateTime::parse_from_str` with the
/// `%Y-%m-%dT%H:%M:%S` format, `and_local_timezone(chrono::Local)` and
/// `timestamp`: the parsed calendar fields are a function of the text
/// alone, while the epoch instant depends on the host's timezone, so only
/// its bounds are stated. `None` comes from a rejected text or from a
/// local time that does not exist uniquely (a daylight-saving gap or
/// fold).
#[verifier::external_body]
fn parse_naive_local(s: &str) -> (r: Option<DateTimeParts>)
    ensures
        naive_fields_of(s@) is None ==> r is None,
        match r {
            Some(p) => naive_fields_of(s@) == Some((p.year, p.month, p.day, p.hour, p.minute))
                && p.valid(),
            None => true,
        },
{
    let dt = chrono::NaiveDateTime::parse_from_str(s, "%Y-%m-%dT%H:%M:%S").ok()?;
    let local = dt.and_local_timezone(chrono::Local).single()?;
    let epoch = local.timestamp();
    let (year, month) = (chrono::Datelike::year(&dt), chrono::Datelike::month(&dt) as u8);
    let (day, hour) = (chrono::Datelike::day(&dt) as u8, chrono::Timelike::hour(&dt) as u8);
    let minute = chrono::Timelike::minute(&dt) as u8;
    Some(DateTimeParts { epoch, year, month, day, hour, minute })
}

/// Relies on `chrono::DateTime::parse_from_rfc3339`,
/// `with_timezone(&chrono::Local)` and `timestamp`: whether the text
/// parses, and the instant it denotes, are functions of the text alone
/// (`timestamp` does not depend on the timezone the value is viewed in);
/// the local calendar fields do depend on the host's timezone, so only
/// their documented ranges are stated.
#[verifier::external_body]
fn parse_rfc3339_local(s: &str) -> (r: Option<DateTimeParts>)
    ensures
        r is Some <==> rfc3339_parses(s@),
        match r {
            Some(p) => p.valid() && p.epoch == rfc3339_epoch_of(s@),
            None => true,
        },
{
    let dt = chrono::DateTime::<chrono::FixedOffset>::parse_from_rfc3339(s).ok()?;
    let local = dt.with_timezone(&chrono::Local);
    let epoch = local.timestamp();
    let (year, month) = (chrono::Datelike::year(&local), chrono::Datelike::month(&local) as u8);
    let (day, hour) = (chrono::Datelike::day(&local) as u8, chrono::Timelike::hour(&local) as u8);
    let minute = chrono::Timelike::minute(&local) as u8;
    Some(DateTimeParts { epoch, year, month, day, hour, minute })
}

/// Whether a datetime text is offset-qualified: it ends in the zulu
/// marker.
pub open spec fn spec_ends_in_z(s: Seq<char>) -> bool {
    s.len() > 0 && s[s.len() - 1] == 'Z'
}

/// What deriving the display state of a due specification promises: with
/// no parseable datetime the result is the date-only classification;
/// with an offset-qualified datetime it is the time classification at
/// exactly the instant the text denotes (only the carried calendar
/// fields depend on the host's timezone); with a local-naive datetime
/// the instant depends on the host's timezone while the carried fields
/// are the parsed ones, and the date-only path serves as fallback when
/// the local time does not exist uniquely.
pub open spec fn spec_state_post(due: TaskDue, dur: i64, now: DateTimeParts, r: TaskDueState) -> bool {
    let today = DateParts { year: now.year, month: now.month, day: now.day };
    let dpath = spec_date_path(date_parts_of(due.date@), today);
    match due.datetime {
        None => r == dpath,
        Some(dt) => {
            if spec_ends_in_z(dt@) {
                &&& (!rfc3339_parses(dt@) ==> r == dpath)
                &&& (rfc3339_parses(dt@) ==> exists|p: DateTimeParts|
                    {
                        &&& p.valid()
                        &&& p.epoch == rfc3339_epoch_of(dt@)
                        &&& r == #[trigger] spec_classify_time(p, dur, now.epoch)
                    })
            } else {
                &&& (naive_fields_of(dt@) is None ==> r == dpath)
                &&& (naive_fields_of(dt@) is Some ==> (r == dpath || exists|p: DateTimeParts|
                    {
                        &&& p.valid()
                        &&& naive_fields_of(dt@) == Some((p.year, p.month, p.day, p.hour, p.minute))
                        &&& r == #[trigger] spec_classify_time(p, dur, now.epoch)
                    }))
            }
        },
    }
}

/// Checks for the zulu marker at the end of a datetime text.
fn ends_in_z(s: &str) -> (r: bool)
    ensures
        r == spec_ends_in_z(s@),
{
    let n = vstd::string::StrSliceExecFns::unicode_len(s);
    if n == 0 {
        false
    } else {
        vstd::string::StrSliceExecFns::get_char(s, n - 1) == 'Z'
    }
}

impl TaskDue {
    /// Derives the display state of this due specification at the given
    /// instant. A datetime component is parsed as an offset-qualified
    /// instant when it carries the zulu marker and as a local-naive
    /// timestamp otherwise; a datetime that does not parse degrades to
    /// the date-only path, and a date that does not parse yields Unknown.
    ///
    /// The instant on the time line that a parsed datetime denotes
    /// depends on the host's timezone, so for a parseable datetime the
    /// contract fixes the result to the time classification of some
    /// in-range instant rather than of one particular instant.
    pub fn state(&self, duration: Option<&TaskDuration>, now: &DateTimeParts) -> (r: TaskDueState)
        requires
            now.valid(),
        ensures
            r.wf(),
            spec_state_post(
                *self,
                match duration {
                    Some(d) => spec_duration_seconds(*d),
                    None => 0,
                },
                *now,
                r,
            ),
    {
        let dur: i64 = match duration {
            Some(d) => d.seconds(),
            None => 0,
        };
        if let Some(dt) = &self.datetime {
            let parsed = if ends_in_z(dt.as_str()) {
                parse_rfc3339_local(dt.as_str())
            } else {
                parse_naive_local(dt.as_str())
            };
            if let Some(p) = parsed {
                let r = classify_time(&p, dur, now.epoch);
                proof {
                    assert(p.valid() && r == spec_classify_time(p, dur, now.epoch));
                    assert(spec_state_post(*self, dur, *now, r));
                }
                return r;
            }
        }
        let today = now.date();
        match parse_due_date(self.date.as_str()) {
            Some(d) => classify_date(&d, &today),
            None => TaskDueState::Unknown,
        }
    }
}

/// The character of a decimal digit.
pub open spec fn spec_digit(d: int) -> char {
    if d == 0 {
        '0'
    } else if d == 1 {
        '1'
    } else if d == 2 {
        '2'
    } else if d == 3 {
        '3'
    } else if d == 4 {
        '4'
    } else if d == 5 {
        '5'
    } else if d == 6 {
        '6'
    } else if d == 7 {
        '7'
    } else if d == 8 {
        '8'
    } else {
        '9'
    }
}

/// Writes one decimal digit.
fn digit(d: u8) -> (r: char)
    requires
        d < 10,
    ensures
        r == spec_digit(d as int),
{
    if d == 0 {
        '0'
    } else if d == 1 {
        '1'
    } else if d == 2 {
        '2'
    } else if d == 3 {
        '3'
    } else if d == 4 {
        '4'
    } else if d == 5 {
        '5'
    } else if d == 6 {
        '6'
    } else if d == 7 {
        '7'
    } else if d == 8 {
        '8'
    } else {
        '9'
    }
}

/// The decimal digits of a non-negative number, most significant first.
pub open spec fn spec_digits(n: int) -> Seq<char>
    decreases n,
    when n >= 0
{
    if n < 10 {
        seq![spec_digit(n)]
    } else {
        spec_digits(n / 10).push(spec_digit(n % 10))
    }
}

/// Writes a number in decimal.
pub fn format_u64(n: u64) -> (r: Vec<char>)
    ensures
        r@ == spec_digits(n as int),
    decreases n,
{
    if n < 10 {
        let mut v: Vec<char> = Vec::new();
        v.push(digit(n as u8));
        proof {
            assert(v@ =~= seq![spec_digit(n as int)]);
        }
        v
    } else {
        let mut v = format_u64(n / 10);
        v.push(digit((n % 10) as u8));
        v
    }
}

/// A number below one hundred as exactly two digits, zero padded.
pub open spec fn spec_two_digits(n: int) -> Seq<char> {
    seq![spec_digit(n / 10), spec_digit(n % 10)]
}

/// Appends a zero-padded two-digit number.
fn push_two_digits(out: &mut Vec<char>, n: u8)
    requires
        n < 100,
    ensures
        final(out)@ == old(out)@ + spec_two_digits(n as int),
{
    out.push(digit(n / 10));
    out.push(digit(n % 10));
    proof {
        assert(out@ =~= old(out)@ + spec_two_digits(n as int));
    }
}

/// A date shown as day slash month, both zero padded.
pub open spec fn spec_day_month(d: DateParts) -> Seq<char> {
    spec_two_digits(d.day as int) + seq!['/'] + spec_two_digits(d.month as int)
}

/// A time of day shown as hour colon minute, both zero padded.
pub open spec fn spec_hour_minute(p: DateTimeParts) -> Seq<char> {
    spec_two_digits(p.hour as int) + seq![':'] + spec_two_digits(p.minute as int)
}

/// The display label of a due state: a bare to-do marker for Unknown,
/// fixed words for the current date and the open time window, the time of
/// day for a datetime falling on today, and day slash month otherwise.
pub open spec fn spec_label(state: TaskDueState, today: DateParts) -> Seq<char> {
    match state {
        TaskDueState::Unknown => "todo"@,
        TaskDueState::PastDate(d) => spec_day_month(d),
        TaskDueState::NowDate => "today"@,
        TaskDueState::FutureDate(d) => spec_day_month(d),
        TaskDueState::PastTime(p) => if p.spec_date() == today {
            spec_hour_minute(p)
        } else {
            spec_day_month(p.spec_date())
        },
        TaskDueState::NowTime => "now"@,
        TaskDueState::FutureTime(p) => if p.spec_date() == today {
            spec_hour_minute(p)
        } else {
            spec_day_month(p.spec_date())
        },
    }
}

/// The display color of a due state: the open time window is shown in
/// the positive accent, anything past in the negative accent, everything
/// else in the neutral foreground.
pub open spec fn spec_state_color(state: TaskDueState) -> Color {
    match state {
        TaskDueState::NowTime => Color::Green,
        TaskDueState::PastDate(_) => Color::Red,
        TaskDueState::PastTime(_) => Color::Red,
        _ => Color::Black,
    }
}

/// The marker color of a task: completion shows the positive accent;
/// otherwise the priority ordinal picks the color, rising from plain to
/// the negative accent.
pub open spec fn spec_marker_color(completed: bool, priority: u8) -> Color {
    if completed {
        Color::Green
    } else if priority == 1 {
        Color::White
    } else if priority == 2 {
        Color::Blue
    } else if priority == 3 {
        Color::Orange
    } else if priority == 4 {
        Color::Red
    } else {
        Color::Black
    }
}

/// Picks the marker color for a task's completion flag and priority.
pub fn marker_color(completed: bool, priority: u8) -> (r: Color)
    ensures
        r == spec_marker_color(completed, priority),
{
    if completed {
        Color::Green
    } else if priority == 1 {
        Color::White
    } else if priority == 2 {
        Color::Blue
    } else if priority == 3 {
        Color::Orange
    } else if priority == 4 {
        Color::Red
    } else {
        Color::Black
    }
}

/// Writes a day slash month date label.
pub fn day_month_chars(d: &DateParts) -> (r: Vec<char>)
    requires
        d.valid(),
    ensures
        r@ == spec_day_month(*d),
{
    let mut v: Vec<char> = Vec::new();
    push_two_digits(&mut v, d.day);
    v.push('/');
    push_two_digits(&mut v, d.month);
    proof {
        assert(v@ =~= spec_day_month(*d));
    }
    v
}

/// Writes an hour colon minute label.
pub fn hour_minute_chars(p: &DateTimeParts) -> (r: Vec<char>)
    requires
        p.valid(),
    ensures
        r@ == spec_hour_minute(*p),
{
    let mut v: Vec<char> = Vec::new();
    push_two_digits(&mut v, p.hour);
    v.push(':');
    push_two_digits(&mut v, p.minute);
    proof {
        assert(v@ =~= spec_hour_minute(*p));
    }
    v
}

impl TaskDueState {
    /// Writes the display label of this state, against today's date.
    pub fn label(&self, today: &DateParts) -> (r: String)
        requires
            self.wf(),
        ensures
            r@ == spec_label(*self, *today),
    {
        match self {
            TaskDueState::Unknown => String::from_str("todo"),
            TaskDueState::NowDate => String::from_str("today"),
            TaskDueState::NowTime => String::from_str("now"),
            TaskDueState::PastDate(d) => string_from_chars(day_month_chars(d)),
            TaskDueState::FutureDate(d) => string_from_chars(day_month_chars(d)),
            TaskDueState::PastTime(p) => string_from_chars(Self::time_label(p, today)),
            TaskDueState::FutureTime(p) => string_from_chars(Self::time_label(p, today)),
        }
    }

    /// Writes the label of a datetime: its time of day when it falls on
    /// today, its date otherwise.
    fn time_label(p: &DateTimeParts, today: &DateParts) -> (r: Vec<char>)
        requires
            p.valid(),
        ensures
            r@ == if p.spec_date() == *today {
                spec_hour_minute(*p)
            } else {
                spec_day_month(p.spec_date())
            },
    {
        let d = p.date();
        if d.year == today.year && d.month == today.month && d.day == today.day {
            hour_minute_chars(p)
        } else {
            day_month_chars(&d)
        }
    }
}

/// The display label of a duration: the amount in decimal, with minutes
/// and days shortened to one letter and any other unit kept as it came.
pub open spec fn spec_duration_label(d: TaskDuration) -> Seq<char> {
    spec_digits(d.amount as int) + (if d.unit@ == "minute"@ {
        "m"@
    } else if d.unit@ == "day"@ {
        "d"@
    } else {
        d.unit@
    })
}

impl TaskDuration {
    /// Writes the display label of this duration.
    pub fn label(&self) -> (r: String)
        ensures
            r@ == spec_duration_label(*self),
    {
        let mut out = string_from_chars(format_u64(self.amount as u64));
        if str_eq(self.unit.as_str(), "minute") {
            out.append("m");
        } else if str_eq(self.unit.as_str(), "day") {
            out.append("d");
        } else {
            out.append(self.unit.as_str());
        }
        out
    }
}

/// What the date library formats a real calendar date as in its long
/// form: abbreviated weekday, space-padded day and month name; `None`
/// where the fields make no real date.
pub uninterp spec fn long_date_label_of(y: int, m: int, d: int) -> Option<Seq<char>>;

/// Relies on `chrono::NaiveDate::from_ymd_opt` and `format` with the
/// `%a %e %B` form: the label is a function of the date fields alone, and
/// `None` comes exactly where the fields make no real calendar date.
#[verifier::external_body]
pub fn format_date_long(d: &DateParts) -> (r: Option<String>)
    ensures
        match long_date_label_of(d.year as int, d.month as int, d.day as int) {
            Some(t) => r is Some && r->Some_0@ == t,
            None => r is None,
        },
{
    chrono::NaiveDate::from_ymd_opt(d.year, d.month as u32, d.day as u32).map(
        |nd| format!("{}", nd.format("%a %e %B")),
    )
}

/// A task with no due specification has the Unknown state: its label is
/// the plain to-do marker and its schedule color the neutral foreground.
pub proof fn lemma_unknown_display(today: DateParts)
    ensures
        spec_label(TaskDueState::Unknown, today) == "todo"@,
        spec_state_color(TaskDueState::Unknown) == Color::Black,
{
}

} // verus!
