use crate::time::TimeSpan;
use ratatui::layout::{Constraint, Direction, Layout, Rect};
use vstd::prelude::*;
use vstd::string::*;

verus! {

/// The character that writes the digit `digit`.
pub open spec fn digit_char(digit: nat) -> char {
    ('0' as nat + digit) as char
}

/// `number` in base ten, without leading zeros.
pub open spec fn decimal_text(number: nat) -> Seq<char>
    decreases number,
{
    if number < 10 {
        seq![digit_char(number)]
    } else {
        decimal_text(number / 10).push(digit_char(number % 10))
    }
}

/// A time in words, in the largest unit that it fills once: seconds up to a
/// minute, minutes up to an hour, and hours; what is left over is dropped.
pub open spec fn duration_text(seconds: nat) -> Seq<char> {
    if seconds == 1 {
        "1 second"@
    } else if seconds < 60 {
        decimal_text(seconds) + " seconds"@
    } else if seconds < 120 {
        "1 minute"@
    } else if seconds < 3600 {
        decimal_text(seconds / 60) + " minutes"@
    } else if seconds < 7200 {
        "1 hour"@
    } else {
        decimal_text(seconds / 3600) + " hours"@
    }
}

/// The question of the commit prompt.
pub open spec fn question_text(seconds: nat) -> Seq<char> {
    "ayo! you have uncommitted changes for over "@ + duration_text(seconds)
        + ". Do ya want to commit them?"@
}

fn digit_text(digit: u128) -> (text: &'static str)
    requires
        digit < 10,
    ensures
        text@ == seq![digit_char(digit as nat)],
{
    proof {
        reveal_strlit("0");
        reveal_strlit("1");
        reveal_strlit("2");
        reveal_strlit("3");
        reveal_strlit("4");
        reveal_strlit("5");
        reveal_strlit("6");
        reveal_strlit("7");
        reveal_strlit("8");
        reveal_strlit("9");
    }
    let text = if digit == 0 {
        "0"
    } else if digit == 1 {
        "1"
    } else if digit == 2 {
        "2"
    } else if digit == 3 {
        "3"
    } else if digit == 4 {
        "4"
    } else if digit == 5 {
        "5"
    } else if digit == 6 {
        "6"
    } else if digit == 7 {
        "7"
    } else if digit == 8 {
        "8"
    } else {
        "9"
    };
    assert(text@ =~= seq![digit_char(digit as nat)]);
    text
}

/// Writes `number` in base ten behind what `out` holds.
fn push_decimal(out: &mut String, number: u128)
    ensures
        final(out)@ == old(out)@ + decimal_text(number as nat),
    decreases number,
{
    if number >= 10 {
        push_decimal(out, number / 10);
    }
    out.append(digit_text(number % 10));
    proof {
        if number >= 10 {
            assert(old(out)@ + decimal_text(number as nat / 10) + seq![
                digit_char(number as nat % 10),
            ] =~= old(out)@ + decimal_text(number as nat));
        }
    }
}

/// A time in words, for the commit prompt.
pub fn format_duration(duration: TimeSpan) -> (text: String)
    ensures
        text@ == duration_text(duration.nanos as nat / 1_000_000_000),
{
    let total_seconds = duration.as_secs();
    if total_seconds == 1 {
        "1 second".to_string()
    } else if total_seconds < 60 {
        counted(total_seconds, " seconds")
    } else if total_seconds < 120 {
        "1 minute".to_string()
    } else if total_seconds < 3600 {
        counted(total_seconds / 60, " minutes")
    } else if total_seconds < 7200 {
        "1 hour".to_string()
    } else {
        counted(total_seconds / 3600, " hours")
    }
}

fn counted(number: u128, unit: &str) -> (text: String)
    ensures
        text@ == decimal_text(number as nat) + unit@,
{
    let mut text = String::new();
    push_decimal(&mut text, number);
    text.append(unit);
    assert(Seq::<char>::empty() + decimal_text(number as nat) =~= decimal_text(number as nat));
    text
}

/// The question of the commit prompt, which names the polling interval.
pub fn popup_question(loop_delay: TimeSpan) -> (question: String)
    ensures
        question@ == question_text(loop_delay.nanos as nat / 1_000_000_000),
{
    let mut question = String::new();
    question.append("ayo! you have uncommitted changes for over ");
    let span = format_duration(loop_delay);
    question.append(span.as_str());
    question.append(". Do ya want to commit them?");
    assert(question@ =~= question_text(loop_delay.nanos as nat / 1_000_000_000));
    question
}

/// A rectangle of cells on the screen.
#[derive(Debug, Clone, Copy, PartialEq, Eq, Structural)]
pub struct Area {
    pub x: u16,
    pub y: u16,
    pub width: u16,
    pub height: u16,
}

/// The direction in which an area is cut into parts.
#[derive(Debug, Clone, Copy, PartialEq, Eq, Structural)]
pub enum Axis {
    /// Parts side by side.
    Horizontal,
    /// Parts one below the other.
    Vertical,
}

impl Area {
    /// The first column to the right of the area, no further out than
    /// columns are counted.
    pub open spec fn right(self) -> int {
        if self.x + self.width > u16::MAX {
            u16::MAX as int
        } else {
            self.x + self.width
        }
    }

    /// The first row below the area, no further down than rows are counted.
    pub open spec fn bottom(self) -> int {
        if self.y + self.height > u16::MAX {
            u16::MAX as int
        } else {
            self.y + self.height
        }
    }

    /// Whether `inner` lies within the area.
    pub open spec fn contains(self, inner: Area) -> bool {
        &&& self.x <= inner.x
        &&& inner.x + inner.width <= self.right()
        &&& self.y <= inner.y
        &&& inner.y + inner.height <= self.bottom()
    }

    /// Whether `part` is a stretch of the area along `axis`: as wide as the
    /// area and within its rows, or as high and within its columns.
    pub open spec fn has_part(self, axis: Axis, part: Area) -> bool {
        match axis {
            Axis::Horizontal => {
                &&& part.y == self.y
                &&& part.height == self.height
                &&& self.x <= part.x
                &&& part.x + part.width <= self.right()
            },
            Axis::Vertical => {
                &&& part.x == self.x
                &&& part.width == self.width
                &&& self.y <= part.y
                &&& part.y + part.height <= self.bottom()
            },
        }
    }
}

/// The share, in percent, that is left on either side of a part that takes
/// `percent` of the whole and stands in the middle.
pub fn centering_margin(percent: u16) -> (margin: u16)
    requires
        percent <= 100,
    ensures
        margin == (100 - percent) / 2,
        margin + percent + margin <= 100,
{
    (100 - percent) / 2
}

/// `Layout::split` of ratatui, for a layout without margin in the direction
/// `axis` with three constraints, each a `Constraint::Percentage`. Which
/// cells each part gets is left to ratatui's solver. Claimed is only what
/// holds of every answer: there is one part for each constraint, and each
/// part spans the area across `axis` and lies within it along `axis`.
#[verifier::external_body]
fn split_by_percentages(area: Area, axis: Axis, first: u16, second: u16, third: u16) -> (parts:
    Vec<Area>)
    ensures
        parts@.len() == 3,
        forall|i: int| 0 <= i < 3 ==> area.has_part(axis, #[trigger] parts@[i]),
{
    let direction = match axis {
        Axis::Horizontal => Direction::Horizontal,
        Axis::Vertical => Direction::Vertical,
    };
    let shares = [first, second, third].map(Constraint::Percentage);
    let whole = Rect { x: area.x, y: area.y, width: area.width, height: area.height };
    let parts = Layout::default().direction(direction).constraints(shares).split(whole);
    parts.iter().map(|p| Area { x: p.x, y: p.y, width: p.width, height: p.height }).collect()
}

/// The area of a box in the middle of `r` that takes `percent_x` percent of
/// its width and `percent_y` percent of its height, as the layout engine
/// places it. The box lies within `r`.
pub fn centered_rect(percent_x: u16, percent_y: u16, r: Area) -> (popup: Area)
    requires
        percent_x <= 100,
        percent_y <= 100,
    ensures
        r.contains(popup),
{
    let above = centering_margin(percent_y);
    let rows = split_by_percentages(r, Axis::Vertical, above, percent_y, above);
    let middle = rows[1];
    let beside = centering_margin(percent_x);
    let columns = split_by_percentages(middle, Axis::Horizontal, beside, percent_x, beside);
    columns[1]
}

/// The height of the notification panel: a row for each notification and
/// two for the border. Without notifications there is no panel.
pub fn panel_height(notifications: usize) -> (height: Option<u16>)
    requires
        notifications + 2 <= u16::MAX,
    ensures
        notifications == 0 ==> height is None,
        notifications > 0 ==> height == Some((notifications + 2) as u16),
{
    if notifications == 0 {
        None
    } else {
        Some(notifications as u16 + 2)
    }
}

} // verus!
