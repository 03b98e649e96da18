//! What the screen shows, apart from drawing it: colours, status marks, which filter
//! button is lit, how cards fall into rows, and where the command palette sits.
use vstd::prelude::*;

use crate::models::RecordStatus;
use crate::state::rows_of_three;
use crate::text::{lowercase_text, lowercased, same_text};
use vstd::view::View as _;

verus! {

/// The terminal colours that the screens use.
#[derive(Debug, Clone, Copy, PartialEq, Eq, Structural)]
pub enum Color {
    Black,
    White,
    Gray,
    DarkGray,
    Red,
    LightRed,
    Green,
    Yellow,
    Blue,
    Magenta,
    Cyan,
}

/// The colour that a colour name selects, in lower or upper case; white for any
/// other name.
pub open spec fn color_named(name: Seq<char>) -> Color {
    if name == "cyan"@ || name == "CYAN"@ {
        Color::Cyan
    } else if name == "purple"@ || name == "PURPLE"@ {
        Color::Magenta
    } else if name == "green"@ || name == "GREEN"@ {
        Color::Green
    } else if name == "amber"@ || name == "AMBER"@ {
        Color::Yellow
    } else if name == "blue"@ || name == "BLUE"@ {
        Color::Blue
    } else if name == "teal"@ || name == "TEAL"@ {
        Color::Cyan
    } else if name == "rose"@ || name == "ROSE"@ {
        Color::LightRed
    } else if name == "stone"@ || name == "STONE"@ {
        Color::Gray
    } else {
        Color::White
    }
}

/// Convert a colour name to a colour.
pub fn color_from_string(color: &str) -> (r: Color)
    ensures
        r == color_named(color@),
{
    if same_text(color, "cyan") || same_text(color, "CYAN") {
        Color::Cyan
    } else if same_text(color, "purple") || same_text(color, "PURPLE") {
        Color::Magenta
    } else if same_text(color, "green") || same_text(color, "GREEN") {
        Color::Green
    } else if same_text(color, "amber") || same_text(color, "AMBER") {
        Color::Yellow
    } else if same_text(color, "blue") || same_text(color, "BLUE") {
        Color::Blue
    } else if same_text(color, "teal") || same_text(color, "TEAL") {
        Color::Cyan
    } else if same_text(color, "rose") || same_text(color, "ROSE") {
        Color::LightRed
    } else if same_text(color, "stone") || same_text(color, "STONE") {
        Color::Gray
    } else {
        Color::White
    }
}

/// The colour of the sanctuary's overall status line: red when unstable, yellow on
/// caution, green otherwise.
pub fn meta_status_color(status: &str) -> (r: Color)
    ensures
        r == (if status@ == "UNSTABLE"@ {
            Color::Red
        } else if status@ == "CAUTION"@ {
            Color::Yellow
        } else {
            Color::Green
        }),
{
    if same_text(status, "UNSTABLE") {
        Color::Red
    } else if same_text(status, "CAUTION") {
        Color::Yellow
    } else {
        Color::Green
    }
}

/// The colour in which a record of the given status is listed.
pub open spec fn status_color(status: RecordStatus) -> Color {
    match status {
        RecordStatus::Operational => Color::Green,
        RecordStatus::Caution => Color::Yellow,
        RecordStatus::Degraded => Color::Magenta,
        RecordStatus::Critical => Color::Red,
    }
}

/// The colour in which a record of the given status is listed.
pub fn record_status_color(status: RecordStatus) -> (r: Color)
    ensures
        r == status_color(status),
{
    match status {
        RecordStatus::Operational => Color::Green,
        RecordStatus::Caution => Color::Yellow,
        RecordStatus::Degraded => Color::Magenta,
        RecordStatus::Critical => Color::Red,
    }
}

/// The mark shown before a record of the given status: check mark, warning sign,
/// high-voltage sign or cross.
pub open spec fn status_mark(status: RecordStatus) -> char {
    match status {
        RecordStatus::Operational => '\u{2713}',
        RecordStatus::Caution => '\u{26a0}',
        RecordStatus::Degraded => '\u{26a1}',
        RecordStatus::Critical => '\u{2717}',
    }
}

/// The mark shown before a record of the given status.
pub fn record_status_symbol(status: RecordStatus) -> (r: char)
    ensures
        r == status_mark(status),
{
    match status {
        RecordStatus::Operational => '\u{2713}',
        RecordStatus::Caution => '\u{26a0}',
        RecordStatus::Degraded => '\u{26a1}',
        RecordStatus::Critical => '\u{2717}',
    }
}

/// The labels of the colour filter buttons, left to right.
pub fn filter_labels() -> (r: Vec<&'static str>)
    ensures
        r@.len() == 7,
        r@[0]@ == "CYAN"@,
        r@[1]@ == "PURPLE"@,
        r@[2]@ == "GREEN"@,
        r@[3]@ == "AMBER"@,
        r@[4]@ == "BLUE"@,
        r@[5]@ == "TEAL"@,
        r@[6]@ == "ROSE"@,
{
    vec!["CYAN", "PURPLE", "GREEN", "AMBER", "BLUE", "TEAL", "ROSE"]
}

/// Whether the filter button `label` is lit: the active filter is the label in
/// lower case.
pub fn filter_button_active(active_filter: &Option<String>, label: &str) -> (r: bool)
    ensures
        r == (active_filter matches Some(c) && c@ == lowercased(label@)),
{
    let lower = lowercase_text(label);
    filter_is(active_filter, lower.as_str())
}

/// Whether the active filter is exactly `color`.
pub fn filter_is(active_filter: &Option<String>, color: &str) -> (r: bool)
    ensures
        r == (active_filter matches Some(c) && c@ == color@),
{
    match active_filter {
        Some(c) => same_text(c.as_str(), color),
        None => false,
    }
}

/// The rows of the card grid: the given section indices three to a row, in order;
/// the last row holds what is left.
pub open spec fn card_row(f: Seq<usize>, row: int) -> Seq<usize> {
    if 3 * row + 3 <= f.len() {
        f.subrange(3 * row, 3 * row + 3)
    } else {
        f.subrange(3 * row, f.len() as int)
    }
}

/// Split the filtered section indices into rows of three.
pub fn card_rows(filtered: &Vec<usize>) -> (r: Vec<Vec<usize>>)
    ensures
        r@.len() == rows_of_three(filtered@.len() as int),
        forall|row: int| 0 <= row < r@.len() ==> (#[trigger] r@[row])@ == card_row(filtered@, row),
{
    let n = filtered.len();
    let mut rows: Vec<Vec<usize>> = Vec::new();
    let mut start: usize = 0;
    while start < n
        invariant
            n == filtered@.len(),
            start <= n,
            start == n || start == 3 * rows@.len(),
            rows@.len() == rows_of_three(start as int),
            forall|row: int| 0 <= row < rows@.len() ==> (#[trigger] rows@[row])@ == card_row(filtered@, row),
        decreases n - start,
    {
        let end = if n - start >= 3 { start + 3 } else { n };
        let mut row: Vec<usize> = Vec::new();
        let mut i = start;
        while i < end
            invariant
                start <= i <= end <= n,
                n == filtered@.len(),
                row@ == filtered@.subrange(start as int, i as int),
            decreases end - i,
        {
            row.push(filtered[i]);
            i = i + 1;
        }
        let ghost k = rows@.len() as int;
        rows.push(row);
        assert(rows@[k]@ == card_row(filtered@, k));
        start = end;
    }
    rows
}

/// The offset that centres `size` cells in `total`, or 0 when they do not fit.
pub open spec fn centred(total: int, size: int) -> int {
    if total >= size {
        (total - size) / 2
    } else {
        0
    }
}

/// Where the command palette, 60 by 5 cells, sits on a screen of the given size:
/// centred, or at the edge when the screen is smaller.
pub fn palette_origin(width: u16, height: u16) -> (r: (u16, u16))
    ensures
        r.0 == (if width >= 60 { (width - 60) / 2 } else { 0 }),
        r.1 == (if height >= 5 { (height - 5) / 2 } else { 0 }),
        r.0 == centred(width as int, 60),
        r.1 == centred(height as int, 5),
{
    let x = if width >= 60 { (width - 60) / 2 } else { 0 };
    let y = if height >= 5 { (height - 5) / 2 } else { 0 };
    (x, y)
}

} // verus!
