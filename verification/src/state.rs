//! Selection and navigation state of the two views, and of the whole application.
use vstd::prelude::*;

use crate::models::{Entry, FieldGuideData, GlitchSanctuaryData, Program, Record, Section};
use crate::models::View;
use crate::text::clear_text;
use vstd::view::View as _;

verus! {

// ----------------------------------------------------------------------------
// Filtering of guide sections by colour
// ----------------------------------------------------------------------------

/// Whether section `i` passes the colour filter: every section passes when there is
/// no filter, and only sections of exactly the filter's colour pass otherwise.
pub open spec fn section_passes(sections: Seq<Section>, filter: Option<String>, i: int) -> bool {
    match filter {
        Some(c) => sections[i].color@ == c@,
        None => true,
    }
}

/// The ascending indices below `n` of the sections that pass the filter.
pub open spec fn matching_below(sections: Seq<Section>, filter: Option<String>, n: nat) -> Seq<usize>
    decreases n,
{
    if n == 0 {
        Seq::empty()
    } else {
        let prev = matching_below(sections, filter, (n - 1) as nat);
        if section_passes(sections, filter, n - 1) {
            prev.push((n - 1) as usize)
        } else {
            prev
        }
    }
}

/// The first index at or after `start` whose section passes the filter.
pub open spec fn first_match_from(sections: Seq<Section>, filter: Option<String>, start: int) -> Option<int>
    decreases sections.len() - start,
{
    if start < 0 || start >= sections.len() {
        None
    } else if section_passes(sections, filter, start) {
        Some(start)
    } else {
        first_match_from(sections, filter, start + 1)
    }
}

/// The last index below `end` whose section passes the filter.
pub open spec fn last_match_before(sections: Seq<Section>, filter: Option<String>, end: int) -> Option<int>
    decreases end,
{
    if end <= 0 || end > sections.len() {
        None
    } else if section_passes(sections, filter, end - 1) {
        Some(end - 1)
    } else {
        last_match_before(sections, filter, end - 1)
    }
}

/// The number of rows of three that `n` cards fill.
pub open spec fn rows_of_three(n: int) -> int {
    (n + 2) / 3
}

/// What `matching_below` holds: exactly the passing indices below `n`, ascending.
pub proof fn lemma_matching_below(sections: Seq<Section>, filter: Option<String>, n: nat)
    requires
        n <= sections.len(),
        sections.len() <= usize::MAX,
    ensures
        matching_below(sections, filter, n).len() <= n,
        forall|k: int|
            0 <= k < matching_below(sections, filter, n).len() ==> {
                let i = #[trigger] matching_below(sections, filter, n)[k];
                &&& (i as int) < n
                &&& section_passes(sections, filter, i as int)
            },
        forall|k1: int, k2: int|
            0 <= k1 < k2 < matching_below(sections, filter, n).len() ==> #[trigger] matching_below(
                sections,
                filter,
                n,
            )[k1] < #[trigger] matching_below(sections, filter, n)[k2],
        forall|i: int|
            0 <= i < n && #[trigger] section_passes(sections, filter, i) ==> exists|k: int|
                0 <= k < matching_below(sections, filter, n).len() && matching_below(
                    sections,
                    filter,
                    n,
                )[k] == i,
    decreases n,
{
    if n > 0 {
        lemma_matching_below(sections, filter, (n - 1) as nat);
        let prev = matching_below(sections, filter, (n - 1) as nat);
        let cur = matching_below(sections, filter, n);
        assert forall|i: int|
            0 <= i < n && #[trigger] section_passes(sections, filter, i) implies exists|k: int|
                0 <= k < cur.len() && cur[k] == i by {
            if i < n - 1 {
                let k = choose|k: int| 0 <= k < prev.len() && prev[k] == i;
                assert(cur[k] == prev[k]);
            } else {
                assert(cur == prev.push((n - 1) as usize));
                assert(cur[cur.len() - 1] == i);
            }
        }
    }
}

/// What `first_match_from` finds: the least passing index at or after `start`.
pub proof fn lemma_first_match_from(sections: Seq<Section>, filter: Option<String>, start: int)
    requires
        0 <= start,
    ensures
        match first_match_from(sections, filter, start) {
            Some(j) => start <= j < sections.len() && section_passes(sections, filter, j)
                && forall|i: int| start <= i < j ==> !#[trigger] section_passes(sections, filter, i),
            None => forall|i: int|
                start <= i < sections.len() ==> !#[trigger] section_passes(sections, filter, i),
        },
    decreases sections.len() - start,
{
    if start < sections.len() && !section_passes(sections, filter, start) {
        lemma_first_match_from(sections, filter, start + 1);
    }
}

/// What `last_match_before` finds: the greatest passing index below `end`.
pub proof fn lemma_last_match_before(sections: Seq<Section>, filter: Option<String>, end: int)
    requires
        end <= sections.len(),
    ensures
        match last_match_before(sections, filter, end) {
            Some(j) => 0 <= j < end && section_passes(sections, filter, j)
                && forall|i: int| j < i < end ==> !#[trigger] section_passes(sections, filter, i),
            None => forall|i: int| 0 <= i < end ==> !#[trigger] section_passes(sections, filter, i),
        },
    decreases end,
{
    if end > 0 && !section_passes(sections, filter, end - 1) {
        lemma_last_match_before(sections, filter, end - 1);
    }
}

// ----------------------------------------------------------------------------
// Field Guide state
// ----------------------------------------------------------------------------

/// Field Guide UI state.
#[derive(Debug, Clone)]
pub struct FieldGuideState {
    pub data: FieldGuideData,
    pub selected_section_idx: usize,
    pub selected_entry_idx: usize,
    /// `None`: no filter; `Some(color)`: only sections of that colour.
    pub active_filter: Option<String>,
    /// Whether the details of the selected entry are shown.
    pub viewing_details: bool,
    /// Vertical scroll offset of the card grid, in rows of three.
    pub scroll_offset: usize,
}

impl FieldGuideState {
    /// The indices of the sections that pass the active filter, ascending.
    pub open spec fn filtered(self) -> Seq<usize> {
        matching_below(self.data.sections@, self.active_filter, self.data.sections@.len())
    }

    /// Whether the selected section exists and passes the active filter.
    pub open spec fn selection_visible(self) -> bool {
        &&& self.selected_section_idx < self.data.sections@.len()
        &&& section_passes(self.data.sections@, self.active_filter, self.selected_section_idx as int)
    }

    /// The state after moving to the next section that passes the filter.
    pub open spec fn after_next_section(self) -> FieldGuideState {
        if self.selection_visible() {
            match first_match_from(
                self.data.sections@,
                self.active_filter,
                self.selected_section_idx + 1,
            ) {
                Some(j) => FieldGuideState {
                    selected_section_idx: j as usize,
                    selected_entry_idx: 0,
                    ..self
                },
                None => self,
            }
        } else {
            self
        }
    }

    /// The state after moving to the previous section that passes the filter.
    pub open spec fn after_prev_section(self) -> FieldGuideState {
        if self.selection_visible() {
            match last_match_before(
                self.data.sections@,
                self.active_filter,
                self.selected_section_idx as int,
            ) {
                Some(j) => FieldGuideState {
                    selected_section_idx: j as usize,
                    selected_entry_idx: 0,
                    ..self
                },
                None => self,
            }
        } else {
            self
        }
    }

    /// The state after moving to the next entry of the selected section.
    pub open spec fn after_next_entry(self) -> FieldGuideState {
        if self.selected_section_idx < self.data.sections@.len() && self.selected_entry_idx + 1
            < self.data.sections@[self.selected_section_idx as int].entries@.len() {
            FieldGuideState { selected_entry_idx: (self.selected_entry_idx + 1) as usize, ..self }
        } else {
            self
        }
    }

    /// The state after moving to the previous entry.
    pub open spec fn after_prev_entry(self) -> FieldGuideState {
        if self.selected_entry_idx > 0 {
            FieldGuideState { selected_entry_idx: (self.selected_entry_idx - 1) as usize, ..self }
        } else {
            self
        }
    }

    /// The state after toggling the colour filter `color`: off when it was already
    /// `color`, `color` otherwise, with selection and scrolling back at the start.
    pub open spec fn after_toggle_filter(self, color: String) -> FieldGuideState {
        FieldGuideState {
            active_filter: if (self.active_filter matches Some(c) && c@ == color@) {
                None
            } else {
                Some(color)
            },
            selected_section_idx: 0,
            selected_entry_idx: 0,
            scroll_offset: 0,
            ..self
        }
    }

    /// The state after scrolling the grid down one row.
    pub open spec fn after_scroll_down(self) -> FieldGuideState {
        if self.scroll_offset + 1 < rows_of_three(self.filtered().len() as int) {
            FieldGuideState { scroll_offset: (self.scroll_offset + 1) as usize, ..self }
        } else {
            self
        }
    }

    /// The state after scrolling the grid up one row.
    pub open spec fn after_scroll_up(self) -> FieldGuideState {
        if self.scroll_offset > 0 {
            FieldGuideState { scroll_offset: (self.scroll_offset - 1) as usize, ..self }
        } else {
            self
        }
    }

    /// The filtered indices shown at the current scroll offset: up to three,
    /// starting at row `scroll_offset`.
    pub open spec fn visible(self) -> Seq<usize> {
        let f = self.filtered();
        let start = self.scroll_offset * 3;
        if start >= f.len() {
            Seq::empty()
        } else if start + 3 <= f.len() {
            f.subrange(start, start + 3)
        } else {
            f.subrange(start, f.len() as int)
        }
    }

    /// A state on `data` with the first section and entry selected, no filter,
    /// no details shown and no scrolling.
    pub open spec fn initial(data: FieldGuideData) -> FieldGuideState {
        FieldGuideState {
            data,
            selected_section_idx: 0,
            selected_entry_idx: 0,
            active_filter: None,
            viewing_details: false,
            scroll_offset: 0,
        }
    }

    pub fn new(data: FieldGuideData) -> (r: Self)
        ensures
            r == Self::initial(data),
    {
        Self {
            data,
            selected_section_idx: 0,
            selected_entry_idx: 0,
            active_filter: None,
            viewing_details: false,
            scroll_offset: 0,
        }
    }

    /// Get filtered sections based on active filter.
    pub fn filtered_sections(&self) -> (r: Vec<usize>)
        ensures
            r@ == self.filtered(),
    {
        let n = self.data.sections.len();
        let mut out: Vec<usize> = Vec::new();
        let mut i: usize = 0;
        while i < n
            invariant
                n == self.data.sections@.len(),
                i <= n,
                out@ == matching_below(self.data.sections@, self.active_filter, i as nat),
            decreases n - i,
        {
            let keep = match &self.active_filter {
                Some(color) => self.data.sections[i].color == *color,
                None => true,
            };
            if keep {
                out.push(i);
            }
            i = i + 1;
        }
        out
    }

    pub fn current_section(&self) -> (r: Option<&Section>)
        ensures
            r == (if self.selected_section_idx < self.data.sections@.len() {
                Some(&self.data.sections@[self.selected_section_idx as int])
            } else {
                None
            }),
    {
        if self.selected_section_idx < self.data.sections.len() {
            Some(&self.data.sections[self.selected_section_idx])
        } else {
            None
        }
    }

    pub fn current_entry(&self) -> (r: Option<&Entry>)
        ensures
            r == (if self.selected_section_idx < self.data.sections@.len()
                && self.selected_entry_idx < self.data.sections@[self.selected_section_idx as int].entries@.len() {
                Some(&self.data.sections@[self.selected_section_idx as int].entries@[self.selected_entry_idx as int])
            } else {
                None
            }),
    {
        match self.current_section() {
            Some(s) => {
                if self.selected_entry_idx < s.entries.len() {
                    Some(&s.entries[self.selected_entry_idx])
                } else {
                    None
                }
            },
            None => None,
        }
    }

    /// The position of `x` in `filtered`, searched from the front.
    fn position_in(filtered: &Vec<usize>, x: usize) -> (r: Option<usize>)
        ensures
            match r {
                Some(p) => p < filtered@.len() && filtered@[p as int] == x
                    && forall|j: int| 0 <= j < p ==> filtered@[j] != x,
                None => forall|j: int| 0 <= j < filtered@.len() ==> filtered@[j] != x,
            },
    {
        let mut k: usize = 0;
        while k < filtered.len()
            invariant
                k <= filtered@.len(),
                forall|j: int| 0 <= j < k ==> filtered@[j] != x,
            decreases filtered@.len() - k,
        {
            if filtered[k] == x {
                return Some(k);
            }
            k = k + 1;
        }
        None
    }

    pub fn next_section(&mut self)
        ensures
            *final(self) == old(self).after_next_section(),
    {
        let filtered = self.filtered_sections();
        let current_pos = Self::position_in(&filtered, self.selected_section_idx);
        // The length, read here, bounds the sections by `usize::MAX` in the proof below.
        let _section_count = self.data.sections.len();
        let ghost s = self.data.sections@;
        let ghost flt = self.active_filter;
        let ghost sel = self.selected_section_idx as int;
        proof {
            lemma_matching_below(s, flt, s.len());
            lemma_first_match_from(s, flt, sel + 1);
        }
        if let Some(pos) = current_pos {
            if pos < filtered.len() - 1 {
                proof {
                    let nxt = filtered@[pos + 1] as int;
                    assert(filtered@[pos as int] < filtered@[pos + 1]);
                    assert forall|i: int| sel < i < nxt implies !#[trigger] section_passes(s, flt, i) by {
                        if section_passes(s, flt, i) {
                            let k = choose|k: int| 0 <= k < filtered@.len() && filtered@[k] == i;
                            if k <= pos {
                                if k < pos {
                                    assert(filtered@[k] < filtered@[pos as int]);
                                }
                            } else if k == pos + 1 {
                            } else {
                                assert(filtered@[pos + 1] < filtered@[k]);
                            }
                        }
                    }
                    assert(section_passes(s, flt, nxt));
                    match first_match_from(s, flt, sel + 1) {
                        Some(j) => {
                            if j < nxt {
                            } else if j > nxt {
                            }
                        },
                        None => {},
                    }
                }
                self.selected_section_idx = filtered[pos + 1];
                self.selected_entry_idx = 0;
            } else {
                proof {
                    assert forall|i: int| sel < i < s.len() implies !#[trigger] section_passes(s, flt, i) by {
                        if section_passes(s, flt, i) {
                            let k = choose|k: int| 0 <= k < filtered@.len() && filtered@[k] == i;
                            if k < pos {
                                assert(filtered@[k] < filtered@[pos as int]);
                            }
                        }
                    }
                }
            }
        } else {
            proof {
                if sel < s.len() && section_passes(s, flt, sel) {
                    let k = choose|k: int| 0 <= k < filtered@.len() && filtered@[k] == sel;
                    assert(filtered@[k] == sel);
                }
            }
        }
    }

    pub fn prev_section(&mut self)
        ensures
            *final(self) == old(self).after_prev_section(),
    {
        let filtered = self.filtered_sections();
        let current_pos = Self::position_in(&filtered, self.selected_section_idx);
        // The length, read here, bounds the sections by `usize::MAX` in the proof below.
        let _section_count = self.data.sections.len();
        let ghost s = self.data.sections@;
        let ghost flt = self.active_filter;
        let ghost sel = self.selected_section_idx as int;
        proof {
            lemma_matching_below(s, flt, s.len());
            if sel <= s.len() {
                lemma_last_match_before(s, flt, sel);
            }
        }
        if let Some(pos) = current_pos {
            if pos > 0 {
                proof {
                    let prv = filtered@[pos - 1] as int;
                    assert(filtered@[pos - 1] < filtered@[pos as int]);
                    assert forall|i: int| prv < i < sel implies !#[trigger] section_passes(s, flt, i) by {
                        if section_passes(s, flt, i) {
                            let k = choose|k: int| 0 <= k < filtered@.len() && filtered@[k] == i;
                            if k < pos - 1 {
                                assert(filtered@[k] < filtered@[pos - 1]);
                            } else if k == pos - 1 {
                            } else if k == pos {
                            } else {
                                assert(filtered@[pos as int] < filtered@[k]);
                            }
                        }
                    }
                    assert(section_passes(s, flt, prv));
                    match last_match_before(s, flt, sel) {
                        Some(j) => {
                            if j < prv {
                            } else if j > prv {
                            }
                        },
                        None => {},
                    }
                }
                self.selected_section_idx = filtered[pos - 1];
                self.selected_entry_idx = 0;
            } else {
                proof {
                    assert forall|i: int| 0 <= i < sel implies !#[trigger] section_passes(s, flt, i) by {
                        if section_passes(s, flt, i) {
                            let k = choose|k: int| 0 <= k < filtered@.len() && filtered@[k] == i;
                            if k > pos {
                                assert(filtered@[pos as int] < filtered@[k]);
                            }
                        }
                    }
                }
            }
        } else {
            proof {
                if sel < s.len() && section_passes(s, flt, sel) {
                    let k = choose|k: int| 0 <= k < filtered@.len() && filtered@[k] == sel;
                    assert(filtered@[k] == sel);
                }
            }
        }
    }

    pub fn next_entry(&mut self)
        ensures
            *final(self) == old(self).after_next_entry(),
    {
        if let Some(section) = self.current_section() {
            let count = section.entries.len();
            if count > 0 && self.selected_entry_idx < count - 1 {
                self.selected_entry_idx = self.selected_entry_idx + 1;
            }
        }
    }

    pub fn prev_entry(&mut self)
        ensures
            *final(self) == old(self).after_prev_entry(),
    {
        if self.selected_entry_idx > 0 {
            self.selected_entry_idx = self.selected_entry_idx - 1;
        }
    }

    /// Turns the colour filter off when it is already `color`, and to `color`
    /// otherwise; the selection and the scroll position go back to the start.
    pub fn toggle_filter(&mut self, color: String)
        ensures
            (old(self).active_filter matches Some(c) && c@ == color@) ==> final(self).active_filter is None,
            !(old(self).active_filter matches Some(c) && c@ == color@) ==> final(self).active_filter == Some(color),
            final(self).selected_section_idx == 0,
            final(self).selected_entry_idx == 0,
            final(self).scroll_offset == 0,
            final(self).data == old(self).data,
            final(self).viewing_details == old(self).viewing_details,
            *final(self) == old(self).after_toggle_filter(color),
    {
        let same = match &self.active_filter {
            Some(c) => *c == color,
            None => false,
        };
        if same {
            self.active_filter = None;
        } else {
            self.active_filter = Some(color);
        }
        self.selected_section_idx = 0;
        self.selected_entry_idx = 0;
        self.scroll_offset = 0;
    }

    /// Scroll down by one row (three sections per row).
    pub fn scroll_down(&mut self)
        ensures
            *final(self) == old(self).after_scroll_down(),
    {
        let filtered = self.filtered_sections();
        let n = filtered.len();
        let total_rows = n / 3 + if n % 3 == 0 { 0 } else { 1 };
        assert(total_rows == rows_of_three(n as int));
        if total_rows > 0 && self.scroll_offset < total_rows - 1 {
            self.scroll_offset = self.scroll_offset + 1;
        }
    }

    /// Scroll up by one row.
    pub fn scroll_up(&mut self)
        ensures
            *final(self) == old(self).after_scroll_up(),
    {
        if self.scroll_offset > 0 {
            self.scroll_offset = self.scroll_offset - 1;
        }
    }

    /// Get visible sections based on scroll offset (at most three, one row).
    pub fn visible_sections(&self) -> (r: Vec<usize>)
        ensures
            r@ == self.visible(),
    {
        let filtered = self.filtered_sections();
        let n = filtered.len();
        let total_rows = n / 3 + if n % 3 == 0 { 0 } else { 1 };
        if self.scroll_offset >= total_rows {
            return Vec::new();
        }
        let start = self.scroll_offset * 3;
        let end = if start + 3 <= n { start + 3 } else { n };
        let mut out: Vec<usize> = Vec::new();
        let mut i = start;
        while i < end
            invariant
                start <= i <= end <= n,
                n == filtered@.len(),
                out@ == filtered@.subrange(start as int, i as int),
            decreases end - i,
        {
            out.push(filtered[i]);
            i = i + 1;
        }
        out
    }
}

// ----------------------------------------------------------------------------
// Glitch Sanctuary state
// ----------------------------------------------------------------------------

/// Glitch Sanctuary UI state.
#[derive(Debug, Clone)]
pub struct SanctuaryState {
    pub data: GlitchSanctuaryData,
    pub active_program_idx: usize,
    pub selected_record_idx: usize,
    pub expanded_record_idx: Option<usize>,
    /// Vertical scroll offset of the records list.
    pub record_scroll_offset: usize,
}

impl SanctuaryState {
    /// The number of records of the active program, or `None` when no program is active.
    pub open spec fn active_record_count(self) -> Option<int> {
        if self.active_program_idx < self.data.programs@.len() {
            Some(self.data.programs@[self.active_program_idx as int].records@.len() as int)
        } else {
            None
        }
    }

    /// The state after moving to the next program.
    pub open spec fn after_next_program(self) -> SanctuaryState {
        if self.active_program_idx + 1 < self.data.programs@.len() {
            SanctuaryState {
                active_program_idx: (self.active_program_idx + 1) as usize,
                selected_record_idx: 0,
                record_scroll_offset: 0,
                ..self
            }
        } else {
            self
        }
    }

    /// The state after moving to the previous program.
    pub open spec fn after_prev_program(self) -> SanctuaryState {
        if self.active_program_idx > 0 {
            SanctuaryState {
                active_program_idx: (self.active_program_idx - 1) as usize,
                selected_record_idx: 0,
                record_scroll_offset: 0,
                ..self
            }
        } else {
            self
        }
    }

    /// The state after moving to the next record of the active program.
    pub open spec fn after_next_record(self) -> SanctuaryState {
        match self.active_record_count() {
            Some(n) => if self.selected_record_idx + 1 < n {
                SanctuaryState { selected_record_idx: (self.selected_record_idx + 1) as usize, ..self }
            } else {
                self
            },
            None => self,
        }
    }

    /// The state after moving to the previous record.
    pub open spec fn after_prev_record(self) -> SanctuaryState {
        if self.selected_record_idx > 0 {
            SanctuaryState { selected_record_idx: (self.selected_record_idx - 1) as usize, ..self }
        } else {
            self
        }
    }

    /// The state after expanding record `idx`, or collapsing it when it is the expanded one.
    pub open spec fn after_toggle_record(self, idx: usize) -> SanctuaryState {
        SanctuaryState {
            expanded_record_idx: if self.expanded_record_idx == Some(idx) {
                None
            } else {
                Some(idx)
            },
            ..self
        }
    }

    /// The state after scrolling the records list down one line.
    pub open spec fn after_scroll_records_down(self) -> SanctuaryState {
        match self.active_record_count() {
            Some(n) => if self.record_scroll_offset + 1 < n {
                SanctuaryState { record_scroll_offset: (self.record_scroll_offset + 1) as usize, ..self }
            } else {
                self
            },
            None => self,
        }
    }

    /// The state after scrolling the records list up one line.
    pub open spec fn after_scroll_records_up(self) -> SanctuaryState {
        if self.record_scroll_offset > 0 {
            SanctuaryState { record_scroll_offset: (self.record_scroll_offset - 1) as usize, ..self }
        } else {
            self
        }
    }

    /// A state on `data` with the first program and record selected, nothing
    /// expanded and no scrolling.
    pub open spec fn initial(data: GlitchSanctuaryData) -> SanctuaryState {
        SanctuaryState {
            data,
            active_program_idx: 0,
            selected_record_idx: 0,
            expanded_record_idx: None,
            record_scroll_offset: 0,
        }
    }

    pub fn new(data: GlitchSanctuaryData) -> (r: Self)
        ensures
            r == Self::initial(data),
    {
        Self {
            data,
            active_program_idx: 0,
            selected_record_idx: 0,
            expanded_record_idx: None,
            record_scroll_offset: 0,
        }
    }

    pub fn current_program(&self) -> (r: Option<&Program>)
        ensures
            r == (if self.active_program_idx < self.data.programs@.len() {
                Some(&self.data.programs@[self.active_program_idx as int])
            } else {
                None
            }),
    {
        if self.active_program_idx < self.data.programs.len() {
            Some(&self.data.programs[self.active_program_idx])
        } else {
            None
        }
    }

    pub fn current_program_mut(&mut self) -> (r: Option<&mut Program>)
        ensures
            old(self).active_program_idx < old(self).data.programs@.len() ==> {
                &&& r is Some
                &&& *r->0 == old(self).data.programs@[old(self).active_program_idx as int]
                &&& final(self).data.programs@ == old(self).data.programs@.update(
                    old(self).active_program_idx as int,
                    *final(r->0),
                )
            },
            old(self).active_program_idx >= old(self).data.programs@.len() ==> {
                &&& r is None
                &&& final(self).data.programs@ == old(self).data.programs@
            },
            final(self).data.meta == old(self).data.meta,
            final(self).data.metrics == old(self).data.metrics,
            final(self).active_program_idx == old(self).active_program_idx,
            final(self).selected_record_idx == old(self).selected_record_idx,
            final(self).expanded_record_idx == old(self).expanded_record_idx,
            final(self).record_scroll_offset == old(self).record_scroll_offset,
    {
        if self.active_program_idx < self.data.programs.len() {
            Some(&mut self.data.programs[self.active_program_idx])
        } else {
            None
        }
    }

    pub fn current_record(&self) -> (r: Option<&Record>)
        ensures
            r == (if self.active_program_idx < self.data.programs@.len()
                && self.selected_record_idx < self.data.programs@[self.active_program_idx as int].records@.len() {
                Some(&self.data.programs@[self.active_program_idx as int].records@[self.selected_record_idx as int])
            } else {
                None
            }),
    {
        match self.current_program() {
            Some(p) => {
                if self.selected_record_idx < p.records.len() {
                    Some(&p.records[self.selected_record_idx])
                } else {
                    None
                }
            },
            None => None,
        }
    }

    pub fn next_program(&mut self)
        ensures
            *final(self) == old(self).after_next_program(),
    {
        let count = self.data.programs.len();
        if count > 0 && self.active_program_idx < count - 1 {
            self.active_program_idx = self.active_program_idx + 1;
            self.selected_record_idx = 0;
            self.record_scroll_offset = 0;
        }
    }

    pub fn prev_program(&mut self)
        ensures
            *final(self) == old(self).after_prev_program(),
    {
        if self.active_program_idx > 0 {
            self.active_program_idx = self.active_program_idx - 1;
            self.selected_record_idx = 0;
            self.record_scroll_offset = 0;
        }
    }

    pub fn next_record(&mut self)
        ensures
            *final(self) == old(self).after_next_record(),
    {
        if let Some(program) = self.current_program() {
            let count = program.records.len();
            if count > 0 && self.selected_record_idx < count - 1 {
                self.selected_record_idx = self.selected_record_idx + 1;
            }
        }
    }

    pub fn prev_record(&mut self)
        ensures
            *final(self) == old(self).after_prev_record(),
    {
        if self.selected_record_idx > 0 {
            self.selected_record_idx = self.selected_record_idx - 1;
        }
    }

    pub fn toggle_record_details(&mut self, idx: usize)
        ensures
            *final(self) == old(self).after_toggle_record(idx),
    {
        if self.expanded_record_idx == Some(idx) {
            self.expanded_record_idx = None;
        } else {
            self.expanded_record_idx = Some(idx);
        }
    }

    /// Scroll down in records list.
    pub fn scroll_records_down(&mut self)
        ensures
            *final(self) == old(self).after_scroll_records_down(),
    {
        if let Some(program) = self.current_program() {
            let count = program.records.len();
            if count > 0 && self.record_scroll_offset < count - 1 {
                self.record_scroll_offset = self.record_scroll_offset + 1;
            }
        }
    }

    /// Scroll up in records list.
    pub fn scroll_records_up(&mut self)
        ensures
            *final(self) == old(self).after_scroll_records_up(),
    {
        if self.record_scroll_offset > 0 {
            self.record_scroll_offset = self.record_scroll_offset - 1;
        }
    }

    /// Reset scroll offset when switching programs.
    pub fn reset_scroll_offset(&mut self)
        ensures
            *final(self) == (SanctuaryState { record_scroll_offset: 0, ..*old(self) }),
    {
        self.record_scroll_offset = 0;
    }
}

// ----------------------------------------------------------------------------
// Application state
// ----------------------------------------------------------------------------

/// Global application state.
#[derive(Debug)]
pub struct AppState {
    pub current_view: View,
    pub field_guide: FieldGuideState,
    pub sanctuary: SanctuaryState,
    pub command_input: String,
    pub show_command_palette: bool,
}

impl AppState {
    pub fn new(field_guide_data: FieldGuideData, sanctuary_data: GlitchSanctuaryData) -> (r: Self)
        ensures
            r.current_view == View::FieldGuide,
            r.field_guide == FieldGuideState::initial(field_guide_data),
            r.sanctuary == SanctuaryState::initial(sanctuary_data),
            r.command_input@ == Seq::<char>::empty(),
            !r.show_command_palette,
    {
        Self {
            current_view: View::FieldGuide,
            field_guide: FieldGuideState::new(field_guide_data),
            sanctuary: SanctuaryState::new(sanctuary_data),
            command_input: String::new(),
            show_command_palette: false,
        }
    }

    pub fn switch_view(&mut self, view: View)
        ensures
            final(self).current_view == view,
            final(self).field_guide == old(self).field_guide,
            final(self).sanctuary == old(self).sanctuary,
            final(self).command_input == old(self).command_input,
            final(self).show_command_palette == old(self).show_command_palette,
    {
        self.current_view = view;
    }

    /// Opens the palette with an empty input, or closes it keeping the input.
    pub fn toggle_command_palette(&mut self)
        ensures
            final(self).show_command_palette == !old(self).show_command_palette,
            final(self).show_command_palette ==> final(self).command_input@ == Seq::<char>::empty(),
            !final(self).show_command_palette ==> final(self).command_input == old(self).command_input,
            final(self).current_view == old(self).current_view,
            final(self).field_guide == old(self).field_guide,
            final(self).sanctuary == old(self).sanctuary,
    {
        self.show_command_palette = !self.show_command_palette;
        if self.show_command_palette {
            clear_text(&mut self.command_input);
        }
    }
}

} // verus!
