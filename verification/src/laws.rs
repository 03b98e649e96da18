//! Properties that hold of every state and every key, across several operations.
use vstd::prelude::*;

use crate::display::{card_row, centred, color_named, status_color, status_mark, Color};
use crate::input::{
    applied, guide_after, key_action, quits, sanctuary_after, view_after_command, KeyAction, KeyCode,
    KeyEvent,
};
use crate::models::{view_named, FieldGuideData, RecordStatus, View};
use crate::state::{
    first_match_from, last_match_before, lemma_first_match_from, lemma_last_match_before,
    lemma_matching_below, section_passes, rows_of_three, FieldGuideState, SanctuaryState,
};
use vstd::view::View as _;

verus! {

/// A view's shown name parses back to that view.
pub proof fn law_view_name_round_trip(v: View)
    ensures
        view_named(v.name()) == Some(v),
{
    reveal_strlit("field-guide");
    reveal_strlit("guide");
    reveal_strlit("glitch-sanctuary");
    reveal_strlit("sanctuary");
    match v {
        View::FieldGuide => {},
        View::GlitchSanctuary => {
            assert("glitch-sanctuary"@.len() != "field-guide"@.len());
            assert("glitch-sanctuary"@.len() != "guide"@.len());
        },
    }
}

/// The filtered sections are exactly the sections that pass the active filter, each
/// once, in ascending order.
pub proof fn law_filtered_sections_are_the_passing_ones(s: FieldGuideState, i: int)
    requires
        s.data.sections@.len() <= usize::MAX,
    ensures
        (exists|k: int| 0 <= k < s.filtered().len() && s.filtered()[k] == i) <==> (0 <= i
            < s.data.sections@.len() && section_passes(s.data.sections@, s.active_filter, i)),
        forall|k1: int, k2: int|
            0 <= k1 < k2 < s.filtered().len() ==> s.filtered()[k1] < s.filtered()[k2],
{
    let secs = s.data.sections@;
    let f = s.filtered();
    lemma_matching_below(secs, s.active_filter, secs.len());
    if exists|k: int| 0 <= k < f.len() && f[k] == i {
        let k = choose|k: int| 0 <= k < f.len() && f[k] == i;
        assert(f[k] == i);
        assert(section_passes(secs, s.active_filter, f[k] as int));
    }
    if 0 <= i < secs.len() && section_passes(secs, s.active_filter, i) {
        assert(exists|k: int| 0 <= k < f.len() && f[k] == i);
    }
    assert forall|k1: int, k2: int| 0 <= k1 < k2 < s.filtered().len() implies s.filtered()[k1]
        < s.filtered()[k2] by {
        assert(s.filtered()[k1] < s.filtered()[k2]);
    }
}

/// Moving between sections keeps a visible selection visible, and never leaves the
/// sections that pass the filter.
pub proof fn law_section_moves_keep_selection_visible(s: FieldGuideState)
    requires
        s.data.sections@.len() <= usize::MAX,
        s.selection_visible(),
    ensures
        s.after_next_section().selection_visible(),
        s.after_prev_section().selection_visible(),
        s.after_next_section().selected_section_idx >= s.selected_section_idx,
        s.after_prev_section().selected_section_idx <= s.selected_section_idx,
{
    lemma_first_match_from(s.data.sections@, s.active_filter, s.selected_section_idx + 1);
    lemma_last_match_before(s.data.sections@, s.active_filter, s.selected_section_idx as int);
}

/// Moving to the next section skips only sections that fail the filter.
pub proof fn law_next_section_skips_only_filtered_out(s: FieldGuideState, i: int)
    requires
        s.data.sections@.len() <= usize::MAX,
        s.selection_visible(),
        s.selected_section_idx < i < s.after_next_section().selected_section_idx,
    ensures
        !section_passes(s.data.sections@, s.active_filter, i),
{
    lemma_first_match_from(s.data.sections@, s.active_filter, s.selected_section_idx + 1);
}

/// A move to the next section that moved is undone by a move to the previous one,
/// and the other way round.
pub proof fn law_section_moves_undo_each_other(s: FieldGuideState)
    requires
        s.data.sections@.len() <= usize::MAX,
        s.selection_visible(),
    ensures
        s.after_next_section().selected_section_idx != s.selected_section_idx ==> s.after_next_section().after_prev_section().selected_section_idx
            == s.selected_section_idx,
        s.after_prev_section().selected_section_idx != s.selected_section_idx ==> s.after_prev_section().after_next_section().selected_section_idx
            == s.selected_section_idx,
{
    let secs = s.data.sections@;
    let f = s.active_filter;
    let sel = s.selected_section_idx as int;
    lemma_first_match_from(secs, f, sel + 1);
    lemma_last_match_before(secs, f, sel);
    if let Some(j) = first_match_from(secs, f, sel + 1) {
        let t = s.after_next_section();
        assert(t.selected_section_idx == j);
        assert(t.selection_visible());
        lemma_last_match_before(secs, f, j);
        match last_match_before(secs, f, j) {
            Some(k) => {
                if k < sel {
                } else if k > sel {
                }
            },
            None => {},
        }
    }
    if let Some(j) = last_match_before(secs, f, sel) {
        let t = s.after_prev_section();
        assert(t.selected_section_idx == j);
        assert(t.selection_visible());
        lemma_first_match_from(secs, f, j + 1);
        match first_match_from(secs, f, j + 1) {
            Some(k) => {
                if k < sel {
                } else if k > sel {
                }
            },
            None => {},
        }
    }
}

/// The entry selection stays inside the selected section, and a move to the next
/// entry that moved is undone by a move to the previous one.
pub proof fn law_entry_moves(s: FieldGuideState)
    requires
        s.selected_section_idx < s.data.sections@.len(),
        s.selected_entry_idx < s.data.sections@[s.selected_section_idx as int].entries@.len(),
        s.data.sections@[s.selected_section_idx as int].entries@.len() <= usize::MAX,
    ensures
        s.after_next_entry().selected_entry_idx < s.data.sections@[s.selected_section_idx as int].entries@.len(),
        s.after_prev_entry().selected_entry_idx < s.data.sections@[s.selected_section_idx as int].entries@.len(),
        s.after_next_entry() != s ==> s.after_next_entry().after_prev_entry() == s,
        s.after_prev_entry() != s ==> s.after_prev_entry().after_next_entry() == s,
{
}

/// Scrolling the grid keeps the offset inside the rows that the filtered sections
/// fill, once it is inside them.
pub proof fn law_scroll_stays_in_rows(s: FieldGuideState)
    requires
        s.scroll_offset < rows_of_three(s.filtered().len() as int),
    ensures
        s.after_scroll_down().scroll_offset < rows_of_three(s.filtered().len() as int),
        s.after_scroll_up().scroll_offset < rows_of_three(s.filtered().len() as int),
        s.after_scroll_down().filtered() == s.filtered(),
{
}

/// The visible sections are at most three consecutive filtered sections.
pub proof fn law_visible_is_a_window_of_filtered(s: FieldGuideState)
    ensures
        s.visible().len() <= 3,
        forall|k: int| 0 <= k < s.visible().len() ==> s.visible()[k] == s.filtered()[s.scroll_offset * 3 + k],
        s.scroll_offset < rows_of_three(s.filtered().len() as int) ==> s.visible().len() > 0,
{
}

/// Program and record moves keep valid selections valid, and a move that moved is
/// undone by the opposite move.
pub proof fn law_sanctuary_moves(s: SanctuaryState)
    requires
        s.active_program_idx < s.data.programs@.len(),
        s.data.programs@.len() <= usize::MAX,
        s.data.programs@[s.active_program_idx as int].records@.len() <= usize::MAX,
    ensures
        s.after_next_program().active_program_idx < s.data.programs@.len(),
        s.after_prev_program().active_program_idx < s.data.programs@.len(),
        s.after_next_program() != s ==> s.after_next_program().after_prev_program().active_program_idx
            == s.active_program_idx,
        s.after_prev_program() != s ==> s.after_prev_program().after_next_program().active_program_idx
            == s.active_program_idx,
        s.selected_record_idx < s.data.programs@[s.active_program_idx as int].records@.len()
            ==> s.after_next_record().selected_record_idx < s.data.programs@[s.active_program_idx as int].records@.len(),
        s.after_next_record() != s ==> s.after_next_record().after_prev_record() == s,
{
}

/// Expanding and collapsing the same record twice restores what was expanded, when
/// nothing or that record was expanded.
pub proof fn law_toggle_record_twice(s: SanctuaryState, idx: usize)
    requires
        s.expanded_record_idx is None || s.expanded_record_idx == Some(idx),
    ensures
        s.after_toggle_record(idx).after_toggle_record(idx) == s,
{
}

/// Tab, pressed with the palette closed, shows the other view and changes nothing
/// else; pressed twice, it returns to the first view.
pub proof fn law_tab_switches_view(
    app: crate::state::AppState,
    key: KeyEvent,
    mid: crate::state::AppState,
    post: crate::state::AppState,
)
    requires
        !app.show_command_palette,
        key.code == KeyCode::Tab,
        applied(app, key_action(app, key), mid),
        applied(mid, key_action(mid, key), post),
    ensures
        mid.current_view == app.current_view.other(),
        mid.current_view != app.current_view,
        mid.field_guide == app.field_guide,
        mid.sanctuary == app.sanctuary,
        mid.command_input == app.command_input,
        !mid.show_command_palette,
        post == app,
{
}

/// In the Field Guide view with the palette closed, h and Left move to the previous
/// section, l and Right to the next, k and Up to the previous entry, j and Down to
/// the next, whatever modifiers are held; nothing else changes.
pub proof fn law_guide_keys(app: crate::state::AppState, key: KeyEvent, post: crate::state::AppState)
    requires
        !app.show_command_palette,
        app.current_view == View::FieldGuide,
        applied(app, key_action(app, key), post),
    ensures
        (key.code == KeyCode::Left || key.code == KeyCode::Char('h')) ==> post == (crate::state::AppState {
            field_guide: app.field_guide.after_prev_section(),
            ..app
        }),
        (key.code == KeyCode::Right || key.code == KeyCode::Char('l')) ==> post == (crate::state::AppState {
            field_guide: app.field_guide.after_next_section(),
            ..app
        }),
        (key.code == KeyCode::Up || key.code == KeyCode::Char('k')) ==> post == (crate::state::AppState {
            field_guide: app.field_guide.after_prev_entry(),
            ..app
        }),
        (key.code == KeyCode::Down || key.code == KeyCode::Char('j')) ==> post == (crate::state::AppState {
            field_guide: app.field_guide.after_next_entry(),
            ..app
        }),
{
}

/// In the Glitch Sanctuary view with the palette closed, h and Left move to the
/// previous program, l and Right to the next, k and Up to the previous record, j and
/// Down to the next, whatever modifiers are held; nothing else changes.
pub proof fn law_sanctuary_keys(app: crate::state::AppState, key: KeyEvent, post: crate::state::AppState)
    requires
        !app.show_command_palette,
        app.current_view == View::GlitchSanctuary,
        applied(app, key_action(app, key), post),
    ensures
        (key.code == KeyCode::Left || key.code == KeyCode::Char('h')) ==> post == (crate::state::AppState {
            sanctuary: app.sanctuary.after_prev_program(),
            ..app
        }),
        (key.code == KeyCode::Right || key.code == KeyCode::Char('l')) ==> post == (crate::state::AppState {
            sanctuary: app.sanctuary.after_next_program(),
            ..app
        }),
        (key.code == KeyCode::Up || key.code == KeyCode::Char('k')) ==> post == (crate::state::AppState {
            sanctuary: app.sanctuary.after_prev_record(),
            ..app
        }),
        (key.code == KeyCode::Down || key.code == KeyCode::Char('j')) ==> post == (crate::state::AppState {
            sanctuary: app.sanctuary.after_next_record(),
            ..app
        }),
{
}

/// Running a command changes at most the current view: the guide, the sanctuary and
/// the typed input stay as they were, and the palette closes.
pub proof fn law_command_changes_only_the_view(
    pre: crate::state::AppState,
    post: crate::state::AppState,
)
    requires
        applied(pre, KeyAction::RunCommand, post),
    ensures
        post.field_guide == pre.field_guide,
        post.sanctuary == pre.sanctuary,
        post.command_input == pre.command_input,
        !post.show_command_palette,
{
}

/// A typed character followed by a backspace leaves the input as it was.
pub proof fn law_backspace_undoes_typing(
    pre: crate::state::AppState,
    mid: crate::state::AppState,
    post: crate::state::AppState,
    c: char,
)
    requires
        applied(pre, KeyAction::InsertChar(c), mid),
        applied(mid, KeyAction::DeleteChar, post),
    ensures
        post.command_input@ == pre.command_input@,
        post.current_view == pre.current_view,
        post.field_guide == pre.field_guide,
        post.sanctuary == pre.sanctuary,
        post.show_command_palette == pre.show_command_palette,
{
    assert(pre.command_input@.push(c).drop_last() =~= pre.command_input@);
}

/// Keys never change the loaded data: the guide's sections and the sanctuary's
/// programs and metrics stay as they were read.
pub proof fn law_keys_never_change_data(
    pre: crate::state::AppState,
    key: KeyEvent,
    post: crate::state::AppState,
)
    requires
        applied(pre, key_action(pre, key), post),
    ensures
        post.field_guide.data == pre.field_guide.data,
        post.sanctuary.data == pre.sanctuary.data,
{
    match key_action(pre, key) {
        KeyAction::Guide(m) => {
            assert(guide_after(pre.field_guide, m).data == pre.field_guide.data);
        },
        KeyAction::Sanctuary(m) => {
            assert(sanctuary_after(pre.sanctuary, m).data == pre.sanctuary.data);
        },
        _ => {},
    }
}

/// The rows of the card grid hold the filtered sections in order: position `k` of
/// the filtered list is place `k % 3` of row `k / 3`, and every row but the last
/// is full.
pub proof fn law_card_rows_cover_filtered(f: Seq<usize>, k: int)
    requires
        0 <= k < f.len(),
    ensures
        card_row(f, k / 3).len() > k % 3,
        card_row(f, k / 3)[k % 3] == f[k],
        k / 3 + 1 < rows_of_three(f.len() as int) ==> card_row(f, k / 3).len() == 3,
{
}

/// With the palette open, every character key except Ctrl+u is appended to the
/// command input, whatever other modifiers (Shift among them) are held, and nothing
/// else changes; Ctrl+u empties the input.
pub proof fn law_palette_types_every_char(
    app: crate::state::AppState,
    key: KeyEvent,
    c: char,
    post: crate::state::AppState,
)
    requires
        app.show_command_palette,
        key.code == KeyCode::Char(c),
        applied(app, key_action(app, key), post),
    ensures
        (key.modifiers.bits & 2u8 == 0 || c != 'u') ==> post.command_input@ == app.command_input@.push(c),
        (key.modifiers.bits & 2u8 != 0 && c == 'u') ==> post.command_input@.len() == 0,
        post.show_command_palette,
        post.current_view == app.current_view,
        post.field_guide == app.field_guide,
        post.sanctuary == app.sanctuary,
{
}

/// "view " followed by a view's name, or by its short alias, goes to that view,
/// whichever view was shown before.
pub proof fn law_view_command_goes_to_the_named_view(shown: View, v: View)
    ensures
        view_after_command(shown, "view "@ + v.name()) == v,
        view_after_command(shown, "view "@ + "guide"@) == View::FieldGuide,
        view_after_command(shown, "view "@ + "sanctuary"@) == View::GlitchSanctuary,
{
    reveal_strlit("view ");
    reveal_strlit("field-guide");
    reveal_strlit("guide");
    reveal_strlit("glitch-sanctuary");
    reveal_strlit("sanctuary");
    law_view_name_round_trip(v);
    let cmd = "view "@ + v.name();
    assert(cmd.subrange(0, 5) =~= "view "@);
    assert(cmd.subrange(5, cmd.len() as int) =~= v.name());
    let g = "view "@ + "guide"@;
    assert(g.subrange(0, 5) =~= "view "@);
    assert(g.subrange(5, g.len() as int) =~= "guide"@);
    let t = "view "@ + "sanctuary"@;
    assert(t.subrange(0, 5) =~= "view "@);
    assert(t.subrange(5, t.len() as int) =~= "sanctuary"@);
    assert("sanctuary"@.len() != "field-guide"@.len());
    assert("sanctuary"@.len() != "guide"@.len());
}

/// Switching program, either way, starts at the first record of the new program
/// with the records list scrolled to the top, and moves by exactly one program.
pub proof fn law_program_switch_starts_at_first_record(s: SanctuaryState)
    requires
        s.data.programs@.len() <= usize::MAX,
    ensures
        s.after_prev_program() != s ==> {
            &&& s.after_prev_program().active_program_idx + 1 == s.active_program_idx
            &&& s.after_prev_program().selected_record_idx == 0
            &&& s.after_prev_program().record_scroll_offset == 0
            &&& s.after_prev_program().data == s.data
            &&& s.after_prev_program().expanded_record_idx == s.expanded_record_idx
        },
        s.after_next_program() != s ==> {
            &&& s.after_next_program().active_program_idx == s.active_program_idx + 1
            &&& s.after_next_program().selected_record_idx == 0
            &&& s.after_next_program().record_scroll_offset == 0
            &&& s.after_next_program().data == s.data
            &&& s.after_next_program().expanded_record_idx == s.expanded_record_idx
        },
        s.active_program_idx > 0 ==> s.after_prev_program() != s || s.selected_record_idx == 0,
        s.active_program_idx > 0 ==> s.after_prev_program().active_program_idx + 1 == s.active_program_idx,
{
}

/// A plain or modified 'q' with the palette closed quits, whichever view is shown;
/// with the palette open, 'q' never quits.
pub proof fn law_q_quits_in_every_view(app: crate::state::AppState, key: KeyEvent, shown: View)
    requires
        key.code == KeyCode::Char('q'),
    ensures
        !app.show_command_palette ==> quits(app, key),
        quits(app, key) == quits(crate::state::AppState { current_view: shown, ..app }, key),
        app.show_command_palette ==> !quits(app, key),
{
}

/// ASCII upper case of a character: 'a' to 'z' become 'A' to 'Z', others stay.
pub open spec fn ascii_upper(c: char) -> char {
    if 'a' <= c <= 'z' {
        ((c as int) - 32) as char
    } else {
        c
    }
}

/// No character of `s` is an ASCII upper-case letter.
pub open spec fn has_no_upper(s: Seq<char>) -> bool {
    forall|i: int| 0 <= i < s.len() ==> !('A' <= #[trigger] s[i] <= 'Z')
}

/// Two characters that are not upper-case letters have the same upper case only
/// when they are the same.
proof fn lemma_ascii_upper_injective(a: char, b: char)
    requires
        !('A' <= a <= 'Z'),
        !('A' <= b <= 'Z'),
        ascii_upper(a) == ascii_upper(b),
    ensures
        a == b,
{
    if 'a' <= a <= 'z' {
        assert(((a as int) - 32) as char as int == (a as int) - 32);
    }
    if 'a' <= b <= 'z' {
        assert(((b as int) - 32) as char as int == (b as int) - 32);
    }
}

/// For a name `lo` starting with a lower-case letter and with no upper-case letter,
/// and a text `s` with no upper-case letter: `s` is `lo` or its upper case exactly
/// when the upper case of `s` is.
proof fn lemma_upper_pair(s: Seq<char>, lo: Seq<char>, up: Seq<char>)
    requires
        has_no_upper(s),
        has_no_upper(lo),
        lo.len() > 0,
        'a' <= lo[0] <= 'z',
        up == lo.map_values(|c: char| ascii_upper(c)),
    ensures
        (s == lo || s == up) <==> (s.map_values(|c: char| ascii_upper(c)) == lo
            || s.map_values(|c: char| ascii_upper(c)) == up),
{
    let u = s.map_values(|c: char| ascii_upper(c));
    assert(up[0] == ascii_upper(lo[0]));
    if s == up {
        assert(s[0] == up[0]);
    }
    if u == lo {
        assert(u[0] == ascii_upper(s[0]));
    }
    if u == up {
        assert(u.len() == s.len());
        assert(up.len() == lo.len());
        assert forall|i: int| 0 <= i < s.len() implies s[i] == lo[i] by {
            assert(u[i] == ascii_upper(s[i]));
            assert(up[i] == ascii_upper(lo[i]));
            lemma_ascii_upper_injective(s[i], lo[i]);
        }
        assert(s =~= lo);
    }
}

/// A colour name means the same colour in lower case and in upper case: for every
/// text without upper-case letters, it and its upper case select the same colour.
pub proof fn law_color_names_ignore_case(s: Seq<char>)
    requires
        has_no_upper(s),
    ensures
        color_named(s) == color_named(s.map_values(|c: char| ascii_upper(c))),
{
    reveal_strlit("cyan");
    reveal_strlit("CYAN");
    reveal_strlit("purple");
    reveal_strlit("PURPLE");
    reveal_strlit("green");
    reveal_strlit("GREEN");
    reveal_strlit("amber");
    reveal_strlit("AMBER");
    reveal_strlit("blue");
    reveal_strlit("BLUE");
    reveal_strlit("teal");
    reveal_strlit("TEAL");
    reveal_strlit("rose");
    reveal_strlit("ROSE");
    reveal_strlit("stone");
    reveal_strlit("STONE");
    assert("CYAN"@ =~= "cyan"@.map_values(|c: char| ascii_upper(c)));
    assert("PURPLE"@ =~= "purple"@.map_values(|c: char| ascii_upper(c)));
    assert("GREEN"@ =~= "green"@.map_values(|c: char| ascii_upper(c)));
    assert("AMBER"@ =~= "amber"@.map_values(|c: char| ascii_upper(c)));
    assert("BLUE"@ =~= "blue"@.map_values(|c: char| ascii_upper(c)));
    assert("TEAL"@ =~= "teal"@.map_values(|c: char| ascii_upper(c)));
    assert("ROSE"@ =~= "rose"@.map_values(|c: char| ascii_upper(c)));
    assert("STONE"@ =~= "stone"@.map_values(|c: char| ascii_upper(c)));
    lemma_upper_pair(s, "cyan"@, "CYAN"@);
    lemma_upper_pair(s, "purple"@, "PURPLE"@);
    lemma_upper_pair(s, "green"@, "GREEN"@);
    lemma_upper_pair(s, "amber"@, "AMBER"@);
    lemma_upper_pair(s, "blue"@, "BLUE"@);
    lemma_upper_pair(s, "teal"@, "TEAL"@);
    lemma_upper_pair(s, "rose"@, "ROSE"@);
    lemma_upper_pair(s, "stone"@, "STONE"@);
}

/// The guide's colour names and the terminal colours they are drawn in; purple is
/// drawn magenta, amber yellow, teal cyan, rose light red and stone grey.
pub proof fn law_color_table()
    ensures
        color_named("cyan"@) == Color::Cyan,
        color_named("purple"@) == Color::Magenta,
        color_named("green"@) == Color::Green,
        color_named("amber"@) == Color::Yellow,
        color_named("blue"@) == Color::Blue,
        color_named("teal"@) == Color::Cyan,
        color_named("rose"@) == Color::LightRed,
        color_named("stone"@) == Color::Gray,
        color_named("ROSE"@) == Color::LightRed,
{
    reveal_strlit("cyan");
    reveal_strlit("CYAN");
    reveal_strlit("purple");
    reveal_strlit("PURPLE");
    reveal_strlit("green");
    reveal_strlit("GREEN");
    reveal_strlit("amber");
    reveal_strlit("AMBER");
    reveal_strlit("blue");
    reveal_strlit("BLUE");
    reveal_strlit("teal");
    reveal_strlit("TEAL");
    reveal_strlit("rose");
    reveal_strlit("ROSE");
    reveal_strlit("stone");
    reveal_strlit("STONE");
    assert("cyan"@.len() == 4);
    assert("cyan"@[0] == 'c');
    assert("CYAN"@.len() == 4);
    assert("CYAN"@[0] == 'C');
    assert("purple"@.len() == 6);
    assert("purple"@[0] == 'p');
    assert("PURPLE"@.len() == 6);
    assert("PURPLE"@[0] == 'P');
    assert("green"@.len() == 5);
    assert("green"@[0] == 'g');
    assert("GREEN"@.len() == 5);
    assert("GREEN"@[0] == 'G');
    assert("amber"@.len() == 5);
    assert("amber"@[0] == 'a');
    assert("AMBER"@.len() == 5);
    assert("AMBER"@[0] == 'A');
    assert("blue"@.len() == 4);
    assert("blue"@[0] == 'b');
    assert("BLUE"@.len() == 4);
    assert("BLUE"@[0] == 'B');
    assert("teal"@.len() == 4);
    assert("teal"@[0] == 't');
    assert("TEAL"@.len() == 4);
    assert("TEAL"@[0] == 'T');
    assert("rose"@.len() == 4);
    assert("rose"@[0] == 'r');
    assert("ROSE"@.len() == 4);
    assert("ROSE"@[0] == 'R');
    assert("stone"@.len() == 5);
    assert("stone"@[0] == 's');
    assert("STONE"@.len() == 5);
    assert("STONE"@[0] == 'S');
}

/// Toggling a colour filter returns to the first section, entry and grid row; it
/// turns an absent or different filter into `color`, so that only sections of that
/// colour are listed, and the same colour toggled again turns the filter off.
pub proof fn law_toggle_filter(s: FieldGuideState, color: String)
    requires
        s.data.sections@.len() <= usize::MAX,
    ensures
        s.after_toggle_filter(color).selected_section_idx == 0,
        s.after_toggle_filter(color).selected_entry_idx == 0,
        s.after_toggle_filter(color).scroll_offset == 0,
        s.after_toggle_filter(color).data == s.data,
        s.after_toggle_filter(color).viewing_details == s.viewing_details,
        !(s.active_filter matches Some(d) && d@ == color@) ==> {
            &&& s.after_toggle_filter(color).active_filter == Some(color)
            &&& s.after_toggle_filter(color).after_toggle_filter(color).active_filter is None
            &&& forall|k: int|
                0 <= k < s.after_toggle_filter(color).filtered().len()
                    ==> s.data.sections@[#[trigger] s.after_toggle_filter(color).filtered()[k] as int].color@
                    == color@
        },
        (s.active_filter matches Some(d) && d@ == color@) ==> s.after_toggle_filter(color).active_filter is None,
{
    let t = s.after_toggle_filter(color);
    lemma_matching_below(t.data.sections@, t.active_filter, t.data.sections@.len());
}

/// The palette keys, by the key pressed: Esc closes the palette and keeps what was
/// typed; Enter closes it too and changes neither the guide nor the sanctuary;
/// Backspace removes the last typed character, if any; other keys that are not
/// characters change nothing.
pub proof fn law_palette_keys(app: crate::state::AppState, key: KeyEvent, post: crate::state::AppState)
    requires
        app.show_command_palette,
        applied(app, key_action(app, key), post),
    ensures
        key.code == KeyCode::Esc ==> !post.show_command_palette && post.command_input == app.command_input
            && post.current_view == app.current_view && post.field_guide == app.field_guide
            && post.sanctuary == app.sanctuary,
        key.code == KeyCode::Enter ==> !post.show_command_palette && post.command_input == app.command_input
            && post.field_guide == app.field_guide && post.sanctuary == app.sanctuary,
        key.code == KeyCode::Backspace ==> post.show_command_palette && post.current_view == app.current_view
            && (app.command_input@.len() > 0 ==> post.command_input@ == app.command_input@.subrange(
            0,
            app.command_input@.len() - 1,
        )) && (app.command_input@.len() == 0 ==> post.command_input@.len() == 0),
        (key.code == KeyCode::Tab || key.code == KeyCode::Left || key.code == KeyCode::Other) ==> post == app,
{
}

/// The keys with the palette closed: ':' alone opens the palette with an empty
/// input; in the guide, Enter shows or hides the entry details and '0' removes the
/// colour filter; in the sanctuary, Enter expands the selected record, or collapses
/// it when it is the expanded one, while a program is active.
pub proof fn law_view_keys(app: crate::state::AppState, key: KeyEvent, post: crate::state::AppState)
    requires
        !app.show_command_palette,
        applied(app, key_action(app, key), post),
    ensures
        (key.code == KeyCode::Char(':') && key.modifiers.bits == 0) ==> post.show_command_palette
            && post.command_input@.len() == 0 && post.current_view == app.current_view
            && post.field_guide == app.field_guide && post.sanctuary == app.sanctuary,
        (key.code == KeyCode::Char(':') && key.modifiers.bits != 0) ==> !post.show_command_palette,
        (app.current_view == View::FieldGuide && key.code == KeyCode::Enter) ==> post.field_guide.viewing_details
            == !app.field_guide.viewing_details && post.field_guide.selected_section_idx
            == app.field_guide.selected_section_idx && post.field_guide.selected_entry_idx
            == app.field_guide.selected_entry_idx && post.field_guide.active_filter == app.field_guide.active_filter,
        (app.current_view == View::FieldGuide && key.code == KeyCode::Char('0')) ==> post.field_guide.active_filter is None
            && post.field_guide.selected_section_idx == app.field_guide.selected_section_idx,
        (app.current_view == View::GlitchSanctuary && key.code == KeyCode::Enter
            && app.sanctuary.active_program_idx < app.sanctuary.data.programs@.len()) ==> {
            &&& app.sanctuary.expanded_record_idx == Some(app.sanctuary.selected_record_idx)
                ==> post.sanctuary.expanded_record_idx is None
            &&& app.sanctuary.expanded_record_idx != Some(app.sanctuary.selected_record_idx)
                ==> post.sanctuary.expanded_record_idx == Some(app.sanctuary.selected_record_idx)
            &&& post.sanctuary.selected_record_idx == app.sanctuary.selected_record_idx
        },
        (app.current_view == View::GlitchSanctuary && key.code == KeyCode::Enter
            && app.sanctuary.active_program_idx >= app.sanctuary.data.programs@.len()) ==> post == app,
{
}

/// The command palette is centred: the space left of it and the space right of it
/// differ by at most one cell, and it sits at the edge when the screen is smaller.
pub proof fn law_palette_is_centred(total: int, size: int)
    requires
        size >= 0,
    ensures
        total >= size ==> {
            let x = centred(total, size);
            &&& x >= 0
            &&& x <= total - size - x <= x + 1
        },
        total < size ==> centred(total, size) == 0,
{
}

/// The four record statuses are told apart on screen: each has its own colour and
/// its own mark; operational records are green and critical ones red.
pub proof fn law_statuses_are_distinguished(a: RecordStatus, b: RecordStatus)
    ensures
        a != b ==> status_color(a) != status_color(b),
        a != b ==> status_mark(a) != status_mark(b),
        a != b ==> a.name() != b.name(),
        status_color(RecordStatus::Operational) == Color::Green,
        status_color(RecordStatus::Critical) == Color::Red,
{
    reveal_strlit("OPERATIONAL");
    reveal_strlit("CAUTION");
    reveal_strlit("DEGRADED");
    reveal_strlit("CRITICAL");
    assert("OPERATIONAL"@.len() == 11);
    assert("CAUTION"@.len() == 7);
    assert("DEGRADED"@.len() == 8);
    assert("CRITICAL"@.len() == 8);
    assert("DEGRADED"@[0] == 'D');
    assert("CRITICAL"@[0] == 'C');
}

/// A new guide state selects the first section and lists every section: with no
/// filter, every section passes, so the selection is visible whenever there is a
/// section.
pub proof fn law_initial_guide_lists_everything(data: FieldGuideData, i: int)
    requires
        data.sections@.len() <= usize::MAX,
        0 <= i < data.sections@.len(),
    ensures
        FieldGuideState::initial(data).selection_visible(),
        FieldGuideState::initial(data).filtered().len() == data.sections@.len(),
        FieldGuideState::initial(data).filtered()[i] == i,
{
    lemma_all_pass(data.sections@, data.sections@.len());
}

/// With no filter, the passing indices below `n` are 0 to n - 1.
proof fn lemma_all_pass(sections: Seq<crate::models::Section>, n: nat)
    requires
        n <= sections.len(),
        sections.len() <= usize::MAX,
    ensures
        crate::state::matching_below(sections, None, n).len() == n,
        forall|i: int| 0 <= i < n ==> #[trigger] crate::state::matching_below(sections, None, n)[i] == i,
    decreases n,
{
    if n > 0 {
        lemma_all_pass(sections, (n - 1) as nat);
    }
}

} // verus!
