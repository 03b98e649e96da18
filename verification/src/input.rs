//! Keyboard handling: which change of state each key makes, in the palette and in
//! each view, and the commands that the palette runs.
use vstd::prelude::*;

use crate::models::{view_named, View};
use crate::state::{AppState, FieldGuideState, SanctuaryState};
use crate::text::{
    clear_text, lowercase_text, lowercased, pop_char, push_char, same_text, strip_prefix_text, trim_text,
    trimmed,
};
use vstd::view::View as _;

verus! {

/// A key, as far as the handlers tell keys apart.
#[derive(Debug, Clone, Copy, PartialEq, Eq, Structural)]
pub enum KeyCode {
    Backspace,
    Enter,
    Left,
    Right,
    Up,
    Down,
    Tab,
    Esc,
    Char(char),
    /// Any other key.
    Other,
}

/// The modifier keys held with a key, as a bit set: shift 1, control 2, alt 4,
/// super 8, hyper 16, meta 32.
#[derive(Debug, Clone, Copy, PartialEq, Eq, Structural)]
pub struct KeyModifiers {
    pub bits: u8,
}

/// A key press with its modifiers.
#[derive(Debug, Clone, Copy, PartialEq, Eq, Structural)]
pub struct KeyEvent {
    pub code: KeyCode,
    pub modifiers: KeyModifiers,
}

impl KeyModifiers {
    /// The control bit.
    pub open spec fn has_control(self) -> bool {
        self.bits & 2u8 != 0
    }

    /// No modifier is held.
    pub open spec fn none_held(self) -> bool {
        self.bits == 0
    }

    pub fn contains_control(&self) -> (r: bool)
        ensures
            r == self.has_control(),
    {
        self.bits & 2u8 != 0
    }

    pub fn is_empty(&self) -> (r: bool)
        ensures
            r == self.none_held(),
    {
        self.bits == 0
    }
}

/// A move within the Field Guide view.
#[derive(Debug, Clone, Copy, PartialEq, Eq, Structural)]
pub enum GuideMove {
    PrevSection,
    NextSection,
    PrevEntry,
    NextEntry,
    ToggleDetails,
    ClearFilter,
}

/// A move within the Glitch Sanctuary view.
#[derive(Debug, Clone, Copy, PartialEq, Eq, Structural)]
pub enum SanctuaryMove {
    PrevProgram,
    NextProgram,
    PrevRecord,
    NextRecord,
    ToggleRecord,
}

/// What a key does to the application state.
#[derive(Debug, Clone, Copy, PartialEq, Eq, Structural)]
pub enum KeyAction {
    ClosePalette,
    RunCommand,
    DeleteChar,
    ClearInput,
    InsertChar(char),
    OpenPalette,
    NextView,
    Guide(GuideMove),
    Sanctuary(SanctuaryMove),
    Ignore,
}

/// What a key does while the command palette is open.
pub open spec fn palette_action(key: KeyEvent) -> KeyAction {
    match key.code {
        KeyCode::Esc => KeyAction::ClosePalette,
        KeyCode::Enter => KeyAction::RunCommand,
        KeyCode::Backspace => KeyAction::DeleteChar,
        KeyCode::Char(c) => if key.modifiers.has_control() && c == 'u' {
            KeyAction::ClearInput
        } else {
            KeyAction::InsertChar(c)
        },
        _ => KeyAction::Ignore,
    }
}

/// What a key does in the Field Guide view.
pub open spec fn guide_action(key: KeyEvent) -> KeyAction {
    match key.code {
        KeyCode::Left => KeyAction::Guide(GuideMove::PrevSection),
        KeyCode::Right => KeyAction::Guide(GuideMove::NextSection),
        KeyCode::Up => KeyAction::Guide(GuideMove::PrevEntry),
        KeyCode::Down => KeyAction::Guide(GuideMove::NextEntry),
        KeyCode::Enter => KeyAction::Guide(GuideMove::ToggleDetails),
        KeyCode::Char(c) => if c == 'h' {
            KeyAction::Guide(GuideMove::PrevSection)
        } else if c == 'l' {
            KeyAction::Guide(GuideMove::NextSection)
        } else if c == 'k' {
            KeyAction::Guide(GuideMove::PrevEntry)
        } else if c == 'j' {
            KeyAction::Guide(GuideMove::NextEntry)
        } else if c == '0' {
            KeyAction::Guide(GuideMove::ClearFilter)
        } else {
            KeyAction::Ignore
        },
        _ => KeyAction::Ignore,
    }
}

/// What a key does in the Glitch Sanctuary view.
pub open spec fn sanctuary_action(key: KeyEvent) -> KeyAction {
    match key.code {
        KeyCode::Left => KeyAction::Sanctuary(SanctuaryMove::PrevProgram),
        KeyCode::Right => KeyAction::Sanctuary(SanctuaryMove::NextProgram),
        KeyCode::Up => KeyAction::Sanctuary(SanctuaryMove::PrevRecord),
        KeyCode::Down => KeyAction::Sanctuary(SanctuaryMove::NextRecord),
        KeyCode::Enter => KeyAction::Sanctuary(SanctuaryMove::ToggleRecord),
        KeyCode::Char(c) => if c == 'h' {
            KeyAction::Sanctuary(SanctuaryMove::PrevProgram)
        } else if c == 'l' {
            KeyAction::Sanctuary(SanctuaryMove::NextProgram)
        } else if c == 'k' {
            KeyAction::Sanctuary(SanctuaryMove::PrevRecord)
        } else if c == 'j' {
            KeyAction::Sanctuary(SanctuaryMove::NextRecord)
        } else {
            KeyAction::Ignore
        },
        _ => KeyAction::Ignore,
    }
}

/// What a key does while the palette is closed and `view` is shown: ':' alone opens
/// the palette, 'q' alone does nothing here, Tab switches views, and any other key
/// goes to the view.
pub open spec fn view_action(view: View, key: KeyEvent) -> KeyAction {
    if key.code == KeyCode::Char(':') && key.modifiers.none_held() {
        KeyAction::OpenPalette
    } else if key.code == KeyCode::Char('q') && key.modifiers.none_held() {
        KeyAction::Ignore
    } else if key.code == KeyCode::Tab {
        KeyAction::NextView
    } else {
        match view {
            View::FieldGuide => guide_action(key),
            View::GlitchSanctuary => sanctuary_action(key),
        }
    }
}

/// What a key does to the application.
pub open spec fn key_action(app: AppState, key: KeyEvent) -> KeyAction {
    if app.show_command_palette {
        palette_action(key)
    } else {
        view_action(app.current_view, key)
    }
}

/// The view that a normalised command selects: "view " followed by a view name.
/// Every other command selects none ("quit" and "q" end the program instead, see
/// `is_quit`).
pub open spec fn command_target(cmd: Seq<char>) -> Option<View> {
    if cmd.len() >= 5 && cmd.subrange(0, 5) == "view "@ {
        view_named(cmd.subrange(5, cmd.len() as int))
    } else {
        None
    }
}

/// The view after running `cmd` in `view`.
pub open spec fn view_after_command(view: View, cmd: Seq<char>) -> View {
    match command_target(cmd) {
        Some(v) => v,
        None => view,
    }
}

/// The Field Guide state after a move.
pub open spec fn guide_after(s: FieldGuideState, m: GuideMove) -> FieldGuideState {
    match m {
        GuideMove::PrevSection => s.after_prev_section(),
        GuideMove::NextSection => s.after_next_section(),
        GuideMove::PrevEntry => s.after_prev_entry(),
        GuideMove::NextEntry => s.after_next_entry(),
        GuideMove::ToggleDetails => FieldGuideState { viewing_details: !s.viewing_details, ..s },
        GuideMove::ClearFilter => FieldGuideState { active_filter: None, ..s },
    }
}

/// The Glitch Sanctuary state after a move; the selected record is expanded or
/// collapsed only while a program is active.
pub open spec fn sanctuary_after(s: SanctuaryState, m: SanctuaryMove) -> SanctuaryState {
    match m {
        SanctuaryMove::PrevProgram => s.after_prev_program(),
        SanctuaryMove::NextProgram => s.after_next_program(),
        SanctuaryMove::PrevRecord => s.after_prev_record(),
        SanctuaryMove::NextRecord => s.after_next_record(),
        SanctuaryMove::ToggleRecord => if s.active_program_idx < s.data.programs@.len() {
            s.after_toggle_record(s.selected_record_idx)
        } else {
            s
        },
    }
}

/// `post` differs from `pre` at most in the command input.
pub open spec fn same_but_input(pre: AppState, post: AppState) -> bool {
    &&& post.current_view == pre.current_view
    &&& post.field_guide == pre.field_guide
    &&& post.sanctuary == pre.sanctuary
    &&& post.show_command_palette == pre.show_command_palette
}

/// `post` is `pre` after action `a`.
pub open spec fn applied(pre: AppState, a: KeyAction, post: AppState) -> bool {
    match a {
        KeyAction::ClosePalette => post == AppState { show_command_palette: false, ..pre },
        KeyAction::RunCommand => post == AppState {
            show_command_palette: false,
            current_view: view_after_command(
                pre.current_view,
                lowercased(trimmed(pre.command_input@)),
            ),
            ..pre
        },
        KeyAction::DeleteChar => same_but_input(pre, post) && post.command_input@ == (
        if pre.command_input@.len() > 0 {
            pre.command_input@.drop_last()
        } else {
            pre.command_input@
        }),
        KeyAction::ClearInput => same_but_input(pre, post) && post.command_input@ == Seq::<
            char,
        >::empty(),
        KeyAction::InsertChar(c) => same_but_input(pre, post) && post.command_input@
            == pre.command_input@.push(c),
        KeyAction::OpenPalette => {
            &&& post.current_view == pre.current_view
            &&& post.field_guide == pre.field_guide
            &&& post.sanctuary == pre.sanctuary
            &&& post.show_command_palette
            &&& post.command_input@ == Seq::<char>::empty()
        },
        KeyAction::NextView => post == AppState { current_view: pre.current_view.other(), ..pre },
        KeyAction::Guide(m) => post == AppState { field_guide: guide_after(pre.field_guide, m), ..pre },
        KeyAction::Sanctuary(m) => post == AppState {
            sanctuary: sanctuary_after(pre.sanctuary, m),
            ..pre
        },
        KeyAction::Ignore => post == pre,
    }
}

/// Handle a keyboard event: palette keys while the palette is open, view keys otherwise.
pub fn handle_key_event(app: &mut AppState, key: KeyEvent)
    ensures
        applied(*old(app), key_action(*old(app), key), *final(app)),
{
    if app.show_command_palette {
        handle_command_palette_input(app, key);
    } else {
        handle_view_input(app, key);
    }
}

/// Handle a key while the command palette is open.
fn handle_command_palette_input(app: &mut AppState, key: KeyEvent)
    requires
        old(app).show_command_palette,
    ensures
        applied(*old(app), palette_action(key), *final(app)),
{
    match key.code {
        KeyCode::Esc => {
            app.toggle_command_palette();
        },
        KeyCode::Enter => {
            let command = app.command_input.clone();
            process_command(app, command);
            app.toggle_command_palette();
        },
        KeyCode::Backspace => {
            pop_char(&mut app.command_input);
        },
        KeyCode::Char(c) => {
            if key.modifiers.contains_control() && c == 'u' {
                clear_text(&mut app.command_input);
            } else {
                push_char(&mut app.command_input, c);
            }
        },
        _ => {},
    }
}

/// Process a command typed into the palette: it is trimmed and lower-cased, and
/// "view <name>" switches to the named view; anything else changes nothing.
pub fn process_command(app: &mut AppState, command: String)
    ensures
        *final(app) == (AppState {
            current_view: view_after_command(old(app).current_view, lowercased(trimmed(command@))),
            ..*old(app)
        }),
{
    let trimmed_command = trim_text(command.as_str());
    let cmd = lowercase_text(trimmed_command);
    apply_command(app, cmd.as_str());
}

/// Run a trimmed, lower-cased command.
pub fn apply_command(app: &mut AppState, cmd: &str)
    ensures
        *final(app) == (AppState { current_view: view_after_command(old(app).current_view, cmd@), ..*old(app) }),
{
    if let Some(view_cmd) = strip_prefix_text(cmd, "view ") {
        proof {
            reveal_strlit("view ");
        }
        if let Some(view) = View::from_str(view_cmd) {
            app.switch_view(view);
        }
    } else {
        proof {
            reveal_strlit("view ");
        }
    }
}

/// Handle a key while the palette is closed.
fn handle_view_input(app: &mut AppState, key: KeyEvent)
    requires
        !old(app).show_command_palette,
    ensures
        applied(*old(app), view_action(old(app).current_view, key), *final(app)),
{
    match key.code {
        KeyCode::Char(':') if key.modifiers.is_empty() => {
            app.toggle_command_palette();
        },
        KeyCode::Char('q') if key.modifiers.is_empty() => {},
        KeyCode::Tab => {
            match app.current_view {
                View::FieldGuide => app.switch_view(View::GlitchSanctuary),
                View::GlitchSanctuary => app.switch_view(View::FieldGuide),
            }
        },
        _ => {
            match app.current_view {
                View::FieldGuide => handle_field_guide_input(app, key),
                View::GlitchSanctuary => handle_sanctuary_input(app, key),
            }
        },
    }
}

/// Handle a key in the Field Guide view.
fn handle_field_guide_input(app: &mut AppState, key: KeyEvent)
    ensures
        applied(*old(app), guide_action(key), *final(app)),
{
    match key.code {
        KeyCode::Left | KeyCode::Char('h') => {
            app.field_guide.prev_section();
        },
        KeyCode::Right | KeyCode::Char('l') => {
            app.field_guide.next_section();
        },
        KeyCode::Up | KeyCode::Char('k') => {
            app.field_guide.prev_entry();
        },
        KeyCode::Down | KeyCode::Char('j') => {
            app.field_guide.next_entry();
        },
        KeyCode::Enter => {
            app.field_guide.viewing_details = !app.field_guide.viewing_details;
        },
        KeyCode::Char('0') => {
            app.field_guide.active_filter = None;
        },
        _ => {},
    }
}

/// Handle a key in the Glitch Sanctuary view.
fn handle_sanctuary_input(app: &mut AppState, key: KeyEvent)
    ensures
        applied(*old(app), sanctuary_action(key), *final(app)),
{
    match key.code {
        KeyCode::Left | KeyCode::Char('h') => {
            app.sanctuary.prev_program();
        },
        KeyCode::Right | KeyCode::Char('l') => {
            app.sanctuary.next_program();
        },
        KeyCode::Up | KeyCode::Char('k') => {
            app.sanctuary.prev_record();
        },
        KeyCode::Down | KeyCode::Char('j') => {
            app.sanctuary.next_record();
        },
        KeyCode::Enter => {
            if app.sanctuary.current_program().is_some() {
                let idx = app.sanctuary.selected_record_idx;
                app.sanctuary.toggle_record_details(idx);
            }
        },
        _ => {},
    }
}

/// Whether a normalised command asks to quit: "quit" or "q".
pub open spec fn is_quit(cmd: Seq<char>) -> bool {
    cmd == "quit"@ || cmd == "q"@
}

/// Whether a key ends the program: a plain 'q' with the palette closed, or Enter in
/// the palette on a command that, trimmed and lower-cased, is "quit" or "q".
pub open spec fn quits(app: AppState, key: KeyEvent) -> bool {
    ||| key.code == KeyCode::Char('q') && !app.show_command_palette
    ||| app.show_command_palette && key.code == KeyCode::Enter && is_quit(
        lowercased(trimmed(app.command_input@)),
    )
}

/// Whether a trimmed, lower-cased command asks to quit.
pub fn command_quits(cmd: &str) -> (r: bool)
    ensures
        r == is_quit(cmd@),
{
    same_text(cmd, "quit") || same_text(cmd, "q")
}

/// Whether the typed command, trimmed and lower-cased, asks to quit.
pub fn command_input_quits(input: &String) -> (r: bool)
    ensures
        r == is_quit(lowercased(trimmed(input@))),
{
    let trimmed_command = trim_text(input.as_str());
    let cmd = lowercase_text(trimmed_command);
    command_quits(cmd.as_str())
}

/// One turn of the event loop. A plain 'q' with the palette closed quits and changes
/// nothing; any other key is handled, and Enter on a ":quit" or ":q" command
/// closes the palette and quits. Returns whether to quit.
pub fn step(app: &mut AppState, key: KeyEvent) -> (quit: bool)
    ensures
        quit == quits(*old(app), key),
        (key.code == KeyCode::Char('q') && !old(app).show_command_palette) ==> *final(app) == *old(app),
        !(key.code == KeyCode::Char('q') && !old(app).show_command_palette) ==> applied(
            *old(app),
            key_action(*old(app), key),
            *final(app),
        ),
{
    let is_q = match key.code {
        KeyCode::Char(c) => c == 'q',
        _ => false,
    };
    if is_q && !app.show_command_palette {
        return true;
    }
    let is_enter = match key.code {
        KeyCode::Enter => true,
        _ => false,
    };
    let quit_command = app.show_command_palette && is_enter && command_input_quits(&app.command_input);
    handle_key_event(app, key);
    quit_command
}

} // verus!
