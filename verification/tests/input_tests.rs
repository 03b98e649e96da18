use evan_tui::input::{
    apply_command, command_input_quits, command_quits, handle_key_event, process_command, step, KeyCode,
    KeyEvent, KeyModifiers,
};
use evan_tui::models::{
    Entry, FieldGuideData, GlitchSanctuaryData, Meta, Metrics, Program, Record, RecordStatus,
    SanctuaryMeta, Section, View,
};
use evan_tui::state::AppState;

fn plain(code: KeyCode) -> KeyEvent {
    KeyEvent { code, modifiers: KeyModifiers { bits: 0 } }
}

fn ctrl(code: KeyCode) -> KeyEvent {
    KeyEvent { code, modifiers: KeyModifiers { bits: 2 } }
}

fn app() -> AppState {
    let sections = ["cyan", "green", "cyan"]
        .iter()
        .enumerate()
        .map(|(i, c)| Section {
            id: format!("s{}", i),
            title: format!("Section {}", i),
            icon: "scan".to_string(),
            color: c.to_string(),
            entries: vec![
                Entry {
                    pattern: "a".to_string(),
                    description: "d".to_string(),
                    signals: vec![],
                    protocol: "p".to_string(),
                },
                Entry {
                    pattern: "b".to_string(),
                    description: "d".to_string(),
                    signals: vec![],
                    protocol: "p".to_string(),
                },
            ],
        })
        .collect();
    let guide = FieldGuideData {
        meta: Meta {
            title: "t".to_string(),
            subtitle: "s".to_string(),
            version: "v".to_string(),
            context: "c".to_string(),
            date: "d".to_string(),
        },
        sections,
    };
    let programs = (0..2)
        .map(|p| Program {
            id: format!("p{}", p),
            title: format!("P{}", p),
            icon: "i".to_string(),
            color: "teal".to_string(),
            records: (0..2)
                .map(|r| Record {
                    id: format!("r{}", r),
                    name: "n".to_string(),
                    description: "d".to_string(),
                    steps: vec![],
                    status: RecordStatus::Caution,
                })
                .collect(),
        })
        .collect();
    let sanctuary = GlitchSanctuaryData {
        meta: SanctuaryMeta {
            title: "t".to_string(),
            subtitle: "s".to_string(),
            version: "v".to_string(),
            status: "CAUTION".to_string(),
        },
        metrics: Metrics {
            focus: 1,
            energy: 2,
            stability: 3,
            creativity: 4,
            last_reset: "x".to_string(),
        },
        programs,
    };
    AppState::new(guide, sanctuary)
}

fn type_text(app: &mut AppState, text: &str) {
    for c in text.chars() {
        handle_key_event(app, plain(KeyCode::Char(c)));
    }
}

#[test]
fn new_app_starts_in_the_guide_with_palette_closed() {
    let app = app();
    assert_eq!(app.current_view, View::FieldGuide);
    assert!(!app.show_command_palette);
    assert_eq!(app.command_input, "");
    assert_eq!(app.field_guide.selected_section_idx, 0);
    assert_eq!(app.sanctuary.active_program_idx, 0);
}

#[test]
fn tab_switches_between_the_views() {
    let mut app = app();
    handle_key_event(&mut app, plain(KeyCode::Tab));
    assert_eq!(app.current_view, View::GlitchSanctuary);
    handle_key_event(&mut app, plain(KeyCode::Tab));
    assert_eq!(app.current_view, View::FieldGuide);
}

#[test]
fn colon_opens_the_palette_with_empty_input() {
    let mut app = app();
    app.command_input = "stale".to_string();
    handle_key_event(&mut app, plain(KeyCode::Char(':')));
    assert!(app.show_command_palette);
    assert_eq!(app.command_input, "");
    handle_key_event(&mut app, plain(KeyCode::Esc));
    assert!(!app.show_command_palette);
}

#[test]
fn colon_with_a_modifier_does_not_open_the_palette() {
    let mut app = app();
    handle_key_event(&mut app, ctrl(KeyCode::Char(':')));
    assert!(!app.show_command_palette);
}

#[test]
fn palette_editing_keys() {
    let mut app = app();
    handle_key_event(&mut app, plain(KeyCode::Char(':')));
    type_text(&mut app, "viex");
    assert_eq!(app.command_input, "viex");
    handle_key_event(&mut app, plain(KeyCode::Backspace));
    assert_eq!(app.command_input, "vie");
    handle_key_event(&mut app, ctrl(KeyCode::Char('u')));
    assert_eq!(app.command_input, "");
    handle_key_event(&mut app, plain(KeyCode::Backspace));
    assert_eq!(app.command_input, "");
    handle_key_event(&mut app, plain(KeyCode::Tab));
    assert_eq!(app.command_input, "");
    assert_eq!(app.current_view, View::FieldGuide);
    handle_key_event(&mut app, plain(KeyCode::Char('u')));
    assert_eq!(app.command_input, "u");
}

#[test]
fn enter_runs_the_command_and_closes_the_palette() {
    let mut app = app();
    handle_key_event(&mut app, plain(KeyCode::Char(':')));
    type_text(&mut app, "  VIEW Sanctuary ");
    handle_key_event(&mut app, plain(KeyCode::Enter));
    assert!(!app.show_command_palette);
    assert_eq!(app.current_view, View::GlitchSanctuary);
    assert_eq!(app.command_input, "  VIEW Sanctuary ");
}

#[test]
fn process_command_switches_views() {
    let mut app = app();
    process_command(&mut app, "view glitch-sanctuary".to_string());
    assert_eq!(app.current_view, View::GlitchSanctuary);
    process_command(&mut app, "\tView GUIDE\n".to_string());
    assert_eq!(app.current_view, View::FieldGuide);
    process_command(&mut app, "view  sanctuary".to_string());
    assert_eq!(app.current_view, View::FieldGuide);
    process_command(&mut app, "help".to_string());
    process_command(&mut app, "quit".to_string());
    process_command(&mut app, "view".to_string());
    process_command(&mut app, "".to_string());
    assert_eq!(app.current_view, View::FieldGuide);
}

#[test]
fn apply_command_takes_the_normalised_command() {
    let mut app = app();
    apply_command(&mut app, "view sanctuary");
    assert_eq!(app.current_view, View::GlitchSanctuary);
    apply_command(&mut app, "VIEW guide");
    assert_eq!(app.current_view, View::GlitchSanctuary);
    apply_command(&mut app, "view field-guide");
    assert_eq!(app.current_view, View::FieldGuide);
}

#[test]
fn guide_keys_move_the_selection() {
    let mut app = app();
    handle_key_event(&mut app, plain(KeyCode::Char('l')));
    assert_eq!(app.field_guide.selected_section_idx, 1);
    handle_key_event(&mut app, plain(KeyCode::Right));
    assert_eq!(app.field_guide.selected_section_idx, 2);
    handle_key_event(&mut app, plain(KeyCode::Char('h')));
    assert_eq!(app.field_guide.selected_section_idx, 1);
    handle_key_event(&mut app, plain(KeyCode::Down));
    assert_eq!(app.field_guide.selected_entry_idx, 1);
    handle_key_event(&mut app, plain(KeyCode::Char('k')));
    assert_eq!(app.field_guide.selected_entry_idx, 0);
    handle_key_event(&mut app, plain(KeyCode::Char('j')));
    assert_eq!(app.field_guide.selected_entry_idx, 1);
    handle_key_event(&mut app, plain(KeyCode::Left));
    assert_eq!(app.field_guide.selected_section_idx, 0);
    assert_eq!(app.field_guide.selected_entry_idx, 0);
    handle_key_event(&mut app, plain(KeyCode::Enter));
    assert!(app.field_guide.viewing_details);
    handle_key_event(&mut app, plain(KeyCode::Enter));
    assert!(!app.field_guide.viewing_details);
    assert_eq!(app.sanctuary.active_program_idx, 0);
}

#[test]
fn zero_clears_the_filter_and_f_does_nothing() {
    let mut app = app();
    app.field_guide.toggle_filter("cyan".to_string());
    handle_key_event(&mut app, plain(KeyCode::Char('f')));
    assert_eq!(app.field_guide.active_filter, Some("cyan".to_string()));
    handle_key_event(&mut app, plain(KeyCode::Char('l')));
    assert_eq!(app.field_guide.selected_section_idx, 2);
    handle_key_event(&mut app, plain(KeyCode::Char('0')));
    assert_eq!(app.field_guide.active_filter, None);
    assert_eq!(app.field_guide.selected_section_idx, 2);
}

#[test]
fn sanctuary_keys_move_the_selection() {
    let mut app = app();
    handle_key_event(&mut app, plain(KeyCode::Tab));
    handle_key_event(&mut app, plain(KeyCode::Char('j')));
    assert_eq!(app.sanctuary.selected_record_idx, 1);
    handle_key_event(&mut app, plain(KeyCode::Enter));
    assert_eq!(app.sanctuary.expanded_record_idx, Some(1));
    handle_key_event(&mut app, plain(KeyCode::Enter));
    assert_eq!(app.sanctuary.expanded_record_idx, None);
    handle_key_event(&mut app, plain(KeyCode::Up));
    assert_eq!(app.sanctuary.selected_record_idx, 0);
    handle_key_event(&mut app, plain(KeyCode::Char('l')));
    assert_eq!(app.sanctuary.active_program_idx, 1);
    handle_key_event(&mut app, plain(KeyCode::Left));
    assert_eq!(app.sanctuary.active_program_idx, 0);
    handle_key_event(&mut app, plain(KeyCode::Other));
    assert_eq!(app.sanctuary.active_program_idx, 0);
    assert_eq!(app.field_guide.selected_section_idx, 0);
}

#[test]
fn enter_in_sanctuary_without_active_program_expands_nothing() {
    let mut app = app();
    app.current_view = View::GlitchSanctuary;
    app.sanctuary.active_program_idx = 9;
    handle_key_event(&mut app, plain(KeyCode::Enter));
    assert_eq!(app.sanctuary.expanded_record_idx, None);
}

#[test]
fn q_quits_only_with_the_palette_closed() {
    let mut app = app();
    assert!(step(&mut app, plain(KeyCode::Char('q'))));
    assert!(step(&mut app, ctrl(KeyCode::Char('q'))));
    assert!(!step(&mut app, plain(KeyCode::Char(':'))));
    assert!(app.show_command_palette);
    assert!(!step(&mut app, plain(KeyCode::Char('q'))));
    assert_eq!(app.command_input, "q");
    assert!(step(&mut app, plain(KeyCode::Enter)));
    assert!(!app.show_command_palette);
    assert_eq!(app.current_view, View::FieldGuide);
}

#[test]
fn plain_q_in_the_view_handler_changes_nothing() {
    let mut app = app();
    handle_key_event(&mut app, plain(KeyCode::Char('q')));
    assert_eq!(app.current_view, View::FieldGuide);
    assert!(!app.show_command_palette);
    assert_eq!(app.field_guide.selected_section_idx, 0);
}

#[test]
fn modifier_helpers() {
    assert!(KeyModifiers { bits: 2 }.contains_control());
    assert!(KeyModifiers { bits: 3 }.contains_control());
    assert!(!KeyModifiers { bits: 1 }.contains_control());
    assert!(KeyModifiers { bits: 0 }.is_empty());
    assert!(!KeyModifiers { bits: 4 }.is_empty());
}

#[test]
fn commands_are_trimmed_of_unicode_white_space() {
    let mut app = app();
    process_command(&mut app, "\u{3000}view sanctuary\u{a0}".to_string());
    assert_eq!(app.current_view, View::GlitchSanctuary);
}

#[test]
fn keys_never_change_the_loaded_data() {
    let mut app = app();
    let sections = app.field_guide.data.sections.clone();
    let programs_before: Vec<String> = app.sanctuary.data.programs.iter().map(|p| p.id.clone()).collect();
    let keys = [
        plain(KeyCode::Char('l')),
        plain(KeyCode::Char('j')),
        plain(KeyCode::Enter),
        plain(KeyCode::Tab),
        plain(KeyCode::Char('l')),
        plain(KeyCode::Enter),
        plain(KeyCode::Char(':')),
        plain(KeyCode::Char('x')),
        plain(KeyCode::Enter),
    ];
    for k in keys {
        handle_key_event(&mut app, k);
    }
    assert_eq!(app.field_guide.data.sections, sections);
    let programs_after: Vec<String> = app.sanctuary.data.programs.iter().map(|p| p.id.clone()).collect();
    assert_eq!(programs_after, programs_before);
    assert_eq!(app.sanctuary.data.metrics.focus, 1);
}

#[test]
fn quit_command_exits() {
    let mut app = app();
    assert!(!step(&mut app, plain(KeyCode::Char(':'))));
    for c in "quit".chars() {
        assert!(!step(&mut app, plain(KeyCode::Char(c))));
    }
    assert!(step(&mut app, plain(KeyCode::Enter)));
    assert!(!app.show_command_palette);
    assert_eq!(app.current_view, View::FieldGuide);
}

#[test]
fn short_and_shouted_quit_commands_exit() {
    let mut app = app();
    step(&mut app, plain(KeyCode::Char(':')));
    step(&mut app, plain(KeyCode::Char('q')));
    assert!(step(&mut app, plain(KeyCode::Enter)));
    step(&mut app, plain(KeyCode::Char(':')));
    for c in " QUIT ".chars() {
        step(&mut app, plain(KeyCode::Char(c)));
    }
    assert!(step(&mut app, plain(KeyCode::Enter)));
}

#[test]
fn other_commands_do_not_exit() {
    let mut app = app();
    step(&mut app, plain(KeyCode::Char(':')));
    for c in "quitx".chars() {
        step(&mut app, plain(KeyCode::Char(c)));
    }
    assert!(!step(&mut app, plain(KeyCode::Enter)));
    step(&mut app, plain(KeyCode::Char(':')));
    for c in "view sanctuary".chars() {
        step(&mut app, plain(KeyCode::Char(c)));
    }
    assert!(!step(&mut app, plain(KeyCode::Enter)));
    assert_eq!(app.current_view, View::GlitchSanctuary);
    step(&mut app, plain(KeyCode::Char(':')));
    for c in "quit".chars() {
        step(&mut app, plain(KeyCode::Char(c)));
    }
    assert!(!step(&mut app, plain(KeyCode::Esc)));
}

#[test]
fn command_quit_helpers() {
    assert!(command_quits("quit"));
    assert!(command_quits("q"));
    assert!(!command_quits("QUIT"));
    assert!(!command_quits("quit "));
    assert!(command_input_quits(&"  QuIt\t".to_string()));
    assert!(!command_input_quits(&"help".to_string()));
}
