use evan_tui::models::{
    Entry, FieldGuideData, GlitchSanctuaryData, Meta, Metrics, Program, Record, RecordStatus,
    SanctuaryMeta, Section,
};
use evan_tui::state::{FieldGuideState, SanctuaryState};

fn entry(pattern: &str) -> Entry {
    Entry {
        pattern: pattern.to_string(),
        description: format!("{} description", pattern),
        signals: vec!["signal".to_string()],
        protocol: "protocol".to_string(),
    }
}

fn section(id: &str, color: &str, entries: usize) -> Section {
    Section {
        id: id.to_string(),
        title: id.to_uppercase(),
        icon: "scan".to_string(),
        color: color.to_string(),
        entries: (0..entries).map(|i| entry(&format!("{}-{}", id, i))).collect(),
    }
}

fn guide(colors: &[&str]) -> FieldGuideData {
    FieldGuideData {
        meta: Meta {
            title: "Evan's Day Field Guide".to_string(),
            subtitle: "sub".to_string(),
            version: "1.2".to_string(),
            context: "ctx".to_string(),
            date: "2025-10-18".to_string(),
        },
        sections: colors
            .iter()
            .enumerate()
            .map(|(i, c)| section(&format!("s{}", i), c, 2))
            .collect(),
    }
}

fn record(id: &str, status: RecordStatus) -> Record {
    Record {
        id: id.to_string(),
        name: format!("record {}", id),
        description: "desc".to_string(),
        steps: vec!["one".to_string(), "two".to_string()],
        status,
    }
}

fn sanctuary(record_counts: &[usize]) -> GlitchSanctuaryData {
    GlitchSanctuaryData {
        meta: SanctuaryMeta {
            title: "Glitch Sanctuary Protocols".to_string(),
            subtitle: "sub".to_string(),
            version: "0.9".to_string(),
            status: "UNSTABLE".to_string(),
        },
        metrics: Metrics {
            focus: 68,
            energy: 42,
            stability: 55,
            creativity: 80,
            last_reset: "yesterday".to_string(),
        },
        programs: record_counts
            .iter()
            .enumerate()
            .map(|(p, n)| Program {
                id: format!("p{}", p),
                title: format!("Program {}", p),
                icon: "cpu".to_string(),
                color: "cyan".to_string(),
                records: (0..*n)
                    .map(|r| record(&format!("p{}-r{}", p, r), RecordStatus::Operational))
                    .collect(),
            })
            .collect(),
    }
}

#[test]
fn test_field_guide_loading() {
    let data = guide(&["cyan", "purple", "green"]);
    let state = FieldGuideState::new(data.clone());
    assert_eq!(state.data.sections, data.sections);
    assert_eq!(state.data.meta, data.meta);
    assert_eq!(state.selected_section_idx, 0);
    assert_eq!(state.selected_entry_idx, 0);
    assert_eq!(state.active_filter, None);
    assert!(!state.viewing_details);
    assert_eq!(state.scroll_offset, 0);
    assert_eq!(state.filtered_sections(), vec![0, 1, 2]);
    assert_eq!(state.current_section().unwrap().id, "s0");
    assert_eq!(state.current_entry().unwrap().pattern, "s0-0");
}

#[test]
fn test_sanctuary_loading() {
    let data = sanctuary(&[2, 3]);
    let state = SanctuaryState::new(data.clone());
    assert_eq!(state.data.programs.len(), 2);
    assert_eq!(state.data.metrics.focus, 68);
    assert_eq!(state.active_program_idx, 0);
    assert_eq!(state.selected_record_idx, 0);
    assert_eq!(state.expanded_record_idx, None);
    assert_eq!(state.record_scroll_offset, 0);
    assert_eq!(state.current_program().unwrap().id, "p0");
    assert_eq!(state.current_record().unwrap().id, "p0-r0");
}

#[test]
fn filtered_sections_keeps_matching_colours_in_order() {
    let mut state = FieldGuideState::new(guide(&["cyan", "green", "cyan", "rose", "cyan"]));
    state.active_filter = Some("cyan".to_string());
    assert_eq!(state.filtered_sections(), vec![0, 2, 4]);
    state.active_filter = Some("amber".to_string());
    assert_eq!(state.filtered_sections(), Vec::<usize>::new());
    state.active_filter = None;
    assert_eq!(state.filtered_sections(), vec![0, 1, 2, 3, 4]);
}

#[test]
fn next_and_prev_section_skip_filtered_out_sections() {
    let mut state = FieldGuideState::new(guide(&["cyan", "green", "cyan", "rose", "cyan"]));
    state.toggle_filter("cyan".to_string());
    assert_eq!(state.active_filter, Some("cyan".to_string()));
    state.selected_entry_idx = 1;
    state.next_section();
    assert_eq!(state.selected_section_idx, 2);
    assert_eq!(state.selected_entry_idx, 0);
    state.next_section();
    assert_eq!(state.selected_section_idx, 4);
    state.next_section();
    assert_eq!(state.selected_section_idx, 4);
    state.prev_section();
    assert_eq!(state.selected_section_idx, 2);
    state.prev_section();
    state.prev_section();
    assert_eq!(state.selected_section_idx, 0);
}

#[test]
fn section_moves_do_nothing_when_selection_is_filtered_out() {
    let mut state = FieldGuideState::new(guide(&["cyan", "green", "cyan"]));
    state.active_filter = Some("cyan".to_string());
    state.selected_section_idx = 1;
    state.selected_entry_idx = 1;
    state.next_section();
    assert_eq!(state.selected_section_idx, 1);
    assert_eq!(state.selected_entry_idx, 1);
    state.prev_section();
    assert_eq!(state.selected_section_idx, 1);
    state.selected_section_idx = 7;
    state.next_section();
    assert_eq!(state.selected_section_idx, 7);
    assert!(state.current_section().is_none());
    assert!(state.current_entry().is_none());
}

#[test]
fn entries_move_within_the_section() {
    let mut state = FieldGuideState::new(guide(&["cyan"]));
    state.prev_entry();
    assert_eq!(state.selected_entry_idx, 0);
    state.next_entry();
    assert_eq!(state.selected_entry_idx, 1);
    assert_eq!(state.current_entry().unwrap().pattern, "s0-1");
    state.next_entry();
    assert_eq!(state.selected_entry_idx, 1);
    state.prev_entry();
    assert_eq!(state.selected_entry_idx, 0);
    state.selected_section_idx = 3;
    state.next_entry();
    assert_eq!(state.selected_entry_idx, 0);
}

#[test]
fn toggle_filter_twice_turns_it_off_and_resets_position() {
    let mut state = FieldGuideState::new(guide(&["cyan", "green", "cyan", "green"]));
    state.selected_section_idx = 2;
    state.selected_entry_idx = 1;
    state.scroll_offset = 1;
    state.viewing_details = true;
    state.toggle_filter("green".to_string());
    assert_eq!(state.active_filter, Some("green".to_string()));
    assert_eq!(state.selected_section_idx, 0);
    assert_eq!(state.selected_entry_idx, 0);
    assert_eq!(state.scroll_offset, 0);
    assert!(state.viewing_details);
    state.toggle_filter("cyan".to_string());
    assert_eq!(state.active_filter, Some("cyan".to_string()));
    state.toggle_filter("cyan".to_string());
    assert_eq!(state.active_filter, None);
}

#[test]
fn scrolling_stays_inside_the_rows() {
    let mut state = FieldGuideState::new(guide(&["a", "b", "c", "d", "e", "f", "g"]));
    assert_eq!(state.visible_sections(), vec![0, 1, 2]);
    state.scroll_up();
    assert_eq!(state.scroll_offset, 0);
    state.scroll_down();
    assert_eq!(state.scroll_offset, 1);
    assert_eq!(state.visible_sections(), vec![3, 4, 5]);
    state.scroll_down();
    assert_eq!(state.scroll_offset, 2);
    assert_eq!(state.visible_sections(), vec![6]);
    state.scroll_down();
    assert_eq!(state.scroll_offset, 2);
    state.scroll_offset = 3;
    assert_eq!(state.visible_sections(), Vec::<usize>::new());
    state.scroll_offset = usize::MAX;
    assert_eq!(state.visible_sections(), Vec::<usize>::new());
    state.scroll_up();
    assert_eq!(state.scroll_offset, usize::MAX - 1);
}

#[test]
fn scrolling_an_empty_grid_does_nothing() {
    let mut state = FieldGuideState::new(guide(&[]));
    state.scroll_down();
    assert_eq!(state.scroll_offset, 0);
    assert_eq!(state.visible_sections(), Vec::<usize>::new());
    assert!(state.current_section().is_none());
}

#[test]
fn programs_and_records_move_within_bounds() {
    let mut state = SanctuaryState::new(sanctuary(&[3, 1]));
    state.next_record();
    state.next_record();
    assert_eq!(state.selected_record_idx, 2);
    state.next_record();
    assert_eq!(state.selected_record_idx, 2);
    state.scroll_records_down();
    state.scroll_records_down();
    state.scroll_records_down();
    assert_eq!(state.record_scroll_offset, 2);
    state.next_program();
    assert_eq!(state.active_program_idx, 1);
    assert_eq!(state.selected_record_idx, 0);
    assert_eq!(state.record_scroll_offset, 0);
    state.next_program();
    assert_eq!(state.active_program_idx, 1);
    state.next_record();
    assert_eq!(state.selected_record_idx, 0);
    state.prev_program();
    assert_eq!(state.active_program_idx, 0);
    state.prev_program();
    assert_eq!(state.active_program_idx, 0);
    state.prev_record();
    assert_eq!(state.selected_record_idx, 0);
    state.scroll_records_up();
    assert_eq!(state.record_scroll_offset, 0);
}

#[test]
fn record_details_toggle() {
    let mut state = SanctuaryState::new(sanctuary(&[3]));
    state.toggle_record_details(1);
    assert_eq!(state.expanded_record_idx, Some(1));
    state.toggle_record_details(2);
    assert_eq!(state.expanded_record_idx, Some(2));
    state.toggle_record_details(2);
    assert_eq!(state.expanded_record_idx, None);
    state.toggle_record_details(0);
    state.toggle_record_details(0);
    assert_eq!(state.expanded_record_idx, None);
}

#[test]
fn reset_scroll_offset_only_resets_the_scroll() {
    let mut state = SanctuaryState::new(sanctuary(&[3]));
    state.record_scroll_offset = 2;
    state.selected_record_idx = 1;
    state.reset_scroll_offset();
    assert_eq!(state.record_scroll_offset, 0);
    assert_eq!(state.selected_record_idx, 1);
}

#[test]
fn current_program_mut_edits_the_active_program() {
    let mut state = SanctuaryState::new(sanctuary(&[1, 2]));
    state.next_program();
    if let Some(p) = state.current_program_mut() {
        p.title = "Renamed".to_string();
    }
    assert_eq!(state.data.programs[1].title, "Renamed");
    assert_eq!(state.data.programs[0].title, "Program 0");
    state.active_program_idx = 5;
    assert!(state.current_program_mut().is_none());
    assert!(state.current_program().is_none());
    assert!(state.current_record().is_none());
}

#[test]
fn sanctuary_with_no_programs() {
    let mut state = SanctuaryState::new(sanctuary(&[]));
    state.next_program();
    state.next_record();
    state.scroll_records_down();
    assert_eq!(state.active_program_idx, 0);
    assert_eq!(state.selected_record_idx, 0);
    assert_eq!(state.record_scroll_offset, 0);
}
