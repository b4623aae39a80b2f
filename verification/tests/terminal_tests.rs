use mica_term::terminal_contracts::{TerminalCellState, TerminalRowState, TerminalSurfaceState, TerminalViewportSelectionRange};
use mica_term::terminal_runtime::{
    extract_current_working_directory_from_osc7, negotiated_terminal_environment, visible_lines_from_rows,
    TerminalRuntimeDefaults, TerminalViewportMetrics, ThemeMode, ThemeVariant, DEFAULT_TERMINAL_COLS,
    DEFAULT_TERMINAL_ROWS, DEFAULT_TERMINAL_SCROLLBACK_LINES,
};

fn outer_empty_rows() -> Vec<TerminalRowState> {
    vec![
        TerminalRowState { index: 0, text: String::new(), wrapped: false },
        TerminalRowState { index: 1, text: "top".into(), wrapped: false },
        TerminalRowState { index: 2, text: String::new(), wrapped: false },
        TerminalRowState { index: 3, text: "bottom".into(), wrapped: false },
        TerminalRowState { index: 4, text: String::new(), wrapped: false },
    ]
}

#[test]
fn runtime_visible_lines_from_rows_trims_only_outer_empty_rows() {
    let rows = outer_empty_rows();
    assert_eq!(visible_lines_from_rows(&rows), vec!["top".to_string(), String::new(), "bottom".to_string()]);
}

#[test]
fn terminal_visible_lines_from_rows_trims_only_outer_empty_rows() {
    let rows = outer_empty_rows();
    assert_eq!(visible_lines_from_rows(&rows), vec!["top".to_string(), String::new(), "bottom".to_string()]);
}

#[test]
fn visible_lines_of_blank_rows_are_empty() {
    let rows = vec![TerminalRowState { index: 0, text: String::new(), wrapped: false }];
    assert!(visible_lines_from_rows(&rows).is_empty());
}

#[test]
fn terminal_runtime_defaults_store_clamps_scrollback_to_positive_values() {
    let mut defaults = TerminalRuntimeDefaults::default();
    assert_eq!(defaults.scrollback_lines(), DEFAULT_TERMINAL_SCROLLBACK_LINES);
    defaults.set_scrollback_lines(3000);
    assert_eq!(defaults.scrollback_lines(), 3000);
    defaults.set_scrollback_lines(0);
    assert_eq!(defaults.scrollback_lines(), 1);
}

#[test]
fn terminal_runtime_defaults_store_theme_mode_and_variant() {
    let mut defaults = TerminalRuntimeDefaults::default();
    assert_eq!(defaults.theme_mode(), ThemeMode::Dark);
    assert_eq!(defaults.theme_variant(), ThemeVariant::PremiumDefault);
    defaults.set_theme(ThemeMode::Light, ThemeVariant::LegacyHackerGreen);
    assert_eq!(defaults.theme_mode(), ThemeMode::Light);
    assert_eq!(defaults.theme_variant(), ThemeVariant::LegacyHackerGreen);
}

#[test]
fn terminal_runtime_defaults_store_live_terminal_viewport_contract() {
    let mut defaults = TerminalRuntimeDefaults::default();
    assert_eq!(defaults.viewport_rows(), DEFAULT_TERMINAL_ROWS);
    assert_eq!(defaults.viewport_cols(), DEFAULT_TERMINAL_COLS);
    assert_eq!(defaults.viewport_pixel_width(), (DEFAULT_TERMINAL_COLS * 8) as u32);
    assert_eq!(defaults.viewport_pixel_height(), (DEFAULT_TERMINAL_ROWS * 16) as u32);
    assert_eq!(defaults.viewport_dpi(), 96);

    let viewport = TerminalViewportMetrics::new(1584, 1056, 144);
    defaults.set_viewport_metrics(48, 132, viewport);
    assert_eq!(defaults.viewport_rows(), 48);
    assert_eq!(defaults.viewport_cols(), 132);
    assert_eq!(defaults.viewport_pixel_width(), 1584);
    assert_eq!(defaults.viewport_pixel_height(), 1056);
    assert_eq!(defaults.viewport_dpi(), 144);
    assert_eq!(defaults.viewport(), (48, 132, viewport));

    defaults.set_viewport_size(0, 0, 0, 0);
    assert_eq!(defaults.viewport_rows(), 1);
    assert_eq!(defaults.viewport_cols(), 1);
    assert_eq!(defaults.viewport_pixel_width(), 8);
    assert_eq!(defaults.viewport_pixel_height(), 16);
    assert_eq!(defaults.viewport_dpi(), 144);
}

#[test]
fn viewport_size_keeps_given_pixel_sizes() {
    let mut defaults = TerminalRuntimeDefaults::new(0);
    assert_eq!(defaults.scrollback_lines(), 1);
    defaults.set_viewport_size(10, 20, 300, 0);
    assert_eq!(defaults.viewport(), (10, 20, TerminalViewportMetrics::new(300, 160, 96)));
}

#[test]
fn negotiated_environment_asks_for_truecolor() {
    assert_eq!(negotiated_terminal_environment(), [("COLORTERM", "truecolor")]);
}

#[test]
fn osc7_reports_the_percent_decoded_absolute_path() {
    assert_eq!(
        extract_current_working_directory_from_osc7(b"noise\x1b]7;file://host/home/a%20b\x07tail"),
        Some("/home/a b".to_string())
    );
    assert_eq!(
        extract_current_working_directory_from_osc7(b"\x1b]7;file://host/srv/x\x1b\\"),
        Some("/srv/x".to_string())
    );
    assert_eq!(extract_current_working_directory_from_osc7(b"\x1b]7;file://host/bad%2\x07"), None);
    assert_eq!(extract_current_working_directory_from_osc7(b"\x1b]7;file://hostonly\x07"), None);
    assert_eq!(extract_current_working_directory_from_osc7(b"\x1b]7;file://host/unterminated"), None);
}

fn sample_surface() -> TerminalSurfaceState {
    let mut surface = TerminalSurfaceState::from_visible_lines(0, 1, 1, 8, vec!["A条B".into()]);
    surface.cells = vec![
        TerminalCellState { row: 0, col: 0, width: 1, text: "A".into(), bold: false, underline: false, fg_rgba: 0xff_ff_ff_ff, bg_rgba: 0xff_00_00_00 },
        TerminalCellState { row: 0, col: 1, width: 2, text: "条".into(), bold: false, underline: false, fg_rgba: 0xff_ff_ff_ff, bg_rgba: 0xff_00_00_00 },
        TerminalCellState { row: 0, col: 3, width: 1, text: "B".into(), bold: false, underline: false, fg_rgba: 0xff_ff_ff_ff, bg_rgba: 0xff_00_00_00 },
    ];
    surface
}

#[test]
fn selection_text_uses_exclusive_end_column_boundaries() {
    let surface = sample_surface();
    assert_eq!(surface.selection_text(0, 0, 0, 1), "A");
    assert_eq!(surface.selection_text(0, 1, 0, 3), "条");
    assert_eq!(surface.selection_text(0, 0, 0, 4), "A条B");
}

#[test]
fn wide_char_trailing_cell_hit_normalizes_back_to_leading_cell() {
    let surface = sample_surface();
    assert_eq!(surface.normalize_hit_col(0, 2), 1);
    assert_eq!(surface.normalize_hit_col(0, 3), 3);
}

#[test]
fn wide_char_internal_selection_boundary_snaps_to_cluster_end() {
    let surface = sample_surface();
    assert_eq!(surface.normalize_selection_hit_col(0, 2), 3);
    assert_eq!(surface.normalize_selection_hit_col(0, 1), 1);
    assert_eq!(surface.normalize_selection_hit_col(0, 4), 4);
}

#[test]
fn buffer_selection_projects_into_viewport_coordinates() {
    let mut surface = sample_surface();
    surface.rows = 4;
    surface.cols = 8;
    surface.viewport_offset_lines = 3;
    surface.viewport_max_offset_lines = 8;
    surface.viewport_at_bottom = false;
    let projected = surface.project_buffer_selection_to_viewport(5, 1, 5, 3).expect("visible selection");
    assert_eq!(projected, TerminalViewportSelectionRange { start_row: 0, start_col: 1, end_row: 0, end_col: 3 });
    let shifted = surface.project_buffer_selection_to_viewport(7, 0, 7, 2).expect("selection shifted down within viewport");
    assert_eq!(shifted.start_row, 2);
    assert_eq!(shifted.end_row, 2);
}

#[test]
fn buffer_selection_clips_to_visible_rows() {
    let mut surface = sample_surface();
    surface.rows = 4;
    surface.cols = 8;
    surface.viewport_offset_lines = 3;
    surface.viewport_max_offset_lines = 8;
    surface.viewport_at_bottom = false;
    let clipped = surface.project_buffer_selection_to_viewport(4, 2, 6, 4).expect("partially visible selection");
    assert_eq!(clipped, TerminalViewportSelectionRange { start_row: 0, start_col: 0, end_row: 1, end_col: 4 });
}

#[test]
fn selection_outside_viewport_projects_to_nothing() {
    let mut surface = sample_surface();
    surface.rows = 2;
    surface.viewport_offset_lines = 0;
    surface.viewport_max_offset_lines = 10;
    assert_eq!(surface.project_buffer_selection_to_viewport(0, 0, 3, 0), None);
    assert_eq!(surface.selection_text_from_buffer_rows(0, 0, 3, 0), "");
}

#[test]
fn selection_text_joins_rows_unless_wrapped() {
    let mut surface = TerminalSurfaceState::from_visible_lines(0, 1, 2, 4, vec!["ab".into(), "cd".into()]);
    surface.cells = vec![
        TerminalCellState { row: 0, col: 0, width: 1, text: "a".into(), bold: false, underline: false, fg_rgba: 0, bg_rgba: 0 },
        TerminalCellState { row: 0, col: 1, width: 1, text: " ".into(), bold: false, underline: false, fg_rgba: 0, bg_rgba: 0 },
        TerminalCellState { row: 1, col: 0, width: 1, text: "c".into(), bold: false, underline: false, fg_rgba: 0, bg_rgba: 0 },
    ];
    assert_eq!(surface.selection_text(1, 4, 0, 0), "a\nc");
    surface.visible_rows[0].wrapped = true;
    assert_eq!(surface.selection_text(0, 0, 1, 4), "ac");
}
