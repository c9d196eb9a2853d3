use coriolis::collections::StringMap;
use coriolis::keys::{
    browser_command, input_mode, search_command, tree_command, viewer_command, BrowserCommand,
    InputMode, KeyCode, KeyPress, Modifiers, SearchCommand, TreeCommand, ViewerCommand,
};
use coriolis::slicing::{ScrollPosition, SlicingState};
use coriolis::variable::{ElementKind, LoadedVariable, Moments, RawVariable};
use coriolis::view_mode::{ColorPalette, ViewMode};
use coriolis::viewer::{limit_position, offset_position, step_dim, DataViewerState};

fn variable(shape: Vec<usize>, packed: bool) -> LoadedVariable<i32> {
    let total: usize = shape.iter().product();
    let names = (0..shape.len()).map(|d| format!("d{}", d)).collect();
    let raw = RawVariable {
        name: "v".to_string(),
        path: "/v".to_string(),
        shape,
        dim_names: names,
        attributes: StringMap::new(),
        kind: ElementKind::Int32,
        data: (0..total as i32).collect(),
        scale_factor: 2,
        add_offset: 1,
        has_scale_offset: packed,
    };
    let moments = Moments { valid_count: total, min: 0, max: 0, mean: 0, std: 0 };
    LoadedVariable::load(raw, moments, vec![]).unwrap()
}

fn viewer(shape: Vec<usize>) -> DataViewerState<i32> {
    let mut v = DataViewerState::new();
    v.load_variable(variable(shape, false));
    v
}

fn press(c: char) -> KeyPress {
    KeyPress { code: KeyCode::Char(c), modifiers: Modifiers::Plain }
}

#[test]
fn a_new_viewer_is_hidden_and_empty() {
    let v: DataViewerState<i32> = DataViewerState::new();
    assert!(!v.visible());
    assert!(v.variable().is_none());
    assert_eq!(v.view_mode(), ViewMode::Table);
    assert_eq!(v.color_palette(), ColorPalette::Viridis);
    assert_eq!(v.scroll(), ScrollPosition { row: 0, col: 0 });
    assert!(v.apply_scale_offset());
    assert!(v.error().is_none());
    assert_eq!(v.get_view_rows(), 0);
    assert!(v.grid().is_empty());
    assert!(v.series().is_empty());
    assert!(v.scale_factor().is_none());
}

#[test]
fn loading_shows_the_last_two_dimensions() {
    let v = viewer(vec![2, 3, 4, 5]);
    assert!(v.visible());
    assert_eq!(v.slicing().display_dims, (2, 3));
    assert_eq!(v.slicing().slice_indices, vec![0, 0, 0, 0]);
    assert_eq!(v.slicing().active_dim_selector, Some(0));
    assert_eq!(v.get_view_rows(), 4);
    assert_eq!(v.get_view_cols(), 5);
    assert_eq!(v.scale_factor(), Some(2));
    assert_eq!(v.add_offset(), Some(1));
    let low = viewer(vec![7]);
    assert_eq!(low.slicing().display_dims, (0, 0));
    assert_eq!(low.slicing().active_dim_selector, None);
    assert_eq!(low.get_view_rows(), 7);
    assert_eq!(low.get_view_cols(), 1);
    let scalar = viewer(vec![]);
    assert_eq!(scalar.get_view_rows(), 1);
    assert_eq!(scalar.grid(), vec![vec![0]]);
}

#[test]
fn rotating_twice_restores_dimensions_and_crosshair() {
    let mut v = viewer(vec![2, 3, 4]);
    v.cycle_view_mode();
    v.cycle_view_mode();
    assert_eq!(v.view_mode(), ViewMode::Heatmap);
    v.move_heat_cursor(2, 1);
    assert_eq!((v.heat_cursor_row(), v.heat_cursor_col()), (2, 1));
    v.rotate_display_dims();
    assert_eq!(v.slicing().display_dims, (2, 1));
    assert_eq!((v.heat_cursor_row(), v.heat_cursor_col()), (1, 2));
    assert_eq!(v.slicing().active_dim_selector, Some(0));
    v.rotate_display_dims();
    assert_eq!(v.slicing().display_dims, (1, 2));
    assert_eq!((v.heat_cursor_row(), v.heat_cursor_col()), (2, 1));
}

#[test]
fn rotating_does_nothing_in_the_plot_and_below_rank_two() {
    let mut v = viewer(vec![2, 3, 4]);
    v.cycle_view_mode();
    assert_eq!(v.view_mode(), ViewMode::Plot1D);
    v.rotate_display_dims();
    assert_eq!(v.slicing().display_dims, (1, 2));
    let mut low = viewer(vec![5]);
    low.rotate_display_dims();
    assert_eq!(low.slicing().display_dims, (0, 0));
}

#[test]
fn the_selector_cycles_through_the_off_screen_dimensions() {
    let mut v = viewer(vec![2, 3, 4, 5, 6]);
    v.cycle_display_dim(0);
    assert_eq!(v.slicing().display_dims, (0, 4));
    assert_eq!(v.slicing().active_dim_selector, Some(1));
    let mut seen = vec![];
    for _ in 0..3 {
        v.next_dim_selector();
        let active = v.slicing().active_dim_selector.unwrap();
        assert!(active != 0 && active != 4);
        seen.push(active);
    }
    assert_eq!(seen, vec![2, 3, 1]);
}

#[test]
fn the_selector_returns_after_rank_many_calls_when_the_rank_is_a_multiple() {
    let mut v = viewer(vec![2, 3, 4, 5]);
    let start = v.slicing().active_dim_selector;
    for _ in 0..4 {
        v.next_dim_selector();
    }
    assert_eq!(v.slicing().active_dim_selector, start);
    let mut odd = viewer(vec![2, 3, 4, 5, 6]);
    let start = odd.slicing().active_dim_selector;
    for _ in 0..5 {
        odd.next_dim_selector();
    }
    assert_ne!(odd.slicing().active_dim_selector, start);
    for _ in 0..1 {
        odd.next_dim_selector();
    }
    assert_eq!(odd.slicing().active_dim_selector, start);
}

#[test]
fn the_selector_stays_put_without_an_off_screen_dimension() {
    let mut v = viewer(vec![3, 4]);
    assert_eq!(v.slicing().active_dim_selector, None);
    v.next_dim_selector();
    assert_eq!(v.slicing().active_dim_selector, None);
    v.cycle_view_mode();
    assert_eq!(v.slicing().active_dim_selector, Some(1));
    v.next_dim_selector();
    assert_eq!(v.slicing().active_dim_selector, Some(1));
    v.cycle_display_dim(0);
    assert_eq!(v.slicing().display_dims, (1, 1));
    assert_eq!(v.slicing().active_dim_selector, Some(0));
}

#[test]
fn stepping_a_display_dimension_skips_the_other_in_two_dimensional_modes() {
    let mut v = viewer(vec![2, 3, 4]);
    v.cycle_display_dim(0);
    assert_eq!(v.slicing().display_dims, (0, 2));
    assert_eq!(v.slicing().active_dim_selector, Some(1));
    v.cycle_display_dim(1);
    assert_eq!(v.slicing().display_dims, (0, 1));
    assert_eq!(v.slicing().active_dim_selector, Some(2));
    v.set_display_dim(1, false);
    assert_eq!(v.slicing().display_dims, (0, 2));
    v.set_display_dim(0, false);
    assert_eq!(v.slicing().display_dims, (1, 2));
    let mut two = viewer(vec![3, 4]);
    two.cycle_display_dim(0);
    assert_eq!(two.slicing().display_dims, (0, 1));
}

#[test]
fn entering_a_two_dimensional_mode_separates_the_display_dimensions() {
    let mut v = viewer(vec![2, 3, 4]);
    v.cycle_view_mode();
    v.cycle_display_dim(0);
    assert_eq!(v.slicing().display_dims, (2, 2));
    assert_eq!(v.slicing().active_dim_selector, Some(0));
    v.cycle_view_mode();
    assert_eq!(v.view_mode(), ViewMode::Heatmap);
    assert_eq!(v.slicing().display_dims, (2, 0));
    assert_eq!(v.slicing().active_dim_selector, Some(1));
}

#[test]
fn slice_positions_stay_within_their_extent() {
    let mut v = viewer(vec![3, 4, 5]);
    v.prev_slice(0);
    assert_eq!(v.slicing().slice_indices, vec![0, 0, 0]);
    for _ in 0..5 {
        v.next_slice(0);
    }
    assert_eq!(v.slicing().slice_indices, vec![2, 0, 0]);
    v.next_slice(1);
    v.next_slice(7);
    assert_eq!(v.slicing().slice_indices, vec![2, 0, 0]);
    v.advance_slice(0, -1);
    assert_eq!(v.slicing().slice_indices, vec![1, 0, 0]);
    v.advance_slice(0, isize::MIN);
    assert_eq!(v.slicing().slice_indices, vec![0, 0, 0]);
    v.advance_slice(0, isize::MAX);
    assert_eq!(v.slicing().slice_indices, vec![2, 0, 0]);
    v.decrement_active_slice();
    assert_eq!(v.slicing().slice_indices, vec![1, 0, 0]);
    v.increment_active_slice();
    assert_eq!(v.slicing().slice_indices, vec![2, 0, 0]);
}

#[test]
fn cursors_are_limited_to_the_new_extents() {
    let mut v = viewer(vec![2, 9, 4]);
    v.move_heat_cursor(100, 100);
    assert_eq!((v.heat_cursor_row(), v.heat_cursor_col()), (8, 3));
    v.cycle_display_dim(0);
    assert_eq!(v.slicing().display_dims, (0, 2));
    assert_eq!((v.heat_cursor_row(), v.heat_cursor_col()), (1, 3));
    v.move_heat_cursor(-5, -1);
    assert_eq!((v.heat_cursor_row(), v.heat_cursor_col()), (0, 2));
    v.cycle_view_mode();
    for _ in 0..5 {
        v.plot_cursor_right();
    }
    assert_eq!(v.plot_cursor(), 1);
    v.plot_cursor_left();
    v.plot_cursor_left();
    assert_eq!(v.plot_cursor(), 0);
}

#[test]
fn scrolling_stops_at_the_last_row_and_column() {
    let mut v = viewer(vec![3, 4]);
    v.scroll_down(2);
    v.scroll_right(usize::MAX);
    assert_eq!(v.scroll(), ScrollPosition { row: 2, col: 3 });
    v.scroll_down(usize::MAX);
    assert_eq!(v.scroll(), ScrollPosition { row: 2, col: 3 });
    v.scroll_up(1);
    v.scroll_left(9);
    assert_eq!(v.scroll(), ScrollPosition { row: 1, col: 0 });
}

#[test]
fn a_failed_load_empties_the_viewer() {
    let mut v = viewer(vec![3, 4]);
    v.set_status("busy".to_string());
    assert_eq!(v.status_message().map(|s| s.as_str()), Some("busy"));
    v.open(None, "no such variable".to_string());
    assert!(v.variable().is_none());
    assert!(v.visible());
    assert_eq!(v.error().map(|s| s.as_str()), Some("no such variable"));
    v.open(Some(variable(vec![2], true)), String::new());
    assert!(v.error().is_none());
    assert!(v.status_message().is_none());
    assert!(v.has_scale_offset());
    v.toggle_scale_offset();
    assert!(!v.apply_scale_offset());
    v.clear_status();
    v.close();
    assert!(!v.visible());
    assert!(v.variable().is_none());
    assert!(!v.has_scale_offset());
    v.toggle_scale_offset();
    assert!(!v.apply_scale_offset());
}

#[test]
fn the_scale_toggle_needs_a_transform() {
    let mut v = viewer(vec![3]);
    v.toggle_scale_offset();
    assert!(v.apply_scale_offset());
    v.cycle_color_palette();
    assert_eq!(v.color_palette(), ColorPalette::Plasma);
}

#[test]
fn keys_mean_different_things_in_different_modes() {
    let up = KeyPress { code: KeyCode::Up, modifiers: Modifiers::Plain };
    assert_eq!(viewer_command(up, ViewMode::Table), ViewerCommand::ScrollUp(1));
    assert_eq!(viewer_command(up, ViewMode::Heatmap), ViewerCommand::MoveCrosshair(-1, 0));
    assert_eq!(viewer_command(up, ViewMode::Plot1D), ViewerCommand::Nothing);
    assert_eq!(viewer_command(press('l'), ViewMode::Plot1D), ViewerCommand::PlotCursorRight);
    assert_eq!(viewer_command(press('h'), ViewMode::Table), ViewerCommand::ScrollLeft(1));
    assert_eq!(viewer_command(press('x'), ViewMode::Table), ViewerCommand::CycleDisplayDim(1));
    assert_eq!(viewer_command(press('?'), ViewMode::Table), ViewerCommand::Nothing);
    let page = KeyPress { code: KeyCode::Char('d'), modifiers: Modifiers::Control };
    assert_eq!(viewer_command(page, ViewMode::Heatmap), ViewerCommand::ScrollDown(10));
    let copy = KeyPress { code: KeyCode::Char('c'), modifiers: Modifiers::Control };
    assert_eq!(viewer_command(copy, ViewMode::Table), ViewerCommand::CopyVisible);
    assert_eq!(viewer_command(press('c'), ViewMode::Table), ViewerCommand::CyclePalette);
    let shifted = KeyPress { code: KeyCode::Char('C'), modifiers: Modifiers::Shift };
    assert_eq!(viewer_command(shifted, ViewMode::Table), ViewerCommand::Nothing);
    assert_eq!(viewer_command(press('C'), ViewMode::Table), ViewerCommand::CyclePalette);
}

#[test]
fn the_keyboard_goes_to_the_topmost_part() {
    assert_eq!(input_mode(true, true, true), InputMode::Viewer);
    assert_eq!(input_mode(false, true, true), InputMode::Search);
    assert_eq!(input_mode(false, false, true), InputMode::FileBrowser);
    assert_eq!(input_mode(false, false, false), InputMode::Tree);
}

#[test]
fn keys_of_the_search_line_and_the_file_browser() {
    let enter = KeyPress { code: KeyCode::Enter, modifiers: Modifiers::Plain };
    assert_eq!(search_command(enter), SearchCommand::Submit);
    assert_eq!(search_command(press('q')), SearchCommand::Input('q'));
    let erase = KeyPress { code: KeyCode::Backspace, modifiers: Modifiers::Shift };
    assert_eq!(search_command(erase), SearchCommand::Backspace);
    assert_eq!(browser_command(enter), BrowserCommand::Select);
    assert_eq!(browser_command(press('h')), BrowserCommand::Parent);
    assert_eq!(browser_command(press('.')), BrowserCommand::ToggleHidden);
    assert_eq!(browser_command(press('q')), BrowserCommand::Quit);
    assert_eq!(browser_command(press('x')), BrowserCommand::Nothing);
    let held = KeyPress { code: KeyCode::Char('q'), modifiers: Modifiers::Control };
    assert_eq!(browser_command(held), BrowserCommand::Nothing);
}

#[test]
fn a_second_g_goes_to_the_first_line() {
    assert_eq!(tree_command(press('g'), false), (TreeCommand::Nothing, true));
    assert_eq!(tree_command(press('g'), true), (TreeCommand::GotoFirst, false));
    assert_eq!(tree_command(press('j'), true), (TreeCommand::Down, false));
    assert_eq!(tree_command(press('z'), true), (TreeCommand::Nothing, false));
    let last = KeyPress { code: KeyCode::Char('G'), modifiers: Modifiers::Shift };
    assert_eq!(tree_command(last, false), (TreeCommand::GotoLast, false));
    let page = KeyPress { code: KeyCode::Char('f'), modifiers: Modifiers::Control };
    assert_eq!(tree_command(page, false), (TreeCommand::PageDown, false));
    assert_eq!(tree_command(press('f'), false), (TreeCommand::OpenBrowser, false));
    assert_eq!(tree_command(press('G'), false), (TreeCommand::Nothing, false));
}

#[test]
fn handling_a_key_carries_out_its_command() {
    let mut v = viewer(vec![2, 3, 4]);
    assert_eq!(v.handle_key(KeyPress { code: KeyCode::Tab, modifiers: Modifiers::Plain }), ViewerCommand::CycleViewMode);
    assert_eq!(v.view_mode(), ViewMode::Plot1D);
    assert_eq!(v.handle_key(press('l')), ViewerCommand::PlotCursorRight);
    assert_eq!(v.plot_cursor(), 1);
    assert_eq!(v.handle_key(press(']')), ViewerCommand::IncrementSlice);
    assert_eq!(v.slicing().slice_indices, vec![1, 0, 0]);
    assert_eq!(v.handle_key(press('s')), ViewerCommand::NextSelector);
    assert_eq!(v.slicing().active_dim_selector, Some(2));
    assert_eq!(v.handle_key(press('q')), ViewerCommand::Close);
    assert!(!v.visible());
}

#[test]
fn positions_are_offset_without_overflow() {
    assert_eq!(offset_position(3, 2, 10), 5);
    assert_eq!(offset_position(3, 20, 10), 9);
    assert_eq!(offset_position(3, -4, 10), 0);
    assert_eq!(offset_position(usize::MAX, isize::MIN, 0), 0);
    assert_eq!(offset_position(usize::MAX, isize::MIN, usize::MAX), usize::MAX / 2);
    assert_eq!(offset_position(0, 5, 0), 0);
    assert_eq!(limit_position(7, 3), 2);
    assert_eq!(limit_position(7, 0), 0);
    assert_eq!(step_dim(2, 3, true), 0);
    assert_eq!(step_dim(0, 3, false), 2);
    assert_eq!(step_dim(1, 3, false), 0);
}

#[test]
fn a_fresh_slicing_state_picks_the_first_free_dimension() {
    let s = SlicingState::new(3, ViewMode::Table);
    assert_eq!(s.display_dims, (1, 2));
    assert_eq!(s.active_dim_selector, Some(0));
    assert_eq!(s.first_slice_dim(3, true), Some(0));
    let mut plot = SlicingState::new(2, ViewMode::Plot1D);
    assert_eq!(plot.active_dim_selector, Some(1));
    plot.update_active_selector(2, ViewMode::Heatmap);
    assert_eq!(plot.active_dim_selector, None);
    let mut moved = SlicingState { slice_indices: vec![0; 4], display_dims: (0, 1), active_dim_selector: Some(1) };
    moved.update_active_selector(4, ViewMode::Table);
    assert_eq!(moved.active_dim_selector, Some(2));
    moved.update_active_selector(4, ViewMode::Plot1D);
    assert_eq!(moved.active_dim_selector, Some(2));
    assert_eq!(SlicingState::default().slice_indices.len(), 0);
}
