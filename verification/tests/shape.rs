use coriolis::coordinates::coordinate_candidates;
use coriolis::dimension::DimensionCalculator;
use coriolis::layout::{
    bins_for_width, sample_positions, HeatmapAreas, HeatmapLayoutConfig, TableLayoutConfig, TableWindow,
};
use coriolis::plot::PlotState;
use coriolis::shape::{checked_product, extents_positive, index_in_bounds, ravel, unravel_index};
use coriolis::text::format_number;
use coriolis::colormap::Rgb;
use coriolis::keys::keymap_text;
use coriolis::theme::{Theme, ThemeColors};
use coriolis::variable::ElementKind;
use coriolis::view_mode::ViewMode;

#[test]
fn offsets_and_index_vectors_are_inverse() {
    let shape = vec![4, 3, 5];
    for linear in 0..60 {
        let indices = unravel_index(&shape, linear);
        assert!(indices.iter().zip(&shape).all(|(i, s)| i < s));
        assert_eq!(ravel(&shape, &indices), linear);
    }
    assert_eq!(unravel_index(&shape, 38), vec![2, 1, 3]);
    assert_eq!(unravel_index(&shape, 60 + 38), vec![2, 1, 3]);
    assert_eq!(ravel(&vec![], &[]), 0);
    assert_eq!(unravel_index(&vec![], 5), Vec::<usize>::new());
}

#[test]
fn the_element_count_is_checked_for_overflow() {
    assert_eq!(checked_product(&vec![]), Some(1));
    assert_eq!(checked_product(&vec![4, 3, 5]), Some(60));
    assert_eq!(checked_product(&vec![usize::MAX, 2]), None);
    assert_eq!(checked_product(&vec![usize::MAX, 2, 0]), Some(0));
    assert_eq!(checked_product(&vec![usize::MAX, 1]), Some(usize::MAX));
    assert!(extents_positive(&vec![4, 3, 5]));
    assert!(extents_positive(&vec![]));
    assert!(!extents_positive(&vec![4, 0, 5]));
    assert!(index_in_bounds(&vec![4, 3, 5], &[3, 2, 4]));
    assert!(!index_in_bounds(&vec![4, 3, 5], &[3, 3, 4]));
    assert!(!index_in_bounds(&vec![4, 3, 5], &[3, 2]));
    assert!(index_in_bounds(&vec![], &[]));
}

#[test]
fn counts_are_grouped_by_thousands() {
    assert_eq!(format_number(0), "0");
    assert_eq!(format_number(999), "999");
    assert_eq!(format_number(1000), "1,000");
    assert_eq!(format_number(1234567), "1,234,567");
    assert_eq!(format_number(1000001), "1,000,001");
    assert_eq!(format_number(20050), "20,050");
}

#[test]
fn themes_alternate() {
    assert_eq!(Theme::GruvboxDark.next(), Theme::GruvboxLight);
    assert_eq!(Theme::GruvboxLight.next(), Theme::GruvboxDark);
    assert_eq!(Theme::GruvboxDark.name(), "Gruvbox Dark");
    assert_eq!(Theme::GruvboxLight.name(), "Gruvbox Light");
    assert_eq!(PlotState::new(), PlotState::default());
}

#[test]
fn element_kinds_know_whether_they_are_numbers() {
    assert!(ElementKind::Int8.is_numeric());
    assert!(ElementKind::Float64.is_numeric());
    assert!(!ElementKind::Char.is_numeric());
    assert!(!ElementKind::Text.is_numeric());
    assert!(!ElementKind::Other.is_numeric());
    assert_eq!(ElementKind::UInt16.name(), "u16");
    assert_eq!(ElementKind::Float32.name(), "float");
}

#[test]
fn the_dimension_calculator_tells_displayed_from_sliced() {
    let table = DimensionCalculator::new(4, ViewMode::Table, (1, 3));
    assert_eq!(table.get_slice_dimensions(), vec![0, 2]);
    assert_eq!(table.get_display_dimensions(), vec![1, 3]);
    assert!(table.is_display_dimension(3));
    assert!(table.is_slice_dimension(2));
    let plot = DimensionCalculator::new(4, ViewMode::Plot1D, (1, 3));
    assert_eq!(plot.get_plot_dimension(), 1);
    assert_eq!(plot.get_slice_dimensions(), vec![0, 2, 3]);
    assert_eq!(plot.get_display_dimensions(), vec![1]);
    assert!(plot.is_slice_dimension(3));
    let line = DimensionCalculator::new(1, ViewMode::Heatmap, (0, 0));
    assert_eq!(line.get_plot_dimension(), 0);
    assert_eq!(line.get_display_dimensions(), vec![0]);
    assert_eq!(line.get_slice_dimensions(), Vec::<usize>::new());
    let scalar = DimensionCalculator::new(0, ViewMode::Table, (0, 0));
    assert_eq!(scalar.get_display_dimensions(), Vec::<usize>::new());
    assert!(!scalar.is_display_dimension(0));
}

#[test]
fn the_table_window_fits_the_area() {
    let layout = TableLayoutConfig::default();
    assert_eq!(layout.visible_rows(24), 20);
    assert_eq!(layout.visible_rows(3), 0);
    assert_eq!(layout.visible_cols(80), 6);
    assert_eq!(layout.visible_cols(5), 1);
    assert_eq!(layout.visible_cols(1000), 20);
    assert_eq!(
        layout.window(80, 24, 5, 2, 100, 5),
        TableWindow { start_row: 5, end_row: 25, start_col: 2, end_col: 5 }
    );
    assert_eq!(
        layout.window(80, 24, 95, 0, 100, 50),
        TableWindow { start_row: 95, end_row: 100, start_col: 0, end_col: 6 }
    );
    assert_eq!(layout.window(80, 24, usize::MAX, usize::MAX, 100, 50).end_row, 100);
    assert_eq!(HeatmapLayoutConfig::default().pixel_width, 2);
}

#[test]
fn a_long_series_is_thinned_to_the_bins() {
    assert_eq!(bins_for_width(80), 72);
    assert_eq!(bins_for_width(8), 1);
    assert_eq!(bins_for_width(0), 1);
    assert_eq!(sample_positions(5, 10), vec![0, 1, 2, 3, 4]);
    assert_eq!(sample_positions(10, 4), vec![0, 2, 5, 7]);
    assert_eq!(sample_positions(7, 7), vec![0, 1, 2, 3, 4, 5, 6]);
    assert_eq!(sample_positions(0, 3), Vec::<usize>::new());
    assert_eq!(sample_positions(3, 0), Vec::<usize>::new());
    assert_eq!(sample_positions(usize::MAX, 2), vec![0, usize::MAX / 2]);
}

#[test]
fn coordinates_are_looked_for_in_the_group_then_at_the_root() {
    assert_eq!(coordinate_candidates("/ocean/surface/temp", "lat"), vec!["/ocean/surface/lat", "/lat"]);
    assert_eq!(coordinate_candidates("/temp", "lat"), vec!["/lat"]);
    assert_eq!(coordinate_candidates("temp", "lat"), vec!["lat", "/lat"]);
    assert_eq!(coordinate_candidates("/a/", "x"), vec!["/a/x", "/x"]);
    assert_eq!(coordinate_candidates("", ""), vec!["", "/"]);
}

#[test]
fn themes_have_their_colors() {
    let dark = ThemeColors::from_theme(&Theme::GruvboxDark);
    assert_eq!(dark.bg0, Rgb { r: 0x28, g: 0x28, b: 0x28 });
    assert_eq!(dark.yellow, Rgb { r: 0xfa, g: 0xbd, b: 0x2f });
    let light = ThemeColors::from_theme(&Theme::GruvboxLight);
    assert_eq!(light.bg0, Rgb { r: 0xfb, g: 0xf1, b: 0xc7 });
    assert_eq!(light.fg0, dark.bg1);
    assert_eq!(light.gray, dark.gray);
}

#[test]
fn the_hint_line_follows_the_keyboard() {
    assert!(keymap_text(true, true, true).starts_with("jk/"));
    assert!(keymap_text(false, true, true).starts_with("hjkl:pan"));
    assert!(keymap_text(false, false, true).starts_with("Enter:search"));
    assert!(keymap_text(false, false, false).starts_with("q:quit"));
}

#[test]
fn the_heatmap_parts_fit_their_frame() {
    let layout = HeatmapLayoutConfig::default();
    assert_eq!(
        layout.areas(100, 30),
        Some(HeatmapAreas {
            bar_start: 25,
            bar_width: 50,
            canvas_x: 8,
            canvas_y: 1,
            canvas_width: 92,
            canvas_height: 28,
        })
    );
    assert_eq!(
        layout.areas(30, 3),
        Some(HeatmapAreas {
            bar_start: 10,
            bar_width: 10,
            canvas_x: 8,
            canvas_y: 1,
            canvas_width: 22,
            canvas_height: 1,
        })
    );
    assert_eq!(layout.areas(9, 3).map(|a| (a.bar_start, a.bar_width)), Some((4, 0)));
    assert_eq!(layout.areas(8, 30), None);
    assert_eq!(layout.areas(100, 2), None);
    let tall = HeatmapLayoutConfig { colorbar_height: u16::MAX, ..layout };
    assert_eq!(tall.areas(100, u16::MAX), None);
}
