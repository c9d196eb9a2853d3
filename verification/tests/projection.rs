use coriolis::collections::StringMap;
use coriolis::variable::{CoordinateVar, ElementKind, LoadError, LoadedVariable, Moments, RawVariable};
use coriolis::view_mode::ViewMode;
use coriolis::viewer::DataViewerState;

fn raw(shape: Vec<usize>, names: &[&str], data: Vec<f64>) -> RawVariable<f64> {
    let mut attributes = StringMap::new();
    attributes.insert("units".to_string(), "K".to_string());
    RawVariable {
        name: "temperature".to_string(),
        path: "/fields/temperature".to_string(),
        shape,
        dim_names: names.iter().map(|s| s.to_string()).collect(),
        attributes,
        kind: ElementKind::Float64,
        data,
        scale_factor: 1.0,
        add_offset: 0.0,
        has_scale_offset: false,
    }
}

fn moments(valid_count: usize) -> Moments<f64> {
    Moments { valid_count, min: 0.0, max: 59.0, mean: 29.5, std: 17.46 }
}

fn cube() -> LoadedVariable<f64> {
    let data: Vec<f64> = (0..60).map(|v| v as f64).collect();
    LoadedVariable::load(raw(vec![4, 3, 5], &["time", "lat", "lon"], data), moments(60), vec![])
        .expect("a consistent variable loads")
}

fn at(t: usize, lat: usize, lon: usize) -> f64 {
    ((t * 3 + lat) * 5 + lon) as f64
}

#[test]
fn grid_of_a_cube_is_the_plane_at_the_held_time() {
    let mut viewer: DataViewerState<f64> = DataViewerState::new();
    viewer.load_variable(cube());
    assert_eq!(viewer.slicing().display_dims, (1, 2));
    assert_eq!(viewer.slicing().active_dim_selector, Some(0));
    viewer.increment_active_slice();
    viewer.increment_active_slice();
    assert_eq!(viewer.slicing().slice_indices, vec![2, 0, 0]);
    let grid = viewer.grid();
    assert_eq!(grid.len(), 3);
    for (lat, row) in grid.iter().enumerate() {
        assert_eq!(row.len(), 5);
        for (lon, value) in row.iter().enumerate() {
            assert_eq!(*value, at(2, lat, lon));
        }
    }
}

#[test]
fn series_of_a_cube_runs_along_the_displayed_dimension() {
    let mut viewer: DataViewerState<f64> = DataViewerState::new();
    viewer.load_variable(cube());
    viewer.increment_active_slice();
    viewer.increment_active_slice();
    viewer.cycle_view_mode();
    assert_eq!(viewer.view_mode(), ViewMode::Plot1D);
    viewer.cycle_display_dim(0);
    assert_eq!(viewer.slicing().display_dims.0, 2);
    let series = viewer.series();
    assert_eq!(series, vec![at(2, 0, 0), at(2, 0, 1), at(2, 0, 2), at(2, 0, 3), at(2, 0, 4)]);
}

#[test]
fn slices_follow_row_major_order() {
    let var = cube();
    assert_eq!(var.ndim(), 3);
    assert_eq!(var.name(), "temperature");
    assert_eq!(var.path(), "/fields/temperature");
    assert_eq!(var.dim_names(), &vec!["time".to_string(), "lat".to_string(), "lon".to_string()]);
    assert_eq!(var.attributes().get("units").map(|s| s.as_str()), Some("K"));
    assert_eq!(var.kind(), ElementKind::Float64);
    assert!(!var.has_scale_offset());
    assert_eq!(var.total_elements(), 60);
    assert_eq!(var.indices_to_linear(&[2, 1, 3]), 38);
    assert_eq!(var.linear_to_indices(38), vec![2, 1, 3]);
    assert_eq!(var.get_value(&[3, 2, 4]), Some(59.0));
    assert_eq!(var.get_value(&[4, 0, 0]), None);
    assert_eq!(var.get_value(&[0, 0]), None);
    assert!(var.has_elements());
    assert!(var.contains_index(&[3, 2, 4]));
    assert!(!var.contains_index(&[3, 2, 5]));
    assert!(var.can_slice(0, 2, &[9, 2, 9]));
    assert!(!var.can_slice(0, 2, &[0, 3, 0]));
    assert!(!var.can_slice(0, 3, &[0, 0, 0]));
    assert_eq!(var.get_1d_slice(0, &[9, 1, 1]), vec![6.0, 21.0, 36.0, 51.0]);
    let plane = var.get_2d_slice(2, 0, &[0, 1, 0]);
    assert_eq!(plane.len(), 5);
    assert_eq!(plane[4], vec![9.0, 24.0, 39.0, 54.0]);
}

#[test]
fn load_rejects_what_does_not_fit() {
    let short = raw(vec![4, 3, 5], &["time", "lat", "lon"], vec![0.0; 59]);
    assert_eq!(LoadedVariable::load(short, moments(0), vec![]).err(), Some(LoadError::Corrupt));
    let unnamed = raw(vec![2, 2], &["x"], vec![0.0; 4]);
    assert_eq!(LoadedVariable::load(unnamed, moments(0), vec![]).err(), Some(LoadError::Corrupt));
    let overcounted = raw(vec![2], &["x"], vec![0.0; 2]);
    assert_eq!(
        LoadedVariable::load(overcounted, moments(3), vec![]).err(),
        Some(LoadError::Corrupt)
    );
    let mut text = raw(vec![2], &["x"], vec![0.0; 2]);
    text.kind = ElementKind::Text;
    assert_eq!(
        LoadedVariable::load(text, moments(0), vec![]).err(),
        Some(LoadError::UnsupportedType)
    );
    let huge = raw(vec![usize::MAX, 2], &["x", "y"], vec![]);
    assert_eq!(LoadedVariable::load(huge, moments(0), vec![]).err(), Some(LoadError::Corrupt));
    let empty = raw(vec![usize::MAX, 0], &["x", "y"], vec![]);
    assert!(LoadedVariable::load(empty, moments(0), vec![]).is_ok());
    assert_eq!(LoadError::NotFound.message(), "no variable at this path");
    assert_eq!(LoadError::UnsupportedType.message(), "the elements are not numeric");
    assert_eq!(LoadError::Corrupt.message(), "the declared shape does not fit the stored elements");
    assert_eq!(LoadError::Io.message(), "the read failed");
}

#[test]
fn a_variable_with_an_empty_dimension_shows_nothing() {
    let mut viewer: DataViewerState<f64> = DataViewerState::new();
    viewer.load_variable(LoadedVariable::load(raw(vec![0, 3, 5], &["t", "y", "x"], vec![]), moments(0), vec![]).unwrap());
    assert_eq!(viewer.slicing().slice_indices, vec![0, 0, 0]);
    assert!(viewer.grid().is_empty());
    viewer.increment_active_slice();
    assert_eq!(viewer.slicing().slice_indices, vec![0, 0, 0]);
    viewer.cycle_display_dim(0);
    assert_eq!(viewer.slicing().display_dims, (0, 2));
    assert!(viewer.grid().is_empty());
    viewer.move_heat_cursor(3, 3);
    assert_eq!((viewer.heat_cursor_row(), viewer.heat_cursor_col()), (0, 3));
    viewer.cycle_view_mode();
    assert!(viewer.series().is_empty());
    viewer.plot_cursor_right();
    assert_eq!(viewer.plot_cursor(), 0);
    let mut flat: DataViewerState<f64> = DataViewerState::new();
    flat.load_variable(LoadedVariable::load(raw(vec![2, 0], &["y", "x"], vec![]), moments(0), vec![]).unwrap());
    assert_eq!(flat.grid(), vec![Vec::<f64>::new(), Vec::new()]);
    assert_eq!(flat.get_view_cols(), 0);
    flat.scroll_right(5);
    assert_eq!(flat.scroll().col, 0);
}

#[test]
fn statistics_need_enough_finite_samples() {
    let none = LoadedVariable::load(raw(vec![3], &["x"], vec![f64::NAN; 3]), moments(0), vec![])
        .unwrap()
        .statistics();
    assert_eq!(none.valid_count, 0);
    assert_eq!(none.total_count, 3);
    assert!(none.min_max.is_none() && none.mean.is_none() && none.std.is_none());
    let one = LoadedVariable::load(raw(vec![3], &["x"], vec![f64::NAN, 1.0, f64::NAN]), moments(1), vec![])
        .unwrap()
        .statistics();
    assert_eq!(one.mean, Some(29.5));
    assert_eq!(one.min_max, Some((0.0, 59.0)));
    assert!(one.std.is_none());
    let two = LoadedVariable::load(raw(vec![3], &["x"], vec![2.0, 1.0, f64::NAN]), moments(2), vec![])
        .unwrap()
        .statistics();
    assert_eq!(two.std, Some(17.46));
}

#[test]
fn coordinates_with_the_wrong_length_are_dropped() {
    let lat = CoordinateVar { values: vec![-10.0, 0.0, 10.0], units: Some("deg".to_string()), long_name: None };
    let lon = CoordinateVar { values: vec![0.0, 1.0], units: None, long_name: None };
    let data: Vec<f64> = (0..60).map(|v| v as f64).collect();
    let var = LoadedVariable::load(
        raw(vec![4, 3, 5], &["time", "lat", "lon"], data),
        moments(60),
        vec![None, Some(lat), Some(lon), None],
    )
    .unwrap();
    assert!(var.get_coordinate(0).is_none());
    assert_eq!(var.get_coordinate(1).unwrap().values, vec![-10.0, 0.0, 10.0]);
    assert!(var.get_coordinate(2).is_none());
    assert!(var.get_coordinate(3).is_none());
    assert_eq!(var.get_coord_value(1, 2), Some(10.0));
    assert_eq!(var.get_coord_value(1, 3), None);
}

#[test]
fn values_are_unpacked_only_where_the_viewer_says_so() {
    let data: Vec<f64> = (0..6).map(|v| v as f64).collect();
    let mut packed = raw(vec![2, 3], &["y", "x"], data.clone());
    packed.has_scale_offset = true;
    let mut viewer: DataViewerState<f64> = DataViewerState::new();
    viewer.load_variable(LoadedVariable::load(packed, moments(6), vec![]).unwrap());
    let unpack = |v: f64| v * 2.0 + 1.0;
    assert_eq!(viewer.shown_grid(unpack), vec![vec![1.0, 3.0, 5.0], vec![7.0, 9.0, 11.0]]);
    viewer.cycle_view_mode();
    assert_eq!(viewer.shown_series(unpack), vec![1.0, 7.0]);
    viewer.toggle_scale_offset();
    assert_eq!(viewer.shown_series(unpack), vec![0.0, 3.0]);
    assert_eq!(viewer.shown_grid(unpack), vec![vec![0.0, 1.0, 2.0], vec![3.0, 4.0, 5.0]]);
    let mut plain: DataViewerState<f64> = DataViewerState::new();
    plain.load_variable(LoadedVariable::load(raw(vec![2, 3], &["y", "x"], data), moments(6), vec![]).unwrap());
    assert_eq!(plain.shown_grid(unpack), vec![vec![0.0, 1.0, 2.0], vec![3.0, 4.0, 5.0]]);
    let empty: DataViewerState<f64> = DataViewerState::new();
    assert!(empty.shown_grid(unpack).is_empty());
}
