use coriolis::colormap::Rgb;
use coriolis::view_mode::{ColorPalette, ViewMode};

#[test]
fn view_mode_cycles_through_three_states() {
    assert_eq!(ViewMode::Table.next(), ViewMode::Plot1D);
    assert_eq!(ViewMode::Plot1D.next(), ViewMode::Heatmap);
    assert_eq!(ViewMode::Heatmap.next(), ViewMode::Table);
    assert_eq!(ViewMode::Table.prev(), ViewMode::Heatmap);
    assert_eq!(ViewMode::Plot1D.name(), "1D Plot");
}

#[test]
fn viridis_endpoints_are_exact() {
    assert_eq!(ColorPalette::Viridis.color(0, 1), Rgb { r: 68, g: 1, b: 84 });
    assert_eq!(ColorPalette::Viridis.color(1, 1), Rgb { r: 253, g: 231, b: 37 });
    assert_eq!(ColorPalette::Viridis.color(1000, 1000), Rgb { r: 253, g: 231, b: 37 });
    assert_eq!(ColorPalette::Viridis.color(1, 2), Rgb { r: 33, g: 104, b: 109 });
}

#[test]
fn blue_red_is_white_at_one_half() {
    assert_eq!(ColorPalette::BlueRed.color(1, 2), Rgb { r: 255, g: 255, b: 255 });
    assert_eq!(ColorPalette::BlueRed.color(0, 2), Rgb { r: 0, g: 0, b: 255 });
    assert_eq!(ColorPalette::BlueRed.color(2, 2), Rgb { r: 255, g: 0, b: 0 });
    assert_eq!(ColorPalette::BlueRed.color(1, 4), Rgb { r: 127, g: 127, b: 255 });
}

#[test]
fn rainbow_sweeps_from_blue_to_red() {
    assert_eq!(ColorPalette::Rainbow.color(0, 4), Rgb { r: 0, g: 0, b: 255 });
    assert_eq!(ColorPalette::Rainbow.color(1, 4), Rgb { r: 0, g: 255, b: 255 });
    assert_eq!(ColorPalette::Rainbow.color(2, 4), Rgb { r: 0, g: 255, b: 0 });
    assert_eq!(ColorPalette::Rainbow.color(3, 4), Rgb { r: 255, g: 255, b: 0 });
    assert_eq!(ColorPalette::Rainbow.color(4, 4), Rgb { r: 255, g: 0, b: 0 });
    assert_eq!(ColorPalette::Rainbow.color(1, 8), Rgb { r: 0, g: 127, b: 255 });
}

#[test]
fn fractions_outside_the_unit_interval_are_clamped() {
    assert_eq!(ColorPalette::Plasma.color(7, 3), ColorPalette::Plasma.color(3, 3));
    assert_eq!(ColorPalette::Plasma.color(5, 0), Rgb { r: 13, g: 8, b: 135 });
    assert_eq!(ColorPalette::Plasma.color(3, 3), Rgb { r: 240, g: 175, b: 12 });
    assert_eq!(ColorPalette::Plasma.color(1, 4), Rgb { r: 96, g: 31, b: 128 });
}

#[test]
fn palettes_cycle_in_order() {
    assert_eq!(ColorPalette::Viridis.next(), ColorPalette::Plasma);
    assert_eq!(ColorPalette::Plasma.next(), ColorPalette::Rainbow);
    assert_eq!(ColorPalette::Rainbow.next(), ColorPalette::BlueRed);
    assert_eq!(ColorPalette::BlueRed.next(), ColorPalette::Viridis);
    assert_eq!(ColorPalette::BlueRed.name(), "Blue-Red");
}
