use coriolis::raster::{grid_extents, rasterize, scale, CellSource, CrosshairCell, HalfBlock, HeatmapRasterizer};

#[test]
fn the_scale_is_the_same_for_a_grid_and_its_transpose() {
    for &(r, c, w, h) in &[(3usize, 5usize, 20u16, 10u16), (100, 7, 80, 24), (1, 1, 1, 1), (640, 480, 120, 40), (9, 2000, 33, 7)] {
        assert_eq!(scale(r, c, w, h), scale(c, r, w, h));
        let a = HeatmapRasterizer::new(r, c, w, h).unwrap();
        let b = HeatmapRasterizer::new(c, r, w, h).unwrap();
        assert_eq!(a.disp_rows(), b.disp_cols());
        assert_eq!(a.disp_cols(), b.disp_rows());
    }
    assert_eq!(scale(3, 5, 20, 10), (20, 5));
    assert_eq!(scale(3, 5, 30, 10), (20, 5));
    assert_eq!(scale(3, 5, 12, 10), (12, 5));
}

#[test]
fn a_small_grid_is_stretched_and_centered() {
    let g = HeatmapRasterizer::new(3, 5, 20, 10).unwrap();
    assert_eq!((g.rows(), g.cols(), g.width(), g.height()), (3, 5, 20, 10));
    assert_eq!((g.disp_rows(), g.disp_cols()), (12, 20));
    assert_eq!((g.cell_rows(), g.offset_y(), g.offset_x()), (6, 2, 0));
    assert_eq!(g.source_row(0), Some(0));
    assert_eq!(g.source_row(3), Some(0));
    assert_eq!(g.source_row(4), Some(1));
    assert_eq!(g.source_row(11), Some(2));
    assert_eq!(g.source_row(12), None);
    assert_eq!(g.source_col(19), Some(4));
    assert_eq!(g.source_col(20), None);
    assert_eq!(g.cell_at(1, 0), None);
    assert_eq!(g.cell_at(2, 0), Some(CellSource { top: (0, 0), bottom: Some((0, 0)) }));
    assert_eq!(g.cell_at(4, 7), Some(CellSource { top: (1, 1), bottom: Some((1, 1)) }));
    assert_eq!(g.cell_at(7, 19), Some(CellSource { top: (2, 4), bottom: Some((2, 4)) }));
    assert_eq!(g.cell_at(8, 0), None);
    let t = HeatmapRasterizer::new(5, 3, 20, 10).unwrap();
    assert_eq!((t.disp_rows(), t.disp_cols()), (20, 12));
    assert_eq!((t.cell_rows(), t.offset_y(), t.offset_x()), (10, 0, 4));
    assert_eq!(t.cell_at(0, 3), None);
    assert_eq!(t.cell_at(0, 4), Some(CellSource { top: (0, 0), bottom: Some((0, 0)) }));
    assert_eq!(t.cell_at(9, 15), Some(CellSource { top: (4, 2), bottom: Some((4, 2)) }));
    assert_eq!(t.cell_at(9, 16), None);
}

#[test]
fn a_large_grid_is_sampled_and_an_unpaired_row_gets_the_neutral_color() {
    let g = HeatmapRasterizer::new(10, 10, 5, 5).unwrap();
    assert_eq!((g.disp_rows(), g.disp_cols()), (5, 5));
    assert_eq!((g.cell_rows(), g.offset_y(), g.offset_x()), (3, 1, 0));
    assert_eq!(g.cell_at(1, 0), Some(CellSource { top: (0, 0), bottom: Some((2, 0)) }));
    assert_eq!(g.cell_at(3, 4), Some(CellSource { top: (8, 8), bottom: None }));
    assert_eq!(g.cell_at(4, 4), None);
    let colors: Vec<Vec<u8>> = (0..10).map(|r| (0..10).map(|c| (r * 10 + c) as u8).collect()).collect();
    let canvas = g.paint(&colors, 255, Some((9, 3)));
    assert_eq!(canvas.len(), 5);
    assert!(canvas.iter().all(|row| row.len() == 5));
    let blank = HalfBlock { top: 255, bottom: 255, top_source: None, bottom_source: None, crosshair: false };
    assert!(canvas[0].iter().all(|cell| *cell == blank));
    assert!(canvas[4].iter().all(|cell| *cell == blank));
    assert_eq!(
        canvas[1][2],
        HalfBlock { top: 4, bottom: 24, top_source: Some((0, 4)), bottom_source: Some((2, 4)), crosshair: false }
    );
    assert_eq!(
        canvas[3][1],
        HalfBlock { top: 82, bottom: 255, top_source: Some((8, 2)), bottom_source: None, crosshair: true }
    );
    assert_eq!(canvas.iter().flatten().filter(|cell| cell.crosshair).count(), 1);
}

#[test]
fn the_crosshair_lands_on_the_nearest_pixel() {
    let g = HeatmapRasterizer::new(3, 5, 20, 10).unwrap();
    assert_eq!(g.crosshair(0, 0), Some(CrosshairCell { y: 2, x: 0, upper: true }));
    assert_eq!(g.crosshair(1, 2), Some(CrosshairCell { y: 4, x: 8, upper: true }));
    assert_eq!(g.crosshair(2, 4), Some(CrosshairCell { y: 6, x: 16, upper: true }));
    assert_eq!(g.crosshair(3, 0), None);
    assert_eq!(g.crosshair(0, 5), None);
    let d = HeatmapRasterizer::new(10, 10, 5, 5).unwrap();
    assert_eq!(d.crosshair(3, 9), Some(CrosshairCell { y: 1, x: 4, upper: false }));
}

#[test]
fn nothing_is_drawn_without_grid_or_canvas() {
    assert!(HeatmapRasterizer::new(0, 5, 20, 10).is_none());
    assert!(HeatmapRasterizer::new(3, 0, 20, 10).is_none());
    assert!(HeatmapRasterizer::new(3, 5, 0, 10).is_none());
    assert!(HeatmapRasterizer::new(3, 5, 20, 0).is_none());
    let ragged = vec![vec![1u8, 2], vec![3]];
    assert_eq!(grid_extents(&ragged), None);
    assert_eq!(grid_extents(&vec![vec![1u8, 2], vec![3, 4], vec![5, 6]]), Some((3, 2)));
    assert_eq!(grid_extents::<u8>(&vec![]), None);
    assert_eq!(grid_extents::<u8>(&vec![vec![], vec![]]), None);
    assert!(rasterize(&ragged, 4, 4, 0, None).is_none());
    assert!(rasterize(&vec![vec![1u8]], 0, 4, 0, None).is_none());
    let one = rasterize(&vec![vec![7u8]], 3, 1, 0, Some((0, 0))).unwrap();
    assert_eq!(one.len(), 1);
    assert_eq!(
        one[0],
        vec![
            HalfBlock { top: 7, bottom: 7, top_source: Some((0, 0)), bottom_source: Some((0, 0)), crosshair: true },
            HalfBlock { top: 7, bottom: 7, top_source: Some((0, 0)), bottom_source: Some((0, 0)), crosshair: false },
            HalfBlock { top: 0, bottom: 0, top_source: None, bottom_source: None, crosshair: false },
        ]
    );
}

#[test]
fn extreme_extents_do_not_overflow() {
    let g = HeatmapRasterizer::new(usize::MAX, 1, u16::MAX, u16::MAX).unwrap();
    assert_eq!(g.disp_rows(), 65535);
    assert_eq!(g.disp_cols(), 1);
    assert_eq!(g.source_row(65534), Some(((65534u128 * usize::MAX as u128) / 65535) as usize));
    assert_eq!(g.crosshair(usize::MAX - 1, 0).map(|c| c.y), Some(16383 + 32767));
}
