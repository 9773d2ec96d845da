use tillers::models::tiling_pattern::{
    LayoutAlgorithm, ResizeBehavior, TilingPattern, TilingPatternError, WindowRect,
};

// Ratios are in thousandths: 600 is 0.6.

#[test]
fn test_new_tiling_pattern_valid() {
    let pattern = TilingPattern::new(
        "Test Pattern".to_string(),
        LayoutAlgorithm::MasterStack,
        600,
        10,
        5,
        8,
        ResizeBehavior::Shrink,
    );

    assert!(pattern.is_ok());
    let pattern = pattern.unwrap();
    assert_eq!(pattern.name, "Test Pattern");
    assert_eq!(pattern.main_area_ratio, 600);
}

#[test]
fn test_new_tiling_pattern_invalid_ratio() {
    let pattern = TilingPattern::new(
        "Test".to_string(),
        LayoutAlgorithm::MasterStack,
        1500,
        10,
        5,
        8,
        ResizeBehavior::Shrink,
    );

    assert!(pattern.is_err());
}

#[test]
fn test_master_stack_layout_single_window() {
    let pattern = TilingPattern::default();
    let screen_area = WindowRect { x: 0, y: 0, width: 1000, height: 800 };

    let layout = pattern.compute_layout(&screen_area, 1).unwrap();
    assert_eq!(layout.window_rects.len(), 1);

    let expected_rect = WindowRect { x: 10, y: 10, width: 980, height: 780 };
    assert_eq!(layout.window_rects[0], expected_rect);
}

#[test]
fn test_master_stack_layout_multiple_windows() {
    let pattern = TilingPattern::default();
    let screen_area = WindowRect { x: 0, y: 0, width: 1000, height: 800 };

    let layout = pattern.compute_layout(&screen_area, 3).unwrap();
    assert_eq!(layout.window_rects.len(), 3);

    let main_rect = &layout.window_rects[0];
    assert_eq!(main_rect.width, 588);
    assert_eq!(main_rect.height, 780);
}

#[test]
fn test_grid_layout() {
    let pattern = TilingPattern { layout_algorithm: LayoutAlgorithm::Grid, ..Default::default() };
    let screen_area = WindowRect { x: 0, y: 0, width: 1000, height: 800 };

    let layout = pattern.compute_layout(&screen_area, 4).unwrap();
    assert_eq!(layout.window_rects.len(), 4);

    assert_eq!(layout.window_rects[0].width, layout.window_rects[1].width);
    assert_eq!(layout.window_rects[0].height, layout.window_rects[2].height);
}

#[test]
fn tiling_pattern_test_columns_layout() {
    let pattern = TilingPattern { layout_algorithm: LayoutAlgorithm::Columns, ..Default::default() };
    let screen_area = WindowRect { x: 0, y: 0, width: 1000, height: 800 };

    let layout = pattern.compute_layout(&screen_area, 3).unwrap();
    assert_eq!(layout.window_rects.len(), 3);

    for rect in &layout.window_rects {
        assert_eq!(rect.height, 780);
    }
}

#[test]
fn tiling_pattern_test_validation() {
    let mut pattern = TilingPattern::default();
    assert!(pattern.validate().is_ok());

    pattern.main_area_ratio = 1500;
    assert!(pattern.validate().is_err());

    pattern.main_area_ratio = 600;
    pattern.max_windows = 0;
    assert!(pattern.validate().is_err());

    pattern.max_windows = 10;
    pattern.name = "".to_string();
    assert!(pattern.validate().is_err());
}

#[test]
fn invalid_ratio_message_prints_the_ratio() {
    let e = TilingPatternError::InvalidMainAreaRatio(1500);
    assert_eq!(e.message(), "Invalid main area ratio: 1.5. Must be between 0.1 and 0.9");
    let e = TilingPatternError::InvalidMainAreaRatio(50);
    assert_eq!(e.message(), "Invalid main area ratio: 0.05. Must be between 0.1 and 0.9");
}

#[test]
fn master_stack_places_stack_beside_main_window() {
    let pattern = TilingPattern::default();
    let screen_area = WindowRect { x: 0, y: 0, width: 1000, height: 800 };
    let layout = pattern.compute_layout(&screen_area, 3).unwrap();
    let stack = &layout.window_rects[1];
    // the stack starts after the main window and a gap
    assert_eq!(stack.x, 10 + 588 + 10);
    assert_eq!(stack.width, 980 - 588 - 10);
    // every rectangle stays inside the area within the margin
    for r in &layout.window_rects {
        assert!(r.x >= 10 && r.y >= 10);
        assert!(r.x as i64 + r.width as i64 <= 990);
        assert!(r.y as i64 + r.height as i64 <= 790);
    }
}

#[test]
fn no_windows_leave_the_whole_area() {
    let pattern = TilingPattern::default();
    let screen_area = WindowRect { x: 0, y: 0, width: 1000, height: 800 };
    let layout = pattern.compute_layout(&screen_area, 0).unwrap();
    assert!(layout.window_rects.is_empty());
    assert_eq!(layout.main_area, screen_area);
}
