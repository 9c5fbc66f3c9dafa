use puls::layout::{calculate_grid_dimensions, min_area_for_text};

#[test]
fn test_grid_dimensions() {
    let result = calculate_grid_dimensions(4, 80, 24);
    assert!(result.0 * result.1 >= 4);

    let result = calculate_grid_dimensions(6, 80, 24);
    assert!(result.0 * result.1 >= 6);
    assert_eq!(calculate_grid_dimensions(1, 80, 24), (1, 1));
}

#[test]
fn test_min_area_for_text() {
    let text = "Hello\nWorld";
    let (width, height) = min_area_for_text(text, 2);

    assert_eq!(width, 9);
    assert_eq!(height, 6);
}

#[test]
fn grid_prefers_wide_cells() {
    assert_eq!(calculate_grid_dimensions(4, 80, 24), (1, 4));
    assert_eq!(calculate_grid_dimensions(0, 80, 24), (1, 1));
    assert_eq!(calculate_grid_dimensions(4, 80, 0), (1, 4));
    assert_eq!(calculate_grid_dimensions(6, 120, 40), (2, 3));
}

#[test]
fn min_area_line_endings() {
    assert_eq!(min_area_for_text("", 1), (2, 2));
    assert_eq!(min_area_for_text("abc\r\nde\n", 0), (3, 2));
    assert_eq!(min_area_for_text("a\n\nlonger", 0), (6, 3));
}
