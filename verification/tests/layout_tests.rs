use prediction_tracker::geometry::COLUMN_GUTTER;
use prediction_tracker::geometry::Region;
use prediction_tracker::geometry::dashboard_regions;
use prediction_tracker::geometry::split_columns;
use prediction_tracker::geometry::split_rows;

#[test]
fn test_dashboard_regions_even_split() {
    let area = Region { x: 0, y: 0, width: 100, height: 40 };
    let regs = dashboard_regions(area);
    assert_eq!(regs.list, Region { x: 0, y: 0, width: 49, height: 40 });
    assert_eq!(regs.graph, Region { x: 51, y: 0, width: 49, height: 20 });
    assert_eq!(regs.details, Region { x: 51, y: 20, width: 49, height: 20 });
}

#[test]
fn test_columns_share_width_with_gutter() {
    let area = Region { x: 3, y: 2, width: 81, height: 10 };
    let (left, right) = split_columns(area, COLUMN_GUTTER);
    assert_eq!(left.width + COLUMN_GUTTER + right.width, area.width);
    assert_eq!(right.x, left.x + left.width + COLUMN_GUTTER);
    assert!(right.width - left.width <= 1);
    assert_eq!(left.height, area.height);
    assert_eq!(right.height, area.height);
}

#[test]
fn test_columns_empty_when_narrower_than_gutter() {
    let area = Region { x: 0, y: 0, width: 1, height: 5 };
    let (left, right) = split_columns(area, COLUMN_GUTTER);
    assert_eq!(left.width, 0);
    assert_eq!(right.width, 0);
}

#[test]
fn test_rows_split_evenly_odd_height() {
    let area = Region { x: 0, y: 0, width: 10, height: 41 };
    let (top, bottom) = split_rows(area);
    assert_eq!(top.height, 20);
    assert_eq!(bottom.height, 21);
    assert_eq!(bottom.y, 20);
}

#[test]
fn test_layout_rederived_identically() {
    let area = Region { x: 0, y: 0, width: 120, height: 35 };
    assert_eq!(dashboard_regions(area), dashboard_regions(area));
}
