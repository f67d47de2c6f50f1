use rustirinth::grid::{
    GeneralPoint, GeneralPointInGridCoordinates, GeneralPointInScreenCoordinates, GeneralScreen,
    Grid,
};
use rustirinth::rectangle::Rectangle;

fn screen_point(x: u32, y: u32) -> GeneralPointInScreenCoordinates<u32> {
    GeneralPointInScreenCoordinates(GeneralPoint { coordinate: (x, y) })
}

fn grid_point(x: u32, y: u32) -> GeneralPointInGridCoordinates<u32> {
    GeneralPointInGridCoordinates(GeneralPoint { coordinate: (x, y) })
}

#[test]
fn grid_new_centers_and_counts() {
    let grid = Grid::new(64, 400, 400);
    assert_eq!(grid.screen, GeneralScreen { width: 400, height: 400 });
    assert_eq!(grid.box_size, 64);
    assert_eq!(grid.x_box_cnt, 5);
    assert_eq!(grid.y_box_cnt, 5);
    assert_eq!(grid.area.0, Rectangle { x: 40, y: 40, width: 321, height: 321 });
}

#[test]
fn grid_new_degenerate_is_empty() {
    let grid = Grid::new(64, 0, 0);
    assert_eq!(grid.x_box_cnt, 0);
    assert_eq!(grid.y_box_cnt, 0);
    assert_eq!(grid.pixel_to_box(screen_point(0, 0)), None);
    assert_eq!(grid.pixel_to_box(screen_point(1, 1)), None);
    assert_eq!(grid.pixel_to_box(screen_point(1000, 1000)), None);
}

#[test]
fn pixel_to_box_interior_point() {
    let grid = Grid::new(64, 400, 400);
    assert_eq!(grid.pixel_to_box(screen_point(110, 110)), Some(grid_point(1, 1)));
}

#[test]
fn pixel_to_box_boundary_is_none() {
    let grid = Grid::new(64, 400, 400);
    // A point on the shared line between box columns 1 and 2.
    assert_eq!(grid.pixel_to_box(screen_point(168, 110)), None);
    // Points on or outside the outer boundary.
    assert_eq!(grid.pixel_to_box(screen_point(40, 100)), None);
    assert_eq!(grid.pixel_to_box(screen_point(361, 100)), None);
}

#[test]
fn box_to_pixel_round_trip() {
    let grid = Grid::new(64, 400, 400);
    let rectangle = grid.box_to_pixel(&grid_point(4, 3)).unwrap();
    assert_eq!(rectangle.0, Rectangle { x: 297, y: 233, width: 62, height: 62 });
    // A point strictly inside that rectangle maps back to the same box.
    assert_eq!(grid.pixel_to_box(screen_point(300, 235)), Some(grid_point(4, 3)));
}

#[test]
fn box_to_pixel_out_of_range_fails() {
    let grid = Grid::new(64, 400, 400);
    let result = grid.box_to_pixel(&grid_point(5, 0));
    assert!(result.is_err());
    assert_eq!(result.err().unwrap().message(), "An internal error occurred");
}

#[test]
fn inside_and_axis_queries() {
    let grid = Grid::new(64, 400, 400);
    assert!(grid.is_inside(screen_point(40, 40)));
    assert!(grid.is_on_axis(screen_point(40, 40)));
    assert!(grid.is_inside(screen_point(110, 110)));
    assert!(!grid.is_on_axis(screen_point(110, 110)));
    assert!(grid.is_inside(screen_point(361, 361)));
    assert!(!grid.is_inside(screen_point(362, 361)));
    assert!(grid.is_on_axis(screen_point(168, 110)));
}

#[test]
fn pixel_area_to_box_area_and_range() {
    let grid = Grid::new(64, 400, 400);
    let clip = rustirinth::grid::GeneralRectangleInScreenCoordinates(Rectangle {
        x: 100,
        y: 100,
        width: 50,
        height: 50,
    });
    let area = grid.pixel_area_to_box_area(&clip).unwrap();
    assert_eq!(area.0, Rectangle { x: 0, y: 0, width: 1, height: 1 });
    let (x_range, y_range) = grid.pixel_area_to_box_range(&clip).unwrap();
    assert_eq!(x_range, 0..2);
    assert_eq!(y_range, 0..2);
}

#[test]
fn pixel_area_outside_is_none() {
    let grid = Grid::new(64, 400, 400);
    let clip = rustirinth::grid::GeneralRectangleInScreenCoordinates(Rectangle {
        x: 380,
        y: 380,
        width: 10,
        height: 10,
    });
    assert_eq!(grid.pixel_area_to_box_area(&clip), None);
    assert!(grid.pixel_area_to_box_range(&clip).is_none());
}

#[test]
fn axis_lines_cover_the_clip() {
    let grid = Grid::new(64, 400, 400);
    let clip = Rectangle { x: 40, y: 40, width: 321, height: 321 };
    let vertical = grid.axis_lines_x(&clip);
    let expected_x: Vec<u32> = vec![40, 104, 168, 232, 296, 360];
    assert_eq!(vertical.len(), expected_x.len());
    for (line, x) in vertical.iter().zip(expected_x.iter()) {
        assert_eq!(*line, Rectangle { x: *x, y: 40, width: 0, height: 321 });
    }
    let horizontal = grid.axis_lines_y(&clip);
    assert_eq!(horizontal.len(), 6);
    for (line, y) in horizontal.iter().zip(expected_x.iter()) {
        assert_eq!(*line, Rectangle { x: 40, y: *y, width: 321, height: 0 });
    }
}

#[test]
fn axis_lines_outside_clip_are_empty() {
    let grid = Grid::new(64, 400, 400);
    let clip = Rectangle { x: 380, y: 380, width: 10, height: 10 };
    assert!(grid.axis_lines_x(&clip).is_empty());
    assert!(grid.axis_lines_y(&clip).is_empty());
}

#[test]
fn screen_and_point_accessors() {
    let screen = GeneralScreen::from((400u32, 300u32));
    assert_eq!(screen, GeneralScreen { width: 400, height: 300 });
    let point = GeneralPoint { coordinate: (3u32, 4u32) };
    assert_eq!(point.x(), 3);
    assert_eq!(point.y(), 4);
    let area = Rectangle { x: 1, y: 2, width: 3, height: 4 };
    let top_left = GeneralPointInScreenCoordinates::<u32>::top_left_of(&area);
    assert_eq!(top_left, screen_point(1, 2));
    let bottom_right = GeneralPointInScreenCoordinates::<u32>::bottom_right_of(&area);
    assert_eq!(bottom_right, screen_point(4, 6));
}
