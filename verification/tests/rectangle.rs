use rustirinth::basic_types::Point;
use rustirinth::rectangle::{
    GeneralRectangle, GeneralRectangularArea, IsARectangle, IsARectangularArea, Rectangle,
};

#[test]
fn intersect_commutative_samples() {
    let pairs = [
        (
            Rectangle { x: 0, y: 0, width: 10, height: 10 },
            Rectangle { x: 5, y: 5, width: 10, height: 10 },
        ),
        (
            Rectangle { x: 1, y: 2, width: 3, height: 4 },
            Rectangle { x: 100, y: 200, width: 3, height: 4 },
        ),
        (
            Rectangle { x: 0, y: 0, width: 2, height: 2 },
            Rectangle { x: 2, y: 0, width: 2, height: 2 },
        ),
        (
            Rectangle { x: 7, y: 7, width: 0, height: 0 },
            Rectangle { x: 7, y: 7, width: 5, height: 5 },
        ),
    ];
    for (a, b) in pairs.iter() {
        assert_eq!(a.intersect(b), b.intersect(a));
    }
}

#[test]
fn intersect_self_is_identity() {
    let rectangle = Rectangle { x: 1, y: 2, width: 3, height: 4 };
    assert_eq!(rectangle.intersect(&rectangle), Some(rectangle));
}

#[test]
fn intersect_touching_edges_is_zero_width() {
    let left = Rectangle { x: 0, y: 0, width: 2, height: 2 };
    let right = Rectangle { x: 2, y: 0, width: 2, height: 2 };
    let intersection = left.intersect(&right);
    assert_eq!(
        intersection,
        Some(Rectangle { x: 2, y: 0, width: 0, height: 2 })
    );
}

#[test]
fn intersect_disjoint_is_none() {
    let a = Rectangle { x: 0, y: 0, width: 2, height: 2 };
    let b = Rectangle { x: 10, y: 10, width: 2, height: 2 };
    assert_eq!(a.intersect(&b), None);
}

#[test]
fn rectangle_from_tuple_round_trip() {
    let rectangle = Rectangle::from::<u32, (u32, u32, u32, u32)>(&(1, 2, 3, 4)).unwrap();
    assert_eq!(rectangle, Rectangle { x: 1, y: 2, width: 3, height: 4 });
    let tuple: (u32, u32, u32, u32) = rectangle.to::<u32, (u32, u32, u32, u32)>().unwrap();
    assert_eq!(tuple, (1, 2, 3, 4));
}

#[test]
fn rectangle_from_negative_component_fails() {
    let rectangle = Rectangle::from::<i32, (i32, i32, i32, i32)>(&(-1, 2, 3, 4));
    assert!(rectangle.is_err());
    let error = rectangle.err().unwrap();
    assert_eq!(
        error.message(),
        "Conversion error or overflow while converting \"-1\""
    );
}

#[test]
fn rectangle_from_i32_succeeds() {
    let rectangle = Rectangle::from::<i32, (i32, i32, i32, i32)>(&(1, 2, 3, 4)).unwrap();
    assert_eq!(rectangle, Rectangle { x: 1, y: 2, width: 3, height: 4 });
    let back: (i32, i32, i32, i32) = rectangle.to::<i32, (i32, i32, i32, i32)>().unwrap();
    assert_eq!(back, (1, 2, 3, 4));
}

#[test]
fn approx_rectangle_conversions() {
    let big_rectangle = GeneralRectangle::<u64> {
        x: 1,
        y: 4_294_967_296,
        width: 3,
        height: 4,
    };
    assert!(big_rectangle.approx_to::<u32, Rectangle>().is_err());
    let rectangle =
        Rectangle::approx_from::<u64, (u64, u64, u64, u64)>(&(1, 2, 3, 4)).unwrap();
    assert_eq!(rectangle, Rectangle { x: 1, y: 2, width: 3, height: 4 });
}

#[test]
fn rectangle_accessors() {
    let rectangle = Rectangle { x: 1, y: 2, width: 3, height: 4 };
    assert_eq!(rectangle.x(), 1);
    assert_eq!(rectangle.y(), 2);
    assert_eq!(rectangle.width(), 3);
    assert_eq!(rectangle.height(), 4);
    assert_eq!(rectangle.top_left_x(), 1);
    assert_eq!(rectangle.top_left_y(), 2);
    assert_eq!(rectangle.bottom_right_x(), 4);
    assert_eq!(rectangle.bottom_right_y(), 6);
}

#[test]
fn rectangle_corner_conversions() {
    let rectangle = Rectangle { x: 1, y: 2, width: 3, height: 4 };
    let area = rectangle.to_area();
    assert_eq!(
        area,
        GeneralRectangularArea { top_left_x: 1, top_left_y: 2, bottom_right_x: 4, bottom_right_y: 6 }
    );
    let back: Rectangle = area.into();
    assert_eq!(back, rectangle);
    let crossed = GeneralRectangularArea::<u32> {
        top_left_x: 5,
        top_left_y: 5,
        bottom_right_x: 2,
        bottom_right_y: 9,
    };
    let clamped: Rectangle = crossed.into();
    assert_eq!(clamped, Rectangle { x: 5, y: 5, width: 0, height: 4 });
}

#[test]
fn point_tuple_conversions() {
    let point = Point::from((3u32, 4u32));
    assert_eq!(point, Point { x: 3, y: 4 });
    let tuple: (u32, u32) = point.into();
    assert_eq!(tuple, (3, 4));
}
