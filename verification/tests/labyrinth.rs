use rustirinth::event_handler::{box_state_for_button, box_state_for_drag, EventHandler};
use rustirinth::labyrinth::{BoxState, Labyrinth, LabyrinthEntry, LabyrinthState};
use rustirinth::rectangle::Rectangle;

#[test]
fn set_state_marks_and_reports_rectangle() {
    let mut labyrinth = Labyrinth::new(64, 400, 400);
    // (110, 110) lies strictly inside box (1, 1).
    let invalidated = labyrinth.set_state((110, 110), BoxState::Labyrinth);
    let expected = labyrinth.box_to_pixel((1, 1)).unwrap();
    assert_eq!(invalidated, Some(expected));
    assert_eq!(expected, Rectangle { x: 105, y: 105, width: 62, height: 62 });
    assert_eq!(labyrinth.get(1, 1), Some(BoxState::Labyrinth));
}

#[test]
fn set_state_same_state_is_silent() {
    let mut labyrinth = Labyrinth::new(64, 400, 400);
    assert!(labyrinth.set_state((110, 110), BoxState::Labyrinth).is_some());
    // Marking the same box with the same state again changes nothing.
    assert_eq!(labyrinth.set_state((110, 110), BoxState::Labyrinth), None);
    // Toggling it back reports the same rectangle again.
    let cleared = labyrinth.set_state((110, 110), BoxState::Empty);
    assert_eq!(cleared, Some(labyrinth.box_to_pixel((1, 1)).unwrap()));
    assert_eq!(labyrinth.get(1, 1), Some(BoxState::Empty));
}

#[test]
fn set_state_on_boundary_is_silent() {
    let mut labyrinth = Labyrinth::new(64, 400, 400);
    assert_eq!(labyrinth.set_state((168, 110), BoxState::Labyrinth), None);
    assert_eq!(labyrinth.set_state((0, 0), BoxState::Labyrinth), None);
}

#[test]
fn labyrinth_pixel_to_box_matches_grid() {
    let labyrinth = Labyrinth::new(64, 400, 400);
    assert_eq!(labyrinth.pixel_to_box((110, 110)), Some((1, 1)));
    assert_eq!(labyrinth.pixel_to_box((168, 110)), None);
    assert_eq!(labyrinth.pixel_to_box((0, 0)), None);
}

#[test]
fn get_out_of_range_is_none() {
    let labyrinth = Labyrinth::new(64, 400, 400);
    assert_eq!(labyrinth.get(5, 0), None);
    assert_eq!(labyrinth.get(0, 5), None);
    assert_eq!(labyrinth.get(0, 0), Some(BoxState::Empty));
}

#[test]
fn pixel_rectangle_to_box_range_inside() {
    let labyrinth = Labyrinth::new(64, 400, 400);
    let clip = Rectangle { x: 100, y: 100, width: 50, height: 50 };
    let (x_range, y_range) = labyrinth.pixel_rectangle_to_box_range(&clip).unwrap();
    assert_eq!(x_range, 0..2);
    assert_eq!(y_range, 0..2);
}

#[test]
fn pixel_rectangle_to_box_range_outside_is_valid() {
    let labyrinth = Labyrinth::new(64, 400, 400);
    // Fully beyond the bottom-right corner of the grid area.
    let clip = Rectangle { x: 380, y: 380, width: 10, height: 10 };
    let (x_range, y_range) = labyrinth.pixel_rectangle_to_box_range(&clip).unwrap();
    assert_eq!(x_range, 5..5);
    assert!(x_range.is_empty());
    assert_eq!(y_range, 5..5);
    // Fully before the top-left corner.
    let clip = Rectangle { x: 0, y: 0, width: 10, height: 10 };
    let (x_range, y_range) = labyrinth.pixel_rectangle_to_box_range(&clip).unwrap();
    assert_eq!(x_range, 0..1);
    assert_eq!(y_range, 0..1);
}

#[test]
fn visible_boxes_row_major() {
    // A 3-by-3 grid: margins of 2, a 48-pixel square of boxes at (8, 8).
    let mut labyrinth = Labyrinth::new(16, 64, 64);
    assert_eq!(labyrinth.grid.x_box_cnt, 3);
    assert_eq!(labyrinth.grid.y_box_cnt, 3);
    let whole = Rectangle { x: 8, y: 8, width: 49, height: 49 };
    let visible = labyrinth.visible_boxes(&whole);
    assert_eq!(visible.len(), 9);
    for (index, (rectangle, state)) in visible.iter().enumerate() {
        let i = (index / 3) as u32;
        let j = (index % 3) as u32;
        assert_eq!(*rectangle, labyrinth.box_to_pixel((i, j)).unwrap());
        assert_eq!(*state, BoxState::Empty);
    }
    // Mark the centre box and watch exactly its entry change state.
    assert!(labyrinth.set_state((29, 29), BoxState::Labyrinth).is_some());
    let visible = labyrinth.visible_boxes(&whole);
    assert_eq!(visible.len(), 9);
    for (index, (_, state)) in visible.iter().enumerate() {
        let expected = if index == 4 { BoxState::Labyrinth } else { BoxState::Empty };
        assert_eq!(*state, expected);
    }
}

#[test]
fn visible_boxes_clip_restricts() {
    let labyrinth = Labyrinth::new(16, 64, 64);
    // A clip covering only the interior of box (0, 0).
    let clip = Rectangle { x: 10, y: 10, width: 5, height: 5 };
    let visible = labyrinth.visible_boxes(&clip);
    assert_eq!(visible.len(), 1);
    assert_eq!(visible[0].0, clip.intersect(&labyrinth.box_to_pixel((0, 0)).unwrap()).unwrap());
}

#[test]
fn on_size_allocate_builds_and_tears_down() {
    let mut handler = EventHandler::new();
    let mut state = LabyrinthState::new(64);
    assert_eq!(state.box_size, 64);
    assert!(state.labyrinth.is_none());
    let resized = handler.on_size_allocate(
        &mut state,
        &Rectangle { x: 0, y: 0, width: 400, height: 400 },
    );
    assert!(resized.is_ok());
    let labyrinth = state.labyrinth.as_ref().unwrap();
    assert_eq!(labyrinth.grid.x_box_cnt, 5);
    assert_eq!(labyrinth.grid.y_box_cnt, 5);
    let collapsed = handler.on_size_allocate(
        &mut state,
        &Rectangle { x: 0, y: 0, width: 0, height: 300 },
    );
    assert!(collapsed.is_ok());
    assert!(state.labyrinth.is_none());
}

#[test]
fn button_decisions() {
    assert_eq!(box_state_for_button(1), Some(BoxState::Labyrinth));
    assert_eq!(box_state_for_button(3), Some(BoxState::Empty));
    assert_eq!(box_state_for_button(2), None);
    assert_eq!(box_state_for_drag(true, false), Some(BoxState::Labyrinth));
    assert_eq!(box_state_for_drag(true, true), Some(BoxState::Labyrinth));
    assert_eq!(box_state_for_drag(false, true), Some(BoxState::Empty));
    assert_eq!(box_state_for_drag(false, false), None);
}

#[test]
fn box_state_defaults_and_colors() {
    assert_eq!(BoxState::default(), BoxState::Empty);
    assert_eq!(LabyrinthEntry::default().state, BoxState::Empty);
    assert_eq!(BoxState::Empty.color().to_tuple(), (255, 255, 255));
    assert_eq!(BoxState::Labyrinth.color().to_tuple(), (0, 0, 255));
}
