use modal_editor::coordinate::{Location, Position, ScreenOffset, Size};

fn at(height: usize, width: usize) -> Position {
    Position { height, width, max_width: 0 }
}

#[test]
fn defaults_are_the_origin() {
    assert_eq!(Position::default(), Position { width: 0, height: 0, max_width: 0 });
    assert_eq!(ScreenOffset::default(), ScreenOffset { width: 0, height: 0 });
    assert_eq!(Size::default(), Size { width: 0, height: 0 });
    assert_eq!(Location::default(), Location { x: 0, y: 0 });
}

#[test]
fn vertical_moves_stop_at_the_ends() {
    let mut pos = at(3, 7);
    pos.up(1);
    assert_eq!(pos, at(2, 7));
    pos.up(5);
    assert_eq!(pos, at(0, 7));
    pos.down(1, 9);
    assert_eq!(pos, at(1, 7));
    pos.down(20, 9);
    assert_eq!(pos, at(9, 7));
    pos.down(usize::MAX, 9);
    assert_eq!(pos, at(9, 7));
    pos.page_up();
    assert_eq!(pos, at(0, 7));
    pos.page_down(42);
    assert_eq!(pos, at(42, 7));
}

#[test]
fn horizontal_moves_stop_at_the_ends_and_forget_the_remembered_column() {
    let mut pos = Position { height: 1, width: 3, max_width: 9 };
    pos.left(1);
    assert_eq!(pos, at(1, 2));
    pos.left(5);
    assert_eq!(pos, at(1, 0));
    pos.max_width = 9;
    pos.right(1, 4);
    assert_eq!(pos, at(1, 1));
    pos.right(10, 4);
    assert_eq!(pos, at(1, 4));
    pos.max_width = 9;
    pos.snap_left();
    assert_eq!(pos, at(1, 0));
    pos.max_width = 9;
    pos.snap_right(12);
    assert_eq!(pos, at(1, 12));
    pos.max_width = 9;
    pos.set_width(5);
    assert_eq!(pos, at(1, 5));
}

#[test]
fn the_column_is_remembered_across_vertical_moves() {
    let mut pos = at(0, 10);
    pos.resolve_width(4);
    assert_eq!(pos, Position { height: 0, width: 4, max_width: 10 });
    pos.resolve_width(7);
    assert_eq!(pos, Position { height: 0, width: 7, max_width: 10 });
    pos.resolve_width(20);
    assert_eq!(pos, Position { height: 0, width: 10, max_width: 10 });
}

#[test]
fn edges_are_recognised() {
    assert!(at(0, 3).at_top());
    assert!(!at(1, 3).at_top());
    assert!(at(1, 0).at_left_edge());
    assert!(!at(1, 1).at_left_edge());
    assert!(at(1, 5).at_max_width(5));
    assert!(at(1, 6).at_max_width(5));
    assert!(!at(1, 4).at_max_width(5));
    assert!(at(9, 0).at_max_height(9));
    assert!(!at(8, 0).at_max_height(9));
}

#[test]
fn displacement_is_zero_inside_one_next_to_an_edge_and_more_beyond() {
    let size = Size { height: 10, width: 20 };
    let origin = ScreenOffset { height: 0, width: 0 };
    assert_eq!(at(0, 0).max_displacement_from_view(&origin, &size, 2), 0);
    assert_eq!(at(7, 19).max_displacement_from_view(&origin, &size, 2), 0);
    assert_eq!(at(8, 0).max_displacement_from_view(&origin, &size, 2), 1);
    assert_eq!(at(9, 0).max_displacement_from_view(&origin, &size, 2), 2);
    assert_eq!(at(0, 20).max_displacement_from_view(&origin, &size, 2), 1);
    assert_eq!(at(8, 25).max_displacement_from_view(&origin, &size, 2), 6);
    let moved = ScreenOffset { height: 5, width: 5 };
    assert_eq!(at(5, 5).max_displacement_from_view(&moved, &size, 2), 0);
    assert_eq!(at(4, 5).max_displacement_from_view(&moved, &size, 2), 1);
    assert_eq!(at(2, 5).max_displacement_from_view(&moved, &size, 2), 3);
    assert_eq!(at(5, 4).max_displacement_from_view(&moved, &size, 2), 1);
    assert_eq!(at(13, 5).max_displacement_from_view(&moved, &size, 2), 1);
}

#[test]
fn a_screen_too_small_for_its_margin_still_has_one_row_and_one_column() {
    let size = Size { height: 2, width: 0 };
    let origin = ScreenOffset { height: 0, width: 0 };
    assert_eq!(at(0, 0).max_displacement_from_view(&origin, &size, 2), 0);
    assert_eq!(at(1, 0).max_displacement_from_view(&origin, &size, 2), 1);
    assert_eq!(at(0, 1).max_displacement_from_view(&origin, &size, 2), 1);
}

#[test]
fn a_single_move_shifts_the_view_by_one() {
    let size = Size { height: 10, width: 20 };
    let mut offset = ScreenOffset { height: 0, width: 0 };
    offset.update_offset_single_move(&at(8, 0), &size, 2);
    assert_eq!(offset, ScreenOffset { height: 1, width: 0 });
    offset.update_offset_single_move(&at(8, 20), &size, 2);
    assert_eq!(offset, ScreenOffset { height: 1, width: 1 });
    offset.update_offset_single_move(&at(0, 0), &size, 2);
    assert_eq!(offset, ScreenOffset { height: 0, width: 0 });
    offset.update_offset_single_move(&at(3, 3), &size, 2);
    assert_eq!(offset, ScreenOffset { height: 0, width: 0 });
}

#[test]
fn a_snap_centres_the_cursor_within_the_buffer() {
    let size = Size { height: 10, width: 20 };
    let mut offset = ScreenOffset { height: 7, width: 7 };
    offset.handle_offset_screen_snap(&at(50, 3), &size, 2, 100);
    assert_eq!(offset, ScreenOffset { height: 46, width: 0 });
    offset.handle_offset_screen_snap(&at(98, 30), &size, 2, 100);
    assert_eq!(offset, ScreenOffset { height: 92, width: 11 });
    offset.handle_offset_screen_snap(&at(2, 19), &size, 2, 100);
    assert_eq!(offset, ScreenOffset { height: 0, width: 0 });
    offset.handle_offset_screen_snap(&at(2, 20), &size, 2, 100);
    assert_eq!(offset, ScreenOffset { height: 0, width: 1 });
    offset.handle_offset_screen_snap(&at(5, 0), &size, 2, 6);
    assert_eq!(offset, ScreenOffset { height: 0, width: 0 });
    offset.handle_offset_screen_snap(&at(20, 0), &size, 2, 3);
    assert_eq!(offset, ScreenOffset { height: 13, width: 0 });
}

#[test]
fn a_snap_on_a_screen_without_rows_keeps_the_cursor_row_on_top() {
    let size = Size { height: 0, width: 0 };
    let mut offset = ScreenOffset { height: 0, width: 0 };
    offset.handle_offset_screen_snap(&at(5, 5), &size, 2, 10);
    assert_eq!(offset, ScreenOffset { height: 5, width: 5 });
}

#[test]
fn following_uses_the_cheapest_means_that_will_do() {
    let size = Size { height: 10, width: 20 };
    let mut offset = ScreenOffset { height: 0, width: 0 };
    assert_eq!(offset.follow(&at(3, 3), &size, 2, 100), 0);
    assert_eq!(offset, ScreenOffset { height: 0, width: 0 });
    assert_eq!(offset.follow(&at(8, 3), &size, 2, 100), 1);
    assert_eq!(offset, ScreenOffset { height: 1, width: 0 });
    assert_eq!(offset.follow(&at(50, 3), &size, 2, 100), 42);
    assert_eq!(offset, ScreenOffset { height: 46, width: 0 });
    assert_eq!(at(50, 3).max_displacement_from_view(&offset, &size, 2), 0);
}

#[test]
fn the_cursor_is_drawn_relative_to_the_view() {
    let offset = ScreenOffset { height: 4, width: 2 };
    assert_eq!(at(6, 5).relative_view_position(&offset), Location { x: 3, y: 2 });
    assert_eq!(at(1, 1).relative_view_position(&offset), Location { x: 0, y: 0 });
    assert_eq!(offset.to_position(), Position { height: 4, width: 2, max_width: 0 });
}
