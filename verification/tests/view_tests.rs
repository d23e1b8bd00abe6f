use modal_editor::buffer::Buffer;
use modal_editor::coordinate::{Location, Position, ScreenOffset, Size};
use modal_editor::editorcommands::{Direction, EditorCommand};
use modal_editor::view::{
    paste_at, render_rows, Outcome, Redraw, Request, RowContent, View, RESERVED_ROWS,
};

fn rows_of(view: &View) -> Vec<String> {
    view.buffer.text.iter().map(|line| line.to_string()).collect()
}

fn at(height: usize, width: usize) -> Position {
    Position { height, width, max_width: 0 }
}

fn typed(text: &str) -> View {
    let mut view = View::new(Size { height: 10, width: 20 });
    for c in text.chars() {
        if c == '\n' {
            view.handle_event(EditorCommand::NewLine);
        } else {
            view.handle_event(EditorCommand::Insert(c));
        }
    }
    view
}

fn on_screen(view: &View) -> bool {
    view.screen_offset.height <= view.cursor_position.height
        && view.cursor_position.height < view.screen_offset.height + view.size.height
        && view.screen_offset.width <= view.cursor_position.width
        && view.cursor_position.width < view.screen_offset.width + view.size.width
}

fn text_of(content: &RowContent) -> String {
    match content {
        RowContent::Text(text) => text.clone(),
        RowContent::Welcome => String::from("<welcome>"),
        RowContent::Tilde => String::from("~"),
    }
}

#[test]
fn a_new_view_is_empty_and_at_the_origin() {
    let view = View::new(Size { height: 10, width: 20 });
    assert!(view.buffer.is_empty());
    assert_eq!(view.cursor_position, at(0, 0));
    assert_eq!(view.screen_offset, ScreenOffset { height: 0, width: 0 });
    assert_eq!(view.size, Size { height: 10, width: 20 });
    assert!(view.needs_redraw);
    assert_eq!(RESERVED_ROWS, 2);
}

#[test]
fn typed_characters_go_into_the_text() {
    let view = typed("hi");
    assert_eq!(rows_of(&view), vec!["hi"]);
    assert_eq!(view.cursor_position, at(0, 2));
    assert!(!view.buffer.is_saved);
    assert!(view.needs_redraw);
}

#[test]
fn typing_after_a_wide_character_goes_in_after_it() {
    let mut view = typed("漢");
    assert_eq!(view.cursor_position, at(0, 2));
    let outcome = view.handle_event(EditorCommand::Insert('a'));
    assert_eq!(rows_of(&view), vec!["漢a"]);
    assert_eq!(view.cursor_position, at(0, 3));
    assert_eq!(
        outcome,
        Outcome { keep_running: true, redraw: Redraw::Line, request: Request::Nothing }
    );
    view.handle_event(EditorCommand::Move(Direction::Home));
    view.handle_event(EditorCommand::Move(Direction::Right));
    assert_eq!(view.cursor_position, at(0, 1));
    view.handle_event(EditorCommand::Insert('b'));
    assert_eq!(rows_of(&view), vec!["b漢a"]);
}

#[test]
fn enter_breaks_the_line_at_the_cursor() {
    let mut view = typed("hello");
    view.handle_event(EditorCommand::Move(Direction::Left));
    view.handle_event(EditorCommand::Move(Direction::Left));
    let outcome = view.handle_event(EditorCommand::NewLine);
    assert_eq!(rows_of(&view), vec!["hel", "lo"]);
    assert_eq!(view.cursor_position, at(1, 0));
    assert_eq!(outcome.redraw, Redraw::Below);
    let end = typed("ab\n");
    assert_eq!(rows_of(&end), vec!["ab", ""]);
    assert_eq!(end.cursor_position, at(1, 0));
}

#[test]
fn enter_keeps_the_indentation() {
    let mut view = View::new(Size { height: 10, width: 40 });
    view.handle_event(EditorCommand::Tab);
    view.handle_event(EditorCommand::Tab);
    view.handle_event(EditorCommand::Insert('x'));
    assert_eq!(rows_of(&view), vec!["        x"]);
    assert_eq!(view.cursor_position, at(0, 9));
    view.handle_event(EditorCommand::NewLine);
    assert_eq!(rows_of(&view), vec!["        x", "        "]);
    assert_eq!(view.cursor_position, at(1, 8));
}

#[test]
fn a_tab_goes_in_and_comes_out_as_one() {
    let mut view = typed("ab");
    view.handle_event(EditorCommand::Move(Direction::Left));
    view.handle_event(EditorCommand::Tab);
    assert_eq!(rows_of(&view), vec!["a    b"]);
    assert_eq!(view.buffer.text[0].string.len(), 6);
    assert_eq!(view.cursor_position, at(0, 5));
    let outcome = view.handle_event(EditorCommand::Delete);
    assert_eq!(rows_of(&view), vec!["ab"]);
    assert_eq!(view.buffer.text[0].string.len(), 2);
    assert_eq!(view.cursor_position, at(0, 1));
    assert_eq!(outcome.redraw, Redraw::Below);
}

#[test]
fn backspace_at_the_start_of_a_row_joins_it_to_the_row_above() {
    let mut view = typed("ab\ncd");
    view.handle_event(EditorCommand::Move(Direction::Home));
    assert_eq!(view.cursor_position, at(1, 0));
    view.handle_event(EditorCommand::Delete);
    assert_eq!(rows_of(&view), vec!["abcd"]);
    assert_eq!(view.cursor_position, at(0, 2));
    let mut blank = typed("ab\n");
    blank.handle_event(EditorCommand::Delete);
    assert_eq!(rows_of(&blank), vec!["ab"]);
    assert_eq!(blank.cursor_position, at(0, 2));
}

#[test]
fn backspace_at_the_origin_does_nothing() {
    let mut view = typed("ab");
    view.handle_event(EditorCommand::Move(Direction::Home));
    view.buffer.is_saved = true;
    let outcome = view.handle_event(EditorCommand::Delete);
    assert_eq!(rows_of(&view), vec!["ab"]);
    assert_eq!(view.cursor_position, at(0, 0));
    assert!(view.buffer.is_saved);
    assert_eq!(outcome.redraw, Redraw::Nothing);
    let mut empty = View::new(Size { height: 10, width: 20 });
    empty.handle_event(EditorCommand::Delete);
    assert!(empty.buffer.is_empty());
    assert_eq!(empty.deletion(), Redraw::Nothing);
}

#[test]
fn backspace_takes_out_the_character_left_of_the_cursor() {
    let mut view = typed("a漢c");
    view.handle_event(EditorCommand::Move(Direction::Left));
    assert_eq!(view.cursor_position, at(0, 3));
    view.handle_event(EditorCommand::Delete);
    assert_eq!(rows_of(&view), vec!["ac"]);
    assert_eq!(view.cursor_position, at(0, 1));
}

#[test]
fn moves_in_an_empty_buffer_stay_at_the_origin() {
    let mut view = View::new(Size { height: 10, width: 20 });
    for direction in [Direction::Up, Direction::Down, Direction::Left, Direction::Right, Direction::End] {
        let outcome = view.handle_event(EditorCommand::Move(direction));
        assert_eq!(view.cursor_position, at(0, 0));
        assert_eq!(outcome.redraw, Redraw::Cursor);
    }
    view.handle_event(EditorCommand::JumpWord(Direction::Right));
    assert_eq!(view.cursor_position, at(0, 0));
}

#[test]
fn word_jumps_go_to_word_starts() {
    let mut view = typed("I have a bunch\nof text");
    view.handle_event(EditorCommand::Move(Direction::PageUp));
    view.handle_event(EditorCommand::Move(Direction::Home));
    view.handle_event(EditorCommand::JumpWord(Direction::Right));
    assert_eq!(view.cursor_position, at(0, 2));
    view.handle_event(EditorCommand::JumpWord(Direction::Right));
    assert_eq!(view.cursor_position, at(0, 7));
    view.handle_event(EditorCommand::JumpWord(Direction::Right));
    view.handle_event(EditorCommand::JumpWord(Direction::Right));
    assert_eq!(view.cursor_position, at(1, 0));
    view.handle_event(EditorCommand::JumpWord(Direction::Left));
    assert_eq!(view.cursor_position, at(0, 9));
    view.handle_event(EditorCommand::JumpWord(Direction::Up));
    assert_eq!(view.cursor_position, at(0, 9));
}

#[test]
fn requests_are_handed_back() {
    let mut view = typed("ab");
    let pairs = [
        (EditorCommand::Save, Request::Save),
        (EditorCommand::Paste, Request::Paste),
        (EditorCommand::VimMode, Request::VimMode),
        (EditorCommand::Highlight, Request::Highlight),
        (EditorCommand::Search, Request::Search),
        (EditorCommand::JumpLine, Request::JumpLine),
        (EditorCommand::Help, Request::Help),
        (EditorCommand::Theme, Request::Theme),
        (EditorCommand::NoAction, Request::Nothing),
    ];
    for (command, request) in pairs {
        let outcome = view.handle_event(command);
        assert_eq!(outcome.request, request);
        assert!(outcome.keep_running);
        assert_eq!(rows_of(&view), vec!["ab"]);
        assert_eq!(view.cursor_position, at(0, 2));
    }
    let quit = view.handle_event(EditorCommand::Quit);
    assert!(!quit.keep_running);
    assert_eq!(quit.request, Request::Nothing);
}

#[test]
fn the_view_follows_the_cursor_down_and_back() {
    let mut view = View::new(Size { height: 6, width: 20 });
    for _ in 0..10 {
        view.handle_event(EditorCommand::NewLine);
    }
    assert_eq!(view.buffer.len(), 11);
    assert_eq!(view.cursor_position, at(10, 0));
    assert_eq!(view.screen_offset, ScreenOffset { height: 7, width: 0 });
    let up = view.handle_event(EditorCommand::Move(Direction::Up));
    assert_eq!(up.redraw, Redraw::Cursor);
    let top = view.handle_event(EditorCommand::Move(Direction::PageUp));
    assert_eq!(top.redraw, Redraw::Screen);
    assert_eq!(view.screen_offset, ScreenOffset { height: 0, width: 0 });
    for _ in 0..4 {
        view.handle_event(EditorCommand::Move(Direction::Down));
    }
    assert_eq!(view.cursor_position.height, 4);
    assert_eq!(view.screen_offset, ScreenOffset { height: 1, width: 0 });
}

#[test]
fn the_view_follows_the_cursor_sideways() {
    let mut view = View::new(Size { height: 6, width: 5 });
    for c in "abcdefgh".chars() {
        view.handle_event(EditorCommand::Insert(c));
    }
    assert_eq!(view.cursor_position, at(0, 8));
    assert_eq!(view.screen_offset, ScreenOffset { height: 0, width: 4 });
    view.handle_event(EditorCommand::Move(Direction::Home));
    assert_eq!(view.screen_offset, ScreenOffset { height: 0, width: 0 });
}

#[test]
fn a_resize_places_the_view_afresh() {
    let mut view = View::new(Size { height: 20, width: 20 });
    for _ in 0..15 {
        view.handle_event(EditorCommand::NewLine);
    }
    assert_eq!(view.screen_offset.height, 0);
    let outcome = view.handle_event(EditorCommand::Resize(Size { height: 6, width: 10 }));
    assert_eq!(outcome.redraw, Redraw::Screen);
    assert_eq!(view.size, Size { height: 6, width: 10 });
    assert_eq!(view.screen_offset, ScreenOffset { height: 12, width: 0 });
    assert!(on_screen(&view));
}

#[test]
fn the_cursor_stays_on_screen_through_a_long_walk() {
    let mut view = View::new(Size { height: 7, width: 9 });
    let mut seed: u64 = 0x2545_f491_4f6c_dd1d;
    for step in 0..4000 {
        seed = seed.wrapping_mul(6364136223846793005).wrapping_add(1442695040888963407);
        let pick = (seed >> 33) % 20;
        let letter = (b'a' + ((seed >> 40) % 26) as u8) as char;
        let command = match pick {
            0 => EditorCommand::Move(Direction::Up),
            1 => EditorCommand::Move(Direction::Down),
            2 => EditorCommand::Move(Direction::Left),
            3 => EditorCommand::Move(Direction::Right),
            4 => EditorCommand::Move(Direction::PageUp),
            5 => EditorCommand::Move(Direction::PageDown),
            6 => EditorCommand::Move(Direction::Home),
            7 => EditorCommand::Move(Direction::End),
            8 => EditorCommand::Delete,
            9 => EditorCommand::NewLine,
            10 => EditorCommand::Tab,
            11 => EditorCommand::JumpWord(Direction::Left),
            12 => EditorCommand::JumpWord(Direction::Right),
            13 => EditorCommand::Resize(Size {
                height: 1 + ((seed >> 20) % 12) as usize,
                width: 1 + ((seed >> 12) % 30) as usize,
            }),
            14 => EditorCommand::Insert('漢'),
            15 => EditorCommand::Insert(' '),
            _ => EditorCommand::Insert(letter),
        };
        view.handle_event(command);
        assert!(on_screen(&view), "off screen after step {}", step);
        if !view.buffer.is_empty() {
            let row = &view.buffer.text[view.cursor_position.height];
            assert!(view.cursor_position.width <= row.grapheme_len());
        }
        if step % 97 == 0 {
            view.paste("pasted 漢\nlines\n\nhere");
            assert!(on_screen(&view));
        }
    }
    assert!(view.buffer.len() > 1);
}

#[test]
fn pasting_goes_in_at_the_cursor() {
    let mut view = typed("ab");
    view.handle_event(EditorCommand::Move(Direction::Left));
    let redraw = view.paste("XY\nZ");
    assert_eq!(rows_of(&view), vec!["aXYb", "Z"]);
    assert_eq!(view.cursor_position, at(1, 0));
    assert_eq!(redraw, Redraw::Screen);
    assert_eq!(view.paste(""), Redraw::Nothing);
    assert_eq!(rows_of(&view), vec!["aXYb", "Z"]);
    let mut buffer = Buffer::default();
    let mut cursor = at(0, 0);
    assert!(paste_at(&mut buffer, &mut cursor, "hi"));
    assert_eq!(cursor, at(0, 2));
    assert!(!paste_at(&mut buffer, &mut cursor, ""));
}

#[test]
fn jumping_to_a_line_counts_from_one() {
    let mut view = typed("a\nbb\nccc\ndddd");
    view.jump_cursor(2);
    assert_eq!(view.cursor_position.height, 1);
    view.jump_cursor(1);
    assert_eq!(view.cursor_position.height, 0);
    view.jump_cursor(0);
    assert_eq!(view.cursor_position.height, 0);
    view.jump_cursor(3);
    assert_eq!(view.cursor_position.height, 2);
    view.jump_cursor(4);
    assert_eq!(view.cursor_position.height, 3);
    view.jump_cursor(99);
    assert_eq!(view.cursor_position.height, 3);
    let mut empty = View::new(Size { height: 10, width: 20 });
    empty.jump_cursor(5);
    assert_eq!(empty.cursor_position, at(0, 0));
}

#[test]
fn loading_takes_on_the_file() {
    let mut view = typed("old text");
    view.load("notes.txt", Some("one\ntwo\n"));
    assert_eq!(rows_of(&view), vec!["one", "two"]);
    assert_eq!(view.buffer.filename, Some(String::from("notes.txt")));
    assert!(view.buffer.is_saved);
    assert_eq!(view.cursor_position, at(0, 0));
    assert!(view.needs_redraw);
    view.load("missing.txt", None);
    assert!(view.buffer.is_empty());
    assert_eq!(view.buffer.filename, Some(String::from("missing.txt")));
    assert!(!view.buffer.is_saved);
}

#[test]
fn a_file_name_is_taken_on() {
    let mut view = typed("ab");
    view.needs_redraw = false;
    view.get_file_name(String::from("a.txt"));
    assert_eq!(view.buffer.filename, Some(String::from("a.txt")));
    assert!(view.needs_redraw);
    let (line, cell) = View::render_filename_screen("a.t", 13);
    assert_eq!(line, "Filename: a.t");
    assert_eq!(cell, Location { x: 13, y: 0 });
}

#[test]
fn a_full_render_draws_every_text_row() {
    let mut view = typed("hello world, this is long\nab");
    view.size = Size { height: 5, width: 8 };
    view.screen_offset = ScreenOffset { height: 0, width: 6 };
    let rows = view.render(true);
    assert!(!view.needs_redraw);
    let drawn: Vec<(usize, String)> = rows.iter().map(|r| (r.row, text_of(&r.content))).collect();
    assert_eq!(
        drawn,
        vec![
            (0, String::from("world, t")),
            (1, String::from("")),
            (2, String::from("~")),
            (3, String::from("~")),
        ]
    );
}

#[test]
fn a_partial_render_starts_above_the_cursor() {
    let mut view = typed("a\nb\nc\nd");
    view.size = Size { height: 6, width: 8 };
    view.cursor_position = at(2, 0);
    let rows = view.render(false);
    let drawn: Vec<(usize, String)> = rows.iter().map(|r| (r.row, text_of(&r.content))).collect();
    assert_eq!(
        drawn,
        vec![
            (1, String::from("b")),
            (2, String::from("c")),
            (3, String::from("d")),
            (4, String::from("~")),
        ]
    );
}

#[test]
fn an_empty_buffer_shows_its_greeting() {
    let buffer = Buffer::default();
    let rows = render_rows(&buffer, &ScreenOffset { height: 0, width: 0 }, &Size { height: 9, width: 8 }, 0);
    assert_eq!(rows.len(), 8);
    let drawn: Vec<String> = rows.iter().map(|r| text_of(&r.content)).collect();
    assert_eq!(drawn[3], "<welcome>");
    assert_eq!(drawn[2], "~");
    assert_eq!(drawn[4], "~");
    let none = render_rows(&buffer, &ScreenOffset { height: 0, width: 0 }, &Size { height: 0, width: 8 }, 0);
    assert!(none.is_empty());
}

#[test]
fn an_edit_on_the_row_draws_the_row_or_the_screen() {
    let mut view = typed("ab");
    assert_eq!(view.evaluate_view_state_change(), Redraw::Line);
    view.cursor_position = at(0, 2);
    view.screen_offset = ScreenOffset { height: 0, width: 3 };
    assert_eq!(view.evaluate_view_state_change(), Redraw::Screen);
    assert_eq!(view.screen_offset, ScreenOffset { height: 0, width: 2 });
    assert_eq!(view.check_offset(), 0);
}
