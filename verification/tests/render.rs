use devdoc::editor::App;
use devdoc::event::{KeyCode, KeyKind};
use devdoc::render::{center, ScreenRect};

#[test]
fn center_centers_within_area() {
    let area = ScreenRect { x: 2, y: 1, width: 20, height: 10 };
    let r = center(area, 10, 4);
    assert_eq!(r, ScreenRect { x: 7, y: 4, width: 10, height: 4 });
}

#[test]
fn center_caps_to_available_space() {
    let area = ScreenRect { x: 3, y: 2, width: 5, height: 3 };
    let r = center(area, 9, 7);
    assert_eq!(r, ScreenRect { x: 3, y: 2, width: 5, height: 3 });
}

#[test]
fn cursor_placed_after_border_while_searching() {
    let mut app = App::new();
    app.enter_char('a');
    app.enter_char('b');
    let input_area = ScreenRect { x: 4, y: 12, width: 30, height: 3 };
    assert_eq!(app.cursor_position(input_area), Some((7, 13)));
}

#[test]
fn cursor_hidden_in_normal_mode() {
    let mut app = App::new();
    app.enter_char('a');
    app.handle_key(KeyCode::Esc, KeyKind::Press);
    let input_area = ScreenRect { x: 0, y: 0, width: 30, height: 3 };
    assert_eq!(app.cursor_position(input_area), None);
}
