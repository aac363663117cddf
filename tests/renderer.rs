use snake::canvas::Canvas;
use snake::coordinate::Coordinate;
use snake::renderer::Renderer;

#[test]
fn should_create_correct_buffer() {
    let renderer = Renderer::new(3, 3);
    let buf = renderer.buffer();

    assert_eq!(buf, "\0\0\0\n\0\0\0\n\0\0\0\n")
}

#[test]
fn empty_canvas_has_empty_buffer() {
    let canvas = Canvas::new();
    assert_eq!(canvas.to_buffer(), "");
}

#[test]
fn filled_canvas_renders_rows() {
    let mut canvas = Canvas::new();
    canvas.fill('.', 2, 3);
    assert_eq!(canvas.to_buffer(), "...\n...\n");
}

#[test]
fn set_coord_writes_inside_and_refuses_outside() {
    let mut canvas = Canvas::new();
    canvas.fill('.', 3, 3);
    assert!(canvas.set_coord(&Coordinate::new(2, 1), '#'));
    assert!(!canvas.set_coord(&Coordinate::new(3, 0), '#'));
    assert!(!canvas.set_coord(&Coordinate::new(0, 3), '#'));
    assert_eq!(canvas.to_buffer(), "...\n..#\n...\n");
}

#[test]
fn text_rows_follow_the_grid() {
    let mut canvas = Canvas::new();
    canvas.fill('.', 1, 2);
    canvas.add_row_string("Score: 7");
    canvas.add_row(vec!['a', '\u{1F34F}']);
    canvas.add_row_string("");
    assert_eq!(canvas.to_buffer(), "..\nScore: 7\na\u{1F34F}\n\n");
}
