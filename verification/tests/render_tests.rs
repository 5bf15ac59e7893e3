use cliano::render::render_frame;

const KEYS: [char; 13] = ['a', 'w', 's', 'e', 'd', 'f', 't', 'g', 'y', 'h', 'u', 'j', 'k'];

#[test]
fn frame_has_header_cells_and_footer() {
    let frame = render_frame(None);
    assert_eq!(frame.len(), 15);
    assert_eq!(
        frame[0].text,
        "Cliano Virtual Piano\n        w   e       t   y   u      \n        |   |       |   |   |      \n     "
    );
    assert!(!frame[0].highlighted);
    assert_eq!(frame[14].text, "\nPress keys to play notes. Press ESC to exit.\n");
    assert!(!frame[14].highlighted);
}

#[test]
fn cleared_frame_highlights_nothing() {
    let frame = render_frame(None);
    for (i, key) in KEYS.iter().enumerate() {
        assert!(!frame[i + 1].highlighted);
        assert_eq!(frame[i + 1].text, format!(" {}  ", key));
    }
}

#[test]
fn highlighted_frame_marks_exactly_the_pressed_key() {
    let frame = render_frame(Some('a'));
    assert!(frame[1].highlighted);
    assert_eq!(frame[1].text, "(a) ");
    for i in 2..14 {
        assert!(!frame[i].highlighted);
    }
    let frame = render_frame(Some('k'));
    assert!(frame[13].highlighted);
    assert_eq!(frame[13].text, "(k) ");
    for i in 1..13 {
        assert!(!frame[i].highlighted);
    }
}

#[test]
fn unmapped_press_renders_as_cleared() {
    let frame = render_frame(Some('z'));
    for i in 0..frame.len() {
        assert!(!frame[i].highlighted);
    }
    for (i, key) in KEYS.iter().enumerate() {
        assert_eq!(frame[i + 1].text, format!(" {}  ", key));
    }
}
