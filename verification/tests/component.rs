use file_browser::browser::FileBrowser;
use file_browser::input::{EventOutcome, InputEvent, KeyCode, KeyPress};
use file_browser::screen::{CaretKind, CaretPosition, ScreenArea, ThemeStyle};
use tui::buffer::Buffer;
use tui::layout::Rect;
use tui::style::Color;

fn key(c: char) -> InputEvent {
    InputEvent::Key(KeyPress { code: KeyCode::Char(c), ctrl: false, alt: false, shift: false })
}

fn area() -> ScreenArea {
    ScreenArea { x: 0, y: 0, width: 20, height: 10 }
}

fn theme() -> ThemeStyle {
    ThemeStyle { fg: None, bg: Some(4) }
}

fn surface() -> Buffer {
    Buffer::empty(Rect::new(0, 0, 24, 12))
}

fn row_text(buf: &Buffer, y: u16, width: u16) -> String {
    (0..width).map(|x| buf.get(x, y).symbol.clone()).collect()
}

#[test]
fn new_lists_the_placeholder_entries_unselected() {
    let browser = FileBrowser::new();
    assert_eq!(browser.files, vec!["Item 1", "Item 2", "Item 3"]);
    assert_eq!(browser.selection(), None);
    assert_eq!(browser.entry_count(), 3);
}

#[test]
fn down_and_up_keys_are_consumed() {
    let mut browser = FileBrowser::new();
    assert_eq!(browser.handle_event(&key('j')), EventOutcome::Consumed);
    assert_eq!(browser.handle_event(&key('k')), EventOutcome::Consumed);
}

#[test]
fn other_events_are_ignored_and_change_nothing() {
    let mut browser = FileBrowser::new();
    browser.handle_event(&key('j'));
    let before = browser.selection();
    assert_eq!(browser.handle_event(&key('x')), EventOutcome::Ignored);
    assert_eq!(browser.handle_event(&key('J')), EventOutcome::Ignored);
    let esc = InputEvent::Key(KeyPress {
        code: KeyCode::Escape,
        ctrl: false,
        alt: false,
        shift: false,
    });
    assert_eq!(browser.handle_event(&esc), EventOutcome::Ignored);
    let ctrl_j = InputEvent::Key(KeyPress {
        code: KeyCode::Char('j'),
        ctrl: true,
        alt: false,
        shift: false,
    });
    assert_eq!(browser.handle_event(&ctrl_j), EventOutcome::Ignored);
    assert_eq!(browser.handle_event(&InputEvent::Resize(80, 24)), EventOutcome::Ignored);
    assert_eq!(browser.handle_event(&InputEvent::Mouse(3, 4)), EventOutcome::Ignored);
    assert_eq!(
        browser.handle_event(&InputEvent::Paste(String::from("jj"))),
        EventOutcome::Ignored
    );
    assert_eq!(browser.handle_event(&InputEvent::FocusGained), EventOutcome::Ignored);
    assert_eq!(browser.handle_event(&InputEvent::FocusLost), EventOutcome::Ignored);
    assert_eq!(browser.handle_event(&InputEvent::IdleTimeout), EventOutcome::Ignored);
    assert_eq!(browser.selection(), before);
}

#[test]
fn navigation_on_empty_list_is_safe_and_keeps_no_selection() {
    let mut browser = FileBrowser::with_entries(Vec::new());
    assert_eq!(browser.handle_event(&key('j')), EventOutcome::Consumed);
    assert_eq!(browser.selection(), None);
    assert_eq!(browser.handle_event(&key('k')), EventOutcome::Consumed);
    assert_eq!(browser.selection(), None);
    let mut buf = surface();
    browser.render(&area(), &theme(), &mut buf);
    assert_eq!(browser.selection(), None);
}

#[test]
fn first_render_heals_an_absent_selection() {
    let mut browser = FileBrowser::with_entries(vec![String::from("a"), String::from("b")]);
    assert_eq!(browser.selection(), None);
    let mut buf = surface();
    browser.render(&area(), &theme(), &mut buf);
    assert_eq!(browser.selection(), Some(0));
    browser.handle_event(&key('j'));
    browser.render(&area(), &theme(), &mut buf);
    assert_eq!(browser.selection(), Some(1));
}

#[test]
fn rendering_twice_with_unchanged_state_gives_an_identical_image() {
    let mut browser = FileBrowser::new();
    let mut buf = surface();
    browser.render(&area(), &theme(), &mut buf);
    let first = buf.clone();
    browser.render(&area(), &theme(), &mut buf);
    assert_eq!(buf, first);
}

#[test]
fn render_draws_the_titled_border_and_the_entries() {
    let mut browser = FileBrowser::new();
    let mut buf = surface();
    let blank = buf.clone();
    browser.render(&area(), &theme(), &mut buf);
    assert_ne!(buf, blank);
    assert!(row_text(&buf, 0, 20).contains("Files"));
    assert!(row_text(&buf, 1, 20).contains("Item 1"));
    assert!(row_text(&buf, 2, 20).contains("Item 2"));
    assert!(row_text(&buf, 3, 20).contains("Item 3"));
}

#[test]
fn render_marks_the_selected_row_and_only_it() {
    let mut browser = FileBrowser::new();
    browser.handle_event(&key('j'));
    browser.handle_event(&key('j'));
    let mut buf = surface();
    browser.render(&area(), &theme(), &mut buf);
    assert_eq!(browser.selection(), Some(1));
    assert!(row_text(&buf, 2, 20).contains(">Item 2"));
    assert!(!row_text(&buf, 1, 20).contains('>'));
    assert!(!row_text(&buf, 3, 20).contains('>'));
}

#[test]
fn render_clears_the_region_to_the_theme_background() {
    let mut browser = FileBrowser::new();
    let mut buf = surface();
    buf.get_mut(5, 8).symbol = String::from("@");
    buf.get_mut(21, 5).symbol = String::from("@");
    browser.render(&area(), &theme(), &mut buf);
    assert_eq!(buf.get(5, 8).symbol, " ");
    assert_eq!(buf.get(5, 8).bg, Color::Indexed(4));
    assert_eq!(buf.get(21, 5).symbol, "@");
}

#[test]
fn scenario_three_items() {
    let mut browser = FileBrowser::new();
    let mut buf = surface();
    browser.render(&area(), &theme(), &mut buf);
    assert_eq!(browser.selection(), Some(0));
    browser.handle_event(&key('j'));
    assert_eq!(browser.selection(), Some(1));
    browser.handle_event(&key('j'));
    browser.handle_event(&key('j'));
    assert_eq!(browser.selection(), Some(0));
    browser.handle_event(&key('k'));
    assert_eq!(browser.selection(), Some(2));
}

#[test]
fn caret_report_is_the_fixed_block_default() {
    let browser = FileBrowser::new();
    let (pos, kind) = browser.cursor(&area());
    assert_eq!(pos, Some(CaretPosition { row: 1, col: 0 }));
    assert_eq!(kind, CaretKind::Block);
}

#[test]
fn no_size_preference_no_identifier_always_updates() {
    let mut browser = FileBrowser::new();
    assert_eq!(browser.required_size((80, 24)), None);
    assert_eq!(browser.id(), None);
    assert!(browser.should_update());
    assert_eq!(browser.kind_name(), "FileBrowser");
}
