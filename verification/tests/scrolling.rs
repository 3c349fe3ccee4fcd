use amp::buffer::LineRange;
use amp::view::scrollable_region::{ScrollableRegion, Visibility};
use amp::view::{Theme, View};
use amp::view::color::Color;
use scribe::{Buffer, Workspace};
use std::path::Path;

fn workspace_with(content: &str) -> Workspace {
    let mut workspace = Workspace::new(Path::new(".")).unwrap();
    let mut buffer = Buffer::new();
    buffer.insert(content);
    workspace.add_buffer(buffer);
    workspace
}

#[test]
fn a_region_starts_at_the_top() {
    let region = ScrollableRegion::new(20);
    assert_eq!(region.height(), 20);
    assert_eq!(region.line_offset(), 0);
    assert_eq!(region.visible_range(), LineRange::new(0, 20));
    assert_eq!(ScrollableRegion::at(5, 7).visible_range(), LineRange::new(7, 12));
}

#[test]
fn scroll_up_stops_at_the_top() {
    let mut region = ScrollableRegion::new(20);
    region.scroll_up(3);
    assert_eq!(region.line_offset(), 0);
    region.scroll_down(10);
    region.scroll_up(3);
    assert_eq!(region.line_offset(), 7);
    region.scroll_up(usize::MAX);
    assert_eq!(region.line_offset(), 0);
}

#[test]
fn scroll_down_stops_at_the_largest_offset() {
    let mut region = ScrollableRegion::new(20);
    region.scroll_down(usize::MAX - 1);
    region.scroll_down(5);
    assert_eq!(region.line_offset(), usize::MAX);
    assert_eq!(region.visible_range(), LineRange::new(usize::MAX, usize::MAX));
}

#[test]
fn scroll_into_view_brings_the_line_to_the_nearest_edge() {
    let mut region = ScrollableRegion::new(10);
    region.scroll_into_view(30);
    assert_eq!(region.line_offset(), 21);
    region.scroll_into_view(30);
    assert_eq!(region.line_offset(), 21);
    region.scroll_into_view(25);
    assert_eq!(region.line_offset(), 21);
    region.scroll_into_view(21);
    assert_eq!(region.line_offset(), 21);
    region.scroll_into_view(5);
    assert_eq!(region.line_offset(), 5);
    region.scroll_into_view(5);
    assert_eq!(region.line_offset(), 5);
    region.scroll_into_view(14);
    assert_eq!(region.line_offset(), 5);
    region.scroll_into_view(15);
    assert_eq!(region.line_offset(), 6);
}

#[test]
fn scroll_into_view_is_idempotent_without_height() {
    let mut region = ScrollableRegion::new(0);
    region.scroll_into_view(5);
    let once = region.line_offset();
    region.scroll_into_view(5);
    assert_eq!(region.line_offset(), once);
    assert_eq!(once, 5);
}

#[test]
fn relative_position_tells_rows_from_what_is_out_of_sight() {
    let region = ScrollableRegion::at(10, 5);
    assert_eq!(region.relative_position(4), Visibility::AboveRegion);
    assert_eq!(region.relative_position(5), Visibility::Visible(0));
    assert_eq!(region.relative_position(14), Visibility::Visible(9));
    assert_eq!(region.relative_position(15), Visibility::BelowRegion);
    assert_eq!(ScrollableRegion::at(0, 5).relative_position(5), Visibility::BelowRegion);
}

#[test]
fn a_view_starts_dark_and_unscrolled() {
    let view = View::new(80, 24);
    assert_eq!(view.theme, Theme::Dark);
    assert_eq!(view.width(), 80);
    assert_eq!(view.height(), 24);
    assert_eq!(view.alt_background_color(), Color::Black);
    let workspace = workspace_with("amp");
    let region = view.visible_region(workspace.current_buffer.as_ref().unwrap());
    assert_eq!(region.height(), 23);
    assert_eq!(region.line_offset(), 0);
}

#[test]
fn the_light_theme_has_a_white_alternate_background() {
    let mut view = View::new(80, 24);
    view.theme = Theme::Light;
    assert_eq!(view.alt_background_color(), Color::White);
    view.resize(100, 0);
    assert_eq!(view.width(), 100);
    assert_eq!(view.height(), 0);
    let workspace = workspace_with("amp");
    assert_eq!(view.visible_region(workspace.current_buffer.as_ref().unwrap()).height(), 0);
}

#[test]
fn scroll_up_leaves_an_unscrolled_buffer_alone() {
    let mut view = View::new(80, 24);
    let workspace = workspace_with("amp");
    let buffer = workspace.current_buffer.as_ref().unwrap();
    view.scroll_up(buffer, 10);
    assert_eq!(view.visible_region(buffer).line_offset(), 0);
}

#[test]
fn scroll_down_and_up_move_the_offset_of_the_buffer() {
    let mut view = View::new(80, 24);
    let workspace = workspace_with("amp");
    let buffer = workspace.current_buffer.as_ref().unwrap();
    view.scroll_down(buffer, 10);
    assert_eq!(view.visible_region(buffer).line_offset(), 10);
    view.scroll_down(buffer, 5);
    assert_eq!(view.visible_region(buffer).line_offset(), 15);
    view.scroll_up(buffer, 7);
    assert_eq!(view.visible_region(buffer).line_offset(), 8);
    view.scroll_up(buffer, 70);
    assert_eq!(view.visible_region(buffer).line_offset(), 0);
    view.scroll_down(buffer, usize::MAX);
    view.scroll_down(buffer, 1);
    assert_eq!(view.visible_region(buffer).line_offset(), usize::MAX);
}

#[test]
fn offsets_are_kept_per_buffer() {
    let mut view = View::new(80, 24);
    let mut workspace = workspace_with("amp");
    view.scroll_down(workspace.current_buffer.as_ref().unwrap(), 10);
    let mut other = Buffer::new();
    other.insert("editor");
    workspace.add_buffer(other);
    let second = workspace.current_buffer.as_ref().unwrap();
    assert_eq!(view.visible_region(second).line_offset(), 0);
    view.scroll_down(second, 3);
    assert_eq!(view.visible_region(second).line_offset(), 3);
    workspace.previous_buffer();
    assert_eq!(view.visible_region(workspace.current_buffer.as_ref().unwrap()).line_offset(), 10);
}

#[test]
fn scroll_to_cursor_is_idempotent() {
    let mut content = String::new();
    for _ in 0..100 {
        content.push_str("line\n");
    }
    let mut view = View::new(80, 11);
    let mut workspace = workspace_with(&content);
    {
        let buffer = workspace.current_buffer.as_mut().unwrap();
        assert!(buffer.cursor.move_to(scribe::buffer::Position { line: 40, offset: 2 }));
    }
    let buffer = workspace.current_buffer.as_ref().unwrap();
    view.scroll_to_cursor(buffer);
    assert_eq!(view.visible_region(buffer).line_offset(), 31);
    view.scroll_to_cursor(buffer);
    assert_eq!(view.visible_region(buffer).line_offset(), 31);
}

#[test]
fn scroll_commands_move_by_a_step() {
    let workspace = workspace_with("amp");
    let mut app = amp::models::application::new(workspace, View::new(80, 24), None);
    amp::commands::view::scroll_up(&mut app);
    let offset = |app: &amp::models::application::Application| {
        app.view.visible_region(app.workspace.current_buffer.as_ref().unwrap()).line_offset()
    };
    assert_eq!(offset(&app), 0);
    amp::commands::view::scroll_down(&mut app);
    assert_eq!(offset(&app), 10);
    amp::commands::view::scroll_down(&mut app);
    amp::commands::view::scroll_up(&mut app);
    assert_eq!(offset(&app), 10);
    amp::commands::view::scroll_to_cursor(&mut app);
    assert_eq!(offset(&app), 0);
}
