use iced_term::backend::{
    alt_scroll_sequence, link_text, selected_text, hovered_link, link_search_lines, viewport_lines, Action, Backend,
    BackendCommand, ChildEvent, LinkAction, TermOp, TermState,
};
use iced_term::grid::{
    selection_point, selection_side, GridPoint, LinkRange, Position, SelectionKind,
    SelectionRange, Side, Size, TerminalSize,
};
use iced_term::modes::{ALTERNATE_SCROLL, ALT_SCREEN, CTRL, LOGO, SGR_MOUSE, SHIFT, UTF8_MOUSE};
use iced_term::mouse::{mouse_report, normal_mouse_report, sgr_mouse_report, MouseButton, MouseMode};
use iced_term::{Modifiers, TermMode};

fn state(mode: u32, display_offset: usize) -> TermState {
    TermState { mode: TermMode::from_bits(mode), display_offset, selection: None, links: Vec::new() }
}

fn backend() -> Backend {
    Backend::with_command_key(Modifiers::from_bits(CTRL), Size { width: 10, height: 20 }, &state(0, 0))
}

fn at(line: i32, column: usize) -> GridPoint {
    GridPoint { line, column }
}

fn link(a: (i32, usize), b: (i32, usize)) -> LinkRange {
    LinkRange { start: at(a.0, a.1), end: at(b.0, b.1) }
}

#[test]
fn selection_point_clamps_to_the_grid() {
    let size = TerminalSize::new(10, 20, 80, 50);
    assert_eq!(selection_point(100000, 0, &size, 0).column, 79);
    assert_eq!(selection_point(-100000, -5, &size, 0), at(0, 0));
    assert_eq!(selection_point(0, 100000, &size, 0).line, 49);
    assert_eq!(selection_point(i32::MAX, i32::MIN, &size, 0), at(0, 79));
    assert_eq!(selection_point(35, 45, &size, 0), at(2, 3));
}

#[test]
fn selection_point_moves_into_the_scrollback() {
    let size = TerminalSize::new(10, 20, 80, 50);
    assert_eq!(selection_point(35, 45, &size, 7), at(-5, 3));
}

#[test]
fn selection_side_second_half_is_right() {
    assert_eq!(selection_side(14, 10), Side::Left);
    assert_eq!(selection_side(15, 10), Side::Right);
    assert_eq!(selection_side(19, 10), Side::Right);
    assert_eq!(selection_side(20, 10), Side::Left);
    assert_eq!(selection_side(5, 11), Side::Left);
    assert_eq!(selection_side(6, 11), Side::Right);
    assert_eq!(selection_side(-3, 10), Side::Left);
}

#[test]
fn sgr_report_of_a_left_click() {
    assert_eq!(sgr_mouse_report(at(0, 0), 0, true), b"\x1b[<0;1;1M".to_vec());
    assert_eq!(sgr_mouse_report(at(0, 0), 0, false), b"\x1b[<0;1;1m".to_vec());
    assert_eq!(sgr_mouse_report(at(41, 119), 36, true), b"\x1b[<36;120;42M".to_vec());
    assert_eq!(sgr_mouse_report(at(-3, 9), 0, true), b"\x1b[<0;10;-2M".to_vec());
}

#[test]
fn legacy_reports() {
    assert_eq!(normal_mouse_report(at(2, 5), 0, false), Some(vec![0x1b, b'[', b'M', 32, 38, 35]));
    assert_eq!(normal_mouse_report(at(223, 5), 0, false), None);
    assert_eq!(normal_mouse_report(at(2, 222), 0, false), Some(vec![0x1b, b'[', b'M', 32, 255, 35]));
    assert_eq!(
        normal_mouse_report(at(2, 100), 0, true),
        Some(vec![0x1b, b'[', b'M', 32, 0xc0 + 133 / 64, 0x80 + 133 % 64, 35])
    );
    assert_eq!(normal_mouse_report(at(2015, 0), 0, true), None);
    assert_eq!(normal_mouse_report(at(-1, 0), 0, true), None);
    assert_eq!(normal_mouse_report(at(0, 0), 223, false), Some(vec![0x1b, b'[', b'M', 255, 33, 33]));
    assert_eq!(normal_mouse_report(at(300, 0), 223, false), None);
}

#[test]
fn report_modifiers_and_releases() {
    let shift_alt_ctrl = Modifiers::from_bits(SHIFT | 0x100 | CTRL);
    let ctrl = Modifiers::from_bits(CTRL);
    assert_eq!(
        mouse_report(MouseMode::Sgr, MouseButton::RightButton, shift_alt_ctrl, ctrl, at(0, 0), true),
        Some(b"\x1b[<30;1;1M".to_vec())
    );
    assert_eq!(
        mouse_report(MouseMode::Normal(false), MouseButton::LeftButton, Modifiers::empty(), ctrl, at(0, 0), false),
        Some(vec![0x1b, b'[', b'M', 35, 33, 33])
    );
    let logo = Modifiers::from_bits(LOGO);
    assert_eq!(
        mouse_report(MouseMode::Sgr, MouseButton::ScrollUp, logo, logo, at(0, 0), true),
        Some(b"\x1b[<80;1;1M".to_vec())
    );
}

#[test]
fn mouse_mode_follows_terminal_mode() {
    assert_eq!(MouseMode::from_mode(TermMode::from_bits(SGR_MOUSE | UTF8_MOUSE)), MouseMode::Sgr);
    assert_eq!(MouseMode::from_mode(TermMode::from_bits(UTF8_MOUSE)), MouseMode::Normal(true));
    assert_eq!(MouseMode::from_mode(TermMode::empty()), MouseMode::Normal(false));
}

#[test]
fn mouse_report_command_writes_to_the_child() {
    let mut b = backend();
    b.sync(&state(SGR_MOUSE, 0));
    let out = b.process_command(
        BackendCommand::MouseReport(MouseButton::LeftButton, Modifiers::empty(), at(0, 0), true),
        &state(SGR_MOUSE, 0),
    );
    assert_eq!(out.action, Action::Redraw);
    assert_eq!(out.ops, vec![TermOp::WritePty(b"\x1b[<0;1;1M".to_vec())]);
}

#[test]
fn scroll_in_alternate_screen_sends_cursor_keys() {
    let mut b = backend();
    let vt = state(ALTERNATE_SCROLL | ALT_SCREEN, 0);
    let out = b.process_command(BackendCommand::Scroll(3), &vt);
    assert_eq!(out.action, Action::Redraw);
    assert_eq!(out.ops, vec![TermOp::WritePty(b"\x1bOA\x1bOA\x1bOA".to_vec())]);
    let out = b.process_command(BackendCommand::Scroll(-2), &vt);
    assert_eq!(out.ops, vec![TermOp::WritePty(b"\x1bOB\x1bOB".to_vec())]);
}

#[test]
fn scroll_elsewhere_moves_the_viewport() {
    let mut b = backend();
    let out = b.process_command(BackendCommand::Scroll(3), &state(ALT_SCREEN, 0));
    assert_eq!(out.ops, vec![TermOp::ScrollDisplay(3)]);
    assert!(out.resync);
    let out = b.process_command(BackendCommand::Scroll(0), &state(ALT_SCREEN, 0));
    assert!(out.ops.is_empty());
    assert_eq!(alt_scroll_sequence(0), Vec::<u8>::new());
}

#[test]
fn resize_floors_to_whole_cells() {
    let mut b = backend();
    let out = b.process_command(
        BackendCommand::Resize(Some(Size { width: 802, height: 403 }), Some(Size { width: 10, height: 20 })),
        &state(0, 0),
    );
    assert_eq!(out.action, Action::Redraw);
    assert_eq!(b.size().num_cols, 80);
    assert_eq!(b.size().num_lines, 20);
    assert_eq!(out.ops, vec![TermOp::Resize(b.size())]);
}

#[test]
fn resize_to_nothing_keeps_the_size() {
    let mut b = backend();
    b.process_command(BackendCommand::Resize(Some(Size { width: 802, height: 403 }), None), &state(0, 0));
    let before = b.size();
    let out = b.process_command(BackendCommand::Resize(Some(Size { width: 9, height: 403 }), None), &state(0, 0));
    assert_eq!(b.size(), before);
    assert!(out.ops.is_empty());
    let out = b.process_command(BackendCommand::Resize(None, Some(Size { width: 0, height: 20 })), &state(0, 0));
    assert_eq!(b.size(), before);
    assert!(out.ops.is_empty());
}

#[test]
fn font_change_resizes_with_the_stored_layout() {
    let mut b = backend();
    b.process_command(BackendCommand::Resize(Some(Size { width: 800, height: 400 }), None), &state(0, 0));
    b.process_command(BackendCommand::Resize(None, Some(Size { width: 8, height: 16 })), &state(0, 0));
    assert_eq!(b.size().num_cols, 100);
    assert_eq!(b.size().num_lines, 25);
}

#[test]
fn selection_commands() {
    let mut b = backend();
    let out = b.process_command(
        BackendCommand::SelectStart(SelectionKind::Semantic, Position { x: 37, y: 45 }),
        &state(0, 2),
    );
    assert_eq!(out.ops, vec![TermOp::StartSelection(SelectionKind::Semantic, at(0, 3), Side::Right)]);
    assert!(out.resync);
    let out = b.process_command(BackendCommand::SelectUpdate(Position { x: 1000, y: 5 }), &state(0, 0));
    assert_eq!(out.ops, vec![TermOp::UpdateSelection(at(0, 79), Side::Left)]);
    let range = SelectionRange { start: at(0, 3), end: at(1, 2), is_block: false };
    b.sync(&TermState { mode: TermMode::empty(), display_offset: 0, selection: Some(range), links: Vec::new() });
    assert_eq!(b.renderable_content().selectable_range, Some(range));
    assert!(range.contains(at(0, 70)));
    assert!(!range.contains(at(1, 3)));
    let block = SelectionRange { is_block: true, ..range };
    assert!(!block.contains(at(0, 70)));
}

#[test]
fn hover_twice_gives_the_same_link() {
    let mut b = backend();
    let vt = TermState {
        mode: TermMode::empty(),
        display_offset: 0,
        selection: None,
        links: vec![link((-200, 0), (-199, 4)), link((3, 2), (3, 30)), link((3, 40), (4, 1))],
    };
    let out = b.process_command(BackendCommand::ProcessLink(LinkAction::Hover, at(3, 45)), &vt);
    assert_eq!(out.action, Action::Redraw);
    let first = b.renderable_content().hovered_hyperlink;
    assert_eq!(first, Some(link((3, 40), (4, 1))));
    b.process_command(BackendCommand::ProcessLink(LinkAction::Hover, at(3, 45)), &vt);
    assert_eq!(b.renderable_content().hovered_hyperlink, first);
    let out = b.process_command(BackendCommand::ProcessLink(LinkAction::Open, at(3, 45)), &vt);
    assert_eq!(out.action, Action::Ignore);
    assert_eq!(out.ops, vec![TermOp::OpenLink(link((3, 40), (4, 1)))]);
    b.process_command(BackendCommand::ProcessLink(LinkAction::Clear, at(3, 45)), &vt);
    assert_eq!(b.renderable_content().hovered_hyperlink, None);
    let out = b.process_command(BackendCommand::ProcessLink(LinkAction::Open, at(3, 45)), &vt);
    assert!(out.ops.is_empty());
}

#[test]
fn hovered_link_skips_matches_outside_the_viewport() {
    let links = vec![link((-5, 0), (-4, 3)), link((0, 0), (0, 9)), link((60, 0), (60, 9))];
    assert_eq!(hovered_link(&links, 0, 49, at(-4, 1)), None);
    assert_eq!(hovered_link(&links, 0, 49, at(0, 5)), Some(link((0, 0), (0, 9))));
    assert_eq!(hovered_link(&links, 0, 49, at(60, 5)), None);
    assert_eq!(viewport_lines(3, 50), (-3, 46));
    assert_eq!(link_search_lines((-3, 46), -400, 47), (-103, 47));
}

#[test]
fn child_events() {
    let mut b = backend();
    let vt = state(0, 0);
    let out = b.process_command(BackendCommand::ProcessChildEvent(ChildEvent::Exit), &vt);
    assert_eq!(out.action, Action::Shutdown);
    let out = b.process_command(BackendCommand::ProcessChildEvent(ChildEvent::Wakeup), &vt);
    assert_eq!(out.action, Action::Redraw);
    assert!(out.resync);
    let out = b.process_command(
        BackendCommand::ProcessChildEvent(ChildEvent::Title(String::from("vim"))),
        &vt,
    );
    assert_eq!(out.action, Action::ChangeTitle(String::from("vim")));
    let out = b.process_command(BackendCommand::ProcessChildEvent(ChildEvent::Other), &vt);
    assert_eq!(out.action, Action::Ignore);
}

#[test]
fn write_goes_to_the_child_and_snaps_to_the_bottom() {
    let mut b = backend();
    let out = b.process_command(BackendCommand::Write(b"ls\r".to_vec()), &state(0, 12));
    assert_eq!(out.action, Action::Ignore);
    assert!(!out.resync);
    assert_eq!(out.ops, vec![TermOp::WritePty(b"ls\r".to_vec()), TermOp::ScrollToBottom]);
}

#[test]
fn initial_size_takes_the_measured_cells() {
    let b = Backend::new(Size { width: 9, height: 0 }, &state(0, 0));
    assert_eq!(b.size().cell_width, 9);
    assert_eq!(b.size().cell_height, 1);
    assert_eq!(b.size().num_cols, 80);
    assert_eq!(b.size().num_lines, 50);
}

#[test]
fn selected_text_keeps_display_order() {
    let cells: Vec<(GridPoint, char)> = vec![
        (at(0, 0), 'a'),
        (at(0, 1), 'b'),
        (at(0, 2), 'c'),
        (at(1, 0), 'd'),
        (at(1, 1), 'e'),
        (at(1, 2), 'f'),
    ];
    let range = SelectionRange { start: at(0, 1), end: at(1, 1), is_block: false };
    assert_eq!(selected_text(&cells, Some(range)), "bcde");
    let block = SelectionRange { is_block: true, ..range };
    assert_eq!(selected_text(&cells, Some(block)), "be");
    assert_eq!(selected_text(&cells, None), "");
    let mut b = backend();
    assert_eq!(b.selectable_content(&cells), "");
    b.sync(&TermState { mode: TermMode::empty(), display_offset: 0, selection: Some(range), links: Vec::new() });
    assert_eq!(b.selectable_content(&cells), "bcde");
}

#[test]
fn link_text_runs_to_the_end_of_the_link() {
    let following: Vec<(GridPoint, char)> =
        vec![(at(0, 1), 't'), (at(0, 2), 't'), (at(0, 3), 'p'), (at(0, 4), ' ')];
    assert_eq!(link_text('h', &following, at(0, 3)), "http");
    assert_eq!(link_text('h', &following, at(5, 0)), "http ");
    assert_eq!(link_text('h', &Vec::new(), at(0, 0)), "h");
}
