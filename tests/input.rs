use iced_term::backend::{BackendCommand, LinkAction, RenderableContent};
use iced_term::bindings::{BindingsLayout, NamedKey};
use iced_term::grid::{GridPoint, Position, SelectionKind};
use iced_term::grid::LinkRange;
use iced_term::input::{
    handle_button_released, handle_cursor_moved, handle_keyboard_event,
    handle_left_button_pressed, is_cursor_hovered_hyperlink, mouse_interaction, Interaction,
    KeyResponse, KeyboardEvent, TermViewState,
};
use iced_term::modes::{APP_CURSOR, CTRL, SGR_MOUSE, SHIFT};
use iced_term::mouse::MouseButton;
use iced_term::{Command, Modifiers, TermMode};

fn command_key() -> Modifiers {
    Modifiers::from_bits(iced_core::keyboard::Modifiers::COMMAND.bits())
}

fn point(line: i32, column: usize) -> GridPoint {
    GridPoint { line, column }
}

#[test]
fn handles_sgr_mouse_mode_with_left_click() {
    let mut state = TermViewState::new();
    let terminal_mode = TermMode::from_bits(SGR_MOUSE);
    let layout_position = Position { x: 5, y: 5 };
    let cursor_position = Position { x: 100, y: 150 };
    let mut commands = Vec::new();

    handle_left_button_pressed(
        &mut state,
        &terminal_mode,
        cursor_position,
        layout_position,
        SelectionKind::Simple,
        &mut commands,
    );

    assert_eq!(commands.len(), 1);
    assert!(matches!(
        commands[0],
        Command::ProcessBackendCommand(BackendCommand::MouseReport(
            MouseButton::LeftButton,
            _,
            GridPoint { line: 0, column: 0 },
            true,
        ))
    ));
    assert!(state.is_dragged);
}

#[test]
fn starts_simple_selection_with_left_click() {
    let terminal_mode = TermMode::from_bits(SGR_MOUSE);
    let cursor_position = Position { x: 200, y: 150 };
    let layout_position = Position { x: 50, y: 50 };

    let cases = vec![SelectionKind::Simple, SelectionKind::Semantic, SelectionKind::Lines];

    for selection_kind in cases {
        let mut state = TermViewState::new();
        state.keyboard_modifiers = Modifiers::from_bits(SHIFT);
        let mut commands = Vec::new();

        handle_left_button_pressed(
            &mut state,
            &terminal_mode,
            cursor_position,
            layout_position,
            selection_kind,
            &mut commands,
        );

        assert_eq!(commands.len(), 1);
        match &commands[0] {
            Command::ProcessBackendCommand(BackendCommand::SelectStart(kind, position)) => {
                assert_eq!(*kind, selection_kind);
                assert_eq!(*position, Position { x: 150, y: 100 });
            },
            other => panic!("unexpected command {:?}", other),
        }
        assert!(state.is_dragged);
    }
}

#[test]
fn updates_mouse_position_on_grid() {
    let mut state = TermViewState::new();
    let terminal_content = RenderableContent::default();
    let mut commands = Vec::new();
    let cases = vec![
        (Position { x: 0, y: 0 }, Position { x: 1, y: 1 }, point(1, 1)),
        (Position { x: 0, y: 0 }, Position { x: 2, y: 2 }, point(2, 2)),
        (Position { x: 0, y: 0 }, Position { x: 30, y: 2 }, point(2, 30)),
        (Position { x: 10, y: 0 }, Position { x: 30, y: 2 }, point(2, 20)),
        (Position { x: 10, y: 10 }, Position { x: 30, y: 2 }, point(0, 20)),
    ];

    for (layout_position, cursor_position, expected) in cases {
        handle_cursor_moved(
            &mut state,
            &terminal_content,
            cursor_position,
            layout_position,
            &mut commands,
        );

        assert_eq!(state.mouse_position_on_grid, expected);
    }
}

#[test]
fn generates_drag_update_command_when_dragged() {
    let mut state = TermViewState::new();
    state.is_dragged = true;
    let terminal_content = RenderableContent::default();
    let layout_position = Position { x: 5, y: 5 };
    let cursor_position = Position { x: 100, y: 150 };
    let mut commands = Vec::new();

    handle_cursor_moved(&mut state, &terminal_content, cursor_position, layout_position, &mut commands);

    assert_eq!(commands.len(), 1);
    assert!(matches!(
        commands[0],
        Command::ProcessBackendCommand(BackendCommand::SelectUpdate(Position { x: 95, y: 145 }))
    ));
}

#[test]
fn generates_drag_update_command_when_dragged_in_srg_mode() {
    let mut state = TermViewState::new();
    state.is_dragged = true;
    let mut terminal_content = RenderableContent::default();
    terminal_content.terminal_mode = TermMode::from_bits(SGR_MOUSE);
    let layout_position = Position { x: 5, y: 5 };
    let cursor_position = Position { x: 100, y: 150 };
    let mut commands = Vec::new();

    handle_cursor_moved(&mut state, &terminal_content, cursor_position, layout_position, &mut commands);

    assert_eq!(commands.len(), 1);
    assert!(matches!(
        commands[0],
        Command::ProcessBackendCommand(BackendCommand::MouseReport(
            MouseButton::LeftMove,
            _,
            GridPoint { line: 49, column: 79 },
            true,
        ))
    ));
}

#[test]
fn generates_drag_update_command_when_dragged_in_srg_mode_with_key_mods() {
    let mut state = TermViewState::new();
    state.keyboard_modifiers = Modifiers::from_bits(SHIFT);
    state.is_dragged = true;
    let mut terminal_content = RenderableContent::default();
    terminal_content.terminal_mode = TermMode::from_bits(SGR_MOUSE);
    let layout_position = Position { x: 5, y: 5 };
    let cursor_position = Position { x: 100, y: 150 };
    let mut commands = Vec::new();

    handle_cursor_moved(&mut state, &terminal_content, cursor_position, layout_position, &mut commands);

    assert_eq!(commands.len(), 1);
    assert!(matches!(
        commands[0],
        Command::ProcessBackendCommand(BackendCommand::SelectUpdate(Position { x: 95, y: 145 }))
    ));
}

#[test]
fn generates_drag_update_and_link_open() {
    let mut state = TermViewState::new();
    state.keyboard_modifiers = command_key();
    state.is_dragged = true;
    let mut terminal_content = RenderableContent::default();
    terminal_content.terminal_mode = TermMode::from_bits(SGR_MOUSE);
    let layout_position = Position { x: 5, y: 5 };
    let cursor_position = Position { x: 100, y: 150 };
    let mut commands = Vec::new();

    handle_cursor_moved(&mut state, &terminal_content, cursor_position, layout_position, &mut commands);

    assert_eq!(commands.len(), 2);
    assert!(matches!(
        commands[0],
        Command::ProcessBackendCommand(BackendCommand::SelectUpdate(Position { x: 95, y: 145 }))
    ));
    assert!(matches!(
        commands[1],
        Command::ProcessBackendCommand(BackendCommand::ProcessLink(
            LinkAction::Hover,
            GridPoint { line: 49, column: 79 },
        ))
    ));
}

#[test]
fn sgr_mouse_mode_activated() {
    let mut state = TermViewState::new();
    let terminal_mode = TermMode::from_bits(SGR_MOUSE);
    let bindings = BindingsLayout::new();
    let mut commands = Vec::new();

    handle_button_released(&mut state, &terminal_mode, &bindings, &mut commands);

    assert_eq!(commands.len(), 1);
    assert!(matches!(
        commands[0],
        Command::ProcessBackendCommand(BackendCommand::MouseReport(
            MouseButton::LeftButton,
            _,
            GridPoint { line: 0, column: 0 },
            false
        )),
    ));
}

#[test]
fn link_open_on_button_release() {
    let mut state = TermViewState::new();
    state.keyboard_modifiers = command_key();
    let terminal_mode = TermMode::from_bits(SGR_MOUSE);
    let bindings = BindingsLayout::new();
    let mut commands = Vec::new();

    handle_button_released(&mut state, &terminal_mode, &bindings, &mut commands);

    assert_eq!(commands.len(), 2);
    assert!(matches!(
        commands[0],
        Command::ProcessBackendCommand(BackendCommand::MouseReport(
            MouseButton::LeftButton,
            _,
            GridPoint { line: 0, column: 0 },
            false
        )),
    ));
    assert!(matches!(
        commands[1],
        Command::ProcessBackendCommand(BackendCommand::ProcessLink(
            LinkAction::Open,
            GridPoint { line: 0, column: 0 }
        )),
    ));
}

#[test]
fn link_open_on_button_release_in_non_srg_mode() {
    let mut state = TermViewState::new();
    state.keyboard_modifiers = command_key();
    state.mouse_position_on_grid = GridPoint { line: 4, column: 10 };
    let terminal_mode = TermMode::empty();
    let bindings = BindingsLayout::new();
    let mut commands = Vec::new();

    handle_button_released(&mut state, &terminal_mode, &bindings, &mut commands);

    assert_eq!(commands.len(), 1);
    assert!(matches!(
        commands[0],
        Command::ProcessBackendCommand(BackendCommand::ProcessLink(
            LinkAction::Open,
            GridPoint { line: 4, column: 10 }
        )),
    ));
}

#[test]
fn cursor_far_outside_clamps_to_grid() {
    let mut state = TermViewState::new();
    let terminal_content = RenderableContent::default();
    let mut commands = Vec::new();
    handle_cursor_moved(
        &mut state,
        &terminal_content,
        Position { x: i32::MIN, y: i32::MAX },
        Position { x: 10, y: -10 },
        &mut commands,
    );
    assert_eq!(state.mouse_position_on_grid, point(49, 0));
}

#[test]
fn modifiers_change_shows_and_hides_links() {
    let bindings = BindingsLayout::with_command_key(Modifiers::from_bits(CTRL));
    let mut state = TermViewState::with_command_key(Modifiers::from_bits(CTRL));
    state.mouse_position_on_grid = point(3, 7);
    let r = handle_keyboard_event(
        &mut state,
        &bindings,
        TermMode::empty(),
        KeyboardEvent::ModifiersChanged(Modifiers::from_bits(CTRL)),
    );
    assert_eq!(r, KeyResponse::Send(BackendCommand::ProcessLink(LinkAction::Hover, point(3, 7))));
    assert_eq!(state.keyboard_modifiers, Modifiers::from_bits(CTRL));
    let r = handle_keyboard_event(
        &mut state,
        &bindings,
        TermMode::empty(),
        KeyboardEvent::ModifiersChanged(Modifiers::from_bits(CTRL | SHIFT)),
    );
    assert_eq!(r, KeyResponse::Send(BackendCommand::ProcessLink(LinkAction::Clear, point(3, 7))));
}

#[test]
fn unbound_characters_are_written_as_typed() {
    let bindings = BindingsLayout::with_command_key(Modifiers::from_bits(CTRL));
    let mut state = TermViewState::with_command_key(Modifiers::from_bits(CTRL));
    let r = handle_keyboard_event(
        &mut state,
        &bindings,
        TermMode::empty(),
        KeyboardEvent::CharacterPressed(String::from("Ä")),
    );
    assert_eq!(r, KeyResponse::Send(BackendCommand::Write("Ä".as_bytes().to_vec())));
}

#[test]
fn bound_characters_are_looked_up_in_lower_case() {
    let bindings = BindingsLayout::with_command_key(Modifiers::from_bits(CTRL));
    let mut state = TermViewState::with_command_key(Modifiers::from_bits(CTRL));
    state.keyboard_modifiers = Modifiers::from_bits(CTRL);
    let r = handle_keyboard_event(
        &mut state,
        &bindings,
        TermMode::empty(),
        KeyboardEvent::CharacterPressed(String::from("C")),
    );
    assert_eq!(r, KeyResponse::Send(BackendCommand::Write(vec![3])));
    state.keyboard_modifiers = Modifiers::from_bits(CTRL | SHIFT);
    let r = handle_keyboard_event(
        &mut state,
        &bindings,
        TermMode::empty(),
        KeyboardEvent::CharacterPressed(String::from("V")),
    );
    assert_eq!(r, KeyResponse::Paste);
}

#[test]
fn named_keys_send_their_sequences() {
    let bindings = BindingsLayout::with_command_key(Modifiers::from_bits(CTRL));
    let mut state = TermViewState::with_command_key(Modifiers::from_bits(CTRL));
    let r = handle_keyboard_event(
        &mut state,
        &bindings,
        TermMode::from_bits(APP_CURSOR),
        KeyboardEvent::NamedKeyPressed(NamedKey::ArrowLeft, Modifiers::empty()),
    );
    assert_eq!(r, KeyResponse::Send(BackendCommand::Write(b"\x1bOD".to_vec())));
    let r = handle_keyboard_event(
        &mut state,
        &bindings,
        TermMode::empty(),
        KeyboardEvent::NamedKeyPressed(NamedKey::Enter, Modifiers::empty()),
    );
    assert_eq!(r, KeyResponse::Send(BackendCommand::Write(vec![0x0d])));
    let r = handle_keyboard_event(
        &mut state,
        &bindings,
        TermMode::empty(),
        KeyboardEvent::NamedKeyPressed(NamedKey::F25, Modifiers::empty()),
    );
    assert_eq!(r, KeyResponse::Nothing);
}

#[test]
fn cursor_shape_over_the_view() {
    let mut state = TermViewState::new();
    state.mouse_position_on_grid = point(2, 5);
    let mut content = RenderableContent::default();
    assert_eq!(mouse_interaction(&state, None, true), Interaction::Text);
    assert_eq!(mouse_interaction(&state, Some(&content), false), Interaction::Idle);
    assert_eq!(mouse_interaction(&state, Some(&content), true), Interaction::Text);
    content.terminal_mode = TermMode::from_bits(SGR_MOUSE);
    assert_eq!(mouse_interaction(&state, Some(&content), true), Interaction::Idle);
    content.hovered_hyperlink = Some(LinkRange { start: point(2, 0), end: point(2, 9) });
    assert!(is_cursor_hovered_hyperlink(&state, &content));
    assert_eq!(mouse_interaction(&state, Some(&content), true), Interaction::Pointer);
    state.mouse_position_on_grid = point(2, 10);
    assert!(!is_cursor_hovered_hyperlink(&state, &content));
}
