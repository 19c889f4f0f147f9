use iced_term::bindings::{Binding, BindingAction, BindingsLayout, Button, Entry, InputKind, NamedKey};
use iced_term::modes::{ALT, ALT_SCREEN, APP_CURSOR, CTRL, LOGO, SGR_MOUSE, SHIFT};
use iced_term::{Modifiers, TermMode};

fn keyboard(target: InputKind, modifiers: u32, mode_include: u32, action: BindingAction) -> Entry {
    (
        Binding {
            target,
            modifiers: Modifiers::from_bits(modifiers),
            terminal_mode_include: TermMode::from_bits(mode_include),
            terminal_mode_exclude: TermMode::empty(),
        },
        action,
    )
}

fn char_key(c: &str, modifiers: u32, mode_include: u32, action: BindingAction) -> Entry {
    keyboard(InputKind::Char(String::from(c)), modifiers, mode_include, action)
}

fn contains(layout: &BindingsLayout, entry: &Entry) -> bool {
    layout.entries().iter().any(|(bind, action)| bind == &entry.0 && action == &entry.1)
}

#[test]
fn add_new_custom_keyboard_binding() {
    let mut current_layout = BindingsLayout::default();
    let custom_bindings = vec![char_key("c", SHIFT | ALT, 0, BindingAction::Copy)];
    let current_layout_length = current_layout.len();
    let custom_bindings_length = custom_bindings.len();
    current_layout.add_bindings(custom_bindings.clone());
    assert_eq!(current_layout.len(), current_layout_length + custom_bindings_length);
    assert!(contains(&current_layout, &custom_bindings[0]));
}

#[test]
fn add_many_new_custom_keyboard_bindings() {
    let mut current_layout = BindingsLayout::default();
    let custom_bindings = vec![
        keyboard(InputKind::KeyCode(NamedKey::ArrowDown), ALT, SGR_MOUSE, BindingAction::LinkOpen),
        char_key("c", SHIFT, ALT_SCREEN, BindingAction::Paste),
        char_key("c", SHIFT | ALT, 0, BindingAction::Copy),
        char_key("w", ALT, 0, BindingAction::Char('W')),
        char_key("q", SHIFT | CTRL | ALT, 0, BindingAction::Esc(String::from("\x1b[1;7C"))),
    ];
    let current_layout_length = current_layout.len();
    let custom_bindings_length = custom_bindings.len();
    current_layout.add_bindings(custom_bindings.clone());
    assert_eq!(current_layout.len(), current_layout_length + custom_bindings_length);
    for entry in &custom_bindings {
        assert!(contains(&current_layout, entry));
    }
}

#[test]
fn add_custom_keyboard_bindings_that_replace_current() {
    let mut current_layout = BindingsLayout::default();
    let custom_bindings = vec![
        char_key("c", SHIFT, ALT_SCREEN, BindingAction::Paste),
        char_key("a", SHIFT | CTRL, 0, BindingAction::Char('A')),
        char_key("b", SHIFT | CTRL, 0, BindingAction::Char('B')),
        char_key("c", SHIFT | CTRL, 0, BindingAction::Copy),
    ];
    let current_layout_length = current_layout.len();
    current_layout.add_bindings(custom_bindings.clone());
    assert_eq!(current_layout.len(), current_layout_length + 1);
    for entry in &custom_bindings {
        assert!(contains(&current_layout, entry));
    }
    let replaced_bindings = vec![
        char_key("a", SHIFT | CTRL, 0, BindingAction::Char('\x01')),
        char_key("b", SHIFT | CTRL, 0, BindingAction::Char('\x02')),
        char_key("c", SHIFT | CTRL, 0, BindingAction::Char('\x03')),
    ];
    for entry in &replaced_bindings {
        assert!(!contains(&current_layout, entry));
    }
}

#[test]
fn add_mouse_binding() {
    let mut current_layout = BindingsLayout::default();
    let custom_bindings = vec![
        keyboard(InputKind::Mouse(Button::Left), SHIFT, ALT_SCREEN, BindingAction::Paste),
        keyboard(InputKind::Mouse(Button::Right), SHIFT | CTRL, 0, BindingAction::Char('A')),
    ];
    let current_layout_length = current_layout.len();
    current_layout.add_bindings(custom_bindings.clone());
    assert_eq!(current_layout.len(), current_layout_length + 2);
    for entry in &custom_bindings {
        assert!(contains(&current_layout, entry));
    }
}

#[test]
fn get_action() {
    let current_layout = BindingsLayout::default();
    for (bind, action) in current_layout.entries() {
        let found_action = current_layout.get_action(
            bind.target.clone(),
            bind.modifiers,
            bind.terminal_mode_include,
        );
        assert_eq!(action, &found_action);
    }
}

#[test]
fn get_action_with_custom_bindings() {
    let mut current_layout = BindingsLayout::default();
    let custom_bindings = vec![
        char_key("c", SHIFT, ALT_SCREEN, BindingAction::Paste),
        char_key("a", SHIFT | CTRL, 0, BindingAction::Char('A')),
        char_key("b", SHIFT | CTRL, 0, BindingAction::Char('B')),
        char_key("c", SHIFT | CTRL, 0, BindingAction::Copy),
    ];
    current_layout.add_bindings(custom_bindings);
    for (bind, action) in current_layout.entries() {
        let found_action = current_layout.get_action(
            bind.target.clone(),
            bind.modifiers,
            bind.terminal_mode_include,
        );
        assert_eq!(action, &found_action);
    }
}

#[test]
fn equal_binding_replaces_in_place() {
    let mut layout = BindingsLayout::default();
    layout.add_bindings(vec![char_key("c", SHIFT, ALT_SCREEN, BindingAction::Paste)]);
    let length = layout.len();
    let position = layout.len() - 1;
    layout.add_bindings(vec![char_key("c", SHIFT, ALT_SCREEN, BindingAction::Copy)]);
    assert_eq!(layout.len(), length);
    assert_eq!(layout.entries()[position].1, BindingAction::Copy);
    assert!(contains(&layout, &char_key("c", SHIFT, ALT_SCREEN, BindingAction::Copy)));
    assert!(!contains(&layout, &char_key("c", SHIFT, ALT_SCREEN, BindingAction::Paste)));
    let action = layout.get_action(
        InputKind::Char(String::from("c")),
        Modifiers::from_bits(SHIFT),
        TermMode::from_bits(ALT_SCREEN),
    );
    assert_eq!(action, BindingAction::Copy);
}

#[test]
fn unbound_input_is_ignored() {
    let layout = BindingsLayout::default();
    let action = layout.get_action(
        InputKind::Char(String::from("z")),
        Modifiers::from_bits(ALT | LOGO),
        TermMode::empty(),
    );
    assert_eq!(action, BindingAction::Ignore);
    let action = layout.get_action(
        InputKind::KeyCode(NamedKey::F30),
        Modifiers::empty(),
        TermMode::empty(),
    );
    assert_eq!(action, BindingAction::Ignore);
}

#[test]
fn cursor_keys_follow_app_cursor_mode() {
    let layout = BindingsLayout::default();
    let normal = layout.get_action(
        InputKind::KeyCode(NamedKey::ArrowUp),
        Modifiers::empty(),
        TermMode::empty(),
    );
    assert_eq!(normal, BindingAction::Esc(String::from("\x1b[A")));
    let app = layout.get_action(
        InputKind::KeyCode(NamedKey::ArrowUp),
        Modifiers::empty(),
        TermMode::from_bits(APP_CURSOR),
    );
    assert_eq!(app, BindingAction::Esc(String::from("\x1bOA")));
}

#[test]
fn control_letters_give_control_characters() {
    let layout = BindingsLayout::default();
    let action = layout.get_action(
        InputKind::Char(String::from("c")),
        Modifiers::from_bits(CTRL),
        TermMode::empty(),
    );
    assert_eq!(action, BindingAction::Char('\x03'));
}

#[test]
fn platform_copy_paste_keys() {
    let other = BindingsLayout::with_command_key(Modifiers::from_bits(CTRL));
    let copy = other.get_action(
        InputKind::Char(String::from("c")),
        Modifiers::from_bits(SHIFT | CTRL),
        TermMode::empty(),
    );
    assert_eq!(copy, BindingAction::Copy);
    let mac = BindingsLayout::with_command_key(Modifiers::from_bits(LOGO));
    let paste = mac.get_action(
        InputKind::Char(String::from("v")),
        Modifiers::from_bits(LOGO),
        TermMode::empty(),
    );
    assert_eq!(paste, BindingAction::Paste);
    let link = mac.get_action(
        InputKind::Mouse(Button::Left),
        Modifiers::from_bits(LOGO),
        TermMode::empty(),
    );
    assert_eq!(link, BindingAction::LinkOpen);
}

#[test]
fn default_table_size() {
    let other = BindingsLayout::with_command_key(Modifiers::from_bits(CTRL));
    assert_eq!(other.len(), 170);
    let mac = BindingsLayout::with_command_key(Modifiers::from_bits(LOGO));
    assert_eq!(mac.len(), 172);
}
