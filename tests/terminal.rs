use iced_term::backend::{Action, BackendCommand, ChildEvent, TermOp, TermState};
use iced_term::bindings::{Binding, BindingAction, InputKind};
use iced_term::grid::Size;
use iced_term::modes::{ALT_SCREEN, SHIFT};
use iced_term::settings::BackendSettings;
use iced_term::terminal::BridgeStep;
use iced_term::{ColorPalette, Command, Event, Modifiers, Subscription, TermMode, Terminal};

fn vt() -> TermState {
    TermState { mode: TermMode::empty(), display_offset: 0, selection: None, links: Vec::new() }
}

fn terminal() -> Terminal {
    Terminal::new(
        7,
        Box::new(ColorPalette::default()),
        BackendSettings::default(),
        Size { width: 10, height: 20 },
    )
}

#[test]
fn backend_commands_wait_for_the_backend() {
    let mut t = terminal();
    let u = t.update(Command::ProcessBackendCommand(BackendCommand::Scroll(1)), &vt());
    assert_eq!(u.action, Action::Ignore);
    assert!(u.ops.is_empty());
    assert!(t.backend().is_none());
    let u = t.update(Command::InitBackend, &vt());
    assert_eq!(u.action, Action::Ignore);
    assert_eq!(t.backend().unwrap().size().cell_width, 10);
    let u = t.update(Command::ProcessBackendCommand(BackendCommand::Scroll(1)), &vt());
    assert_eq!(u.action, Action::Redraw);
    assert!(u.redraw);
    assert_eq!(u.ops, vec![TermOp::ScrollDisplay(1)]);
}

#[test]
fn shutdown_ends_backend_commands() {
    let mut t = terminal();
    t.update(Command::InitBackend, &vt());
    let u = t.update(
        Command::ProcessBackendCommand(BackendCommand::ProcessChildEvent(ChildEvent::Exit)),
        &vt(),
    );
    assert_eq!(u.action, Action::Shutdown);
    assert!(t.has_exited());
    let u = t.update(Command::ProcessBackendCommand(BackendCommand::Write(vec![b'a'])), &vt());
    assert_eq!(u.action, Action::Ignore);
    assert!(u.ops.is_empty());
}

#[test]
fn font_change_resizes_the_grid() {
    let mut t = terminal();
    let u = t.update(Command::ChangeFont(Size { width: 8, height: 16 }), &vt());
    assert_eq!(u.action, Action::Ignore);
    assert_eq!(t.cell_size(), Size { width: 8, height: 16 });
    t.update(Command::InitBackend, &vt());
    t.update(
        Command::ProcessBackendCommand(BackendCommand::Resize(Some(Size { width: 800, height: 400 }), None)),
        &vt(),
    );
    let u = t.update(Command::ChangeFont(Size { width: 10, height: 20 }), &vt());
    assert_eq!(u.action, Action::Redraw);
    assert!(u.redraw);
    let size = t.backend().unwrap().size();
    assert_eq!((size.num_cols, size.num_lines), (80, 20));
}

#[test]
fn theme_change_redraws() {
    let mut t = terminal();
    let mut palette = ColorPalette::default();
    palette.red = String::from("#ff0000");
    let u = t.update(Command::ChangeTheme(Box::new(palette.clone())), &vt());
    assert_eq!(u.action, Action::Redraw);
    assert!(!u.resync);
    assert_eq!(t.theme().palette().red, "#ff0000");
    t.update(Command::InitBackend, &vt());
    let u = t.update(Command::ChangeTheme(Box::new(palette)), &vt());
    assert!(u.resync && u.redraw);
}

#[test]
fn bindings_can_be_added() {
    let mut t = terminal();
    let before = t.bindings().len();
    let binding = Binding {
        target: InputKind::Char(String::from("c")),
        modifiers: Modifiers::from_bits(SHIFT),
        terminal_mode_include: TermMode::from_bits(ALT_SCREEN),
        terminal_mode_exclude: TermMode::empty(),
    };
    t.update(Command::AddBindings(vec![(binding, BindingAction::Paste)]), &vt());
    assert_eq!(t.bindings().len(), before + 1);
    assert_eq!(t.id(), 7);
}

#[test]
fn bridge_wraps_events_and_ends_after_exit() {
    let mut s = Subscription::new(3);
    match s.next(Some(ChildEvent::Wakeup)) {
        BridgeStep::Emit(Event::CommandReceived(3, Command::ProcessBackendCommand(BackendCommand::ProcessChildEvent(ChildEvent::Wakeup)))) => {},
        other => panic!("unexpected {:?}", other),
    }
    assert!(matches!(s.next(Some(ChildEvent::Exit)), BridgeStep::Emit(_)));
    assert!(matches!(s.next(None), BridgeStep::End));
}

#[test]
fn bridge_reports_an_early_close() {
    let mut s = Subscription::new(3);
    assert!(matches!(s.next(Some(ChildEvent::Title(String::from("x")))), BridgeStep::Emit(_)));
    assert!(matches!(s.next(None), BridgeStep::ClosedUnexpectedly));
    assert_eq!(s.term_id(), 3);
}

#[test]
fn default_backend_settings() {
    let settings = BackendSettings::default();
    assert_eq!(settings.program, "/bin/bash");
    assert!(settings.args.is_empty());
    assert!(settings.env.is_empty());
    assert!(settings.working_directory.is_none());
}
