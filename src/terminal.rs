//! The terminal facade: a terminal id with its theme, bindings, settings
//! and (once the child process runs) its backend, driven by commands; and
//! the bridge that turns child-process events into commands.

use vstd::prelude::*;
use crate::backend::{
    command_effect, ops_view, snapshot, Action, ActionView, Backend, BackendCommand, ChildEvent,
    TermOp, TermOpView, TermState,
};
use crate::bindings::{add_entries, entries_view, BindingsLayout, Entry, EntryView};
use crate::grid::{initial_size, Size};
use crate::modes::{CTRL, LOGO};
use crate::settings::BackendSettings;
use crate::theme::{ColorPalette, TermTheme};

verus! {

/// A command for the terminal facade.
#[derive(Clone, Debug)]
pub enum Command {
    /// The child process and its terminal state are up: start the backend.
    InitBackend,
    ChangeTheme(Box<ColorPalette>),
    /// The cell size measured from a new font, in pixels.
    ChangeFont(Size),
    AddBindings(Vec<Entry>),
    ProcessBackendCommand(BackendCommand),
}

/// A command addressed to the terminal with this id.
#[derive(Clone, Debug)]
pub enum Event {
    CommandReceived(u64, Command),
}

/// The result of a command for the owner: the action, the operations to
/// perform on the terminal state and the child process, whether to refresh
/// the snapshot afterwards (see [`Terminal::sync`]), and whether to repaint.
pub struct Update {
    pub action: Action,
    pub ops: Vec<TermOp>,
    pub resync: bool,
    pub redraw: bool,
}

/// One terminal: its id, theme, bindings, child-process settings, cell size,
/// and its backend once started; after the backend reports a shutdown, no
/// further backend command has an effect.
pub struct Terminal {
    id: u64,
    theme: TermTheme,
    bindings: BindingsLayout,
    backend_settings: BackendSettings,
    cell_size: Size,
    backend: Option<Backend>,
    exited: bool,
}

/// Nothing happens: the terminal is unchanged and there is nothing to do.
pub open spec fn no_effect(
    t0: Terminal,
    t1: Terminal,
    action: ActionView,
    ops: Seq<TermOpView>,
    resync: bool,
    redraw: bool,
) -> bool {
    &&& t1 == t0
    &&& action == ActionView::Ignore
    &&& ops == Seq::<TermOpView>::empty()
    &&& !resync
    &&& !redraw
}

/// The whole effect of a command on the terminal, as a relation between the
/// terminal before (`t0`) and after (`t1`), the terminal state read, and the
/// update.
pub open spec fn update_effect(
    t0: Terminal,
    t1: Terminal,
    cmd: Command,
    vt: TermState,
    action: ActionView,
    ops: Seq<TermOpView>,
    resync: bool,
    redraw: bool,
) -> bool {
    &&& t1.spec_id() == t0.spec_id()
    &&& t1.spec_settings() == t0.spec_settings()
    &&& match cmd {
        Command::InitBackend => {
            &&& t1.spec_theme() == t0.spec_theme()
            &&& t1.spec_bindings() == t0.spec_bindings()
            &&& t1.spec_cell_size() == t0.spec_cell_size()
            &&& !t1.spec_exited()
            &&& t1.spec_backend() is Some
            &&& {
                let b = t1.spec_backend()->Some_0;
                &&& b.spec_command().bits == CTRL || b.spec_command().bits == LOGO
                &&& b.spec_size() == initial_size(t0.spec_cell_size())
                &&& b.spec_content() == snapshot(b.spec_size(), None, vt)
            }
            &&& action == ActionView::Ignore
            &&& ops == Seq::<TermOpView>::empty()
            &&& !resync
            &&& !redraw
        },
        Command::ChangeTheme(palette) => {
            &&& t1.spec_theme().spec_palette() == *palette
            &&& t1.spec_bindings() == t0.spec_bindings()
            &&& t1.spec_cell_size() == t0.spec_cell_size()
            &&& t1.spec_backend() == t0.spec_backend()
            &&& t1.spec_exited() == t0.spec_exited()
            &&& action == ActionView::Redraw
            &&& ops == Seq::<TermOpView>::empty()
            &&& resync == t0.spec_backend() is Some
            &&& redraw == t0.spec_backend() is Some
        },
        Command::ChangeFont(cell) => {
            &&& t1.spec_theme() == t0.spec_theme()
            &&& t1.spec_bindings() == t0.spec_bindings()
            &&& t1.spec_cell_size() == cell
            &&& t1.spec_exited() == t0.spec_exited()
            &&& match t0.spec_backend() {
                Some(b0) => {
                    &&& t1.spec_backend() is Some
                    &&& command_effect(
                        b0,
                        t1.spec_backend()->Some_0,
                        BackendCommand::Resize(None, Some(cell)),
                        vt,
                        action,
                        ops,
                        resync,
                    )
                    &&& redraw == (action == ActionView::Redraw)
                },
                None => {
                    &&& t1.spec_backend() is None
                    &&& action == ActionView::Ignore
                    &&& ops == Seq::<TermOpView>::empty()
                    &&& !resync
                    &&& !redraw
                },
            }
        },
        Command::AddBindings(list) => {
            &&& t1.spec_theme() == t0.spec_theme()
            &&& t1.spec_bindings()@ == add_entries(t0.spec_bindings()@, entries_view(list@))
            &&& t1.spec_cell_size() == t0.spec_cell_size()
            &&& t1.spec_backend() == t0.spec_backend()
            &&& t1.spec_exited() == t0.spec_exited()
            &&& action == ActionView::Ignore
            &&& ops == Seq::<TermOpView>::empty()
            &&& !resync
            &&& !redraw
        },
        Command::ProcessBackendCommand(c) => {
            if t0.spec_backend() is Some && !t0.spec_exited() {
                &&& t1.spec_theme() == t0.spec_theme()
                &&& t1.spec_bindings() == t0.spec_bindings()
                &&& t1.spec_cell_size() == t0.spec_cell_size()
                &&& t1.spec_backend() is Some
                &&& command_effect(
                    t0.spec_backend()->Some_0,
                    t1.spec_backend()->Some_0,
                    c,
                    vt,
                    action,
                    ops,
                    resync,
                )
                &&& t1.spec_exited() == (action == ActionView::Shutdown)
                &&& redraw == (action == ActionView::Redraw)
            } else {
                no_effect(t0, t1, action, ops, resync, redraw)
            }
        },
    }
}

impl Terminal {
    pub closed spec fn spec_id(&self) -> u64 {
        self.id
    }

    pub closed spec fn spec_theme(&self) -> TermTheme {
        self.theme
    }

    pub closed spec fn spec_bindings(&self) -> BindingsLayout {
        self.bindings
    }

    pub closed spec fn spec_settings(&self) -> BackendSettings {
        self.backend_settings
    }

    pub closed spec fn spec_cell_size(&self) -> Size {
        self.cell_size
    }

    pub closed spec fn spec_backend(&self) -> Option<Backend> {
        self.backend
    }

    pub closed spec fn spec_exited(&self) -> bool {
        self.exited
    }

    /// The theme is well formed, and so is the backend once started.
    pub open spec fn wf(&self) -> bool {
        &&& self.spec_theme().wf()
        &&& (self.spec_backend() is Some ==> self.spec_backend()->Some_0.wf())
    }

    /// A terminal with the default bindings of this platform and no backend
    /// yet.
    pub fn new(
        id: u64,
        palette: Box<ColorPalette>,
        backend_settings: BackendSettings,
        cell_size: Size,
    ) -> (r: Terminal)
        requires
            palette.valid(),
        ensures
            r.wf(),
            r.spec_id() == id,
            r.spec_theme().spec_palette() == *palette,
            r.spec_bindings()@ == crate::default_bindings::default_layout(CTRL)
                || r.spec_bindings()@ == crate::default_bindings::default_layout(LOGO),
            r.spec_settings() == backend_settings,
            r.spec_cell_size() == cell_size,
            r.spec_backend() is None,
            !r.spec_exited(),
    {
        Terminal {
            id,
            theme: TermTheme::new(palette),
            bindings: BindingsLayout::new(),
            backend_settings,
            cell_size,
            backend: None,
            exited: false,
        }
    }

    pub fn id(&self) -> (r: u64)
        ensures
            r == self.spec_id(),
    {
        self.id
    }

    pub fn theme(&self) -> (r: &TermTheme)
        ensures
            *r == self.spec_theme(),
    {
        &self.theme
    }

    pub fn bindings(&self) -> (r: &BindingsLayout)
        ensures
            *r == self.spec_bindings(),
    {
        &self.bindings
    }

    pub fn backend_settings(&self) -> (r: &BackendSettings)
        ensures
            *r == self.spec_settings(),
    {
        &self.backend_settings
    }

    /// The cell size the backend is (or will be) started with.
    pub fn cell_size(&self) -> (r: Size)
        ensures
            r == self.spec_cell_size(),
    {
        self.cell_size
    }

    pub fn backend(&self) -> (r: Option<&Backend>)
        ensures
            match r {
                Some(b) => self.spec_backend() == Some(*b),
                None => self.spec_backend() is None,
            },
    {
        match &self.backend {
            Some(b) => Some(b),
            None => None,
        }
    }

    /// Whether the backend has reported a shutdown.
    pub fn has_exited(&self) -> (r: bool)
        ensures
            r == self.spec_exited(),
    {
        self.exited
    }

    /// Refreshes the backend's snapshot from the terminal state, if the
    /// backend is started.
    pub fn sync(&mut self, vt: &TermState)
        requires
            old(self).wf(),
            vt.display_offset <= i32::MAX,
        ensures
            final(self).wf(),
            final(self).spec_id() == old(self).spec_id(),
            final(self).spec_theme() == old(self).spec_theme(),
            final(self).spec_bindings() == old(self).spec_bindings(),
            final(self).spec_settings() == old(self).spec_settings(),
            final(self).spec_cell_size() == old(self).spec_cell_size(),
            final(self).spec_exited() == old(self).spec_exited(),
            match old(self).spec_backend() {
                Some(b0) => {
                    &&& final(self).spec_backend() is Some
                    &&& final(self).spec_backend()->Some_0.spec_content() == snapshot(
                        b0.spec_size(),
                        b0.spec_content().hovered_hyperlink,
                        *vt,
                    )
                    &&& final(self).spec_backend()->Some_0.spec_size() == b0.spec_size()
                    &&& final(self).spec_backend()->Some_0.spec_command() == b0.spec_command()
                },
                None => final(self).spec_backend() is None,
            },
    {
        match &mut self.backend {
            Some(b) => b.sync(vt),
            None => {},
        }
    }

    /// Processes one command against the terminal state `vt` read just
    /// before; see [`update_effect`] for what each command does.
    pub fn update(&mut self, cmd: Command, vt: &TermState) -> (r: Update)
        requires
            old(self).wf(),
            vt.display_offset <= i32::MAX,
            cmd matches Command::ChangeTheme(p) ==> p.valid(),
        ensures
            final(self).wf(),
            update_effect(
                *old(self),
                *final(self),
                cmd,
                *vt,
                r.action@,
                ops_view(r.ops@),
                r.resync,
                r.redraw,
            ),
    {
        let no_ops: Vec<TermOp> = Vec::new();
        assert(ops_view(no_ops@) =~= Seq::<TermOpView>::empty());
        match cmd {
            Command::InitBackend => {
                self.backend = Some(Backend::new(self.cell_size, vt));
                self.exited = false;
                Update { action: Action::Ignore, ops: no_ops, resync: false, redraw: false }
            },
            Command::ChangeTheme(palette) => {
                self.theme = TermTheme::new(palette);
                let started = self.backend.is_some();
                Update { action: Action::Redraw, ops: no_ops, resync: started, redraw: started }
            },
            Command::ChangeFont(cell) => {
                self.cell_size = cell;
                match &mut self.backend {
                    Some(b) => {
                        let outcome = b.process_command(BackendCommand::Resize(None, Some(cell)), vt);
                        let redraw = outcome.action.is_redraw();
                        Update {
                            action: outcome.action,
                            ops: outcome.ops,
                            resync: outcome.resync,
                            redraw,
                        }
                    },
                    None => Update {
                        action: Action::Ignore,
                        ops: no_ops,
                        resync: false,
                        redraw: false,
                    },
                }
            },
            Command::AddBindings(bindings) => {
                self.bindings.add_bindings(bindings);
                Update { action: Action::Ignore, ops: no_ops, resync: false, redraw: false }
            },
            Command::ProcessBackendCommand(c) => {
                if self.exited {
                    return Update {
                        action: Action::Ignore,
                        ops: no_ops,
                        resync: false,
                        redraw: false,
                    };
                }
                match &mut self.backend {
                    Some(b) => {
                        let outcome = b.process_command(c, vt);
                        let redraw = outcome.action.is_redraw();
                        self.exited = outcome.action.is_shutdown();
                        Update {
                            action: outcome.action,
                            ops: outcome.ops,
                            resync: outcome.resync,
                            redraw,
                        }
                    },
                    None => Update {
                        action: Action::Ignore,
                        ops: no_ops,
                        resync: false,
                        redraw: false,
                    },
                }
            },
        }
    }
}

/// Once the backend has reported a shutdown, a further backend command has
/// no effect: the terminal stays as it is and there is nothing to do.
pub proof fn lemma_no_backend_command_after_shutdown(
    t0: Terminal,
    t1: Terminal,
    t2: Terminal,
    c1: BackendCommand,
    c2: BackendCommand,
    vt1: TermState,
    vt2: TermState,
    ops1: Seq<TermOpView>,
    resync1: bool,
    redraw1: bool,
    action2: ActionView,
    ops2: Seq<TermOpView>,
    resync2: bool,
    redraw2: bool,
)
    requires
        update_effect(
            t0,
            t1,
            Command::ProcessBackendCommand(c1),
            vt1,
            ActionView::Shutdown,
            ops1,
            resync1,
            redraw1,
        ),
        update_effect(
            t1,
            t2,
            Command::ProcessBackendCommand(c2),
            vt2,
            action2,
            ops2,
            resync2,
            redraw2,
        ),
    ensures
        t2 == t1,
        action2 == ActionView::Ignore,
        ops2 == Seq::<TermOpView>::empty(),
        !resync2,
        !redraw2,
{
}

/// What the event bridge does with one receive from the child-process
/// channel.
#[derive(Clone, Debug)]
pub enum BridgeStep {
    /// Hand this event to the terminal's owner.
    Emit(Event),
    /// The channel closed after the child exited: the stream ends.
    End,
    /// The channel closed before the child exited: the backend went away
    /// while events were still expected.
    ClosedUnexpectedly,
}

/// The bridge from a terminal's child-process events to commands for it.
pub struct Subscription {
    term_id: u64,
    shutdown: bool,
}

impl Subscription {
    pub closed spec fn spec_shutdown(&self) -> bool {
        self.shutdown
    }

    pub closed spec fn spec_term_id(&self) -> u64 {
        self.term_id
    }

    pub fn term_id(&self) -> (r: u64)
        ensures
            r == self.spec_term_id(),
    {
        self.term_id
    }

    pub fn new(term_id: u64) -> (r: Subscription)
        ensures
            r.spec_term_id() == term_id,
            !r.spec_shutdown(),
    {
        Subscription { term_id, shutdown: false }
    }

    /// One receive: an event becomes a backend command for this terminal (an
    /// exit is remembered); a closed channel ends the stream if the child has
    /// exited, and is an error otherwise.
    pub fn next(&mut self, received: Option<ChildEvent>) -> (r: BridgeStep)
        ensures
            final(self).spec_term_id() == old(self).spec_term_id(),
            match received {
                Some(ev) => {
                    &&& final(self).spec_shutdown() == (old(self).spec_shutdown() || ev
                        == ChildEvent::Exit)
                    &&& r == BridgeStep::Emit(
                        Event::CommandReceived(
                            old(self).spec_term_id(),
                            Command::ProcessBackendCommand(BackendCommand::ProcessChildEvent(ev)),
                        ),
                    )
                },
                None => {
                    &&& final(self).spec_shutdown() == old(self).spec_shutdown()
                    &&& r == if old(self).spec_shutdown() {
                        BridgeStep::End
                    } else {
                        BridgeStep::ClosedUnexpectedly
                    }
                },
            },
    {
        match received {
            Some(event) => {
                if matches!(event, ChildEvent::Exit) {
                    self.shutdown = true;
                }
                BridgeStep::Emit(
                    Event::CommandReceived(
                        self.term_id,
                        Command::ProcessBackendCommand(BackendCommand::ProcessChildEvent(event)),
                    ),
                )
            },
            None => {
                if self.shutdown {
                    BridgeStep::End
                } else {
                    BridgeStep::ClosedUnexpectedly
                }
            },
        }
    }
}

} // verus!
