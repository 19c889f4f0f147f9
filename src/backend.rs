//! The terminal backend as a state machine: each command, together with
//! what was read from the terminal state, gives the backend's next state,
//! the operations to perform on the terminal state and the child process,
//! and the action for the owner.

use vstd::prelude::*;
use crate::grid::{
    initial_size, selection_contains, pixel_point, pixel_side, resize_fits, resized_size, selection_point, selection_side,
    GridPoint, LinkRange, Position, SelectionKind, SelectionRange, Side, Size, TerminalSize, point_le,
};
use crate::modes::{
    bits_contain, command_modifier, Modifiers, TermMode, ALTERNATE_SCROLL, ALT_SCREEN, CTRL, LOGO,
};
use crate::mouse::{mouse_mode_of, mouse_report, mouse_report_bytes, MouseButton, MouseMode};

verus! {

/// What the backend tells its owner after a command.
#[derive(Clone, Debug, PartialEq, Eq)]
pub enum Action {
    Redraw,
    Shutdown,
    ChangeTitle(String),
    Ignore,
}

/// The value of an [`Action`], with the title as characters.
pub enum ActionView {
    Redraw,
    Shutdown,
    ChangeTitle(Seq<char>),
    Ignore,
}

impl View for Action {
    type V = ActionView;

    open spec fn view(&self) -> ActionView {
        match self {
            Action::Redraw => ActionView::Redraw,
            Action::Shutdown => ActionView::Shutdown,
            Action::ChangeTitle(t) => ActionView::ChangeTitle(t@),
            Action::Ignore => ActionView::Ignore,
        }
    }
}

impl Action {
    pub fn is_redraw(&self) -> (r: bool)
        ensures
            r == (self@ == ActionView::Redraw),
    {
        matches!(self, Action::Redraw)
    }

    pub fn is_shutdown(&self) -> (r: bool)
        ensures
            r == (self@ == ActionView::Shutdown),
    {
        matches!(self, Action::Shutdown)
    }
}

/// What to do with a hyperlink.
#[derive(Clone, Copy, Debug, PartialEq, Eq, Structural, Hash)]
pub enum LinkAction {
    Clear,
    Hover,
    Open,
}

/// An event of the child process, as the terminal state reports it.
#[derive(Clone, Debug, PartialEq, Eq)]
pub enum ChildEvent {
    /// New content is available.
    Wakeup,
    /// The child process exited.
    Exit,
    /// The child set the window title.
    Title(String),
    /// Any other event.
    Other,
}

/// A command for the backend.
#[derive(Clone, Debug, PartialEq, Eq)]
pub enum BackendCommand {
    /// Bytes for the child's input.
    Write(Vec<u8>),
    /// Lines to scroll; positive is up, into the scrollback.
    Scroll(i32),
    /// A new layout area and/or a new cell size, in pixels.
    Resize(Option<Size>, Option<Size>),
    /// Start a selection at a pixel position of the terminal area.
    SelectStart(SelectionKind, Position),
    /// Extend the selection to a pixel position of the terminal area.
    SelectUpdate(Position),
    ProcessLink(LinkAction, GridPoint),
    /// A mouse event to report to the child: the button, the pressed
    /// modifiers, the grid point, and whether it is a press.
    MouseReport(MouseButton, Modifiers, GridPoint, bool),
    ProcessChildEvent(ChildEvent),
}

/// An operation on the terminal state or the child process, for the owner
/// of both to perform.
#[derive(Clone, Debug, PartialEq, Eq)]
pub enum TermOp {
    /// Send the bytes to the child's input.
    WritePty(Vec<u8>),
    /// Move the viewport this many lines into the scrollback (negative: back
    /// towards the bottom).
    ScrollDisplay(i32),
    /// Move the viewport to the bottom.
    ScrollToBottom,
    /// Tell the child its new window size and resize the grid to it.
    Resize(TerminalSize),
    /// Start a new selection.
    StartSelection(SelectionKind, GridPoint, Side),
    /// Extend the current selection, if there is one.
    UpdateSelection(GridPoint, Side),
    /// Open the text in this range as a URL.
    OpenLink(LinkRange),
}

/// The value of a [`TermOp`], with the bytes as a sequence.
pub enum TermOpView {
    WritePty(Seq<u8>),
    ScrollDisplay(i32),
    ScrollToBottom,
    Resize(TerminalSize),
    StartSelection(SelectionKind, GridPoint, Side),
    UpdateSelection(GridPoint, Side),
    OpenLink(LinkRange),
}

impl View for TermOp {
    type V = TermOpView;

    open spec fn view(&self) -> TermOpView {
        match self {
            TermOp::WritePty(b) => TermOpView::WritePty(b@),
            TermOp::ScrollDisplay(d) => TermOpView::ScrollDisplay(*d),
            TermOp::ScrollToBottom => TermOpView::ScrollToBottom,
            TermOp::Resize(s) => TermOpView::Resize(*s),
            TermOp::StartSelection(k, p, s) => TermOpView::StartSelection(*k, *p, *s),
            TermOp::UpdateSelection(p, s) => TermOpView::UpdateSelection(*p, *s),
            TermOp::OpenLink(r) => TermOpView::OpenLink(*r),
        }
    }
}

pub open spec fn ops_view(ops: Seq<TermOp>) -> Seq<TermOpView> {
    ops.map_values(|o: TermOp| o@)
}

/// The result of a command: the action for the owner, the operations to
/// perform in order, and whether the snapshot is to be refreshed from the
/// terminal state after them (see [`Backend::sync`]).
pub struct Outcome {
    pub action: Action,
    pub ops: Vec<TermOp>,
    pub resync: bool,
}

/// What the backend reads from the terminal state: its modes, how far the
/// viewport is scrolled back, the resolved selection, and the URL matches
/// found around the viewport, in grid order (needed for a hover only).
pub struct TermState {
    pub mode: TermMode,
    pub display_offset: usize,
    pub selection: Option<SelectionRange>,
    pub links: Vec<LinkRange>,
}

/// The render-ready snapshot of the terminal, apart from the grid cells.
#[derive(Clone, Copy, Debug, PartialEq, Eq, Structural)]
pub struct RenderableContent {
    pub hovered_hyperlink: Option<LinkRange>,
    pub selectable_range: Option<SelectionRange>,
    pub terminal_mode: TermMode,
    pub terminal_size: TerminalSize,
    pub display_offset: usize,
}

impl Default for RenderableContent {
    /// The snapshot before anything is known: the default size, no mode, no
    /// selection, no hovered link, not scrolled back.
    fn default() -> (r: RenderableContent)
        ensures
            r.hovered_hyperlink is None,
            r.selectable_range is None,
            r.terminal_mode.bits == 0,
            r.terminal_size.wf(),
            r.terminal_size.cell_width == 1,
            r.terminal_size.cell_height == 1,
            r.terminal_size.num_cols == 80,
            r.terminal_size.num_lines == 50,
            r.display_offset == 0,
    {
        RenderableContent {
            hovered_hyperlink: None,
            selectable_range: None,
            terminal_mode: TermMode::empty(),
            terminal_size: TerminalSize::default_size(),
            display_offset: 0,
        }
    }
}

/// `ESC O A` (cursor up) for each line scrolled up, `ESC O B` (cursor down)
/// for each line scrolled down.
pub open spec fn alt_scroll_bytes(delta: int) -> Seq<u8> {
    repeat_bytes(
        seq![
            0x1bu8,
            0x4fu8,
            if delta > 0 {
                0x41u8
            } else {
                0x42u8
            },
        ],
        (if delta < 0 {
            -delta
        } else {
            delta
        }) as nat,
    )
}

/// `n` copies of `unit`, one after the other.
pub open spec fn repeat_bytes(unit: Seq<u8>, n: nat) -> Seq<u8>
    decreases n,
{
    if n == 0 {
        seq![]
    } else {
        repeat_bytes(unit, (n - 1) as nat) + unit
    }
}

/// In the alternate screen with alternate scroll, a scroll by `delta` lines
/// sends `|delta|` cursor keys and nothing else: each three bytes are
/// `ESC O A` when scrolling up, `ESC O B` when scrolling down.
pub proof fn lemma_alt_scroll_sends_cursor_keys(delta: i32, mode: u32)
    requires
        delta != 0,
        bits_contain(mode, ALTERNATE_SCROLL | ALT_SCREEN),
    ensures
        scroll_ops(delta, mode) == seq![TermOpView::WritePty(alt_scroll_bytes(delta as int))],
        alt_scroll_bytes(delta as int).len() == 3 * (if delta < 0 {
            -delta
        } else {
            delta as int
        }),
        forall|k: int|
            0 <= k < (if delta < 0 {
                -delta
            } else {
                delta as int
            }) ==> #[trigger] alt_scroll_bytes(delta as int).subrange(3 * k, 3 * k + 3) == seq![
                0x1bu8,
                0x4fu8,
                if delta > 0 {
                    0x41u8
                } else {
                    0x42u8
                },
            ],
{
    let unit = seq![0x1bu8, 0x4fu8, if delta > 0 { 0x41u8 } else { 0x42u8 }];
    let n: nat = (if delta < 0 { -delta } else { delta as int }) as nat;
    lemma_repeat_bytes(unit, n);
    assert(unit.len() == 3);
    let bytes = alt_scroll_bytes(delta as int);
    assert(bytes == repeat_bytes(unit, n));
    assert forall|k: int| 0 <= k < n implies #[trigger] bytes.subrange(3 * k, 3 * k + 3) == unit by {
        assert(repeat_bytes(unit, n).subrange(k * unit.len(), k * unit.len() + unit.len()) == unit);
        assert(k * unit.len() == 3 * k);
    }
}

/// `n` copies of a unit: `n` times as long, the unit at each multiple of
/// its length.
proof fn lemma_repeat_bytes(unit: Seq<u8>, n: nat)
    ensures
        repeat_bytes(unit, n).len() == n * unit.len(),
        forall|k: int|
            0 <= k < n ==> #[trigger] repeat_bytes(unit, n).subrange(
                k * unit.len(),
                k * unit.len() + unit.len(),
            ) == unit,
    decreases n,
{
    if n > 0 {
        let m = (n - 1) as nat;
        lemma_repeat_bytes(unit, m);
        let prev = repeat_bytes(unit, m);
        let all = repeat_bytes(unit, n);
        assert(all == prev + unit);
        assert(all.len() == n * unit.len()) by (nonlinear_arith)
            requires
                all.len() == prev.len() + unit.len(),
                prev.len() == m * unit.len(),
                n == m + 1,
        ;
        assert forall|k: int| 0 <= k < n implies #[trigger] all.subrange(
            k * unit.len(),
            k * unit.len() + unit.len(),
        ) == unit by {
            if k < m {
                assert(prev.subrange(k * unit.len(), k * unit.len() + unit.len()) == unit);
                assert(k * unit.len() + unit.len() <= m * unit.len()) by (nonlinear_arith)
                    requires
                        0 <= k < m,
                        unit.len() >= 0,
                ;
                assert(all.subrange(k * unit.len(), k * unit.len() + unit.len()) =~= prev.subrange(
                    k * unit.len(),
                    k * unit.len() + unit.len(),
                ));
            } else {
                assert(k == m);
                assert(all.subrange(k * unit.len(), k * unit.len() + unit.len()) =~= unit);
            }
        }
    }
}

/// The operations of a scroll: none for zero; in the alternate screen with
/// alternate scroll, cursor keys for the child; else a move of the viewport.
pub open spec fn scroll_ops(delta: i32, mode: u32) -> Seq<TermOpView> {
    if delta == 0 {
        seq![]
    } else if bits_contain(mode, ALTERNATE_SCROLL | ALT_SCREEN) {
        seq![TermOpView::WritePty(alt_scroll_bytes(delta as int))]
    } else {
        seq![TermOpView::ScrollDisplay(delta)]
    }
}

/// The first and last viewport lines of a grid of `lines` lines scrolled
/// `display_offset` lines back.
pub open spec fn viewport_start(display_offset: int) -> int {
    -display_offset
}

pub open spec fn viewport_end(display_offset: int, lines: int) -> int {
    -display_offset + lines - 1
}

/// The hovered link: after the matches that end above the viewport, the
/// first match that contains the point, among those that start no lower than
/// the viewport's last line.
pub open spec fn link_at(links: Seq<LinkRange>, start: int, end: int, p: GridPoint) -> Option<
    LinkRange,
>
    decreases links.len(),
{
    if links.len() == 0 {
        None
    } else if links[0].end.line < start {
        link_at(links.drop_first(), start, end, p)
    } else {
        link_in_window(links, end, p)
    }
}

pub open spec fn link_in_window(links: Seq<LinkRange>, end: int, p: GridPoint) -> Option<LinkRange>
    decreases links.len(),
{
    if links.len() == 0 {
        None
    } else if links[0].start.line > end {
        None
    } else if point_le(links[0].start, p) && point_le(p, links[0].end) {
        Some(links[0])
    } else {
        link_in_window(links.drop_first(), end, p)
    }
}

/// The whole effect of a command, as a relation between the backend before
/// (`b0`) and after (`b1`), the terminal state read, and the outcome.
pub open spec fn command_effect(
    b0: Backend,
    b1: Backend,
    cmd: BackendCommand,
    vt: TermState,
    action: ActionView,
    ops: Seq<TermOpView>,
    resync: bool,
) -> bool {
    &&& b1.spec_command() == b0.spec_command()
    &&& match cmd {
        BackendCommand::ProcessChildEvent(ev) => {
            &&& b1 == b0
            &&& ops == Seq::<TermOpView>::empty()
            &&& match ev {
                ChildEvent::Wakeup => action == ActionView::Redraw && resync,
                ChildEvent::Exit => action == ActionView::Shutdown && !resync,
                ChildEvent::Title(t) => action == ActionView::ChangeTitle(t@) && !resync,
                ChildEvent::Other => action == ActionView::Ignore && !resync,
            }
        },
        BackendCommand::Write(bytes) => {
            &&& b1 == b0
            &&& ops == seq![TermOpView::WritePty(bytes@), TermOpView::ScrollToBottom]
            &&& action == ActionView::Ignore
            &&& !resync
        },
        BackendCommand::Scroll(delta) => {
            &&& b1 == b0
            &&& ops == scroll_ops(delta, vt.mode.bits)
            &&& action == ActionView::Redraw
            &&& resync
        },
        BackendCommand::Resize(layout, cell) => {
            &&& b1.spec_size() == resized_size(b0.spec_size(), layout, cell)
            &&& b1.spec_content() == b0.spec_content()
            &&& ops == (if resize_fits(b0.spec_size(), layout, cell) {
                seq![TermOpView::Resize(b1.spec_size())]
            } else {
                Seq::<TermOpView>::empty()
            })
            &&& action == ActionView::Redraw
            &&& resync
        },
        BackendCommand::SelectStart(kind, pos) => {
            &&& b1 == b0
            &&& ops == seq![
                TermOpView::StartSelection(
                    kind,
                    pixel_point(pos.x as int, pos.y as int, b0.spec_size(), vt.display_offset as int),
                    pixel_side(pos.x as int, b0.spec_size().cell_width as int),
                ),
            ]
            &&& action == ActionView::Redraw
            &&& resync
        },
        BackendCommand::SelectUpdate(pos) => {
            &&& b1 == b0
            &&& ops == seq![
                TermOpView::UpdateSelection(
                    pixel_point(pos.x as int, pos.y as int, b0.spec_size(), vt.display_offset as int),
                    pixel_side(pos.x as int, b0.spec_size().cell_width as int),
                ),
            ]
            &&& action == ActionView::Redraw
            &&& resync
        },
        BackendCommand::ProcessLink(link_action, p) => {
            &&& b1.spec_size() == b0.spec_size()
            &&& !resync
            &&& match link_action {
                LinkAction::Hover => {
                    &&& b1.spec_content() == (RenderableContent {
                        hovered_hyperlink: link_at(
                            vt.links@,
                            viewport_start(vt.display_offset as int),
                            viewport_end(vt.display_offset as int, b0.spec_size().num_lines as int),
                            p,
                        ),
                        ..b0.spec_content()
                    })
                    &&& ops == Seq::<TermOpView>::empty()
                    &&& action == ActionView::Redraw
                },
                LinkAction::Clear => {
                    &&& b1.spec_content() == (RenderableContent {
                        hovered_hyperlink: None,
                        ..b0.spec_content()
                    })
                    &&& ops == Seq::<TermOpView>::empty()
                    &&& action == ActionView::Redraw
                },
                LinkAction::Open => {
                    &&& b1 == b0
                    &&& ops == match b0.spec_content().hovered_hyperlink {
                        Some(range) => seq![TermOpView::OpenLink(range)],
                        None => Seq::<TermOpView>::empty(),
                    }
                    &&& action == ActionView::Ignore
                },
            }
        },
        BackendCommand::MouseReport(button, modifiers, p, pressed) => {
            &&& b1 == b0
            &&& ops == match mouse_report_bytes(
                mouse_mode_of(b0.spec_content().terminal_mode.bits),
                button,
                modifiers.bits,
                b0.spec_command().bits,
                p,
                pressed,
            ) {
                Some(bytes) => seq![TermOpView::WritePty(bytes)],
                None => Seq::<TermOpView>::empty(),
            }
            &&& action == ActionView::Redraw
            &&& !resync
        },
    }
}

/// The backend's own state: the platform command key (for mouse reports),
/// the terminal size, and the last snapshot.
pub struct Backend {
    command: Modifiers,
    size: TerminalSize,
    last_content: RenderableContent,
}

impl Backend {
    pub closed spec fn spec_command(&self) -> Modifiers {
        self.command
    }

    pub closed spec fn spec_size(&self) -> TerminalSize {
        self.size
    }

    pub closed spec fn spec_content(&self) -> RenderableContent {
        self.last_content
    }

    /// The command key is the platform's (CTRL or LOGO), the size and the
    /// size in the snapshot are both well formed, and the snapshot's
    /// scrollback offset is a valid line distance.
    pub open spec fn wf(&self) -> bool {
        &&& (self.spec_command().bits == CTRL || self.spec_command().bits == LOGO)
        &&& self.spec_size().wf()
        &&& self.spec_content().terminal_size.wf()
        &&& self.spec_content().display_offset <= i32::MAX
    }

    /// A backend for this platform, with cells of the measured size (see
    /// [`TerminalSize::with_cell_size`]) and a snapshot of the given state.
    pub fn new(cell_size: Size, vt: &TermState) -> (r: Backend)
        requires
            vt.display_offset <= i32::MAX,
        ensures
            r.wf(),
            r.spec_command().bits == CTRL || r.spec_command().bits == LOGO,
            r.spec_size() == initial_size(cell_size),
            r.spec_content() == snapshot(r.spec_size(), None, *vt),
    {
        Backend::with_command_key(command_modifier(), cell_size, vt)
    }

    /// A backend whose platform command key is `command`.
    pub fn with_command_key(command: Modifiers, cell_size: Size, vt: &TermState) -> (r: Backend)
        requires
            command.bits == CTRL || command.bits == LOGO,
            vt.display_offset <= i32::MAX,
        ensures
            r.wf(),
            r.spec_command() == command,
            r.spec_size() == initial_size(cell_size),
            r.spec_content() == snapshot(r.spec_size(), None, *vt),
    {
        let size = TerminalSize::with_cell_size(cell_size);
        Backend {
            command,
            size,
            last_content: RenderableContent {
                hovered_hyperlink: None,
                selectable_range: vt.selection,
                terminal_mode: vt.mode,
                terminal_size: size,
                display_offset: vt.display_offset,
            },
        }
    }

    /// The current size.
    pub fn size(&self) -> (r: TerminalSize)
        ensures
            r == self.spec_size(),
    {
        self.size
    }

    /// The last snapshot.
    pub fn renderable_content(&self) -> (r: &RenderableContent)
        ensures
            *r == self.spec_content(),
    {
        &self.last_content
    }

    /// The text selected in the last snapshot, from its cells in display
    /// order.
    pub fn selectable_content(&self, cells: &Vec<(GridPoint, char)>) -> (r: String)
        ensures
            r@ == match self.spec_content().selectable_range {
                Some(range) => selected_chars(cells@, range),
                None => Seq::<char>::empty(),
            },
    {
        selected_text(cells, self.last_content.selectable_range)
    }

    /// Refreshes the snapshot from the terminal state; the hovered link is
    /// kept.
    pub fn sync(&mut self, vt: &TermState)
        requires
            old(self).wf(),
            vt.display_offset <= i32::MAX,
        ensures
            final(self).wf(),
            final(self).spec_command() == old(self).spec_command(),
            final(self).spec_size() == old(self).spec_size(),
            final(self).spec_content() == snapshot(
                old(self).spec_size(),
                old(self).spec_content().hovered_hyperlink,
                *vt,
            ),
    {
        self.last_content = RenderableContent {
            hovered_hyperlink: self.last_content.hovered_hyperlink,
            selectable_range: vt.selection,
            terminal_mode: vt.mode,
            terminal_size: self.size,
            display_offset: vt.display_offset,
        };
    }

    /// Processes one command against the terminal state `vt` read just
    /// before; see [`command_effect`] for what each command does.
    pub fn process_command(&mut self, cmd: BackendCommand, vt: &TermState) -> (r: Outcome)
        requires
            old(self).wf(),
            vt.display_offset <= i32::MAX,
        ensures
            final(self).wf(),
            command_effect(*old(self), *final(self), cmd, *vt, r.action@, ops_view(r.ops@), r.resync),
    {
        let mut ops: Vec<TermOp> = Vec::new();
        assert(ops_view(ops@) =~= Seq::<TermOpView>::empty());
        let action;
        let resync;
        match cmd {
            BackendCommand::ProcessChildEvent(event) => {
                match event {
                    ChildEvent::Wakeup => {
                        action = Action::Redraw;
                        resync = true;
                    },
                    ChildEvent::Exit => {
                        action = Action::Shutdown;
                        resync = false;
                    },
                    ChildEvent::Title(title) => {
                        action = Action::ChangeTitle(title);
                        resync = false;
                    },
                    ChildEvent::Other => {
                        action = Action::Ignore;
                        resync = false;
                    },
                }
            },
            BackendCommand::Write(input) => {
                let ghost bytes = input@;
                ops.push(TermOp::WritePty(input));
                ops.push(TermOp::ScrollToBottom);
                assert(ops_view(ops@) =~= seq![TermOpView::WritePty(bytes), TermOpView::ScrollToBottom]);
                action = Action::Ignore;
                resync = false;
            },
            BackendCommand::Scroll(delta) => {
                scroll_into(&mut ops, delta, vt.mode);
                action = Action::Redraw;
                resync = true;
            },
            BackendCommand::Resize(layout, cell) => {
                let next = self.size.resized(layout, cell);
                if self.size.fits_after_resize(layout, cell) {
                    ops.push(TermOp::Resize(next));
                }
                assert(ops_view(ops@) =~= (if resize_fits(self.size, layout, cell) {
                    seq![TermOpView::Resize(next)]
                } else {
                    Seq::<TermOpView>::empty()
                }));
                self.size = next;
                action = Action::Redraw;
                resync = true;
            },
            BackendCommand::SelectStart(kind, pos) => {
                let point = selection_point(pos.x, pos.y, &self.size, vt.display_offset);
                let side = selection_side(pos.x, self.size.cell_width);
                ops.push(TermOp::StartSelection(kind, point, side));
                assert(ops_view(ops@) =~= seq![TermOpView::StartSelection(kind, point, side)]);
                action = Action::Redraw;
                resync = true;
            },
            BackendCommand::SelectUpdate(pos) => {
                let point = selection_point(pos.x, pos.y, &self.size, vt.display_offset);
                let side = selection_side(pos.x, self.size.cell_width);
                ops.push(TermOp::UpdateSelection(point, side));
                assert(ops_view(ops@) =~= seq![TermOpView::UpdateSelection(point, side)]);
                action = Action::Redraw;
                resync = true;
            },
            BackendCommand::ProcessLink(link_action, point) => {
                match link_action {
                    LinkAction::Hover => {
                        let (start, end) = viewport_lines(vt.display_offset, self.size.num_lines);
                        self.last_content.hovered_hyperlink = hovered_link(&vt.links, start, end, point);
                        action = Action::Redraw;
                    },
                    LinkAction::Clear => {
                        self.last_content.hovered_hyperlink = None;
                        action = Action::Redraw;
                    },
                    LinkAction::Open => {
                        match self.last_content.hovered_hyperlink {
                            Some(range) => {
                                ops.push(TermOp::OpenLink(range));
                                assert(ops_view(ops@) =~= seq![TermOpView::OpenLink(range)]);
                            },
                            None => {
                                assert(ops_view(ops@) =~= Seq::<TermOpView>::empty());
                            },
                        }
                        action = Action::Ignore;
                    },
                }
                resync = false;
            },
            BackendCommand::MouseReport(button, modifiers, point, pressed) => {
                let mode = MouseMode::from_mode(self.last_content.terminal_mode);
                match mouse_report(mode, button, modifiers, self.command, point, pressed) {
                    Some(bytes) => {
                        let ghost b = bytes@;
                        ops.push(TermOp::WritePty(bytes));
                        assert(ops_view(ops@) =~= seq![TermOpView::WritePty(b)]);
                    },
                    None => {
                        assert(ops_view(ops@) =~= Seq::<TermOpView>::empty());
                    },
                }
                action = Action::Redraw;
                resync = false;
            },
        }
        Outcome { action, ops, resync }
    }
}

/// Hovering at the same point twice, with the terminal state unchanged in
/// between, gives the same hovered range both times, and the second hover
/// changes nothing.
pub proof fn lemma_hover_idempotent(
    b0: Backend,
    b1: Backend,
    b2: Backend,
    vt: TermState,
    p: GridPoint,
    action1: ActionView,
    ops1: Seq<TermOpView>,
    resync1: bool,
    action2: ActionView,
    ops2: Seq<TermOpView>,
    resync2: bool,
)
    requires
        command_effect(
            b0,
            b1,
            BackendCommand::ProcessLink(LinkAction::Hover, p),
            vt,
            action1,
            ops1,
            resync1,
        ),
        command_effect(
            b1,
            b2,
            BackendCommand::ProcessLink(LinkAction::Hover, p),
            vt,
            action2,
            ops2,
            resync2,
        ),
    ensures
        b2.spec_content().hovered_hyperlink == b1.spec_content().hovered_hyperlink,
        b2 == b1,
{
}

/// The characters of the cells that lie in the selection, in the order of
/// the cells.
pub open spec fn selected_chars(cells: Seq<(GridPoint, char)>, range: SelectionRange) -> Seq<char>
    decreases cells.len(),
{
    if cells.len() == 0 {
        seq![]
    } else {
        let rest = selected_chars(cells.drop_last(), range);
        if selection_contains(range, cells.last().0) {
            rest.push(cells.last().1)
        } else {
            rest
        }
    }
}

/// Relies on `String::push`: the character is appended.
#[verifier::external_body]
fn push_char(s: &mut String, c: char)
    ensures
        final(s)@ == old(s)@.push(c),
{
    s.push(c)
}

/// The selected text: the characters of the given cells (in display order)
/// that lie in the selection; empty without a selection.
pub fn selected_text(cells: &Vec<(GridPoint, char)>, selection: Option<SelectionRange>) -> (r: String)
    ensures
        r@ == match selection {
            Some(range) => selected_chars(cells@, range),
            None => Seq::<char>::empty(),
        },
{
    let mut result = String::new();
    match selection {
        Some(range) => {
            let mut i: usize = 0;
            while i < cells.len()
                invariant
                    i <= cells@.len(),
                    result@ == selected_chars(cells@.take(i as int), range),
                decreases cells@.len() - i,
            {
                let (point, c) = cells[i];
                assert(cells@.take(i as int + 1).drop_last() =~= cells@.take(i as int));
                if range.contains(point) {
                    push_char(&mut result, c);
                }
                i = i + 1;
            }
            assert(cells@.take(i as int) =~= cells@);
        },
        None => {},
    }
    result
}

/// The characters of the cells up to and including the first cell at
/// `end`; all of them when none is.
pub open spec fn chars_through(cells: Seq<(GridPoint, char)>, end: GridPoint) -> Seq<char>
    decreases cells.len(),
{
    if cells.len() == 0 {
        seq![]
    } else if cells[0].0 == end {
        seq![cells[0].1]
    } else {
        seq![cells[0].1] + chars_through(cells.drop_first(), end)
    }
}

/// The text of a link: the character at its start, then those of the cells
/// that follow the start in grid order, up to and including its end.
pub fn link_text(first: char, following: &Vec<(GridPoint, char)>, end: GridPoint) -> (r: String)
    ensures
        r@ == seq![first] + chars_through(following@, end),
{
    let ghost cells = following@;
    let mut url = String::new();
    push_char(&mut url, first);
    let mut i: usize = 0;
    assert(cells.subrange(0, cells.len() as int) =~= cells);
    while i < following.len()
        invariant
            i <= cells.len(),
            cells == following@,
            seq![first] + chars_through(cells, end) == url@ + chars_through(
                cells.subrange(i as int, cells.len() as int),
                end,
            ),
        decreases cells.len() - i,
    {
        let (point, c) = following[i];
        let ghost rest = cells.subrange(i as int, cells.len() as int);
        assert(rest.drop_first() =~= cells.subrange(i + 1, cells.len() as int));
        push_char(&mut url, c);
        if point == end {
            assert(chars_through(rest, end) == seq![c]);
            assert(chars_through(cells.subrange(cells.len() as int, cells.len() as int), end)
                =~= Seq::<char>::empty());
            assert(url@ =~= url@ + Seq::<char>::empty());
            return url;
        }
        assert(chars_through(rest, end) == seq![c] + chars_through(rest.drop_first(), end));
        i = i + 1;
    }
    assert(cells.subrange(i as int, cells.len() as int) =~= Seq::<(GridPoint, char)>::empty());
    assert(url@ + Seq::<char>::empty() =~= url@);
    url
}

/// The snapshot of a terminal of the given size, with the given hovered
/// link, refreshed from the terminal state.
pub open spec fn snapshot(size: TerminalSize, hovered: Option<LinkRange>, vt: TermState) -> RenderableContent {
    RenderableContent {
        hovered_hyperlink: hovered,
        selectable_range: vt.selection,
        terminal_mode: vt.mode,
        terminal_size: size,
        display_offset: vt.display_offset,
    }
}

/// Appends the operations of a scroll by `delta` lines in terminal mode
/// `mode`.
fn scroll_into(ops: &mut Vec<TermOp>, delta: i32, mode: TermMode)
    requires
        old(ops)@.len() == 0,
    ensures
        ops_view(final(ops)@) == scroll_ops(delta, mode.bits),
{
    if delta != 0 {
        if mode.contains(TermMode::from_bits(ALTERNATE_SCROLL | ALT_SCREEN)) {
            ops.push(TermOp::WritePty(alt_scroll_sequence(delta)));
        } else {
            ops.push(TermOp::ScrollDisplay(delta));
        }
    }
    assert(ops_view(ops@) =~= scroll_ops(delta, mode.bits));
}

/// The cursor-key bytes that stand for a scroll in the alternate screen.
pub fn alt_scroll_sequence(delta: i32) -> (r: Vec<u8>)
    ensures
        r@ == alt_scroll_bytes(delta as int),
{
    let line_cmd: u8 = if delta > 0 {
        0x41
    } else {
        0x42
    };
    let ghost unit = seq![0x1bu8, 0x4fu8, line_cmd];
    let n: u32 = if delta < 0 {
        (0i64 - delta as i64) as u32
    } else {
        delta as u32
    };
    let mut content: Vec<u8> = Vec::new();
    let mut i: u32 = 0;
    while i < n
        invariant
            i <= n,
            unit == seq![0x1bu8, 0x4fu8, line_cmd],
            content@ == repeat_bytes(unit, i as nat),
        decreases n - i,
    {
        let ghost prev = content@;
        content.push(0x1b);
        content.push(0x4f);
        content.push(line_cmd);
        assert(content@ =~= prev + unit);
        i = i + 1;
        assert(repeat_bytes(unit, i as nat) == repeat_bytes(unit, (i - 1) as nat) + unit);
    }
    content
}

/// The first and last viewport lines.
pub fn viewport_lines(display_offset: usize, screen_lines: u16) -> (r: (i32, i32))
    requires
        display_offset <= i32::MAX,
    ensures
        r.0 == viewport_start(display_offset as int),
        r.1 == viewport_end(display_offset as int, screen_lines as int),
{
    let start = 0 - display_offset as i32;
    (start, start + screen_lines as i32 - 1)
}

/// The lines a URL search around the viewport covers: from the start of the
/// wrapped line at the top of the viewport, but at most 100 lines above it,
/// to the end of the wrapped line at the bottom, at most 100 lines below.
pub fn link_search_lines(viewport: (i32, i32), wrapped_start: i32, wrapped_end: i32) -> (r: (
    i32,
    i32,
))
    ensures
        r.0 == (if wrapped_start < viewport.0 - 100 {
            viewport.0 - 100
        } else {
            wrapped_start as int
        }),
        r.1 == (if wrapped_end > viewport.1 + 100 {
            viewport.1 + 100
        } else {
            wrapped_end as int
        }),
{
    let low = viewport.0 as i64 - 100;
    let high = viewport.1 as i64 + 100;
    let start = if (wrapped_start as i64) < low {
        low
    } else {
        wrapped_start as i64
    };
    let end = if (wrapped_end as i64) > high {
        high
    } else {
        wrapped_end as i64
    };
    (start as i32, end as i32)
}

/// The hovered link among the URL matches; see [`link_at`].
pub fn hovered_link(links: &Vec<LinkRange>, start: i32, end: i32, p: GridPoint) -> (r: Option<
    LinkRange,
>)
    ensures
        r == link_at(links@, start as int, end as int, p),
{
    let ghost all = links@;
    let mut i: usize = 0;
    assert(all.subrange(0, all.len() as int) =~= all);
    while i < links.len() && links[i].end.line < start
        invariant
            i <= links@.len(),
            all == links@,
            link_at(all, start as int, end as int, p) == link_at(
                all.subrange(i as int, all.len() as int),
                start as int,
                end as int,
                p,
            ),
        decreases links@.len() - i,
    {
        let ghost rest = all.subrange(i as int, all.len() as int);
        assert(rest.drop_first() =~= all.subrange(i + 1, all.len() as int));
        i = i + 1;
    }
    let ghost window_start = i;
    while i < links.len()
        invariant
            window_start <= i <= links@.len(),
            all == links@,
            link_at(all, start as int, end as int, p) == (if window_start == all.len() {
                None
            } else {
                link_in_window(all.subrange(window_start as int, all.len() as int), end as int, p)
            }),
            window_start < all.len() ==> link_in_window(
                all.subrange(window_start as int, all.len() as int),
                end as int,
                p,
            ) == link_in_window(all.subrange(i as int, all.len() as int), end as int, p),
        decreases links@.len() - i,
    {
        let ghost rest = all.subrange(i as int, all.len() as int);
        assert(rest.drop_first() =~= all.subrange(i + 1, all.len() as int));
        if links[i].start.line > end {
            return None;
        }
        if links[i].contains(p) {
            return Some(links[i]);
        }
        i = i + 1;
    }
    None
}

} // verus!
