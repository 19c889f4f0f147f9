//! Key and mouse bindings: a table from (input, modifiers, terminal mode)
//! to the action that the input triggers.

use vstd::prelude::*;
use crate::default_bindings::{
    default_keyboard_bindings, default_layout, mouse_default_bindings, platform_keyboard_bindings,
};
use crate::modes::{bits_contain, bits_intersect, command_modifier, Modifiers, TermMode, CTRL, LOGO};

verus! {

/// A named (non-character) key.
#[derive(Clone, Copy, Debug, PartialEq, Eq, Structural, Hash)]
pub enum NamedKey {
    Space,
    Enter,
    Tab,
    Backspace,
    Escape,
    Insert,
    Delete,
    Home,
    End,
    PageUp,
    PageDown,
    ArrowUp,
    ArrowDown,
    ArrowLeft,
    ArrowRight,
    F1,
    F2,
    F3,
    F4,
    F5,
    F6,
    F7,
    F8,
    F9,
    F10,
    F11,
    F12,
    F13,
    F14,
    F15,
    F16,
    F17,
    F18,
    F19,
    F20,
    F21,
    F22,
    F23,
    F24,
    F25,
    F26,
    F27,
    F28,
    F29,
    F30,
    F31,
    F32,
    F33,
    F34,
    F35,
}

/// A mouse button.
#[derive(Clone, Copy, Debug, PartialEq, Eq, Structural, Hash)]
pub enum Button {
    Left,
    Right,
    Middle,
    Back,
    Forward,
    Other(u16),
}

/// What an input bound in the table does.
#[derive(Clone, Debug, PartialEq, Eq, Hash)]
pub enum BindingAction {
    Copy,
    Paste,
    Char(char),
    Esc(String),
    LinkOpen,
    Ignore,
}

/// The value of a [`BindingAction`], with the escape sequence as characters.
pub enum BindingActionView {
    Copy,
    Paste,
    Char(char),
    Esc(Seq<char>),
    LinkOpen,
    Ignore,
}

impl View for BindingAction {
    type V = BindingActionView;

    open spec fn view(&self) -> BindingActionView {
        match self {
            BindingAction::Copy => BindingActionView::Copy,
            BindingAction::Paste => BindingActionView::Paste,
            BindingAction::Char(c) => BindingActionView::Char(*c),
            BindingAction::Esc(s) => BindingActionView::Esc(s@),
            BindingAction::LinkOpen => BindingActionView::LinkOpen,
            BindingAction::Ignore => BindingActionView::Ignore,
        }
    }
}

impl BindingAction {
    /// A copy of the action.
    pub fn duplicate(&self) -> (r: BindingAction)
        ensures
            r@ == self@,
    {
        match self {
            BindingAction::Copy => BindingAction::Copy,
            BindingAction::Paste => BindingAction::Paste,
            BindingAction::Char(c) => BindingAction::Char(*c),
            BindingAction::Esc(s) => BindingAction::Esc(s.clone()),
            BindingAction::LinkOpen => BindingAction::LinkOpen,
            BindingAction::Ignore => BindingAction::Ignore,
        }
    }

    /// Whether this is the `Ignore` action.
    pub fn is_ignore(&self) -> (r: bool)
        ensures
            r == (self@ == BindingActionView::Ignore),
    {
        matches!(self, BindingAction::Ignore)
    }

    /// Whether this is the `LinkOpen` action.
    pub fn is_link_open(&self) -> (r: bool)
        ensures
            r == (self@ == BindingActionView::LinkOpen),
    {
        matches!(self, BindingAction::LinkOpen)
    }
}

/// The input that a binding reacts to.
#[derive(Clone, Debug, PartialEq, Eq, Hash)]
pub enum InputKind {
    /// A character key, by the (lower-case) text it produces.
    Char(String),
    KeyCode(NamedKey),
    Mouse(Button),
}

/// The value of an [`InputKind`], with the text as characters.
pub enum InputView {
    Char(Seq<char>),
    KeyCode(NamedKey),
    Mouse(Button),
}

impl View for InputKind {
    type V = InputView;

    open spec fn view(&self) -> InputView {
        match self {
            InputKind::Char(s) => InputView::Char(s@),
            InputKind::KeyCode(k) => InputView::KeyCode(*k),
            InputKind::Mouse(b) => InputView::Mouse(*b),
        }
    }
}

impl InputKind {
    /// A copy of the input.
    pub fn duplicate(&self) -> (r: InputKind)
        ensures
            r@ == self@,
    {
        match self {
            InputKind::Char(s) => InputKind::Char(s.clone()),
            InputKind::KeyCode(k) => InputKind::KeyCode(*k),
            InputKind::Mouse(b) => InputKind::Mouse(*b),
        }
    }

    /// Whether two inputs are the same.
    pub fn same_as(&self, other: &InputKind) -> (r: bool)
        ensures
            r == (self@ == other@),
    {
        match (self, other) {
            (InputKind::Char(a), InputKind::Char(b)) => *a == *b,
            (InputKind::KeyCode(a), InputKind::KeyCode(b)) => *a == *b,
            (InputKind::Mouse(a), InputKind::Mouse(b)) => *a == *b,
            _ => false,
        }
    }
}

/// An input with the modifiers that must be pressed exactly, the terminal
/// modes that must all be set, and the terminal modes that must all be unset.
#[derive(Clone, Debug, PartialEq, Eq)]
pub struct Binding {
    pub target: InputKind,
    pub modifiers: Modifiers,
    pub terminal_mode_include: TermMode,
    pub terminal_mode_exclude: TermMode,
}

pub type KeyboardBinding = Binding;

pub type MouseBinding = Binding;

/// The value of a [`Binding`].
pub struct BindingView {
    pub target: InputView,
    pub modifiers: u32,
    pub mode_include: u32,
    pub mode_exclude: u32,
}

impl View for Binding {
    type V = BindingView;

    open spec fn view(&self) -> BindingView {
        BindingView {
            target: self.target@,
            modifiers: self.modifiers.bits,
            mode_include: self.terminal_mode_include.bits,
            mode_exclude: self.terminal_mode_exclude.bits,
        }
    }
}

impl Binding {
    /// A copy of the binding.
    pub fn duplicate(&self) -> (r: Binding)
        ensures
            r@ == self@,
    {
        Binding {
            target: self.target.duplicate(),
            modifiers: self.modifiers,
            terminal_mode_include: self.terminal_mode_include,
            terminal_mode_exclude: self.terminal_mode_exclude,
        }
    }

    /// Whether two bindings are the same in all four parts.
    pub fn same_as(&self, other: &Binding) -> (r: bool)
        ensures
            r == (self@ == other@),
    {
        self.target.same_as(&other.target) && self.modifiers.bits == other.modifiers.bits
            && self.terminal_mode_include.bits == other.terminal_mode_include.bits
            && self.terminal_mode_exclude.bits == other.terminal_mode_exclude.bits
    }

    /// Whether the binding fires on this input, with these modifiers, in
    /// this terminal mode.
    pub fn is_triggered(&self, input: &InputKind, modifiers: Modifiers, mode: TermMode) -> (r:
        bool)
        ensures
            r == triggers(self@, input@, modifiers.bits, mode.bits),
    {
        self.target.same_as(input) && self.modifiers.bits == modifiers.bits && mode.contains(
            self.terminal_mode_include,
        ) && !mode.intersects(self.terminal_mode_exclude)
    }
}

/// A binding with its action.
pub type Entry = (Binding, BindingAction);

pub type EntryView = (BindingView, BindingActionView);

pub open spec fn entries_view(s: Seq<Entry>) -> Seq<EntryView> {
    s.map_values(|e: Entry| e@)
}

/// A binding fires iff its input is the one given, its modifiers are exactly
/// those pressed, every included mode is set and no excluded mode is set.
pub open spec fn triggers(b: BindingView, input: InputView, modifiers: u32, mode: u32) -> bool {
    &&& b.target == input
    &&& b.modifiers == modifiers
    &&& bits_contain(mode, b.mode_include)
    &&& !bits_intersect(mode, b.mode_exclude)
}

/// The action of the first entry that fires, or `Ignore` when none does.
pub open spec fn action_for(
    layout: Seq<EntryView>,
    input: InputView,
    modifiers: u32,
    mode: u32,
) -> BindingActionView
    decreases layout.len(),
{
    if layout.len() == 0 {
        BindingActionView::Ignore
    } else if triggers(layout[0].0, input, modifiers, mode) {
        layout[0].1
    } else {
        action_for(layout.subrange(1, layout.len() as int), input, modifiers, mode)
    }
}

/// `i` is the first position whose binding is `b`.
pub open spec fn is_first_binding(layout: Seq<EntryView>, b: BindingView, i: int) -> bool {
    &&& 0 <= i < layout.len()
    &&& layout[i].0 == b
    &&& forall|j: int| 0 <= j < i ==> layout[j].0 != b
}

/// Adding one entry: it replaces the first entry with the same binding, in
/// place, or else goes at the end.
pub open spec fn add_entry(layout: Seq<EntryView>, e: EntryView) -> Seq<EntryView> {
    if exists|i: int| is_first_binding(layout, e.0, i) {
        layout.update(choose|i: int| is_first_binding(layout, e.0, i), e)
    } else {
        layout.push(e)
    }
}

/// Adding entries one after the other, in order.
pub open spec fn add_entries(layout: Seq<EntryView>, es: Seq<EntryView>) -> Seq<EntryView>
    decreases es.len(),
{
    if es.len() == 0 {
        layout
    } else {
        add_entry(add_entries(layout, es.drop_last()), es.last())
    }
}

/// Adding an entry whose binding equals one already in the table replaces
/// that entry (the first with this binding) in place: the table keeps its
/// length, that position holds the new entry, and every other position is
/// unchanged.
pub proof fn lemma_add_equal_binding_replaces(layout: BindingsLayout, e: EntryView, i: int)
    requires
        is_first_binding(layout@, e.0, i),
    ensures
        add_entries(layout@, seq![e]).len() == layout@.len(),
        add_entries(layout@, seq![e])[i] == e,
        forall|j: int|
            0 <= j < layout@.len() && j != i ==> #[trigger] add_entries(layout@, seq![e])[j]
                == layout@[j],
{
    let l = layout@;
    assert(seq![e].drop_last() =~= Seq::<EntryView>::empty());
    assert(add_entries(l, seq![e].drop_last()) == l);
    let k = choose|k: int| is_first_binding(l, e.0, k);
    assert(k == i);
}

/// Some entry of `layout` fires.
pub open spec fn some_triggers(layout: Seq<EntryView>, input: InputView, modifiers: u32, mode: u32) -> bool {
    exists|i: int| 0 <= i < layout.len() && triggers(#[trigger] layout[i].0, input, modifiers, mode)
}

/// When no entry fires, lookup gives `Ignore`.
pub proof fn lemma_no_trigger_ignored(layout: Seq<EntryView>, input: InputView, modifiers: u32, mode: u32)
    requires
        !some_triggers(layout, input, modifiers, mode),
    ensures
        action_for(layout, input, modifiers, mode) == BindingActionView::Ignore,
    decreases layout.len(),
{
    if layout.len() > 0 {
        let rest = layout.subrange(1, layout.len() as int);
        assert(!triggers(layout[0].0, input, modifiers, mode));
        assert forall|i: int| 0 <= i < rest.len() implies !triggers(
            #[trigger] rest[i].0,
            input,
            modifiers,
            mode,
        ) by {
            assert(rest[i] == layout[i + 1]);
        }
        lemma_no_trigger_ignored(rest, input, modifiers, mode);
    }
}

/// An entry fires in a concatenation when one fires in either part.
pub proof fn lemma_some_triggers_concat(
    a: Seq<EntryView>,
    b: Seq<EntryView>,
    input: InputView,
    modifiers: u32,
    mode: u32,
)
    ensures
        some_triggers(a + b, input, modifiers, mode) == (some_triggers(a, input, modifiers, mode)
            || some_triggers(b, input, modifiers, mode)),
{
    let ab = a + b;
    if some_triggers(a, input, modifiers, mode) {
        let i = choose|i: int| 0 <= i < a.len() && triggers(#[trigger] a[i].0, input, modifiers, mode);
        assert(ab[i] == a[i]);
    }
    if some_triggers(b, input, modifiers, mode) {
        let i = choose|i: int| 0 <= i < b.len() && triggers(#[trigger] b[i].0, input, modifiers, mode);
        assert(ab[a.len() + i] == b[i]);
    }
    if some_triggers(ab, input, modifiers, mode) {
        let i = choose|i: int| 0 <= i < ab.len() && triggers(#[trigger] ab[i].0, input, modifiers, mode);
        if i < a.len() {
            assert(ab[i] == a[i]);
        } else {
            assert(ab[i] == b[i - a.len()]);
        }
    }
}

/// Lookup in a concatenation: the first part decides when one of its
/// entries fires, else the second part does.
pub proof fn lemma_action_for_concat(
    a: Seq<EntryView>,
    b: Seq<EntryView>,
    input: InputView,
    modifiers: u32,
    mode: u32,
)
    ensures
        action_for(a + b, input, modifiers, mode) == if some_triggers(a, input, modifiers, mode) {
            action_for(a, input, modifiers, mode)
        } else {
            action_for(b, input, modifiers, mode)
        },
    decreases a.len(),
{
    if a.len() == 0 {
        assert(a + b =~= b);
    } else {
        let rest = a.subrange(1, a.len() as int);
        assert((a + b).subrange(1, (a + b).len() as int) =~= rest + b);
        assert((a + b)[0] == a[0]);
        lemma_action_for_concat(rest, b, input, modifiers, mode);
        if !triggers(a[0].0, input, modifiers, mode) {
            if some_triggers(a, input, modifiers, mode) {
                let i = choose|i: int| 0 <= i < a.len() && triggers(#[trigger] a[i].0, input, modifiers, mode);
                assert(rest[i - 1] == a[i]);
            } else {
                assert forall|i: int| 0 <= i < rest.len() implies !triggers(
                    #[trigger] rest[i].0,
                    input,
                    modifiers,
                    mode,
                ) by {
                    assert(rest[i] == a[i + 1]);
                }
            }
        }
    }
}

/// Adding an entry for another input leaves the lookup of `input` as it was.
pub proof fn lemma_add_entry_other_input(
    layout: Seq<EntryView>,
    e: EntryView,
    input: InputView,
    modifiers: u32,
    mode: u32,
)
    requires
        e.0.target != input,
    ensures
        action_for(add_entry(layout, e), input, modifiers, mode) == action_for(
            layout,
            input,
            modifiers,
            mode,
        ),
{
    if exists|i: int| is_first_binding(layout, e.0, i) {
        let i = choose|i: int| is_first_binding(layout, e.0, i);
        let before = layout.subrange(0, i);
        let after = layout.subrange(i + 1, layout.len() as int);
        assert(layout =~= before + (seq![layout[i]] + after));
        assert(layout.update(i, e) =~= before + (seq![e] + after));
        assert(layout[i].0 == e.0);
        assert(add_entry(layout, e) == layout.update(i, e));
        lemma_action_for_concat(before, seq![layout[i]] + after, input, modifiers, mode);
        lemma_action_for_concat(before, seq![e] + after, input, modifiers, mode);
        let with_old = seq![layout[i]] + after;
        let with_new = seq![e] + after;
        assert(with_old[0] == layout[i]);
        assert(with_new[0] == e);
        assert(with_old.subrange(1, with_old.len() as int) =~= after);
        assert(with_new.subrange(1, with_new.len() as int) =~= after);
        assert(action_for(with_old, input, modifiers, mode) == action_for(after, input, modifiers, mode));
        assert(action_for(with_new, input, modifiers, mode) == action_for(after, input, modifiers, mode));
    } else {
        assert(add_entry(layout, e) == layout.push(e));
        assert(layout.push(e) =~= layout + seq![e]);
        lemma_action_for_concat(layout, seq![e], input, modifiers, mode);
        if !some_triggers(layout, input, modifiers, mode) {
            lemma_no_trigger_ignored(layout, input, modifiers, mode);
            assert(seq![e].subrange(1, 1) =~= Seq::<EntryView>::empty());
            assert(action_for(seq![e], input, modifiers, mode) == action_for(
                Seq::<EntryView>::empty(),
                input,
                modifiers,
                mode,
            ));
        }
    }
}

/// Adding entries for other inputs leaves the lookup of `input` as it was.
pub proof fn lemma_add_entries_other_input(
    layout: Seq<EntryView>,
    es: Seq<EntryView>,
    input: InputView,
    modifiers: u32,
    mode: u32,
)
    requires
        forall|k: int| 0 <= k < es.len() ==> (#[trigger] es[k]).0.target != input,
    ensures
        action_for(add_entries(layout, es), input, modifiers, mode) == action_for(
            layout,
            input,
            modifiers,
            mode,
        ),
    decreases es.len(),
{
    if es.len() > 0 {
        let init = es.drop_last();
        assert forall|k: int| 0 <= k < init.len() implies (#[trigger] init[k]).0.target != input by {
            assert(init[k] == es[k]);
        }
        lemma_add_entries_other_input(layout, init, input, modifiers, mode);
        lemma_add_entry_other_input(add_entries(layout, init), es.last(), input, modifiers, mode);
    }
}

/// The bindings of the entries, in order.
pub open spec fn keys(layout: Seq<EntryView>) -> Seq<BindingView> {
    layout.map_values(|e: EntryView| e.0)
}

/// With pairwise distinct bindings, adding one entry keeps them distinct,
/// and the bindings become the old ones plus the added one.
pub proof fn lemma_add_entry_keys(layout: Seq<EntryView>, e: EntryView)
    requires
        keys(layout).no_duplicates(),
    ensures
        keys(add_entry(layout, e)).no_duplicates(),
        keys(add_entry(layout, e)).to_set() == keys(layout).to_set().insert(e.0),
{
    let ks = keys(layout);
    let r = add_entry(layout, e);
    if exists|i: int| is_first_binding(layout, e.0, i) {
        let i = choose|i: int| is_first_binding(layout, e.0, i);
        assert(keys(r) =~= ks);
        assert(ks[i] == e.0);
        assert(ks.to_set().insert(e.0) =~= ks.to_set());
    } else {
        assert forall|j: int| 0 <= j < layout.len() implies layout[j].0 != e.0 by {
            if layout[j].0 == e.0 {
                assert forall|k: int| 0 <= k < j implies layout[k].0 != e.0 by {
                    assert(ks[k] != ks[j]);
                }
                assert(is_first_binding(layout, e.0, j));
            }
        }
        assert(keys(r) =~= ks.push(e.0));
        assert(!ks.contains(e.0));
        assert(keys(r).to_set() =~= ks.to_set().insert(e.0)) by {
            assert forall|b: BindingView| #[trigger] keys(r).contains(b) <==> ks.contains(b) || b == e.0 by {
                if ks.contains(b) {
                    let j = choose|j: int| 0 <= j < ks.len() && ks[j] == b;
                    assert(keys(r)[j] == b);
                }
                if b == e.0 {
                    assert(keys(r)[ks.len() as int] == b);
                }
                if keys(r).contains(b) {
                    let j = choose|j: int| 0 <= j < keys(r).len() && keys(r)[j] == b;
                    if j < ks.len() {
                        assert(ks[j] == b);
                    }
                }
            }
        }
    }
}

/// With pairwise distinct bindings, adding entries keeps them distinct; the
/// bindings become the old ones together with the added ones, and the table
/// holds exactly one entry per binding.
pub proof fn lemma_add_entries_keys(layout: Seq<EntryView>, es: Seq<EntryView>)
    requires
        keys(layout).no_duplicates(),
    ensures
        keys(add_entries(layout, es)).no_duplicates(),
        keys(add_entries(layout, es)).to_set() == keys(layout).to_set() + keys(es).to_set(),
        add_entries(layout, es).len() == (keys(layout).to_set() + keys(es).to_set()).len(),
    decreases es.len(),
{
    if es.len() == 0 {
        assert(keys(es).to_set() =~= Set::<BindingView>::empty());
        assert(keys(layout).to_set() + keys(es).to_set() =~= keys(layout).to_set());
    } else {
        let init = es.drop_last();
        lemma_add_entries_keys(layout, init);
        lemma_add_entry_keys(add_entries(layout, init), es.last());
        assert(keys(es) =~= keys(init).push(es.last().0));
        assert(keys(es).to_set() =~= keys(init).to_set().insert(es.last().0)) by {
            assert forall|b: BindingView| #[trigger] keys(es).contains(b) <==> keys(init).contains(b) || b
                == es.last().0 by {
                if keys(init).contains(b) {
                    let j = choose|j: int| 0 <= j < keys(init).len() && keys(init)[j] == b;
                    assert(keys(es)[j] == b);
                }
                if b == es.last().0 {
                    assert(keys(es)[init.len() as int] == b);
                }
                if keys(es).contains(b) {
                    let j = choose|j: int| 0 <= j < keys(es).len() && keys(es)[j] == b;
                    if j < init.len() {
                        assert(keys(init)[j] == b);
                    }
                }
            }
        }
        assert(keys(layout).to_set() + keys(es).to_set() =~= (keys(layout).to_set() + keys(
            init,
        ).to_set()).insert(es.last().0));
    }
    let r = add_entries(layout, es);
    keys(r).unique_seq_to_set();
}

/// With pairwise distinct bindings, overriding the entry of a binding with
/// another action replaces it in place: the table keeps its length, holds
/// the new entry, and no longer holds the old one.
pub proof fn lemma_override_replaces(
    layout: Seq<EntryView>,
    b: BindingView,
    old_action: BindingActionView,
    new_action: BindingActionView,
)
    requires
        keys(layout).no_duplicates(),
        layout.contains((b, old_action)),
        old_action != new_action,
    ensures
        add_entries(layout, seq![(b, new_action)]).len() == layout.len(),
        add_entries(layout, seq![(b, new_action)]).contains((b, new_action)),
        !add_entries(layout, seq![(b, new_action)]).contains((b, old_action)),
{
    let e = (b, new_action);
    let i = choose|i: int| 0 <= i < layout.len() && layout[i] == (b, old_action);
    assert forall|k: int| 0 <= k < i implies layout[k].0 != b by {
        assert(keys(layout)[k] != keys(layout)[i]);
    }
    assert(is_first_binding(layout, b, i));
    assert(seq![e].drop_last() =~= Seq::<EntryView>::empty());
    assert(e.0 == b);
    assert(is_first_binding(layout, e.0, i));
    let k = choose|k: int| is_first_binding(layout, e.0, k);
    assert(k == i);
    let r = add_entries(layout, seq![e]);
    assert(add_entries(layout, seq![e].drop_last()) == layout);
    assert(seq![e].last() == e);
    assert(r == add_entry(layout, e));
    assert(r == layout.update(i, e));
    assert(r[i] == e);
    if r.contains((b, old_action)) {
        let j = choose|j: int| 0 <= j < r.len() && r[j] == (b, old_action);
        assert(j != i);
        assert(layout[j] == (b, old_action));
        assert(keys(layout)[j] == keys(layout)[i]);
    }
}

/// When the entry being overridden is the first that fires on an input,
/// lookup of that input gives the new action afterwards.
pub proof fn lemma_override_lookup(
    layout: Seq<EntryView>,
    e: EntryView,
    i: int,
    input: InputView,
    modifiers: u32,
    mode: u32,
)
    requires
        is_first_binding(layout, e.0, i),
        triggers(e.0, input, modifiers, mode),
        forall|j: int| 0 <= j < i ==> !triggers(#[trigger] layout[j].0, input, modifiers, mode),
    ensures
        action_for(add_entries(layout, seq![e]), input, modifiers, mode) == e.1,
{
    assert(seq![e].drop_last() =~= Seq::<EntryView>::empty());
    assert(add_entries(layout, seq![e].drop_last()) == layout);
    assert(seq![e].last() == e);
    let k = choose|k: int| is_first_binding(layout, e.0, k);
    assert(k == i);
    let r = layout.update(i, e);
    assert(add_entries(layout, seq![e]) == r);
    let before = layout.subrange(0, i);
    let after = layout.subrange(i + 1, layout.len() as int);
    let rest = seq![e] + after;
    assert(r =~= before + rest);
    assert forall|j: int| 0 <= j < before.len() implies !triggers(
        #[trigger] before[j].0,
        input,
        modifiers,
        mode,
    ) by {
        assert(before[j] == layout[j]);
    }
    lemma_action_for_concat(before, rest, input, modifiers, mode);
    assert(rest[0] == e);
}

/// An ordered table of bindings; lookup takes the first entry that fires.
#[derive(Clone, Debug)]
pub struct BindingsLayout {
    layout: Vec<Entry>,
}

impl View for BindingsLayout {
    type V = Seq<EntryView>;

    closed spec fn view(&self) -> Seq<EntryView> {
        entries_view(self.layout@)
    }
}

impl Default for BindingsLayout {
    fn default() -> (r: BindingsLayout)
        ensures
            r@ == default_layout(CTRL) || r@ == default_layout(LOGO),
    {
        BindingsLayout::new()
    }
}

impl BindingsLayout {
    /// The default table of this platform: the keyboard table, then the
    /// platform copy/paste entries, then the mouse entries, each added as
    /// [`BindingsLayout::add_bindings`] adds.
    pub fn new() -> (r: BindingsLayout)
        ensures
            r@ == default_layout(CTRL) || r@ == default_layout(LOGO),
    {
        BindingsLayout::with_command_key(command_modifier())
    }

    /// The default table for a platform whose command key is `command`.
    pub fn with_command_key(command: Modifiers) -> (r: BindingsLayout)
        ensures
            r@ == default_layout(command.bits),
    {
        let mut layout = BindingsLayout { layout: default_keyboard_bindings(command.bits) };
        layout.add_bindings(platform_keyboard_bindings(command.bits));
        layout.add_bindings(mouse_default_bindings(command.bits));
        layout
    }

    /// The entries, in order.
    pub fn entries(&self) -> (r: &Vec<Entry>)
        ensures
            entries_view(r@) == self@,
    {
        &self.layout
    }

    /// The number of entries.
    pub fn len(&self) -> (r: usize)
        ensures
            r == self@.len(),
    {
        self.layout.len()
    }

    /// The position of the first entry whose binding is `binding`.
    fn position(&self, binding: &Binding) -> (r: Option<usize>)
        ensures
            match r {
                Some(i) => is_first_binding(self@, binding@, i as int),
                None => forall|j: int| 0 <= j < self@.len() ==> self@[j].0 != binding@,
            },
    {
        let mut i: usize = 0;
        while i < self.layout.len()
            invariant
                i <= self.layout@.len(),
                forall|j: int| 0 <= j < i ==> self@[j].0 != binding@,
            decreases self.layout@.len() - i,
        {
            if self.layout[i].0.same_as(binding) {
                return Some(i);
            }
            i = i + 1;
        }
        None
    }

    /// Adds one entry: it replaces the first entry with an equal binding, in
    /// place, or else is appended.
    pub fn add_binding(&mut self, binding: Binding, action: BindingAction)
        ensures
            final(self)@ == add_entry(old(self)@, (binding@, action@)),
    {
        let ghost e = (binding@, action@);
        match self.position(&binding) {
            Some(i) => {
                proof {
                    let k = choose|k: int| is_first_binding(old(self)@, e.0, k);
                    assert(k == i as int);
                }
                self.layout.set(i, (binding, action));
                assert(self@ =~= add_entry(old(self)@, e));
            },
            None => {
                self.layout.push((binding, action));
                assert(self@ =~= add_entry(old(self)@, e));
            },
        }
    }

    /// Adds the entries in order, each as [`BindingsLayout::add_binding`] does.
    pub fn add_bindings(&mut self, bindings: Vec<Entry>)
        ensures
            final(self)@ == add_entries(old(self)@, entries_view(bindings@)),
    {
        let ghost es = entries_view(bindings@);
        let mut k: usize = 0;
        while k < bindings.len()
            invariant
                k <= bindings@.len(),
                es == entries_view(bindings@),
                self@ == add_entries(old(self)@, es.take(k as int)),
            decreases bindings@.len() - k,
        {
            let binding = bindings[k].0.duplicate();
            let action = bindings[k].1.duplicate();
            self.add_binding(binding, action);
            proof {
                assert(es.take(k as int + 1).drop_last() =~= es.take(k as int));
            }
            k = k + 1;
        }
        assert(es.take(k as int) =~= es);
    }

    /// The action of the first entry that fires on this input, or `Ignore`
    /// when none does.
    pub fn get_action(&self, input: InputKind, modifiers: Modifiers, terminal_mode: TermMode) -> (r:
        BindingAction)
        ensures
            r@ == action_for(self@, input@, modifiers.bits, terminal_mode.bits),
            (forall|i: int|
                0 <= i < self@.len() ==> !triggers(
                    #[trigger] self@[i].0,
                    input@,
                    modifiers.bits,
                    terminal_mode.bits,
                )) ==> r@ == BindingActionView::Ignore,
    {
        let ghost l = self@;
        assert(l.subrange(0, l.len() as int) =~= l);
        let mut i: usize = 0;
        while i < self.layout.len()
            invariant
                i <= self.layout@.len(),
                l == self@,
                action_for(l, input@, modifiers.bits, terminal_mode.bits) == action_for(
                    l.subrange(i as int, l.len() as int),
                    input@,
                    modifiers.bits,
                    terminal_mode.bits,
                ),
            decreases self.layout@.len() - i,
        {
            let ghost rest = l.subrange(i as int, l.len() as int);
            assert(rest.subrange(1, rest.len() as int) =~= l.subrange(i + 1, l.len() as int));
            if self.layout[i].0.is_triggered(&input, modifiers, terminal_mode) {
                return self.layout[i].1.duplicate();
            }
            i = i + 1;
        }
        BindingAction::Ignore
    }
}

} // verus!
