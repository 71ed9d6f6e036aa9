//! The window-visibility state machine and the tray label it drives.

use vstd::prelude::*;

verus! {

/// Whether the main window is on screen.
#[derive(Clone, Copy, Debug, PartialEq, Eq, Structural)]
pub enum WindowVisibility {
    Visible,
    Hidden,
}

impl WindowVisibility {
    /// The other of the two values.
    pub open spec fn flipped(self) -> WindowVisibility {
        match self {
            WindowVisibility::Visible => WindowVisibility::Hidden,
            WindowVisibility::Hidden => WindowVisibility::Visible,
        }
    }
}

/// Text of the tray menu's toggle entry. It names the action that the entry
/// performs next, so it is the negation of the current visibility.
#[derive(Clone, Copy, Debug, PartialEq, Eq, Structural)]
pub enum TrayLabel {
    /// Offered while the window is hidden.
    ShowWindow,
    /// Offered while the window is visible.
    ReduceToTray,
}

impl TrayLabel {
    /// The label that belongs to a visibility.
    pub open spec fn offered_for(visibility: WindowVisibility) -> TrayLabel {
        match visibility {
            WindowVisibility::Visible => TrayLabel::ReduceToTray,
            WindowVisibility::Hidden => TrayLabel::ShowWindow,
        }
    }

    /// The characters shown in the menu.
    pub open spec fn text_spec(self) -> Seq<char> {
        match self {
            TrayLabel::ShowWindow => "Show window"@,
            TrayLabel::ReduceToTray => "Reduce to system tray"@,
        }
    }

    /// Derives the label from a visibility.
    pub fn for_visibility(visibility: WindowVisibility) -> (label: TrayLabel)
        ensures
            label == TrayLabel::offered_for(visibility),
    {
        match visibility {
            WindowVisibility::Visible => TrayLabel::ReduceToTray,
            WindowVisibility::Hidden => TrayLabel::ShowWindow,
        }
    }

    /// The text to write into the menu entry.
    pub fn text(&self) -> (text: &'static str)
        ensures
            text@ == self.text_spec(),
    {
        match self {
            TrayLabel::ShowWindow => "Show window",
            TrayLabel::ReduceToTray => "Reduce to system tray",
        }
    }
}

/// One side effect that the host performs on behalf of the state machine.
#[derive(Clone, Copy, Debug, PartialEq, Eq, Structural)]
pub enum Action {
    /// Make the main window visible.
    ShowWindow,
    /// Take the main window off the screen without destroying it.
    HideWindow,
    /// Ask the operating system to give the main window input focus.
    FocusWindow,
    /// Suppress the close that the operating system asked for.
    PreventClose,
    /// Write this label into the tray menu's toggle entry, in place.
    SetToggleText(TrayLabel),
    /// Terminate the process at once with this exit code.
    Exit(i32),
}

/// The state machine's state as a mathematical value.
pub struct WindowModel {
    /// Whether the main window is on screen.
    pub visibility: WindowVisibility,
    /// Whether the window was last seen holding input focus. It is read
    /// only while the window is visible.
    pub focused: bool,
    /// What the tray menu's toggle entry shows.
    pub label: TrayLabel,
}

impl WindowModel {
    /// The state at process start: the host shows the window by itself, and
    /// no focus change has been seen yet.
    pub open spec fn initial() -> WindowModel {
        WindowModel {
            visibility: WindowVisibility::Visible,
            focused: false,
            label: TrayLabel::ReduceToTray,
        }
    }

    /// The label is the one that belongs to the visibility, and a hidden
    /// window does not count as focused.
    pub open spec fn consistent(self) -> bool {
        &&& self.label == TrayLabel::offered_for(self.visibility)
        &&& self.focused ==> self.visibility == WindowVisibility::Visible
    }

    /// The state with the window shown. Focus is only requested: whether
    /// the window holds it stays what was last seen.
    pub open spec fn shown(self) -> WindowModel {
        WindowModel {
            visibility: WindowVisibility::Visible,
            focused: self.focused && self.visibility == WindowVisibility::Visible,
            label: TrayLabel::ReduceToTray,
        }
    }

    /// The state with the window reduced to the tray.
    pub open spec fn reduced(self) -> WindowModel {
        WindowModel {
            visibility: WindowVisibility::Hidden,
            focused: false,
            label: TrayLabel::ShowWindow,
        }
    }

    /// The state after one toggle.
    pub open spec fn toggled(self) -> WindowModel {
        match self.visibility {
            WindowVisibility::Visible => self.reduced(),
            WindowVisibility::Hidden => self.shown(),
        }
    }

    /// The state after the system reported that the window gained or lost
    /// focus. A hidden window ignores the report.
    pub open spec fn refocused(self, gained: bool) -> WindowModel {
        match self.visibility {
            WindowVisibility::Visible => WindowModel {
                visibility: WindowVisibility::Visible,
                focused: gained,
                label: TrayLabel::ReduceToTray,
            },
            WindowVisibility::Hidden => self,
        }
    }

    /// The state after `n` toggles in a row.
    pub open spec fn toggled_times(self, n: nat) -> WindowModel
        decreases n,
    {
        if n == 0 {
            self
        } else {
            self.toggled_times((n - 1) as nat).toggled()
        }
    }

    /// The state after `n` close requests in a row.
    pub open spec fn reduced_times(self, n: nat) -> WindowModel
        decreases n,
    {
        if n == 0 {
            self
        } else {
            self.reduced_times((n - 1) as nat).reduced()
        }
    }

    /// What the host does to bring a hidden window back.
    pub open spec fn reveal_actions() -> Seq<Action> {
        seq![
            Action::ShowWindow,
            Action::FocusWindow,
            Action::SetToggleText(TrayLabel::ReduceToTray),
        ]
    }

    /// What the host does to reduce the window to the tray.
    pub open spec fn reduce_actions() -> Seq<Action> {
        seq![Action::HideWindow, Action::SetToggleText(TrayLabel::ShowWindow)]
    }

    /// The side effects of one toggle in this state.
    pub open spec fn toggle_actions(self) -> Seq<Action> {
        match self.visibility {
            WindowVisibility::Visible => WindowModel::reduce_actions(),
            WindowVisibility::Hidden => WindowModel::reveal_actions(),
        }
    }

    /// The side effects of bringing the window to the front in this state.
    pub open spec fn show_actions(self) -> Seq<Action> {
        match self.visibility {
            WindowVisibility::Visible => seq![Action::FocusWindow],
            WindowVisibility::Hidden => WindowModel::reveal_actions(),
        }
    }

    /// The side effects of a close request: the close is suppressed and the
    /// window is reduced to the tray as a toggle would reduce it.
    pub open spec fn close_actions() -> Seq<Action> {
        seq![Action::PreventClose] + WindowModel::reduce_actions()
    }

    /// The side effects of a focus change that the operating system reports.
    pub open spec fn focus_actions(self, gained: bool) -> Seq<Action> {
        if gained && self.visibility == WindowVisibility::Visible {
            seq![Action::SetToggleText(TrayLabel::ReduceToTray)]
        } else {
            Seq::empty()
        }
    }
}

/// The window-visibility state machine.
///
/// It is the only writer of the main window's visibility and of the toggle
/// entry's text. Its operations change the logical state and return the
/// side effects for the host to perform; a side effect that fails on the
/// host's side is not reported back, and the logical state stands.
pub struct WindowState {
    visibility: WindowVisibility,
    focused: bool,
    label: TrayLabel,
}

impl View for WindowState {
    type V = WindowModel;

    closed spec fn view(&self) -> WindowModel {
        WindowModel { visibility: self.visibility, focused: self.focused, label: self.label }
    }
}

impl WindowState {
    /// Holds of every value of the type: it can be made and changed only
    /// through the operations below.
    #[verifier::type_invariant]
    pub open spec fn well_formed(self) -> bool {
        self@.consistent()
    }

    /// The state machine at process start.
    pub fn new() -> (state: WindowState)
        ensures
            state@ == WindowModel::initial(),
    {
        WindowState {
            visibility: WindowVisibility::Visible,
            focused: false,
            label: TrayLabel::ReduceToTray,
        }
    }

    /// The current visibility.
    pub fn visibility(&self) -> (visibility: WindowVisibility)
        ensures
            visibility == self@.visibility,
    {
        self.visibility
    }

    /// Whether the window is visible and was last seen holding input focus.
    pub fn is_focused(&self) -> (focused: bool)
        ensures
            focused == self@.focused,
            focused ==> self@.visibility == WindowVisibility::Visible,
    {
        proof {
            use_type_invariant(self);
        }
        self.focused
    }

    /// The label that the toggle entry shows. In every state it is the one
    /// that belongs to the visibility.
    pub fn label(&self) -> (label: TrayLabel)
        ensures
            label == self@.label,
            label == TrayLabel::offered_for(self@.visibility),
            self@.consistent(),
    {
        proof {
            use_type_invariant(self);
        }
        self.label
    }

    /// Puts the window on screen or takes it off, with the label that
    /// belongs to the new visibility.
    fn settle(&mut self, visibility: WindowVisibility, focused: bool)
        requires
            focused ==> visibility == WindowVisibility::Visible,
        ensures
            final(self)@ == (WindowModel {
                visibility,
                focused,
                label: TrayLabel::offered_for(visibility),
            }),
    {
        *self = WindowState { visibility, focused, label: TrayLabel::for_visibility(visibility) };
    }

    /// Flips the visibility: a visible window is reduced to the tray, a
    /// hidden one is shown and focused. The label follows.
    pub fn toggle(&mut self) -> (actions: Vec<Action>)
        ensures
            final(self)@ == old(self)@.toggled(),
            final(self)@.visibility == old(self)@.visibility.flipped(),
            final(self)@.consistent(),
            actions@ == old(self)@.toggle_actions(),
    {
        match self.visibility {
            WindowVisibility::Visible => {
                self.settle(WindowVisibility::Hidden, false);
                vec![Action::HideWindow, Action::SetToggleText(TrayLabel::ShowWindow)]
            },
            WindowVisibility::Hidden => {
                self.settle(WindowVisibility::Visible, false);
                vec![
                    Action::ShowWindow,
                    Action::FocusWindow,
                    Action::SetToggleText(TrayLabel::ReduceToTray),
                ]
            },
        }
    }

    /// Brings the window to the front. A visible window only has its focus
    /// requested again; a hidden one is shown and focused, and the label
    /// follows.
    pub fn show_and_focus(&mut self) -> (actions: Vec<Action>)
        ensures
            final(self)@ == old(self)@.shown(),
            final(self)@.visibility == WindowVisibility::Visible,
            final(self)@.consistent(),
            actions@ == old(self)@.show_actions(),
    {
        proof {
            use_type_invariant(&*self);
        }
        match self.visibility {
            WindowVisibility::Visible => vec![Action::FocusWindow],
            WindowVisibility::Hidden => {
                self.settle(WindowVisibility::Visible, false);
                vec![
                    Action::ShowWindow,
                    Action::FocusWindow,
                    Action::SetToggleText(TrayLabel::ReduceToTray),
                ]
            },
        }
    }

    /// Answers the operating system's request to close the window: the
    /// close is suppressed and the window is reduced to the tray instead.
    /// The process goes on.
    pub fn on_close_requested(&mut self) -> (actions: Vec<Action>)
        ensures
            final(self)@ == old(self)@.reduced(),
            final(self)@.visibility == WindowVisibility::Hidden,
            final(self)@.consistent(),
            actions@ == WindowModel::close_actions(),
            forall|i: int| 0 <= i < actions@.len() ==> !(actions@[i] is Exit),
    {
        self.settle(WindowVisibility::Hidden, false);
        let actions = vec![
            Action::PreventClose,
            Action::HideWindow,
            Action::SetToggleText(TrayLabel::ShowWindow),
        ];
        assert(actions@ =~= WindowModel::close_actions());
        actions
    }

    /// Observes a focus change of the real window. Focus gained while the
    /// window is visible writes the label again, which repairs a menu text
    /// that drifted. The visibility does not change.
    pub fn on_focused(&mut self, gained: bool) -> (actions: Vec<Action>)
        ensures
            final(self)@ == old(self)@.refocused(gained),
            final(self)@.visibility == old(self)@.visibility,
            final(self)@.consistent(),
            actions@ == old(self)@.focus_actions(gained),
    {
        proof {
            use_type_invariant(&*self);
        }
        match self.visibility {
            WindowVisibility::Visible => {
                self.settle(WindowVisibility::Visible, gained);
                if gained {
                    vec![Action::SetToggleText(TrayLabel::ReduceToTray)]
                } else {
                    Vec::new()
                }
            },
            WindowVisibility::Hidden => Vec::new(),
        }
    }
}

/// Every operation of the state machine leads from a state whose label is
/// the negation of its visibility to another such state, and the state at
/// process start is one.
pub proof fn lemma_operations_keep_label(m: WindowModel, gained: bool)
    requires
        m.consistent(),
    ensures
        WindowModel::initial().consistent(),
        m.toggled().consistent(),
        m.shown().consistent(),
        m.reduced().consistent(),
        m.refocused(gained).consistent(),
{
}

/// Toggles alternate strictly: each one flips the visibility, so after `n`
/// of them the window is where it started if `n` is even and on the other
/// side if `n` is odd, and the label is the one that belongs to that
/// visibility after each of them.
pub proof fn lemma_toggles_alternate(m: WindowModel, n: nat)
    requires
        m.consistent(),
    ensures
        m.toggled_times(n).consistent(),
        m.toggled_times(n).visibility == if n % 2 == 0 {
            m.visibility
        } else {
            m.visibility.flipped()
        },
        m.toggled_times(n + 1).visibility == m.toggled_times(n).visibility.flipped(),
    decreases n,
{
    if n > 0 {
        lemma_toggles_alternate(m, (n - 1) as nat);
    }
    assert(m.toggled_times(n + 1) == m.toggled_times(n).toggled());
}

/// From the state at process start, the number of toggles alone decides the
/// visibility: visible after an even number, hidden after an odd one.
pub proof fn lemma_toggles_from_start(n: nat)
    ensures
        WindowModel::initial().toggled_times(n).visibility == if n % 2 == 0 {
            WindowVisibility::Visible
        } else {
            WindowVisibility::Hidden
        },
        WindowModel::initial().toggled_times(n).label == TrayLabel::offered_for(
            WindowModel::initial().toggled_times(n).visibility,
        ),
{
    lemma_toggles_alternate(WindowModel::initial(), n);
}

/// Bringing the window to the front is idempotent. On a visible window it
/// changes nothing and only asks for focus; a second call in a row always
/// finds the window visible, so it changes nothing and only asks for focus.
pub proof fn lemma_show_is_idempotent(m: WindowModel)
    requires
        m.consistent(),
    ensures
        m.visibility == WindowVisibility::Visible ==> m.shown() == m,
        m.visibility == WindowVisibility::Visible ==> m.show_actions() == seq![
            Action::FocusWindow,
        ],
        m.shown().shown() == m.shown(),
        m.shown().show_actions() == seq![Action::FocusWindow],
{
}

/// A close request never leaves the window visible and never ends the
/// process: after any positive number of close requests in a row the window
/// is hidden, and none of the side effects is an exit.
pub proof fn lemma_close_requests_hide(m: WindowModel, n: nat)
    requires
        n > 0,
    ensures
        m.reduced_times(n).visibility == WindowVisibility::Hidden,
        m.reduced_times(n).consistent(),
        forall|code: i32| !WindowModel::close_actions().contains(Action::Exit(code)),
{
}

} // verus!
