//! The shell's input events and the one function that answers them.

use vstd::prelude::*;
use crate::tray::{MenuEntry, TrayIconEvent, QUIT_EXIT_CODE};
use crate::visibility::{Action, WindowModel, WindowState, WindowVisibility};

verus! {

/// An input of the shell. The host turns what its window, menu and tray
/// callbacks receive into one of these and performs what [`dispatch`]
/// returns.
#[derive(Clone, Copy, Debug, PartialEq, Eq, Structural)]
pub enum Event {
    /// The operating system asks to close the main window.
    CloseRequested,
    /// The main window gained (`true`) or lost (`false`) input focus.
    Focused(bool),
    /// Something happened to the tray icon.
    TrayIcon(TrayIconEvent),
    /// An entry of the tray's context menu was activated.
    MenuActivated(MenuEntry),
    /// A second process of the application was launched. This is also how
    /// the activation of a deep link reaches a running instance.
    SecondInstance,
}

impl Event {
    /// The event can be answered. A second launch has to bring the main
    /// window to the front and so needs the window to exist; every other
    /// event can be answered with or without it.
    pub open spec fn answerable(self, main_window: bool) -> bool {
        self == Event::SecondInstance ==> main_window
    }
}

/// The state after an event. `main_window` says whether the host found the
/// main window when the event arrived; a tray or menu event that finds none
/// changes nothing.
pub open spec fn next(m: WindowModel, event: Event, main_window: bool) -> WindowModel {
    match event {
        Event::CloseRequested => m.reduced(),
        Event::Focused(gained) => m.refocused(gained),
        Event::TrayIcon(tray) => if tray.is_activation() && main_window {
            m.shown()
        } else {
            m
        },
        Event::MenuActivated(entry) => if entry == MenuEntry::ToggleWindow && main_window {
            m.toggled()
        } else {
            m
        },
        Event::SecondInstance => m.shown(),
    }
}

/// The side effects of an event, in the order in which the host performs
/// them.
pub open spec fn effects(m: WindowModel, event: Event, main_window: bool) -> Seq<Action> {
    match event {
        Event::CloseRequested => WindowModel::close_actions(),
        Event::Focused(gained) => m.focus_actions(gained),
        Event::TrayIcon(tray) => if tray.is_activation() && main_window {
            m.show_actions()
        } else {
            Seq::empty()
        },
        Event::MenuActivated(entry) => match entry {
            MenuEntry::ToggleWindow => if main_window {
                m.toggle_actions()
            } else {
                Seq::empty()
            },
            MenuEntry::Quit => seq![Action::Exit(QUIT_EXIT_CODE)],
            MenuEntry::Other => Seq::empty(),
        },
        Event::SecondInstance => m.show_actions(),
    }
}

/// The state after a run of events, each with what the host found of the
/// main window.
pub open spec fn replayed(m: WindowModel, inputs: Seq<(Event, bool)>) -> WindowModel
    decreases inputs.len(),
{
    if inputs.len() == 0 {
        m
    } else {
        next(replayed(m, inputs.drop_last()), inputs.last().0, inputs.last().1)
    }
}

/// Answers one event: moves the state machine and returns the side effects
/// for the host to perform in order.
///
/// A left click released on the tray icon and a second launch bring the
/// window to the front; the menu's toggle entry toggles it; the quit entry
/// ends the process and touches nothing else; a close request reduces the
/// window to the tray; gained focus writes the label again.
pub fn dispatch(state: &mut WindowState, event: Event, main_window: bool) -> (actions: Vec<
    Action,
>)
    requires
        event.answerable(main_window),
    ensures
        final(state)@ == next(old(state)@, event, main_window),
        final(state)@.consistent(),
        actions@ == effects(old(state)@, event, main_window),
{
    proof {
        use_type_invariant(&*state);
    }
    match event {
        Event::CloseRequested => state.on_close_requested(),
        Event::Focused(gained) => state.on_focused(gained),
        Event::TrayIcon(tray) => {
            if tray.activates() && main_window {
                state.show_and_focus()
            } else {
                Vec::new()
            }
        },
        Event::MenuActivated(entry) => match entry {
            MenuEntry::ToggleWindow => {
                if main_window {
                    state.toggle()
                } else {
                    Vec::new()
                }
            },
            MenuEntry::Quit => vec![Action::Exit(QUIT_EXIT_CODE)],
            MenuEntry::Other => Vec::new(),
        },
        Event::SecondInstance => state.show_and_focus(),
    }
}

/// Answers the activation of the menu entry with identifier `id`.
pub fn on_menu_event(state: &mut WindowState, id: &str, main_window: bool) -> (actions: Vec<
    Action,
>)
    ensures
        final(state)@ == next(
            old(state)@,
            Event::MenuActivated(MenuEntry::named(id@)),
            main_window,
        ),
        actions@ == effects(
            old(state)@,
            Event::MenuActivated(MenuEntry::named(id@)),
            main_window,
        ),
{
    dispatch(state, Event::MenuActivated(MenuEntry::from_id(id)), main_window)
}

/// The process ends on the activation of the quit entry and on nothing
/// else: an exit is among the side effects of an event exactly if the event
/// is that activation, the exit code is zero, and then the exit is the only
/// side effect and the state stays as it is.
pub proof fn lemma_only_quit_exits(m: WindowModel, event: Event, main_window: bool, code: i32)
    ensures
        effects(m, event, main_window).contains(Action::Exit(code)) <==> (event
            == Event::MenuActivated(MenuEntry::Quit) && code == 0),
        event == Event::MenuActivated(MenuEntry::Quit) ==> effects(m, event, main_window)
            == seq![Action::Exit(0)] && next(m, event, main_window) == m,
{
    let s = effects(m, event, main_window);
    if event == Event::MenuActivated(MenuEntry::Quit) {
        assert(s[0] == Action::Exit(0));
    }
    if s.contains(Action::Exit(code)) {
        let i = choose|i: int| 0 <= i < s.len() && s[i] == Action::Exit(code);
        assert(s[i] is Exit);
    }
}

/// No event brings the label out of step with the visibility, and a close
/// request leaves the window hidden whatever the state before.
pub proof fn lemma_events_keep_label(m: WindowModel, event: Event, main_window: bool)
    requires
        m.consistent(),
    ensures
        next(m, event, main_window).consistent(),
        next(m, Event::CloseRequested, main_window).visibility == WindowVisibility::Hidden,
{
}

/// In every state that a run of events reaches from the state at process
/// start, the label is the negation of the visibility.
pub proof fn lemma_label_follows_in_every_state(inputs: Seq<(Event, bool)>)
    ensures
        replayed(WindowModel::initial(), inputs).consistent(),
    decreases inputs.len(),
{
    if inputs.len() > 0 {
        lemma_label_follows_in_every_state(inputs.drop_last());
        lemma_events_keep_label(
            replayed(WindowModel::initial(), inputs.drop_last()),
            inputs.last().0,
            inputs.last().1,
        );
    }
}

/// Every effect that changes what is on screen comes with the label that
/// belongs to the new state: whenever an event changes the visibility, the
/// last side effect writes the label of the state after it.
pub proof fn lemma_label_written_on_change(m: WindowModel, event: Event, main_window: bool)
    requires
        m.consistent(),
        next(m, event, main_window).visibility != m.visibility,
    ensures
        effects(m, event, main_window).len() > 0,
        effects(m, event, main_window).last() == Action::SetToggleText(
            next(m, event, main_window).label,
        ),
{
}

} // verus!
