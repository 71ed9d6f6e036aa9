//! The tray icon and its context menu: what they are built from and how
//! their input is read.

use vstd::prelude::*;
use crate::visibility::TrayLabel;

verus! {

/// Identifier of the tray icon.
pub const TRAY_ID: &'static str = "main";

/// Tooltip of the tray icon.
pub const TRAY_TOOLTIP: &'static str = "Soundboard";

/// Identifier of the menu entry that toggles the window.
pub const TOGGLE_ENTRY_ID: &'static str = "toggle_window";

/// Identifier of the menu entry that quits.
pub const QUIT_ENTRY_ID: &'static str = "quit";

/// Text of the menu entry that quits.
pub const QUIT_ENTRY_TEXT: &'static str = "Quit";

/// Exit code of the process after an explicit quit.
pub const QUIT_EXIT_CODE: i32 = 0;

/// An entry of the tray's context menu, as its activation is understood.
#[derive(Clone, Copy, Debug, PartialEq, Eq, Structural)]
pub enum MenuEntry {
    /// Shows the window or reduces it to the tray.
    ToggleWindow,
    /// Ends the process.
    Quit,
    /// An entry that the shell does not know; activating it does nothing.
    Other,
}

impl MenuEntry {
    /// The entry that an identifier names.
    pub open spec fn named(id: Seq<char>) -> MenuEntry {
        if id == TOGGLE_ENTRY_ID@ {
            MenuEntry::ToggleWindow
        } else if id == QUIT_ENTRY_ID@ {
            MenuEntry::Quit
        } else {
            MenuEntry::Other
        }
    }

    /// The identifier an entry is built with; entries that the shell does
    /// not know have none.
    pub open spec fn id_spec(self) -> Option<Seq<char>> {
        match self {
            MenuEntry::ToggleWindow => Some(TOGGLE_ENTRY_ID@),
            MenuEntry::Quit => Some(QUIT_ENTRY_ID@),
            MenuEntry::Other => None,
        }
    }

    /// Reads the identifier that a menu activation carries.
    pub fn from_id(id: &str) -> (entry: MenuEntry)
        ensures
            entry == MenuEntry::named(id@),
    {
        if same_text(id, TOGGLE_ENTRY_ID) {
            MenuEntry::ToggleWindow
        } else if same_text(id, QUIT_ENTRY_ID) {
            MenuEntry::Quit
        } else {
            MenuEntry::Other
        }
    }

    /// The identifier to build the entry with.
    pub fn id(&self) -> (id: Option<&'static str>)
        ensures
            match id {
                Some(text) => self.id_spec() == Some(text@),
                None => self.id_spec() is None,
            },
    {
        match self {
            MenuEntry::ToggleWindow => Some(TOGGLE_ENTRY_ID),
            MenuEntry::Quit => Some(QUIT_ENTRY_ID),
            MenuEntry::Other => None,
        }
    }
}

/// Whether two strings hold the same characters.
fn same_text(left: &str, right: &str) -> (same: bool)
    ensures
        same == (left@ == right@),
{
    let left_owned = left.to_owned();
    let right_owned = right.to_owned();
    left_owned == right_owned
}

/// A mouse button, as a tray click reports it.
#[derive(Clone, Copy, Debug, PartialEq, Eq, Structural)]
pub enum MouseButton {
    Left,
    Right,
    Middle,
}

/// Whether the button went down or came up.
#[derive(Clone, Copy, Debug, PartialEq, Eq, Structural)]
pub enum MouseButtonState {
    Up,
    Down,
}

/// What happened to the tray icon, as far as the shell reads it.
#[derive(Clone, Copy, Debug, PartialEq, Eq, Structural)]
pub enum TrayIconEvent {
    /// A click on the icon.
    Click { button: MouseButton, button_state: MouseButtonState },
    /// Anything else: a double click, the pointer entering, moving, leaving.
    Other,
}

impl TrayIconEvent {
    /// The event that asks for the window: the left button coming up.
    pub open spec fn is_activation(self) -> bool {
        self == (TrayIconEvent::Click {
            button: MouseButton::Left,
            button_state: MouseButtonState::Up,
        })
    }

    /// Whether the event asks for the window.
    pub fn activates(&self) -> (activates: bool)
        ensures
            activates == self.is_activation(),
    {
        match self {
            TrayIconEvent::Click { button: MouseButton::Left, button_state: MouseButtonState::Up } => true,
            _ => false,
        }
    }
}

/// The text that the toggle entry is built with: the label of the state at
/// process start.
pub fn initial_toggle_text() -> (text: &'static str)
    ensures
        text@ == TrayLabel::ReduceToTray.text_spec(),
{
    TrayLabel::ReduceToTray.text()
}

/// The identifiers that the menu is built with are the ones that its
/// activations are read by, and they tell the two entries apart.
pub proof fn lemma_entries_found_by_id(entry: MenuEntry)
    requires
        entry != MenuEntry::Other,
    ensures
        entry.id_spec() is Some,
        MenuEntry::named(entry.id_spec().unwrap()) == entry,
{
    reveal_strlit("toggle_window");
    reveal_strlit("quit");
    assert(TOGGLE_ENTRY_ID@.len() != QUIT_ENTRY_ID@.len());
}

} // verus!
