use window_presence::events::{dispatch, on_menu_event, Event};
use window_presence::setup::{window_title, MAIN_WINDOW, OVERLAY_WINDOW};
use window_presence::tray::{
    initial_toggle_text, MenuEntry, MouseButton, MouseButtonState, TrayIconEvent, QUIT_ENTRY_ID,
    QUIT_ENTRY_TEXT, QUIT_EXIT_CODE, TOGGLE_ENTRY_ID, TRAY_ID, TRAY_TOOLTIP,
};
use window_presence::visibility::{Action, TrayLabel, WindowState, WindowVisibility};

fn left_up() -> TrayIconEvent {
    TrayIconEvent::Click { button: MouseButton::Left, button_state: MouseButtonState::Up }
}

fn bring_back() -> Vec<Action> {
    vec![
        Action::ShowWindow,
        Action::FocusWindow,
        Action::SetToggleText(TrayLabel::ReduceToTray),
    ]
}

#[test]
fn menu_ids_are_read() {
    assert_eq!(MenuEntry::from_id("toggle_window"), MenuEntry::ToggleWindow);
    assert_eq!(MenuEntry::from_id("quit"), MenuEntry::Quit);
    assert_eq!(MenuEntry::from_id(""), MenuEntry::Other);
    assert_eq!(MenuEntry::from_id("Quit"), MenuEntry::Other);
    assert_eq!(MenuEntry::from_id("toggle_window "), MenuEntry::Other);
    assert_eq!(MenuEntry::from_id("toggle"), MenuEntry::Other);
}

#[test]
fn menu_ids_round_trip() {
    assert_eq!(MenuEntry::ToggleWindow.id(), Some("toggle_window"));
    assert_eq!(MenuEntry::Quit.id(), Some("quit"));
    assert_eq!(MenuEntry::Other.id(), None);
    for entry in [MenuEntry::ToggleWindow, MenuEntry::Quit] {
        assert_eq!(MenuEntry::from_id(entry.id().unwrap()), entry);
    }
}

#[test]
fn tray_constants() {
    assert_eq!(TRAY_ID, "main");
    assert_eq!(TRAY_TOOLTIP, "Soundboard");
    assert_eq!(TOGGLE_ENTRY_ID, "toggle_window");
    assert_eq!(QUIT_ENTRY_ID, "quit");
    assert_eq!(QUIT_ENTRY_TEXT, "Quit");
    assert_eq!(QUIT_EXIT_CODE, 0);
    assert_eq!(initial_toggle_text(), "Reduce to system tray");
    assert_eq!(MAIN_WINDOW, "main");
    assert_eq!(OVERLAY_WINDOW, "overlay");
}

#[test]
fn only_left_button_up_activates() {
    assert!(left_up().activates());
    for button in [MouseButton::Left, MouseButton::Right, MouseButton::Middle] {
        for button_state in [MouseButtonState::Up, MouseButtonState::Down] {
            let event = TrayIconEvent::Click { button, button_state };
            let expected = button == MouseButton::Left && button_state == MouseButtonState::Up;
            assert_eq!(event.activates(), expected);
        }
    }
    assert!(!TrayIconEvent::Other.activates());
}

#[test]
fn quit_entry_exits_with_code_zero() {
    let mut state = WindowState::new();
    let actions = dispatch(&mut state, Event::MenuActivated(MenuEntry::Quit), true);
    assert_eq!(actions, vec![Action::Exit(0)]);
    assert_eq!(state.visibility(), WindowVisibility::Visible);
    let actions = on_menu_event(&mut state, "quit", false);
    assert_eq!(actions, vec![Action::Exit(0)]);
}

#[test]
fn no_other_event_exits() {
    let events = [
        Event::CloseRequested,
        Event::Focused(true),
        Event::Focused(false),
        Event::TrayIcon(left_up()),
        Event::TrayIcon(TrayIconEvent::Other),
        Event::MenuActivated(MenuEntry::ToggleWindow),
        Event::MenuActivated(MenuEntry::Other),
        Event::SecondInstance,
    ];
    for hidden in [false, true] {
        for event in events {
            let mut state = WindowState::new();
            if hidden {
                state.toggle();
            }
            let actions = dispatch(&mut state, event, true);
            assert!(actions.iter().all(|a| !matches!(a, Action::Exit(_))));
            assert_eq!(state.label(), TrayLabel::for_visibility(state.visibility()));
        }
    }
}

#[test]
fn menu_toggle_delegates_to_toggle() {
    let mut state = WindowState::new();
    assert_eq!(
        on_menu_event(&mut state, "toggle_window", true),
        vec![Action::HideWindow, Action::SetToggleText(TrayLabel::ShowWindow)]
    );
    assert_eq!(state.visibility(), WindowVisibility::Hidden);
    assert_eq!(on_menu_event(&mut state, "toggle_window", true), bring_back());
    assert_eq!(state.visibility(), WindowVisibility::Visible);
}

#[test]
fn menu_toggle_without_window_does_nothing() {
    let mut state = WindowState::new();
    assert_eq!(on_menu_event(&mut state, "toggle_window", false), Vec::<Action>::new());
    assert_eq!(state.visibility(), WindowVisibility::Visible);
}

#[test]
fn unknown_menu_entry_does_nothing() {
    let mut state = WindowState::new();
    assert_eq!(on_menu_event(&mut state, "settings", true), Vec::<Action>::new());
    assert_eq!(state.visibility(), WindowVisibility::Visible);
}

#[test]
fn tray_left_click_brings_window_to_front() {
    let mut state = WindowState::new();
    state.on_close_requested();
    assert_eq!(dispatch(&mut state, Event::TrayIcon(left_up()), true), bring_back());
    assert_eq!(state.visibility(), WindowVisibility::Visible);
    assert_eq!(
        dispatch(&mut state, Event::TrayIcon(left_up()), true),
        vec![Action::FocusWindow]
    );
}

#[test]
fn other_tray_input_does_nothing() {
    let mut state = WindowState::new();
    state.on_close_requested();
    let right = TrayIconEvent::Click {
        button: MouseButton::Right,
        button_state: MouseButtonState::Up,
    };
    let down = TrayIconEvent::Click {
        button: MouseButton::Left,
        button_state: MouseButtonState::Down,
    };
    for tray in [right, down, TrayIconEvent::Other] {
        assert_eq!(dispatch(&mut state, Event::TrayIcon(tray), true), Vec::<Action>::new());
        assert_eq!(state.visibility(), WindowVisibility::Hidden);
    }
    assert_eq!(dispatch(&mut state, Event::TrayIcon(left_up()), false), Vec::<Action>::new());
    assert_eq!(state.visibility(), WindowVisibility::Hidden);
}

#[test]
fn second_instance_brings_window_to_front() {
    let mut state = WindowState::new();
    state.on_close_requested();
    assert_eq!(dispatch(&mut state, Event::SecondInstance, true), bring_back());
    assert_eq!(state.visibility(), WindowVisibility::Visible);
    assert_eq!(dispatch(&mut state, Event::SecondInstance, true), vec![Action::FocusWindow]);
}

#[test]
fn close_event_reduces_to_tray() {
    let mut state = WindowState::new();
    assert_eq!(
        dispatch(&mut state, Event::CloseRequested, true),
        vec![
            Action::PreventClose,
            Action::HideWindow,
            Action::SetToggleText(TrayLabel::ShowWindow),
        ]
    );
    assert_eq!(state.visibility(), WindowVisibility::Hidden);
}

#[test]
fn focus_event_rewrites_label_only_while_visible() {
    let mut state = WindowState::new();
    assert_eq!(
        dispatch(&mut state, Event::Focused(true), true),
        vec![Action::SetToggleText(TrayLabel::ReduceToTray)]
    );
    assert_eq!(dispatch(&mut state, Event::Focused(false), true), Vec::<Action>::new());
    state.toggle();
    assert_eq!(dispatch(&mut state, Event::Focused(true), true), Vec::<Action>::new());
    assert_eq!(state.visibility(), WindowVisibility::Hidden);
}

#[test]
fn title_carries_the_version() {
    assert_eq!(window_title("Soundboard", "1.4.2"), "Soundboard (v1.4.2)");
    assert_eq!(window_title("", ""), " (v)");
}
