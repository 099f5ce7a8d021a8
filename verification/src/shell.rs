//! What the desktop shell does on tray, menu and window events.

use vstd::prelude::*;

verus! {

/// The identifier of the tray menu's entry that brings the window back.
pub open spec fn show_id() -> Seq<char> {
    "show"@
}

/// The identifier of the tray menu's entry that ends the application.
pub open spec fn quit_id() -> Seq<char> {
    "quit"@
}

/// One entry of the tray menu, as mathematical values.
pub struct MenuEntryView {
    pub id: Seq<char>,
    pub label: Seq<char>,
}

/// One entry of the tray menu.
#[derive(Clone, Debug, PartialEq, Eq)]
pub struct MenuEntry {
    pub id: String,
    pub label: String,
}

impl DeepView for MenuEntry {
    type V = MenuEntryView;

    open spec fn deep_view(&self) -> MenuEntryView {
        MenuEntryView { id: self.id@, label: self.label@ }
    }
}

/// The entries of the tray menu, from the top.
pub open spec fn tray_menu_spec() -> Seq<MenuEntryView> {
    seq![
        MenuEntryView { id: show_id(), label: "Show God Mode Panel"@ },
        MenuEntryView { id: quit_id(), label: "Quit Promethean Light"@ },
    ]
}

/// A button of the pointer.
#[derive(Clone, Copy, Debug, PartialEq, Eq, Structural)]
pub enum MouseButton {
    Left,
    Right,
    Middle,
}

/// Whether a button went down or came up.
#[derive(Clone, Copy, Debug, PartialEq, Eq, Structural)]
pub enum ButtonState {
    Up,
    Down,
}

/// What happened to the tray icon.
#[derive(Clone, Copy, Debug, PartialEq, Eq, Structural)]
pub enum TrayEvent {
    Click { button: MouseButton, state: ButtonState },
    Other,
}

/// What happened to the window.
#[derive(Clone, Copy, Debug, PartialEq, Eq, Structural)]
pub enum WindowEvent {
    CloseRequested,
    Other,
}

/// What the shell does in answer to an event.
#[derive(Clone, Copy, Debug, PartialEq, Eq, Structural)]
pub enum ShellAction {
    /// Show the main window, and give it the focus if asked.
    ShowWindow { focus: bool },
    /// Hide the main window and keep it from closing.
    HideWindow,
    /// End the application with this exit code.
    Exit { code: i32 },
    /// Do nothing.
    Ignore,
}

/// The answer to a choice in the tray menu.
pub open spec fn menu_action_spec(id: Seq<char>) -> ShellAction {
    if id == quit_id() {
        ShellAction::Exit { code: 0 }
    } else if id == show_id() {
        ShellAction::ShowWindow { focus: true }
    } else {
        ShellAction::Ignore
    }
}

/// The answer to an event of the tray icon: releasing the left button over
/// it brings the window back.
pub open spec fn tray_action_spec(event: TrayEvent) -> ShellAction {
    if event == (TrayEvent::Click { button: MouseButton::Left, state: ButtonState::Up }) {
        ShellAction::ShowWindow { focus: true }
    } else {
        ShellAction::Ignore
    }
}

/// The answer to an event of the window: a request to close it hides it.
pub open spec fn window_action_spec(event: WindowEvent) -> ShellAction {
    match event {
        WindowEvent::CloseRequested => ShellAction::HideWindow,
        WindowEvent::Other => ShellAction::Ignore,
    }
}

/// The entries of the tray menu, from the top.
pub fn tray_menu() -> (entries: Vec<MenuEntry>)
    ensures
        entries.deep_view() == tray_menu_spec(),
{
    let mut entries: Vec<MenuEntry> = Vec::new();
    entries.push(
        MenuEntry {
            id: String::from_str("show"),
            label: String::from_str("Show God Mode Panel"),
        },
    );
    entries.push(
        MenuEntry {
            id: String::from_str("quit"),
            label: String::from_str("Quit Promethean Light"),
        },
    );
    assert(entries.deep_view() =~= tray_menu_spec());
    entries
}

/// What the shell does when the application has started: it shows the main
/// window.
pub fn startup_action() -> (action: ShellAction)
    ensures
        action == (ShellAction::ShowWindow { focus: false }),
{
    ShellAction::ShowWindow { focus: false }
}

/// What the shell does when the entry with this identifier is chosen in the
/// tray menu.
pub fn menu_action(id: &str) -> (action: ShellAction)
    ensures
        action == menu_action_spec(id@),
{
    let chosen = String::from_str(id);
    if chosen == String::from_str("quit") {
        ShellAction::Exit { code: 0 }
    } else if chosen == String::from_str("show") {
        ShellAction::ShowWindow { focus: true }
    } else {
        ShellAction::Ignore
    }
}

/// What the shell does on an event of the tray icon.
pub fn tray_action(event: TrayEvent) -> (action: ShellAction)
    ensures
        action == tray_action_spec(event),
{
    match event {
        TrayEvent::Click { button: MouseButton::Left, state: ButtonState::Up } => {
            ShellAction::ShowWindow { focus: true }
        },
        _ => ShellAction::Ignore,
    }
}

/// What the shell does on an event of the window.
pub fn window_action(event: WindowEvent) -> (action: ShellAction)
    ensures
        action == window_action_spec(event),
{
    match event {
        WindowEvent::CloseRequested => ShellAction::HideWindow,
        WindowEvent::Other => ShellAction::Ignore,
    }
}

/// Closing the window never ends the application, and only the menu's quit
/// entry does.
pub proof fn law_only_quit_exits(id: Seq<char>, tray: TrayEvent, window: WindowEvent)
    ensures
        !(window_action_spec(window) is Exit),
        !(tray_action_spec(tray) is Exit),
        menu_action_spec(id) is Exit <==> id == quit_id(),
        menu_action_spec(show_id()) == (ShellAction::ShowWindow { focus: true }),
{
    reveal_strlit("show");
    reveal_strlit("quit");
    assert(show_id()[0] != quit_id()[0]);
}

} // verus!
