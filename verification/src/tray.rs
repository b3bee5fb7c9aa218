//! The tray icon's menu and how its events become messages to the window.
use crate::text::same_text;
use vstd::prelude::*;

verus! {

/// Menu id of the item that opens the window.
pub const MENU_ID_SHOW: &'static str = "show_app";

/// Menu id of the item that quits.
pub const MENU_ID_QUIT: &'static str = "quit_app";

/// Label of the item that opens the window.
pub const MENU_LABEL_SHOW: &'static str = "Open clipboard";

/// Label of the item that quits.
pub const MENU_LABEL_QUIT: &'static str = "Quit";

/// Tooltip of the tray icon.
pub const TRAY_TOOLTIP: &'static str = "Clipboard Manager";

/// What the tray asks of the window.
#[derive(Clone, Copy, Debug, PartialEq, Eq, Structural)]
pub enum TrayMessage {
    ShowWindow,
    Quit,
}

/// A mouse button on the tray icon.
#[derive(Clone, Copy, Debug, PartialEq, Eq, Structural)]
pub enum MouseButton {
    Left,
    Right,
    Middle,
}

/// Whether a button went down or up.
#[derive(Clone, Copy, Debug, PartialEq, Eq, Structural)]
pub enum MouseButtonState {
    Up,
    Down,
}

/// An event of the tray icon, without its position and area.
#[derive(Clone, Copy, Debug, PartialEq, Eq, Structural)]
pub enum TrayIconEventKind {
    Click { button: MouseButton, button_state: MouseButtonState },
    DoubleClick { button: MouseButton },
    Enter,
    Move,
    Leave,
}

/// One item of the tray menu.
pub struct TrayMenuEntry {
    pub id: &'static str,
    pub label: &'static str,
    pub enabled: bool,
}

/// The message for a chosen menu item: the quit item quits, every other
/// item opens the window.
pub open spec fn menu_message(id: Seq<char>) -> TrayMessage {
    if id == MENU_ID_QUIT@ {
        TrayMessage::Quit
    } else {
        TrayMessage::ShowWindow
    }
}

/// The message for an event of the tray icon: every event opens the window.
pub open spec fn icon_message(event: TrayIconEventKind) -> TrayMessage {
    TrayMessage::ShowWindow
}

/// The messages of one pass of the tray loop: the menu's first, then the
/// icon's.
pub open spec fn poll_messages(
    menu_id: Option<Seq<char>>,
    icon_event: Option<TrayIconEventKind>,
) -> Seq<TrayMessage> {
    let from_menu = match menu_id {
        Some(id) => seq![menu_message(id)],
        None => Seq::<TrayMessage>::empty(),
    };
    let from_icon = match icon_event {
        Some(event) => seq![icon_message(event)],
        None => Seq::<TrayMessage>::empty(),
    };
    from_menu + from_icon
}

/// The message for the menu item with id `id`.
pub fn message_for_menu_id(id: &str) -> (message: TrayMessage)
    ensures
        message == menu_message(id@),
{
    proof {
        reveal_strlit("show_app");
        reveal_strlit("quit_app");
    }
    if same_text(id, MENU_ID_SHOW) {
        assert(id@[0] == 's');
        TrayMessage::ShowWindow
    } else if same_text(id, MENU_ID_QUIT) {
        TrayMessage::Quit
    } else {
        TrayMessage::ShowWindow
    }
}

/// The message for an event of the tray icon.
pub fn message_for_icon_event(event: TrayIconEventKind) -> (message: TrayMessage)
    ensures
        message == icon_message(event),
{
    match event {
        TrayIconEventKind::Click { button: MouseButton::Left, .. } => TrayMessage::ShowWindow,
        TrayIconEventKind::Click { button: MouseButton::Right, .. } => TrayMessage::ShowWindow,
        _ => TrayMessage::ShowWindow,
    }
}

/// The messages to send after one pass of the tray loop, which found
/// `menu_id` on the menu channel and `icon_event` on the icon channel.
pub fn tray_poll_messages(menu_id: Option<&str>, icon_event: Option<TrayIconEventKind>) -> (messages:
    Vec<TrayMessage>)
    ensures
        messages@ == poll_messages(
            match menu_id {
                Some(id) => Some(id@),
                None => None,
            },
            icon_event,
        ),
{
    let mut messages: Vec<TrayMessage> = Vec::new();
    if let Some(id) = menu_id {
        messages.push(message_for_menu_id(id));
    }
    if let Some(event) = icon_event {
        messages.push(message_for_icon_event(event));
    }
    assert(messages@ =~= poll_messages(
        match menu_id {
            Some(id) => Some(id@),
            None => None,
        },
        icon_event,
    ));
    messages
}

/// The tray menu, top to bottom: open the window, then quit.
pub fn tray_menu() -> (entries: Vec<TrayMenuEntry>)
    ensures
        entries@.len() == 2,
        entries@[0].id@ == MENU_ID_SHOW@,
        entries@[0].label@ == MENU_LABEL_SHOW@,
        entries@[0].enabled,
        entries@[1].id@ == MENU_ID_QUIT@,
        entries@[1].label@ == MENU_LABEL_QUIT@,
        entries@[1].enabled,
{
    let mut entries: Vec<TrayMenuEntry> = Vec::new();
    entries.push(TrayMenuEntry { id: MENU_ID_SHOW, label: MENU_LABEL_SHOW, enabled: true });
    entries.push(TrayMenuEntry { id: MENU_ID_QUIT, label: MENU_LABEL_QUIT, enabled: true });
    entries
}

/// Law: only the quit item quits; every other menu item and every icon
/// event opens the window.
pub proof fn law_only_quit_item_quits(id: Seq<char>, event: TrayIconEventKind)
    ensures
        menu_message(id) == TrayMessage::Quit <==> id == MENU_ID_QUIT@,
        icon_message(event) == TrayMessage::ShowWindow,
{
}

/// Law: one pass of the tray loop sends one message per thing it read: the
/// menu choice's message first, then the icon event's, which shows the
/// window; the "Open clipboard" item shows the window.
pub proof fn law_each_read_sends_its_message(id: Seq<char>, event: TrayIconEventKind)
    ensures
        poll_messages(Some(id), None) == seq![menu_message(id)],
        poll_messages(Some(id), Some(event)) == seq![menu_message(id), TrayMessage::ShowWindow],
        poll_messages(None, Some(event)) == seq![TrayMessage::ShowWindow],
        poll_messages(None, None) == Seq::<TrayMessage>::empty(),
        menu_message(MENU_ID_SHOW@) == TrayMessage::ShowWindow,
        menu_message(MENU_ID_QUIT@) == TrayMessage::Quit,
{
    reveal_strlit("show_app");
    reveal_strlit("quit_app");
    assert(MENU_ID_SHOW@[0] != MENU_ID_QUIT@[0]);
    assert(poll_messages(Some(id), None) =~= seq![menu_message(id)]);
    assert(poll_messages(Some(id), Some(event)) =~= seq![menu_message(id), TrayMessage::ShowWindow]);
    assert(poll_messages(None, Some(event)) =~= seq![TrayMessage::ShowWindow]);
    assert(poll_messages(None, None) =~= Seq::<TrayMessage>::empty());
}

} // verus!
