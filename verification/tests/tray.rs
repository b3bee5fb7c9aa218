use rboard::tray::{
    message_for_icon_event, message_for_menu_id, tray_menu, tray_poll_messages, MouseButton,
    MouseButtonState, TrayIconEventKind, TrayMessage, MENU_ID_QUIT, MENU_ID_SHOW, TRAY_TOOLTIP,
};

#[test]
fn menu_ids_map_to_messages() {
    assert_eq!(message_for_menu_id("show_app"), TrayMessage::ShowWindow);
    assert_eq!(message_for_menu_id("quit_app"), TrayMessage::Quit);
    assert_eq!(message_for_menu_id("something_else"), TrayMessage::ShowWindow);
    assert_eq!(message_for_menu_id(""), TrayMessage::ShowWindow);
    assert_eq!(message_for_menu_id("quit_ap"), TrayMessage::ShowWindow);
}

#[test]
fn every_icon_event_shows_the_window() {
    let events = [
        TrayIconEventKind::Click { button: MouseButton::Left, button_state: MouseButtonState::Up },
        TrayIconEventKind::Click { button: MouseButton::Right, button_state: MouseButtonState::Down },
        TrayIconEventKind::Click { button: MouseButton::Middle, button_state: MouseButtonState::Up },
        TrayIconEventKind::DoubleClick { button: MouseButton::Left },
        TrayIconEventKind::Enter,
        TrayIconEventKind::Move,
        TrayIconEventKind::Leave,
    ];
    for event in events {
        assert_eq!(message_for_icon_event(event), TrayMessage::ShowWindow);
    }
}

#[test]
fn one_tray_pass_sends_menu_then_icon_messages() {
    assert!(tray_poll_messages(None, None).is_empty());
    assert_eq!(tray_poll_messages(Some("quit_app"), None), vec![TrayMessage::Quit]);
    assert_eq!(
        tray_poll_messages(Some("quit_app"), Some(TrayIconEventKind::Enter)),
        vec![TrayMessage::Quit, TrayMessage::ShowWindow]
    );
    assert_eq!(
        tray_poll_messages(None, Some(TrayIconEventKind::Leave)),
        vec![TrayMessage::ShowWindow]
    );
}

#[test]
fn the_menu_opens_then_quits() {
    let menu = tray_menu();
    assert_eq!(menu.len(), 2);
    assert_eq!(menu[0].id, MENU_ID_SHOW);
    assert_eq!(menu[0].label, "Open clipboard");
    assert!(menu[0].enabled);
    assert_eq!(menu[1].id, MENU_ID_QUIT);
    assert_eq!(menu[1].label, "Quit");
    assert!(menu[1].enabled);
    assert_eq!(TRAY_TOOLTIP, "Clipboard Manager");
}
