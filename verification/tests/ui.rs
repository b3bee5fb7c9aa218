use rboard::tray::TrayMessage;
use rboard::ui::{MyApp, WindowCommand};
use std::sync::mpsc::channel;

#[test]
fn a_new_window_is_shown_and_empty() {
    let (_tx, rx) = channel();
    let app = MyApp::new(rx);
    assert!(app.is_visible());
    assert!(app.items().is_empty());
}

#[test]
fn close_hides_and_show_from_tray_shows() {
    let (_tx, rx) = channel();
    let mut app = MyApp::new(rx);
    assert_eq!(app.close_clicked(), WindowCommand::SetVisible(false));
    assert!(!app.is_visible());
    assert_eq!(app.handle_tray_message(TrayMessage::ShowWindow), WindowCommand::SetVisible(true));
    assert!(app.is_visible());
}

#[test]
fn quit_asks_to_quit_and_keeps_the_state() {
    let (_tx, rx) = channel();
    let mut app = MyApp::new(rx);
    app.close_clicked();
    assert_eq!(app.handle_tray_message(TrayMessage::Quit), WindowCommand::Quit);
    assert!(!app.is_visible());
}

#[test]
fn messages_sent_by_the_tray_are_answered() {
    let (tx, rx) = channel();
    let mut app = MyApp::new(rx);
    app.close_clicked();
    assert_eq!(app.poll_tray(), None);
    tx.send(TrayMessage::ShowWindow).unwrap();
    tx.send(TrayMessage::Quit).unwrap();
    assert_eq!(app.poll_tray(), Some(WindowCommand::SetVisible(true)));
    assert!(app.is_visible());
    assert_eq!(app.poll_tray(), Some(WindowCommand::Quit));
    assert_eq!(app.poll_tray(), None);
}

#[test]
fn listed_items_are_replaced_on_reload() {
    let (_tx, rx) = channel();
    let mut app = MyApp::new(rx);
    app.set_items(vec!["b".to_string(), "a".to_string()]);
    assert_eq!(app.items(), &vec!["b".to_string(), "a".to_string()]);
    app.restart_refresh_clock(std::time::Instant::now());
    assert!(!app.needs_refresh());
    assert_eq!(app.items().len(), 2);
}

#[test]
fn title_bar_buttons() {
    assert_eq!(MyApp::maximize_clicked(false), WindowCommand::SetMaximized(true));
    assert_eq!(MyApp::maximize_clicked(true), WindowCommand::SetMaximized(false));
    assert_eq!(MyApp::minimize_clicked(), WindowCommand::SetMinimized(true));
    assert_eq!(MyApp::title_bar_pressed(true), Some(WindowCommand::StartDrag));
    assert_eq!(MyApp::title_bar_pressed(false), None);
}

#[test]
fn refresh_is_due_after_a_whole_second() {
    assert!(!MyApp::refresh_due(0));
    assert!(MyApp::refresh_due(1));
    assert!(MyApp::refresh_due(30));
}
