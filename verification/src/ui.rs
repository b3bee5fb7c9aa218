//! The window's state and how it answers tray messages and title-bar clicks.
use crate::tray::TrayMessage;
use std::sync::mpsc::Receiver;
use std::time::{Duration, Instant};
use vstd::prelude::*;

verus! {

#[verifier::external_type_specification]
#[verifier::external_body]
#[verifier::reject_recursive_types(T)]
pub struct ExReceiver<T>(Receiver<T>);

#[verifier::external_type_specification]
#[verifier::external_body]
pub struct ExInstant(Instant);

/// Calls `Receiver::try_recv`, keeping the message and dropping the error
/// (an empty or disconnected channel). Nothing is stated of the result: it
/// depends on what another thread sent.
#[verifier::external_body]
fn try_receive(rx: &Receiver<TrayMessage>) -> Option<TrayMessage> {
    rx.try_recv().ok()
}

/// Calls `Instant::now`. Nothing is stated of the result: it is the clock's.
#[verifier::external_body]
fn instant_now() -> Instant {
    Instant::now()
}

/// Calls `Instant::elapsed`. Nothing is stated of the result: it is the
/// clock's.
#[verifier::external_body]
fn elapsed_since(start: &Instant) -> Duration {
    start.elapsed()
}

/// Calls `Duration::as_secs`. Nothing is stated of the result: `Duration`
/// is opaque here.
#[verifier::external_body]
fn whole_seconds(duration: &Duration) -> u64 {
    duration.as_secs()
}

/// What the window asks of its viewport.
#[derive(Clone, Copy, Debug, PartialEq, Eq, Structural)]
pub enum WindowCommand {
    SetVisible(bool),
    SetMaximized(bool),
    SetMinimized(bool),
    StartDrag,
    Quit,
}

/// Visibility and command after a tray message, given the visibility before.
pub open spec fn after_tray_message(visible: bool, message: TrayMessage) -> (bool, WindowCommand) {
    match message {
        TrayMessage::ShowWindow => (true, WindowCommand::SetVisible(true)),
        TrayMessage::Quit => (visible, WindowCommand::Quit),
    }
}

/// Visibility and command after the close button, given the visibility
/// before.
pub open spec fn after_close(visible: bool) -> (bool, WindowCommand) {
    (false, WindowCommand::SetVisible(false))
}

/// How many whole seconds between two refreshes of the clip list.
pub const REFRESH_SECONDS: u64 = 1;

/// Whether the clip list is reloaded after `elapsed` whole seconds.
pub open spec fn refresh_is_due(elapsed: u64) -> bool {
    elapsed >= REFRESH_SECONDS
}

/// The clipboard window: the clips it lists, whether it is shown, when the
/// list was last reloaded, and the channel the tray sends on.
pub struct MyApp {
    items: Vec<String>,
    last_update: Instant,
    rx: Receiver<TrayMessage>,
    visible: bool,
}

impl MyApp {
    /// The listed clips.
    pub closed spec fn items_view(&self) -> Seq<String> {
        self.items@
    }

    /// Whether the window is shown.
    pub closed spec fn is_visible_spec(&self) -> bool {
        self.visible
    }

    /// When the clip list was last reloaded.
    pub closed spec fn refresh_clock(&self) -> Instant {
        self.last_update
    }

    /// The channel the tray sends on.
    pub closed spec fn receiver(&self) -> Receiver<TrayMessage> {
        self.rx
    }

    /// A shown window listing nothing yet, whose refresh clock starts now.
    pub fn new(rx: Receiver<TrayMessage>) -> (app: MyApp)
        ensures
            app.is_visible_spec(),
            app.items_view().len() == 0,
            app.receiver() == rx,
    {
        MyApp { rx, visible: true, items: Vec::new(), last_update: instant_now() }
    }

    /// The listed clips, newest first.
    pub fn items(&self) -> (items: &Vec<String>)
        ensures
            items@ == self.items_view(),
    {
        &self.items
    }

    /// Whether the window is shown.
    pub fn is_visible(&self) -> (visible: bool)
        ensures
            visible == self.is_visible_spec(),
    {
        self.visible
    }

    /// Lists `items`, as reloaded from the store.
    pub fn set_items(&mut self, items: Vec<String>)
        ensures
            final(self).items_view() == items@,
            final(self).receiver() == old(self).receiver(),
            final(self).is_visible_spec() == old(self).is_visible_spec(),
            final(self).refresh_clock() == old(self).refresh_clock(),
    {
        self.items = items;
    }

    /// Starts the refresh clock again at `now`, the clock's current reading.
    pub fn restart_refresh_clock(&mut self, now: Instant)
        ensures
            final(self).refresh_clock() == now,
            final(self).items_view() == old(self).items_view(),
            final(self).receiver() == old(self).receiver(),
            final(self).is_visible_spec() == old(self).is_visible_spec(),
    {
        self.last_update = now;
    }

    /// Whether the list is reloaded after `elapsed` whole seconds.
    pub fn refresh_due(elapsed: u64) -> (due: bool)
        ensures
            due == refresh_is_due(elapsed),
    {
        elapsed >= REFRESH_SECONDS
    }

    /// Whether a whole second has passed since the refresh clock started.
    /// What this returns rests on the clock.
    pub fn needs_refresh(&self) -> bool {
        let elapsed = elapsed_since(&self.last_update);
        let secs: u64 = whole_seconds(&elapsed);
        MyApp::refresh_due(secs)
    }

    /// Answers a tray message: showing the window marks it visible; quitting
    /// leaves the state alone and asks to quit.
    pub fn handle_tray_message(&mut self, message: TrayMessage) -> (command: WindowCommand)
        ensures
            (final(self).is_visible_spec(), command) == after_tray_message(
                old(self).is_visible_spec(),
                message,
            ),
            final(self).items_view() == old(self).items_view(),
            final(self).receiver() == old(self).receiver(),
            final(self).refresh_clock() == old(self).refresh_clock(),
    {
        match message {
            TrayMessage::ShowWindow => {
                self.visible = true;
                WindowCommand::SetVisible(true)
            },
            TrayMessage::Quit => WindowCommand::Quit,
        }
    }

    /// Takes at most one message the tray sent and answers it. Which message
    /// arrives rests on the tray thread; the answer is `handle_tray_message`'s.
    pub fn poll_tray(&mut self) -> (command: Option<WindowCommand>)
        ensures
            final(self).items_view() == old(self).items_view(),
            final(self).receiver() == old(self).receiver(),
            final(self).refresh_clock() == old(self).refresh_clock(),
            command is None ==> final(self).is_visible_spec() == old(self).is_visible_spec(),
            command matches Some(c) ==> (exists|m: TrayMessage|
                (final(self).is_visible_spec(), c) == after_tray_message(
                    old(self).is_visible_spec(),
                    m,
                )),
    {
        match try_receive(&self.rx) {
            Some(message) => Some(self.handle_tray_message(message)),
            None => None,
        }
    }

    /// The close button hides the window.
    pub fn close_clicked(&mut self) -> (command: WindowCommand)
        ensures
            (final(self).is_visible_spec(), command) == after_close(old(self).is_visible_spec()),
            final(self).items_view() == old(self).items_view(),
            final(self).receiver() == old(self).receiver(),
            final(self).refresh_clock() == old(self).refresh_clock(),
    {
        self.visible = false;
        WindowCommand::SetVisible(false)
    }

    /// The maximize button toggles maximization.
    pub fn maximize_clicked(is_maximized: bool) -> (command: WindowCommand)
        ensures
            command == WindowCommand::SetMaximized(!is_maximized),
    {
        WindowCommand::SetMaximized(!is_maximized)
    }

    /// The minimize button minimizes.
    pub fn minimize_clicked() -> (command: WindowCommand)
        ensures
            command == WindowCommand::SetMinimized(true),
    {
        WindowCommand::SetMinimized(true)
    }

    /// Pressing the title bar starts dragging the window.
    pub fn title_bar_pressed(pointer_down: bool) -> (command: Option<WindowCommand>)
        ensures
            command == (if pointer_down {
                Some(WindowCommand::StartDrag)
            } else {
                None
            }),
    {
        if pointer_down {
            Some(WindowCommand::StartDrag)
        } else {
            None
        }
    }
}

/// Law: showing the window from the tray undoes closing it, and closing
/// hides it whatever it was.
pub proof fn law_show_undoes_close(visible: bool)
    ensures
        after_close(visible).0 == false,
        after_tray_message(after_close(visible).0, TrayMessage::ShowWindow).0 == true,
        after_tray_message(visible, TrayMessage::Quit).0 == visible,
{
}

/// Law: showing from the tray always leaves the window visible and asks to
/// show it, whatever it was before.
pub proof fn law_show_always_shows(visible: bool)
    ensures
        after_tray_message(visible, TrayMessage::ShowWindow) == (
            true,
            WindowCommand::SetVisible(true),
        ),
{
}

} // verus!
