//! Start-up and shutdown decisions of the application.
use vstd::prelude::*;

verus! {

/// Whether the process has been granted the accessibility permissions it
/// needs to read global shortcuts. Only macOS asks; elsewhere the answer is yes.
pub fn query_accessibility_permissions() -> (trusted: bool)
    ensures
        trusted,
{
    true
}

/// The line logged after the accessibility permissions were queried.
pub fn accessibility_status(trusted: bool) -> (r: &'static str)
    ensures
        trusted ==> r@ == "Application is totally trusted!"@,
        !trusted ==> r@ == "Application isn't trusted :("@,
{
    if trusted {
        "Application is totally trusted!"
    } else {
        "Application isn't trusted :("
    }
}

/// A desktop notification.
#[derive(Debug, PartialEq, Eq)]
pub struct Notice {
    pub title: String,
    pub body: String,
    pub icon: Option<String>,
}

/// The notification shown at start-up, if any: one that asks for the
/// accessibility permissions when they are missing.
pub fn accessibility_notice(trusted: bool) -> (r: Option<Notice>)
    ensures
        trusted ==> r is None,
        !trusted ==> (r matches Some(n) && n.title@ == "Accessibility permissions"@ && n.body@
            == "Please grant accessibility permissions to the app"@ && n.icon is Some
            && n.icon->0@ == "icon.png"@),
{
    if trusted {
        None
    } else {
        Some(
            Notice {
                title: "Accessibility permissions".to_owned(),
                body: "Please grant accessibility permissions to the app".to_owned(),
                icon: Some("icon.png".to_owned()),
            },
        )
    }
}

/// The notification shown when a second instance of the application is started.
pub fn already_running_notice() -> (r: Notice)
    ensures
        r.title@ == "This app is already running!"@,
        r.body@ == "You can find it in the tray menu."@,
        r.icon is None,
{
    Notice {
        title: "This app is already running!".to_owned(),
        body: "You can find it in the tray menu.".to_owned(),
        icon: None,
    }
}

/// An event of the application's run loop.
#[derive(Debug, Clone, Copy, PartialEq, Eq)]
pub enum RunEvent {
    /// The application is ending.
    Exit,
    /// The application has started.
    Ready,
    /// A window asks to be closed.
    WindowCloseRequested,
    /// The last window closed and the application would end.
    ExitRequested,
    /// Any other event.
    Other,
}

/// What the run loop does for an event.
#[derive(Debug, Clone, Copy, PartialEq, Eq)]
pub enum RunAction {
    Nothing,
    /// Close the main window, which starts hidden behind the tray.
    CloseMainWindow,
    /// Keep running with no window, so that the tray still answers.
    PreventExit,
}

/// The action for a run-loop event: once ready the main window is closed, and
/// the application never ends because its last window closed.
pub fn on_run_event(event: RunEvent) -> (r: RunAction)
    ensures
        r == match event {
            RunEvent::Ready => RunAction::CloseMainWindow,
            RunEvent::ExitRequested => RunAction::PreventExit,
            _ => RunAction::Nothing,
        },
{
    match event {
        RunEvent::Ready => RunAction::CloseMainWindow,
        RunEvent::ExitRequested => RunAction::PreventExit,
        _ => RunAction::Nothing,
    }
}

} // verus!
