//! The tray icon: its menu, what each menu entry does, and the pin events that
//! the tray and the main window send each other.
use vstd::prelude::*;
use crate::config::{Config, copy_opt_string};
use crate::text::str_eq;
use crate::windows::{PinState, set_window_always_on_top, toggled};

verus! {

/// Sent by the tray when its pin entry flips the main window's pin.
#[derive(Debug, Clone, Copy, PartialEq, Eq)]
pub struct PinnedFromTrayEvent {
    pinned: bool,
}

impl PinnedFromTrayEvent {
    /// The pin that the event announces.
    pub closed spec fn announces(&self) -> bool {
        self.pinned
    }

    /// The event that announces the pin `pinned`.
    pub fn new(pinned: bool) -> (r: PinnedFromTrayEvent)
        ensures
            r.announces() == pinned,
    {
        PinnedFromTrayEvent { pinned }
    }

    /// The pin that the event announces.
    pub fn is_pinned(&self) -> (r: bool)
        ensures
            r == self.announces(),
    {
        self.pinned
    }
}

/// Sent by the main window when the user pins or unpins it there.
#[derive(Debug, Clone, Copy, PartialEq, Eq)]
pub struct PinnedFromWindowEvent {
    pinned: bool,
}

impl PinnedFromWindowEvent {
    /// The pin that the event announces.
    pub closed spec fn announces(&self) -> bool {
        self.pinned
    }

    /// The event that announces the pin `pinned`.
    pub fn new(pinned: bool) -> (r: PinnedFromWindowEvent)
        ensures
            r.announces() == pinned,
    {
        PinnedFromWindowEvent { pinned }
    }

    /// The pin that the event announces.
    pub fn pinned(&self) -> (r: &bool)
        ensures
            *r == self.announces(),
    {
        &self.pinned
    }
}

/// Takes over the pin that the main window announced.
pub fn on_pinned_from_window(state: &mut PinState, event: &PinnedFromWindowEvent)
    ensures
        final(state).pinned() == event.announces(),
{
    state.set_pinned(*event.pinned());
}

/// Flips the main window's pin from the tray and returns the event that
/// announces the outcome: the value that [`set_window_always_on_top`] returns.
pub fn pin_from_tray(state: &mut PinState, has_main_window: bool) -> (r: PinnedFromTrayEvent)
    ensures
        (final(state).pinned(), r.announces()) == toggled(old(state).pinned(), has_main_window),
        has_main_window ==> final(state).pinned() == !old(state).pinned() && r.announces()
            == final(state).pinned(),
        !has_main_window ==> final(state).pinned() == old(state).pinned() && !r.announces(),
{
    let pinned = set_window_always_on_top(state, has_main_window);
    PinnedFromTrayEvent::new(pinned)
}

/// An entry of the tray menu.
#[derive(Debug, PartialEq, Eq)]
pub enum MenuEntry {
    /// An entry of the application's own, answered by its `id`.
    Item { id: String, text: String, enabled: bool, accelerator: Option<String> },
    /// The system's entry that hides the application.
    Hide { text: String },
    /// The system's entry that quits the application.
    Quit { text: String },
}

/// A menu entry by its characters.
pub enum MenuEntryView {
    Item { id: Seq<char>, text: Seq<char>, enabled: bool, accelerator: Option<Seq<char>> },
    Hide { text: Seq<char> },
    Quit { text: Seq<char> },
}

/// An optional string by its characters.
pub open spec fn opt_view(s: Option<String>) -> Option<Seq<char>> {
    match s {
        Some(v) => Some(v@),
        None => None,
    }
}

impl View for MenuEntry {
    type V = MenuEntryView;

    open spec fn view(&self) -> MenuEntryView {
        match self {
            MenuEntry::Item { id, text, enabled, accelerator } => MenuEntryView::Item {
                id: id@,
                text: text@,
                enabled: *enabled,
                accelerator: opt_view(*accelerator),
            },
            MenuEntry::Hide { text } => MenuEntryView::Hide { text: text@ },
            MenuEntry::Quit { text } => MenuEntryView::Quit { text: text@ },
        }
    }
}

/// The label of the pin entry: "Unpin" while the window is pinned, else "Pin".
pub open spec fn pin_label(always_on_top: bool) -> Seq<char> {
    if always_on_top {
        "Unpin"@
    } else {
        "Pin"@
    }
}

/// The tray menu, top to bottom: Settings (with its shortcut), Show (with the
/// shortcut that the settings give for showing the window, if any), Hide, the
/// pin entry, and Quit.
pub open spec fn tray_menu_spec(display_window_hotkey: Option<Seq<char>>, always_on_top: bool) -> Seq<
    MenuEntryView,
> {
    seq![
        MenuEntryView::Item {
            id: "settings"@,
            text: "Settings"@,
            enabled: true,
            accelerator: Some("CmdOrCtrl+,"@),
        },
        MenuEntryView::Item {
            id: "show"@,
            text: "Show"@,
            enabled: true,
            accelerator: display_window_hotkey,
        },
        MenuEntryView::Hide { text: "Hide"@ },
        MenuEntryView::Item {
            id: "pin"@,
            text: pin_label(always_on_top),
            enabled: true,
            accelerator: None,
        },
        MenuEntryView::Quit { text: "Quit"@ },
    ]
}

/// The tray menu for the settings `config` and the pin `always_on_top`.
pub fn tray_menu(config: &Config, always_on_top: bool) -> (r: Vec<MenuEntry>)
    ensures
        r@.map_values(|e: MenuEntry| e@) == tray_menu_spec(
            opt_view(config.display_window_hotkey),
            always_on_top,
        ),
        r@.len() == 5,
        r@[0]@ == (MenuEntryView::Item {
            id: "settings"@,
            text: "Settings"@,
            enabled: true,
            accelerator: Some("CmdOrCtrl+,"@),
        }),
        r@[1]@ == (MenuEntryView::Item {
            id: "show"@,
            text: "Show"@,
            enabled: true,
            accelerator: opt_view(config.display_window_hotkey),
        }),
        r@[2]@ == (MenuEntryView::Hide { text: "Hide"@ }),
        r@[3]@ == (MenuEntryView::Item {
            id: "pin"@,
            text: if always_on_top {
                "Unpin"@
            } else {
                "Pin"@
            },
            enabled: true,
            accelerator: None,
        }),
        r@[4]@ == (MenuEntryView::Quit { text: "Quit"@ }),
{
    let settings = MenuEntry::Item {
        id: "settings".to_owned(),
        text: "Settings".to_owned(),
        enabled: true,
        accelerator: Some("CmdOrCtrl+,".to_owned()),
    };
    let show = MenuEntry::Item {
        id: "show".to_owned(),
        text: "Show".to_owned(),
        enabled: true,
        accelerator: copy_opt_string(&config.display_window_hotkey),
    };
    let hide = MenuEntry::Hide { text: "Hide".to_owned() };
    let pin_text = if always_on_top {
        "Unpin".to_owned()
    } else {
        "Pin".to_owned()
    };
    let pin = MenuEntry::Item { id: "pin".to_owned(), text: pin_text, enabled: true, accelerator: None };
    let quit = MenuEntry::Quit { text: "Quit".to_owned() };
    let mut menu: Vec<MenuEntry> = Vec::new();
    menu.push(settings);
    menu.push(show);
    menu.push(hide);
    menu.push(pin);
    menu.push(quit);
    assert(menu@.map_values(|e: MenuEntry| e@) =~= tray_menu_spec(
        opt_view(config.display_window_hotkey),
        always_on_top,
    ));
    menu
}

/// What the application does when a menu entry is chosen.
#[derive(Debug, Clone, Copy, PartialEq, Eq)]
pub enum TrayCommand {
    /// Show the main window, placed and focused as the flags say.
    ShowWindow { center: bool, to_mouse_position: bool, set_focus: bool },
    /// Focus, restore and then hide the main window, if there is one.
    HideWindow,
    /// Flip the main window's pin, announce it, and rebuild the menu.
    TogglePin,
    /// End the application with this exit code.
    Exit(i32),
    /// Nothing.
    Ignore,
}

/// The command for the menu entry with id `id`.
pub open spec fn menu_command(id: Seq<char>) -> TrayCommand {
    if id == "settings"@ || id == "show"@ {
        TrayCommand::ShowWindow { center: false, to_mouse_position: false, set_focus: true }
    } else if id == "hide"@ {
        TrayCommand::HideWindow
    } else if id == "pin"@ {
        TrayCommand::TogglePin
    } else if id == "quit"@ {
        TrayCommand::Exit(0)
    } else {
        TrayCommand::Ignore
    }
}

/// The five menu ids are pairwise different.
proof fn lemma_menu_ids_distinct()
    ensures
        "settings"@ != "show"@,
        "settings"@ != "hide"@,
        "settings"@ != "pin"@,
        "settings"@ != "quit"@,
        "show"@ != "hide"@,
        "show"@ != "pin"@,
        "show"@ != "quit"@,
        "hide"@ != "pin"@,
        "hide"@ != "quit"@,
        "pin"@ != "quit"@,
{
    reveal_strlit("settings");
    reveal_strlit("show");
    reveal_strlit("hide");
    reveal_strlit("pin");
    reveal_strlit("quit");
    assert("settings"@ != "show"@ && "settings"@ != "hide"@ && "settings"@ != "pin"@ && "settings"@
        != "quit"@) by {
        assert("settings"@.len() == 8);
    }
    assert("show"@ != "hide"@) by {
        assert("show"@[0] != "hide"@[0]);
    }
    assert("show"@ != "pin"@ && "hide"@ != "pin"@ && "quit"@ != "pin"@) by {
        assert("pin"@.len() == 3);
    }
    assert("show"@ != "quit"@ && "hide"@ != "quit"@) by {
        assert("show"@[0] != "quit"@[0]);
        assert("hide"@[0] != "quit"@[0]);
    }
}

/// What to do when the menu entry with id `id` is chosen.
pub fn on_menu_event(id: &str) -> (r: TrayCommand)
    ensures
        r == menu_command(id@),
        (id@ == "settings"@ || id@ == "show"@) ==> r == (TrayCommand::ShowWindow {
            center: false,
            to_mouse_position: false,
            set_focus: true,
        }),
        id@ == "hide"@ ==> r == TrayCommand::HideWindow,
        id@ == "pin"@ ==> r == TrayCommand::TogglePin,
        id@ == "quit"@ ==> r == TrayCommand::Exit(0),
        !(id@ == "settings"@ || id@ == "show"@ || id@ == "hide"@ || id@ == "pin"@ || id@ == "quit"@)
            ==> r == TrayCommand::Ignore,
{
    proof {
        lemma_menu_ids_distinct();
    }
    if str_eq(id, "settings") || str_eq(id, "show") {
        TrayCommand::ShowWindow { center: false, to_mouse_position: false, set_focus: true }
    } else if str_eq(id, "hide") {
        TrayCommand::HideWindow
    } else if str_eq(id, "pin") {
        TrayCommand::TogglePin
    } else if str_eq(id, "quit") {
        TrayCommand::Exit(0)
    } else {
        TrayCommand::Ignore
    }
}

/// A mouse button.
#[derive(Debug, Clone, Copy, PartialEq, Eq)]
pub enum MouseButton {
    Left,
    Right,
    Middle,
}

/// The icon file that a click on the tray icon with `button` loads into the
/// tray: the right button loads "icons/icon.ico"; the others change nothing.
pub fn icon_for_click(button: MouseButton) -> (r: Option<&'static str>)
    ensures
        button == MouseButton::Right ==> (r matches Some(s) && s@ == "icons/icon.ico"@),
        button != MouseButton::Right ==> r is None,
{
    match button {
        MouseButton::Right => Some("icons/icon.ico"),
        _ => None,
    }
}

/// What a claim answers when the handlers were installed or not, and whether
/// they are installed afterwards.
pub open spec fn claim_outcome(registered: bool) -> (bool, bool) {
    (!registered, true)
}

/// Whether the tray's event handlers have been installed.
pub struct TrayRegistration {
    registered: bool,
}

impl TrayRegistration {
    /// Whether the handlers are installed.
    pub closed spec fn registered(&self) -> bool {
        self.registered
    }

    /// The state at start-up: no handlers.
    pub fn new() -> (r: TrayRegistration)
        ensures
            !r.registered(),
    {
        TrayRegistration { registered: false }
    }

    /// Whether the caller should install the handlers now: only the first
    /// time it is asked. Afterwards they count as installed.
    pub fn claim(&mut self) -> (install: bool)
        ensures
            (install, final(self).registered()) == claim_outcome(old(self).registered()),
            install == !old(self).registered(),
            final(self).registered(),
    {
        if self.registered {
            return false;
        }
        self.registered = true;
        true
    }
}

/// The pin entry of the tray menu reads "Unpin" exactly while the window is
/// pinned, and the menu always has the same five entries.
pub proof fn law_pin_entry_follows_pin(display_window_hotkey: Option<Seq<char>>, always_on_top: bool)
    ensures
        tray_menu_spec(display_window_hotkey, always_on_top).len() == 5,
        tray_menu_spec(display_window_hotkey, always_on_top)[3] matches MenuEntryView::Item {
            text,
            ..
        } && text == pin_label(always_on_top),
        pin_label(true) != pin_label(false),
{
    reveal_strlit("Unpin");
    reveal_strlit("Pin");
    assert(pin_label(true).len() != pin_label(false).len());
}

/// The tray's handlers are installed at most once: after any claim, the next
/// claim declines.
pub proof fn law_claim_once(registered: bool)
    ensures
        claim_outcome(claim_outcome(registered).1).0 == false,
        claim_outcome(registered).1,
{
}

/// Whatever the pin and the settings, the tray menu is: Settings with the
/// shortcut "CmdOrCtrl+,", Show with the settings' show-window shortcut,
/// Hide, the pin entry reading "Unpin" when pinned and "Pin" otherwise, and
/// Quit.
pub proof fn law_menu_entries(display_window_hotkey: Option<Seq<char>>, always_on_top: bool)
    ensures
        ({
            let m = tray_menu_spec(display_window_hotkey, always_on_top);
            &&& m.len() == 5
            &&& m[0] == MenuEntryView::Item {
                id: "settings"@,
                text: "Settings"@,
                enabled: true,
                accelerator: Some("CmdOrCtrl+,"@),
            }
            &&& m[1] == MenuEntryView::Item {
                id: "show"@,
                text: "Show"@,
                enabled: true,
                accelerator: display_window_hotkey,
            }
            &&& m[2] == MenuEntryView::Hide { text: "Hide"@ }
            &&& m[3] == MenuEntryView::Item {
                id: "pin"@,
                text: if always_on_top {
                    "Unpin"@
                } else {
                    "Pin"@
                },
                enabled: true,
                accelerator: None,
            }
            &&& m[4] == MenuEntryView::Quit { text: "Quit"@ }
        }),
{
}

/// The Show entry keeps the settings' shortcut whether or not the window is
/// pinned: only the pin entry differs between the two menus.
pub proof fn law_menu_depends_on_pin_only_in_pin_entry(display_window_hotkey: Option<Seq<char>>)
    ensures
        forall|k: int|
            0 <= k < 5 && k != 3 ==> tray_menu_spec(display_window_hotkey, true)[k] == tray_menu_spec(
                display_window_hotkey,
                false,
            )[k],
{
}

/// Each menu id names one command: "settings" and "show" show the focused
/// window, "hide" hides it, "pin" flips the pin, "quit" exits with code 0, and
/// every other id is ignored.
pub proof fn law_menu_ids(id: Seq<char>)
    ensures
        menu_command(id) is TogglePin <==> id == "pin"@,
        menu_command(id) is HideWindow <==> id == "hide"@,
        menu_command(id) == TrayCommand::Exit(0) <==> id == "quit"@,
        menu_command(id) is Exit ==> menu_command(id) == TrayCommand::Exit(0),
        menu_command(id) is ShowWindow <==> (id == "settings"@ || id == "show"@),
        menu_command(id) is ShowWindow ==> menu_command(id) == (TrayCommand::ShowWindow {
            center: false,
            to_mouse_position: false,
            set_focus: true,
        }),
        menu_command(id) is Ignore <==> !(id == "settings"@ || id == "show"@ || id == "hide"@ || id
            == "pin"@ || id == "quit"@),
{
    lemma_menu_ids_distinct();
}

/// The handlers are installed on the first claim only: a claim says yes
/// exactly when none came before, and afterwards the handlers count as
/// installed.
pub proof fn law_claim_says_yes_only_first(registered: bool)
    ensures
        claim_outcome(registered).0 == !registered,
        claim_outcome(registered).1,
{
}

} // verus!
