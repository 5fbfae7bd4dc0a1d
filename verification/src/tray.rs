use vstd::prelude::*;
use crate::country::{CountryInfo, CountryInfoView};

verus! {

/// A button of the mouse.
#[derive(Debug, Clone, Copy, PartialEq, Eq, Structural)]
pub enum MouseButton {
    Left,
    Right,
    Middle,
}

/// Where a button stands when the tray reports it.
#[derive(Debug, Clone, Copy, PartialEq, Eq, Structural)]
pub enum MouseButtonState {
    Up,
    Down,
}

/// What the tray icon reports.
#[derive(Debug, Clone, Copy, PartialEq, Eq, Structural)]
pub enum TrayEvent {
    /// A click on the icon.
    Click { button: MouseButton, button_state: MouseButtonState },
    /// Anything else: a double click, the pointer coming, moving or going.
    Other,
}

/// What to do with the main window.
#[derive(Debug, Clone, Copy, PartialEq, Eq, Structural)]
pub enum WindowAction {
    /// Leave everything as it is.
    Nothing,
    /// Show the window that exists and give it the focus.
    ShowAndFocus,
    /// Open a new window.
    Create,
}

/// Whether an event asks for the main window: the left button, let go.
pub open spec fn asks_for_window(event: TrayEvent) -> bool {
    event == (TrayEvent::Click { button: MouseButton::Left, button_state: MouseButtonState::Up })
}

/// What an event asks of the main window, which exists or not.
pub open spec fn window_action_of(event: TrayEvent, window_exists: bool) -> WindowAction {
    if !asks_for_window(event) {
        WindowAction::Nothing
    } else if window_exists {
        WindowAction::ShowAndFocus
    } else {
        WindowAction::Create
    }
}

/// What to do with the main window on `event`. Letting go of the left button
/// over the icon brings the window up, a new one if none exists; no other
/// event does anything.
pub fn window_action(event: TrayEvent, window_exists: bool) -> (action: WindowAction)
    ensures
        action == window_action_of(event, window_exists),
{
    match event {
        TrayEvent::Click { button: MouseButton::Left, button_state: MouseButtonState::Up } => {
            if window_exists {
                WindowAction::ShowAndFocus
            } else {
                WindowAction::Create
            }
        },
        _ => WindowAction::Nothing,
    }
}

/// The text under the tray icon: the glyph and the name of the country that
/// was found, or the words for a resolution that gave none.
pub open spec fn tooltip_of(resolved: Option<CountryInfoView>) -> Seq<char> {
    match resolved {
        Some(info) => "IPStatus - "@ + info.flag_emoji + " "@ + info.name,
        None => "IPStatus - 🌍 Unknown Location"@,
    }
}

/// A country that may be missing, as plain text.
pub open spec fn resolved_view(resolved: Option<&CountryInfo>) -> Option<CountryInfoView> {
    match resolved {
        Some(info) => Some(info@),
        None => None,
    }
}

/// The text under the tray icon.
pub fn tooltip_text(resolved: Option<&CountryInfo>) -> (text: String)
    ensures
        text@ == tooltip_of(resolved_view(resolved)),
{
    match resolved {
        Some(info) => {
            let mut text = String::from_str("IPStatus - ");
            text.append(info.flag_emoji.as_str());
            text.append(" ");
            text.append(info.name.as_str());
            text
        },
        None => String::from_str("IPStatus - 🌍 Unknown Location"),
    }
}

} // verus!
