//! What the application is told, and what it does about it.

use vstd::prelude::*;
use crate::chord::AppKeyboardEvents;

verus! {

/// An event for the application's main loop.
#[derive(Debug, PartialEq, Eq, Clone, Copy)]
pub enum AppEvents {
    Keyboard(AppKeyboardEvents),
    ToggleDockWindowVisibility,
    ShowOrFocusAboutDialog,
    Exit,
    MoveDockWindowToNextPosition,
    MoveTabToPrevPosition,
    MoveTabToNextPosition,
    KeyboardListenerEnabled(bool),
}

/// What the main loop does on an event.
#[derive(Debug, PartialEq, Eq, Structural, Clone, Copy)]
pub enum AppCommand {
    /// Show the page with this number, counted from zero.
    SelectPage(u32),
    /// Show the page before the current one.
    PreviousPage,
    /// Show the page after the current one.
    NextPage,
    /// Hide the window.
    HideWindow,
    /// Show the window.
    ShowWindow,
    /// Close the window and leave.
    Quit,
    /// Show the about dialog, or bring it to the front.
    ShowAbout,
    /// Move the window to the next position on the screen.
    MoveWindow,
    /// Show the list of hot keys.
    ShowHotkeys,
    /// Take the list of hot keys away.
    HideHotkeys,
    /// Nothing.
    Nothing,
}

/// What a chord stands for.
pub open spec fn command_of_chord(chord: AppKeyboardEvents, window_visible: bool) -> AppCommand {
    match chord {
        AppKeyboardEvents::Num1 => AppCommand::SelectPage(0),
        AppKeyboardEvents::Num2 => AppCommand::SelectPage(1),
        AppKeyboardEvents::Num3 => AppCommand::SelectPage(2),
        AppKeyboardEvents::Num4 => AppCommand::SelectPage(3),
        AppKeyboardEvents::Num5 => AppCommand::SelectPage(4),
        AppKeyboardEvents::Num6 => AppCommand::SelectPage(5),
        AppKeyboardEvents::Num7 => AppCommand::SelectPage(6),
        AppKeyboardEvents::Num8 => AppCommand::SelectPage(7),
        AppKeyboardEvents::Num9 => AppCommand::SelectPage(8),
        AppKeyboardEvents::KeypadA => AppCommand::PreviousPage,
        AppKeyboardEvents::KeypadD => AppCommand::NextPage,
        AppKeyboardEvents::ShiftF8 => if window_visible {
            AppCommand::HideWindow
        } else {
            AppCommand::ShowWindow
        },
        AppKeyboardEvents::Escape => AppCommand::Quit,
        AppKeyboardEvents::KeyP => AppCommand::MoveWindow,
        AppKeyboardEvents::KeypadPlus => AppCommand::Nothing,
        AppKeyboardEvents::KeypadMinus => AppCommand::Nothing,
    }
}

/// What an event stands for. Each request from the menu does what the
/// chord of the same meaning does.
pub open spec fn command_of(event: AppEvents, window_visible: bool) -> AppCommand {
    match event {
        AppEvents::Keyboard(chord) => command_of_chord(chord, window_visible),
        AppEvents::ToggleDockWindowVisibility => command_of_chord(
            AppKeyboardEvents::ShiftF8,
            window_visible,
        ),
        AppEvents::ShowOrFocusAboutDialog => AppCommand::ShowAbout,
        AppEvents::Exit => AppCommand::Quit,
        AppEvents::MoveDockWindowToNextPosition => AppCommand::MoveWindow,
        AppEvents::MoveTabToPrevPosition => AppCommand::PreviousPage,
        AppEvents::MoveTabToNextPosition => AppCommand::NextPage,
        AppEvents::KeyboardListenerEnabled(enabled) => if enabled {
            AppCommand::ShowHotkeys
        } else {
            AppCommand::HideHotkeys
        },
    }
}

/// The command for a chord. `window_visible` says whether the window is
/// shown now.
pub fn command_for_chord(chord: AppKeyboardEvents, window_visible: bool) -> (r: AppCommand)
    ensures
        r == command_of_chord(chord, window_visible),
{
    match chord {
        AppKeyboardEvents::Num1 => AppCommand::SelectPage(0),
        AppKeyboardEvents::Num2 => AppCommand::SelectPage(1),
        AppKeyboardEvents::Num3 => AppCommand::SelectPage(2),
        AppKeyboardEvents::Num4 => AppCommand::SelectPage(3),
        AppKeyboardEvents::Num5 => AppCommand::SelectPage(4),
        AppKeyboardEvents::Num6 => AppCommand::SelectPage(5),
        AppKeyboardEvents::Num7 => AppCommand::SelectPage(6),
        AppKeyboardEvents::Num8 => AppCommand::SelectPage(7),
        AppKeyboardEvents::Num9 => AppCommand::SelectPage(8),
        AppKeyboardEvents::KeypadA => AppCommand::PreviousPage,
        AppKeyboardEvents::KeypadD => AppCommand::NextPage,
        AppKeyboardEvents::ShiftF8 => {
            if window_visible {
                AppCommand::HideWindow
            } else {
                AppCommand::ShowWindow
            }
        },
        AppKeyboardEvents::Escape => AppCommand::Quit,
        AppKeyboardEvents::KeyP => AppCommand::MoveWindow,
        AppKeyboardEvents::KeypadPlus | AppKeyboardEvents::KeypadMinus => AppCommand::Nothing,
    }
}

/// The command for an event. `window_visible` says whether the window is
/// shown now.
pub fn command_for(event: AppEvents, window_visible: bool) -> (r: AppCommand)
    ensures
        r == command_of(event, window_visible),
{
    match event {
        AppEvents::Keyboard(chord) => command_for_chord(chord, window_visible),
        AppEvents::ToggleDockWindowVisibility => {
            if window_visible {
                AppCommand::HideWindow
            } else {
                AppCommand::ShowWindow
            }
        },
        AppEvents::ShowOrFocusAboutDialog => AppCommand::ShowAbout,
        AppEvents::Exit => AppCommand::Quit,
        AppEvents::MoveDockWindowToNextPosition => AppCommand::MoveWindow,
        AppEvents::MoveTabToPrevPosition => AppCommand::PreviousPage,
        AppEvents::MoveTabToNextPosition => AppCommand::NextPage,
        AppEvents::KeyboardListenerEnabled(enabled) => {
            if enabled {
                AppCommand::ShowHotkeys
            } else {
                AppCommand::HideHotkeys
            }
        },
    }
}

/// The page before `current` among `n_pages`, the last one before the
/// first. With no current page the first page is shown.
pub open spec fn page_before(current: Option<u32>, n_pages: u32) -> int {
    match current {
        Some(page) => if page == 0 {
            n_pages - 1
        } else {
            page - 1
        },
        None => 0,
    }
}

/// The page after `current` among `n_pages`, the first one after the last.
/// With no current page the second page is shown, where there is one.
pub open spec fn page_after(current: Option<u32>, n_pages: u32) -> int {
    let following: int = match current {
        Some(page) => page + 1,
        None => 1,
    };
    if following >= n_pages {
        0
    } else {
        following
    }
}

/// The page to show for `PreviousPage`. From the first page one goes to
/// the last, so there has to be a page then.
pub fn previous_page(current: Option<u32>, n_pages: u32) -> (r: u32)
    requires
        current == Some(0u32) ==> n_pages > 0,
    ensures
        r == page_before(current, n_pages),
{
    match current {
        Some(page) => {
            if page == 0 {
                n_pages - 1
            } else {
                page - 1
            }
        },
        None => 0,
    }
}

/// The page to show for `NextPage`.
pub fn next_page(current: Option<u32>, n_pages: u32) -> (r: u32)
    ensures
        r == page_after(current, n_pages),
        n_pages > 0 ==> r < n_pages,
{
    let page = match current {
        Some(page) => page,
        None => 0,
    };
    if page >= n_pages || n_pages - page <= 1 {
        0
    } else {
        page + 1
    }
}

/// With a current page among the pages, going to the next page and then to
/// the previous one leads back, and the other way round.
pub proof fn lemma_next_then_previous(page: u32, n_pages: u32)
    requires
        page < n_pages,
    ensures
        0 <= page_after(Some(page), n_pages) < n_pages,
        0 <= page_before(Some(page), n_pages) < n_pages,
        page_before(Some(page_after(Some(page), n_pages) as u32), n_pages) == page,
        page_after(Some(page_before(Some(page), n_pages) as u32), n_pages) == page,
{
}

} // verus!
