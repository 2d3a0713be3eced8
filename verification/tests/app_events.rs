use keyboard_hook::chord::AppKeyboardEvents;
use keyboard_hook::events::command_for;
use keyboard_hook::events::command_for_chord;
use keyboard_hook::events::next_page;
use keyboard_hook::events::previous_page;
use keyboard_hook::events::AppCommand;
use keyboard_hook::events::AppEvents;

#[test]
fn number_chords_select_pages() {
    let numbers = [
        AppKeyboardEvents::Num1,
        AppKeyboardEvents::Num2,
        AppKeyboardEvents::Num3,
        AppKeyboardEvents::Num4,
        AppKeyboardEvents::Num5,
        AppKeyboardEvents::Num6,
        AppKeyboardEvents::Num7,
        AppKeyboardEvents::Num8,
        AppKeyboardEvents::Num9,
    ];
    for (i, chord) in numbers.iter().enumerate() {
        assert_eq!(command_for_chord(*chord, true), AppCommand::SelectPage(i as u32));
        assert_eq!(command_for(AppEvents::Keyboard(*chord), false), AppCommand::SelectPage(i as u32));
    }
}

#[test]
fn other_chords() {
    assert_eq!(command_for_chord(AppKeyboardEvents::KeypadA, true), AppCommand::PreviousPage);
    assert_eq!(command_for_chord(AppKeyboardEvents::KeypadD, true), AppCommand::NextPage);
    assert_eq!(command_for_chord(AppKeyboardEvents::ShiftF8, true), AppCommand::HideWindow);
    assert_eq!(command_for_chord(AppKeyboardEvents::ShiftF8, false), AppCommand::ShowWindow);
    assert_eq!(command_for_chord(AppKeyboardEvents::Escape, false), AppCommand::Quit);
    assert_eq!(command_for_chord(AppKeyboardEvents::KeyP, false), AppCommand::MoveWindow);
    assert_eq!(command_for_chord(AppKeyboardEvents::KeypadPlus, true), AppCommand::Nothing);
    assert_eq!(command_for_chord(AppKeyboardEvents::KeypadMinus, true), AppCommand::Nothing);
}

#[test]
fn menu_requests() {
    assert_eq!(command_for(AppEvents::ToggleDockWindowVisibility, true), AppCommand::HideWindow);
    assert_eq!(command_for(AppEvents::ToggleDockWindowVisibility, false), AppCommand::ShowWindow);
    assert_eq!(command_for(AppEvents::ShowOrFocusAboutDialog, true), AppCommand::ShowAbout);
    assert_eq!(command_for(AppEvents::Exit, true), AppCommand::Quit);
    assert_eq!(command_for(AppEvents::MoveDockWindowToNextPosition, true), AppCommand::MoveWindow);
    assert_eq!(command_for(AppEvents::MoveTabToPrevPosition, true), AppCommand::PreviousPage);
    assert_eq!(command_for(AppEvents::MoveTabToNextPosition, true), AppCommand::NextPage);
    assert_eq!(command_for(AppEvents::KeyboardListenerEnabled(true), true), AppCommand::ShowHotkeys);
    assert_eq!(command_for(AppEvents::KeyboardListenerEnabled(false), true), AppCommand::HideHotkeys);
}

#[test]
fn previous_page_wraps() {
    assert_eq!(previous_page(Some(0), 5), 4);
    assert_eq!(previous_page(Some(1), 5), 0);
    assert_eq!(previous_page(Some(4), 5), 3);
    assert_eq!(previous_page(None, 5), 0);
    assert_eq!(previous_page(None, 0), 0);
    assert_eq!(previous_page(Some(0), 1), 0);
    assert_eq!(previous_page(Some(u32::MAX), 3), u32::MAX - 1);
}

#[test]
fn next_page_wraps() {
    assert_eq!(next_page(Some(0), 5), 1);
    assert_eq!(next_page(Some(3), 5), 4);
    assert_eq!(next_page(Some(4), 5), 0);
    assert_eq!(next_page(None, 5), 1);
    assert_eq!(next_page(None, 1), 0);
    assert_eq!(next_page(None, 0), 0);
    assert_eq!(next_page(Some(7), 5), 0);
    assert_eq!(next_page(Some(u32::MAX), u32::MAX), 0);
    assert_eq!(next_page(Some(u32::MAX - 2), u32::MAX), u32::MAX - 1);
}

#[test]
fn next_then_previous_comes_back() {
    for n in 1u32..8 {
        for page in 0..n {
            assert_eq!(previous_page(Some(next_page(Some(page), n)), n), page);
            assert_eq!(next_page(Some(previous_page(Some(page), n)), n), page);
        }
    }
}
