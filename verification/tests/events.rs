use kwis::tui::events::{handle_events, AnimationResult, Handled, Key, PopupSelection};

const NOTHING: Handled = Handled { result: None, reset_timer: false };

fn press(show: bool, selection: PopupSelection, key: Option<Key>) -> (bool, PopupSelection, Handled) {
    let mut show_popup = show;
    let mut popup_selection = selection;
    let handled = handle_events(&mut show_popup, &mut popup_selection, key);
    (show_popup, popup_selection, handled)
}

#[test]
fn arrows_and_letters_mark_a_button() {
    for selection in [PopupSelection::Yes, PopupSelection::No] {
        for key in [Key::Left, Key::Char('y')] {
            assert_eq!(press(true, selection, Some(key)), (true, PopupSelection::Yes, NOTHING));
        }
        for key in [Key::Right, Key::Char('n')] {
            assert_eq!(press(true, selection, Some(key)), (true, PopupSelection::No, NOTHING));
        }
    }
}

#[test]
fn enter_on_yes_asks_for_a_commit() {
    let asked = Handled { result: Some(AnimationResult::Commit), reset_timer: false };
    assert_eq!(press(true, PopupSelection::Yes, Some(Key::Enter)), (true, PopupSelection::Yes, asked));
}

#[test]
fn enter_on_no_closes_the_prompt() {
    let closed = Handled { result: None, reset_timer: true };
    assert_eq!(press(true, PopupSelection::No, Some(Key::Enter)), (false, PopupSelection::No, closed));
}

#[test]
fn q_closes_the_prompt_and_does_not_quit() {
    let closed = Handled { result: None, reset_timer: true };
    for selection in [PopupSelection::Yes, PopupSelection::No] {
        for key in [Key::Char('q'), Key::Char('Q')] {
            assert_eq!(press(true, selection, Some(key)), (false, selection, closed));
        }
    }
}

#[test]
fn q_quits_without_the_prompt() {
    let quit = Handled { result: Some(AnimationResult::Quit), reset_timer: false };
    for selection in [PopupSelection::Yes, PopupSelection::No] {
        for key in [Key::Char('q'), Key::Char('Q')] {
            assert_eq!(press(false, selection, Some(key)), (false, selection, quit));
        }
    }
}

#[test]
fn other_keys_and_no_key_change_nothing() {
    let others = [
        None,
        Some(Key::Other),
        Some(Key::Char('Y')),
        Some(Key::Char('N')),
        Some(Key::Char('h')),
        Some(Key::Char('l')),
        Some(Key::Char(' ')),
    ];
    for show in [false, true] {
        for selection in [PopupSelection::Yes, PopupSelection::No] {
            for key in others {
                assert_eq!(press(show, selection, key), (show, selection, NOTHING));
            }
        }
    }
    for selection in [PopupSelection::Yes, PopupSelection::No] {
        for key in [Key::Left, Key::Right, Key::Enter, Key::Char('y'), Key::Char('n')] {
            assert_eq!(press(false, selection, Some(key)), (false, selection, NOTHING));
        }
    }
}

#[test]
fn the_selection_stays_yes_or_no_through_any_keys() {
    let keys = [
        None,
        Some(Key::Left),
        Some(Key::Right),
        Some(Key::Enter),
        Some(Key::Char('y')),
        Some(Key::Char('n')),
        Some(Key::Char('q')),
        Some(Key::Char('Q')),
        Some(Key::Char('x')),
        Some(Key::Other),
    ];
    let mut show_popup = true;
    let mut popup_selection = PopupSelection::Yes;
    let mut seed = 12345u32;
    for _ in 0..5000 {
        seed = seed.wrapping_mul(1664525).wrapping_add(1013904223);
        let key = keys[(seed >> 16) as usize % keys.len()];
        let shown = show_popup;
        let before = popup_selection;
        let handled = handle_events(&mut show_popup, &mut popup_selection, key);
        assert!(matches!(popup_selection, PopupSelection::Yes | PopupSelection::No));
        if !shown {
            assert_eq!(popup_selection, before);
            assert!(!show_popup);
            assert!(!handled.reset_timer);
        }
        if handled.reset_timer {
            assert!(shown && !show_popup);
        }
        if (seed >> 8) % 7 == 0 {
            show_popup = true;
        }
    }
}
