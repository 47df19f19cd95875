use vstd::prelude::*;

verus! {

/// What the screen asks of the program after a key.
#[derive(Debug, Clone, Copy, PartialEq, Eq, Structural)]
pub enum AnimationResult {
    Commit,
    Quit,
}

/// The button of the commit prompt that is marked.
#[derive(Debug, Clone, Copy, PartialEq, Eq, Structural)]
pub enum PopupSelection {
    Yes,
    No,
}

/// A key of the keyboard, as far as the screen tells keys apart.
#[derive(Debug, Clone, Copy, PartialEq, Eq, Structural)]
pub enum Key {
    Left,
    Right,
    Enter,
    Char(char),
    Other,
}

/// What came of a key.
#[derive(Debug, Clone, Copy, PartialEq, Eq, Structural)]
pub struct Handled {
    /// What the program is asked to do, if anything.
    pub result: Option<AnimationResult>,
    /// Whether the watcher is to be told to reset its prompt timer.
    pub reset_timer: bool,
}

/// The screen's state as far as keys change it, and what came of the last key.
pub struct KeyOutcome {
    pub show_popup: bool,
    pub popup_selection: PopupSelection,
    pub handled: Handled,
}

/// Whether a key marks the button "Yes".
pub open spec fn selects_yes(key: Key) -> bool {
    key == Key::Left || key == Key::Char('y')
}

/// Whether a key marks the button "No".
pub open spec fn selects_no(key: Key) -> bool {
    key == Key::Right || key == Key::Char('n')
}

/// Whether what was read is a key that marks a button.
pub open spec fn marks_button(key: Option<Key>) -> bool {
    key matches Some(pressed) && (selects_yes(pressed) || selects_no(pressed))
}

/// Whether a key is `q`, in either case.
pub open spec fn is_quit_key(key: Key) -> bool {
    key == Key::Char('q') || key == Key::Char('Q')
}

/// What a key does. While the prompt is shown, the arrow keys and `y`, `n`
/// mark a button, Enter takes the marked one ("Yes" asks for a commit and
/// leaves the prompt to be closed after it, "No" closes the prompt) and `q`
/// closes the prompt; closing the prompt resets the prompt timer. Without the
/// prompt, `q` asks to quit. No key, or any other key, changes nothing.
pub open spec fn key_outcome(
    show_popup: bool,
    popup_selection: PopupSelection,
    key: Option<Key>,
) -> KeyOutcome {
    let idle = KeyOutcome {
        show_popup,
        popup_selection,
        handled: Handled { result: None, reset_timer: false },
    };
    match key {
        None => idle,
        Some(pressed) => {
            if show_popup {
                if selects_yes(pressed) {
                    KeyOutcome { popup_selection: PopupSelection::Yes, ..idle }
                } else if selects_no(pressed) {
                    KeyOutcome { popup_selection: PopupSelection::No, ..idle }
                } else if pressed == Key::Enter {
                    match popup_selection {
                        PopupSelection::Yes => KeyOutcome {
                            handled: Handled {
                                result: Some(AnimationResult::Commit),
                                reset_timer: false,
                            },
                            ..idle
                        },
                        PopupSelection::No => KeyOutcome {
                            show_popup: false,
                            handled: Handled { result: None, reset_timer: true },
                            ..idle
                        },
                    }
                } else if is_quit_key(pressed) {
                    KeyOutcome {
                        show_popup: false,
                        handled: Handled { result: None, reset_timer: true },
                        ..idle
                    }
                } else {
                    idle
                }
            } else if is_quit_key(pressed) {
                KeyOutcome {
                    handled: Handled { result: Some(AnimationResult::Quit), reset_timer: false },
                    ..idle
                }
            } else {
                idle
            }
        },
    }
}

/// Handles the key that was read, if one was.
pub fn handle_events(
    show_popup: &mut bool,
    popup_selection: &mut PopupSelection,
    key: Option<Key>,
) -> (handled: Handled)
    ensures
        key_outcome(*old(show_popup), *old(popup_selection), key) == (KeyOutcome {
            show_popup: *final(show_popup),
            popup_selection: *final(popup_selection),
            handled,
        }),
        *final(popup_selection) == PopupSelection::Yes || *final(popup_selection)
            == PopupSelection::No,
        *final(popup_selection) != *old(popup_selection) ==> *old(show_popup) && marks_button(
            key,
        ),
{
    let mut result: Option<AnimationResult> = None;
    let mut reset_timer = false;
    if let Some(pressed) = key {
        if *show_popup {
            match pressed {
                Key::Left | Key::Char('y') => {
                    *popup_selection = PopupSelection::Yes;
                },
                Key::Right | Key::Char('n') => {
                    *popup_selection = PopupSelection::No;
                },
                Key::Enter => match *popup_selection {
                    PopupSelection::Yes => {
                        result = Some(AnimationResult::Commit);
                    },
                    PopupSelection::No => {
                        *show_popup = false;
                        reset_timer = true;
                    },
                },
                Key::Char('q') | Key::Char('Q') => {
                    *show_popup = false;
                    reset_timer = true;
                },
                _ => {},
            }
        } else {
            match pressed {
                Key::Char('q') | Key::Char('Q') => {
                    result = Some(AnimationResult::Quit);
                },
                _ => {},
            }
        }
    }
    Handled { result, reset_timer }
}

/// The screen's state after a run of keys, each handled in turn.
pub open spec fn after_keys(
    show_popup: bool,
    popup_selection: PopupSelection,
    keys: Seq<Option<Key>>,
) -> KeyOutcome
    decreases keys.len(),
{
    if keys.len() == 0 {
        KeyOutcome {
            show_popup,
            popup_selection,
            handled: Handled { result: None, reset_timer: false },
        }
    } else {
        let before = after_keys(show_popup, popup_selection, keys.drop_last());
        key_outcome(before.show_popup, before.popup_selection, keys.last())
    }
}

/// Whatever keys come in whatever order, the marked button is "Yes" or
/// "No"; it is the one it was unless one of the keys marked a button, and
/// no key marks one while the prompt is hidden, nor brings the prompt up.
pub proof fn lemma_selection_stays_in_domain(
    show_popup: bool,
    popup_selection: PopupSelection,
    keys: Seq<Option<Key>>,
)
    ensures
        after_keys(show_popup, popup_selection, keys).popup_selection == PopupSelection::Yes
            || after_keys(show_popup, popup_selection, keys).popup_selection
            == PopupSelection::No,
        (forall|i: int| 0 <= i < keys.len() ==> !marks_button(#[trigger] keys[i])) ==> after_keys(
            show_popup,
            popup_selection,
            keys,
        ).popup_selection == popup_selection,
        !show_popup ==> after_keys(show_popup, popup_selection, keys).popup_selection
            == popup_selection && !after_keys(show_popup, popup_selection, keys).show_popup,
    decreases keys.len(),
{
    if keys.len() > 0 {
        lemma_selection_stays_in_domain(show_popup, popup_selection, keys.drop_last());
        assert(forall|i: int| 0 <= i < keys.len() - 1 ==> keys.drop_last()[i] == keys[i]);
    }
}

} // verus!
