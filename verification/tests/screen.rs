use kwis::time::TimeSpan;
use kwis::tui::events::{AnimationResult, Handled, Key, PopupSelection};
use kwis::tui::state::UiState;
use kwis::tui::ui::{
    centered_rect, centering_margin, format_duration, panel_height, popup_question, Area,
};

fn messages(state: &UiState) -> Vec<String> {
    state.notifications.get_notifications().iter().map(|entry| entry.message.clone()).collect()
}

fn within(outer: Area, inner: Area) -> bool {
    let right = (outer.x as u32 + outer.width as u32).min(u16::MAX as u32);
    let bottom = (outer.y as u32 + outer.height as u32).min(u16::MAX as u32);
    outer.x <= inner.x
        && inner.x as u32 + inner.width as u32 <= right
        && outer.y <= inner.y
        && inner.y as u32 + inner.height as u32 <= bottom
}

#[test]
fn durations_in_words() {
    let cases = [
        (0, "0 seconds"),
        (1, "1 second"),
        (2, "2 seconds"),
        (30, "30 seconds"),
        (59, "59 seconds"),
        (60, "1 minute"),
        (119, "1 minute"),
        (120, "2 minutes"),
        (900, "15 minutes"),
        (3599, "59 minutes"),
        (3600, "1 hour"),
        (7199, "1 hour"),
        (7200, "2 hours"),
        (7201, "2 hours"),
        (86400, "24 hours"),
        (360_000_000, "100000 hours"),
    ];
    for (seconds, words) in cases {
        assert_eq!(format_duration(TimeSpan::from_secs(seconds)), words);
    }
    assert_eq!(format_duration(TimeSpan::from_millis(1999)), "1 second");
    assert_eq!(format_duration(TimeSpan::from_millis(999)), "0 seconds");
    assert_eq!(format_duration(TimeSpan::from_secs(u64::MAX)), "5124095576030431 hours");
    assert_eq!(
        format_duration(TimeSpan::from_nanos(u128::MAX)),
        "94522879700260684295381835 hours"
    );
}

#[test]
fn the_question_names_the_interval() {
    assert_eq!(
        popup_question(TimeSpan::from_secs(900)),
        "ayo! you have uncommitted changes for over 15 minutes. Do ya want to commit them?"
    );
    assert_eq!(
        popup_question(TimeSpan::from_secs(1)),
        "ayo! you have uncommitted changes for over 1 second. Do ya want to commit them?"
    );
}

#[test]
fn margins_leave_the_middle() {
    assert_eq!(centering_margin(0), 50);
    assert_eq!(centering_margin(15), 42);
    assert_eq!(centering_margin(25), 37);
    assert_eq!(centering_margin(50), 25);
    assert_eq!(centering_margin(99), 0);
    assert_eq!(centering_margin(100), 0);
}

#[test]
fn the_popup_stands_in_the_middle() {
    let screen = Area { x: 0, y: 0, width: 100, height: 100 };
    let popup = centered_rect(50, 20, screen);
    assert_eq!(popup, Area { x: 25, y: 40, width: 50, height: 20 });
    let screen = Area { x: 10, y: 20, width: 200, height: 100 };
    let popup = centered_rect(50, 50, screen);
    assert_eq!(popup, Area { x: 60, y: 45, width: 100, height: 50 });
    let popup = centered_rect(100, 100, screen);
    assert_eq!(popup, screen);
}

#[test]
fn the_popup_lies_within_the_screen() {
    let screens = [
        Area { x: 0, y: 0, width: 0, height: 0 },
        Area { x: 0, y: 0, width: 1, height: 1 },
        Area { x: 0, y: 0, width: 80, height: 24 },
        Area { x: 3, y: 7, width: 131, height: 43 },
        Area { x: 0, y: 0, width: u16::MAX, height: u16::MAX },
        Area { x: 65000, y: 65000, width: 535, height: 535 },
        Area { x: 65000, y: 65000, width: 60000, height: 60000 },
    ];
    for screen in screens {
        for percent_x in [0, 1, 25, 33, 50, 99, 100] {
            for percent_y in [0, 15, 20, 50, 100] {
                let popup = centered_rect(percent_x, percent_y, screen);
                assert!(within(screen, popup), "{:?} in {:?}", popup, screen);
            }
        }
    }
}

#[test]
fn the_panel_has_a_row_for_each_notification() {
    assert_eq!(panel_height(0), None);
    assert_eq!(panel_height(1), Some(3));
    assert_eq!(panel_height(5), Some(7));
    assert_eq!(panel_height(65533), Some(65535));
}

#[test]
fn the_screen_starts_without_a_prompt() {
    let state = UiState::new(5);
    assert!(!state.show_popup);
    assert_eq!(state.popup_selection, PopupSelection::Yes);
    assert_eq!(state.frame_index, 0);
    assert!(messages(&state).is_empty());
}

#[test]
fn a_request_brings_the_prompt_up() {
    let mut state = UiState::new(5);
    assert!(!state.popup_requested(false));
    assert!(state.show_popup);
    assert!(messages(&state).is_empty());
    assert!(!state.popup_requested(false));
    assert!(state.show_popup);
}

#[test]
fn autosave_commits_without_a_prompt() {
    let mut state = UiState::new(5);
    assert!(state.popup_requested(true));
    assert!(!state.show_popup);
    assert_eq!(messages(&state), ["Auto-committing changes..."]);
    assert!(state.commit_finished(Ok(())));
    assert_eq!(messages(&state), ["Auto-committing changes...", "Changes committed successfully!"]);
}

#[test]
fn a_commit_closes_the_prompt() {
    let mut state = UiState::new(5);
    state.popup_requested(false);
    let handled = state.key_pressed(Some(Key::Enter));
    assert_eq!(handled, Handled { result: Some(AnimationResult::Commit), reset_timer: false });
    assert!(state.show_popup);
    assert!(state.commit_finished(Ok(())));
    assert!(!state.show_popup);
    assert_eq!(state.popup_selection, PopupSelection::Yes);
    assert_eq!(messages(&state), ["Changes committed successfully!"]);
}

#[test]
fn a_failed_commit_is_reported_and_closes_the_prompt() {
    let mut state = UiState::new(5);
    state.popup_requested(false);
    assert!(state.commit_finished(Err("nothing to commit".to_string())));
    assert!(!state.show_popup);
    assert_eq!(messages(&state), ["Commit failed: nothing to commit"]);
    assert!(state.commit_finished(Err(String::new())));
    assert_eq!(messages(&state), ["Commit failed: nothing to commit", "Commit failed: "]);
}

#[test]
fn keys_reach_the_prompt() {
    let mut state = UiState::new(5);
    let quit = state.key_pressed(Some(Key::Char('q')));
    assert_eq!(quit, Handled { result: Some(AnimationResult::Quit), reset_timer: false });
    state.popup_requested(false);
    state.key_pressed(Some(Key::Right));
    assert_eq!(state.popup_selection, PopupSelection::No);
    let closed = state.key_pressed(Some(Key::Enter));
    assert_eq!(closed, Handled { result: None, reset_timer: true });
    assert!(!state.show_popup);
    assert_eq!(state.popup_selection, PopupSelection::No);
    assert_eq!(state.key_pressed(None), Handled { result: None, reset_timer: false });
}

#[test]
fn fresh_notifications_stay_on_screen() {
    let mut state = UiState::new(5);
    state.commit_finished(Ok(()));
    state.expire_notifications();
    assert_eq!(messages(&state), ["Changes committed successfully!"]);
}

#[test]
fn the_screen_keeps_five_notifications() {
    let mut state = UiState::new(5);
    for number in 0..7 {
        state.commit_finished(Err(format!("{}", number)));
    }
    assert_eq!(
        messages(&state),
        [
            "Commit failed: 2",
            "Commit failed: 3",
            "Commit failed: 4",
            "Commit failed: 5",
            "Commit failed: 6"
        ]
    );
}

#[test]
fn frames_go_round() {
    let mut state = UiState::new(5);
    let mut seen = Vec::new();
    for _ in 0..7 {
        state.advance_frame(3);
        seen.push(state.frame_index);
    }
    assert_eq!(seen, [1, 2, 0, 1, 2, 0, 1]);
    state.advance_frame(1);
    assert_eq!(state.frame_index, 0);
    state.advance_frame(1);
    assert_eq!(state.frame_index, 0);
    state.frame_index = 186;
    state.advance_frame(187);
    assert_eq!(state.frame_index, 0);
    state.frame_index = 500;
    state.advance_frame(187);
    assert_eq!(state.frame_index, 501 % 187);
    state.frame_index = usize::MAX;
    state.advance_frame(10);
    assert_eq!(state.frame_index as u128, (usize::MAX as u128 + 1) % 10);
}
