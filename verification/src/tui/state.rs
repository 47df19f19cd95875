use crate::time::TimeSpan;
use crate::tui::events::{handle_events, key_outcome, Handled, Key, KeyOutcome, PopupSelection};
use crate::tui::notifications::{appended, unexpired, NotificationManager, NotificationView};
use vstd::prelude::*;
use vstd::string::*;

verus! {

/// The age, in seconds, beyond which a notification leaves the screen.
pub const NOTIFICATION_MAX_AGE_SECS: u64 = 900;

/// What the screen shows and remembers between two frames.
pub struct UiState {
    pub show_popup: bool,
    pub popup_selection: PopupSelection,
    pub frame_index: usize,
    pub notifications: NotificationManager,
}

/// The age beyond which a notification leaves the screen.
pub open spec fn notification_max_age() -> TimeSpan {
    TimeSpan { nanos: (NOTIFICATION_MAX_AGE_SECS * 1_000_000_000) as u128 }
}

/// The notification that announces a commit made without asking.
pub open spec fn auto_commit_text() -> Seq<char> {
    "Auto-committing changes..."@
}

/// The notification for a commit that was made.
pub open spec fn commit_success_text() -> Seq<char> {
    "Changes committed successfully!"@
}

/// The notification for a commit that failed with the error `error`.
pub open spec fn commit_failure_text(error: Seq<char>) -> Seq<char> {
    "Commit failed: "@ + error
}

/// The notification for the outcome of a commit.
pub open spec fn commit_outcome_text(outcome: Result<(), String>) -> Seq<char> {
    match outcome {
        Ok(_) => commit_success_text(),
        Err(error) => commit_failure_text(error@),
    }
}

/// Whether `after` is the queue `before` with a notification of the text
/// `message` added at some time.
pub open spec fn with_message(
    before: NotificationManager,
    after: NotificationManager,
    message: Seq<char>,
) -> bool {
    &&& exists|now: TimeSpan|
        after@ == #[trigger] appended(
            before@,
            before.capacity(),
            NotificationView { message, timestamp: now },
        )
    &&& after.capacity() == before.capacity()
}

impl UiState {
    /// The screen at the start: no prompt, "Yes" marked, the first frame,
    /// and room for `max_notifs` notifications.
    pub fn new(max_notifs: usize) -> (state: UiState)
        ensures
            !state.show_popup,
            state.popup_selection == PopupSelection::Yes,
            state.frame_index == 0,
            state.notifications@ == Seq::<NotificationView>::empty(),
            state.notifications.capacity() == max_notifs,
    {
        UiState {
            show_popup: false,
            popup_selection: PopupSelection::Yes,
            frame_index: 0,
            notifications: NotificationManager::new(max_notifs),
        }
    }

    /// The watcher asked for the commit prompt. With `autosave_mode` no
    /// prompt is shown: the commit is announced, and `true` is returned
    /// for the caller to make it now. Else the prompt comes up.
    pub fn popup_requested(&mut self, autosave_mode: bool) -> (commit_now: bool)
        ensures
            commit_now == autosave_mode,
            final(self).popup_selection == old(self).popup_selection,
            final(self).frame_index == old(self).frame_index,
            autosave_mode ==> final(self).show_popup == old(self).show_popup && with_message(
                old(self).notifications,
                final(self).notifications,
                auto_commit_text(),
            ),
            !autosave_mode ==> final(self).show_popup && final(self).notifications == old(
                self,
            ).notifications,
    {
        if autosave_mode {
            self.notifications.add_notif("Auto-committing changes...".to_string());
        } else {
            self.show_popup = true;
        }
        autosave_mode
    }

    /// Drops the notifications that have been on screen for longer than
    /// `NOTIFICATION_MAX_AGE_SECS`.
    pub fn expire_notifications(&mut self)
        ensures
            exists|now: TimeSpan|
                final(self).notifications@ == #[trigger] unexpired(
                    old(self).notifications@,
                    now,
                    notification_max_age(),
                ),
            final(self).notifications.capacity() == old(self).notifications.capacity(),
            final(self).show_popup == old(self).show_popup,
            final(self).popup_selection == old(self).popup_selection,
            final(self).frame_index == old(self).frame_index,
    {
        let max_age = TimeSpan::from_secs(NOTIFICATION_MAX_AGE_SECS);
        assert(max_age == notification_max_age());
        self.notifications.update(max_age);
    }

    /// Handles the key that was read, if one was.
    pub fn key_pressed(&mut self, key: Option<Key>) -> (handled: Handled)
        ensures
            key_outcome(old(self).show_popup, old(self).popup_selection, key) == (KeyOutcome {
                show_popup: final(self).show_popup,
                popup_selection: final(self).popup_selection,
                handled,
            }),
            final(self).frame_index == old(self).frame_index,
            final(self).notifications == old(self).notifications,
    {
        handle_events(&mut self.show_popup, &mut self.popup_selection, key)
    }

    /// A commit was tried. Its outcome is put on screen, the error's text
    /// with it where it failed; the prompt goes away; and the watcher is
    /// to be told to reset its prompt timer: `true` is returned.
    pub fn commit_finished(&mut self, outcome: Result<(), String>) -> (reset_timer: bool)
        ensures
            reset_timer,
            !final(self).show_popup,
            final(self).popup_selection == old(self).popup_selection,
            final(self).frame_index == old(self).frame_index,
            with_message(
                old(self).notifications,
                final(self).notifications,
                commit_outcome_text(outcome),
            ),
    {
        match outcome {
            Ok(_) => {
                self.notifications.add_notif("Changes committed successfully!".to_string());
            },
            Err(error) => {
                let mut message = "Commit failed: ".to_string();
                message.append(error.as_str());
                self.notifications.add_notif(message);
            },
        }
        self.show_popup = false;
        true
    }

    /// Moves on to the next frame of an animation of `frame_count` frames,
    /// from the last one back to the first.
    pub fn advance_frame(&mut self, frame_count: usize)
        requires
            frame_count > 0,
        ensures
            final(self).frame_index == (old(self).frame_index + 1) % (frame_count as int),
            final(self).frame_index < frame_count,
            final(self).show_popup == old(self).show_popup,
            final(self).popup_selection == old(self).popup_selection,
            final(self).notifications == old(self).notifications,
    {
        let here = self.frame_index % frame_count;
        proof {
            let index = old(self).frame_index as int;
            let count = frame_count as int;
            assert((index + 1) % count == if index % count + 1 == count {
                0
            } else {
                index % count + 1
            }) by (nonlinear_arith)
                requires
                    count > 0,
                    index >= 0,
            ;
        }
        if here + 1 == frame_count {
            self.frame_index = 0;
        } else {
            self.frame_index = here + 1;
        }
    }
}

} // verus!
