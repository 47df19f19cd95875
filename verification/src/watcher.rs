use crate::git::GitStats;
use crate::time::{spec_gap, TimeSpan};
use crate::uwu::{get_notification_body, notification_body};
use vstd::prelude::*;

verus! {

/// What the watcher remembers from one cycle to the next.
#[derive(Debug, Clone, Copy)]
pub struct WatcherState {
    /// The sample that the last periodic notification was made from.
    pub previous_stats: Option<GitStats>,
    /// When the last periodic notification was due; at first, when the
    /// watcher started.
    pub last_notification_time: TimeSpan,
    /// Since when changes have been seen without a break and without the
    /// prompt timer being reset; nothing while the tree is clean.
    pub uncommitted_since: Option<TimeSpan>,
}

/// What the watcher finds at the start of a cycle.
#[derive(Debug, Clone, Copy)]
pub struct Reading {
    /// The statistics of the working tree, nothing where it is clean or
    /// could not be read.
    pub sample: Option<GitStats>,
    /// The time, on the clock that the state's times were taken from.
    pub now: TimeSpan,
    /// Whether the screen asked for the prompt timer to be reset since the
    /// cycle before.
    pub reset_requested: bool,
    /// Whether the sound of an earlier alert has finished playing.
    pub sound_idle: bool,
}

/// What the watcher is to do in a cycle, before it sleeps.
pub struct Orders {
    /// The body of the periodic notification, where one is due.
    pub notification: Option<String>,
    /// Whether to play the alert sound.
    pub play_sound: bool,
    /// Whether to ask the screen to show the commit prompt.
    pub show_popup: bool,
}

/// The orders of a cycle as plain values.
pub struct OrdersView {
    pub notification: Option<Seq<char>>,
    pub play_sound: bool,
    pub show_popup: bool,
}

impl View for Orders {
    type V = OrdersView;

    open spec fn view(&self) -> OrdersView {
        OrdersView {
            notification: match self.notification {
                Some(body) => Some(body@),
                None => None,
            },
            play_sound: self.play_sound,
            show_popup: self.show_popup,
        }
    }
}

/// Whether a sample shows uncommitted changes.
pub open spec fn has_changes(sample: Option<GitStats>) -> bool {
    sample matches Some(stats) && stats.total_changes > 0
}

/// Whether the periodic notification is due: more than `loop_delay` has
/// passed since the last one.
pub open spec fn notification_due(state: WatcherState, now: TimeSpan, loop_delay: TimeSpan) -> bool {
    spec_gap(now, state.last_notification_time) > loop_delay.nanos
}

/// The start of the prompt timer after the cycle's reading: none on a clean
/// tree; the present where changes are seen for the first time or a reset
/// was asked for; else as before.
pub open spec fn prompt_timer(state: WatcherState, reading: Reading) -> Option<TimeSpan> {
    if !has_changes(reading.sample) {
        None
    } else if reading.reset_requested || state.uncommitted_since is None {
        Some(reading.now)
    } else {
        state.uncommitted_since
    }
}

/// Whether the commit prompt is due: the prompt timer has run for more than
/// `loop_delay`.
pub open spec fn popup_due(state: WatcherState, reading: Reading, loop_delay: TimeSpan) -> bool {
    prompt_timer(state, reading) matches Some(since) && spec_gap(reading.now, since)
        > loop_delay.nanos
}

/// The state that a cycle leaves behind.
pub open spec fn state_after(
    state: WatcherState,
    reading: Reading,
    loop_delay: TimeSpan,
) -> WatcherState {
    if notification_due(state, reading.now, loop_delay) {
        WatcherState {
            previous_stats: reading.sample,
            last_notification_time: reading.now,
            uncommitted_since: prompt_timer(state, reading),
        }
    } else {
        WatcherState {
            previous_stats: state.previous_stats,
            last_notification_time: state.last_notification_time,
            uncommitted_since: prompt_timer(state, reading),
        }
    }
}

/// The orders that a cycle gives.
pub open spec fn orders_of(
    state: WatcherState,
    reading: Reading,
    loop_delay: TimeSpan,
    audio_alert_mode: bool,
) -> OrdersView {
    OrdersView {
        notification: if notification_due(state, reading.now, loop_delay) {
            Some(notification_body(reading.sample, state.previous_stats))
        } else {
            None
        },
        play_sound: popup_due(state, reading, loop_delay) && audio_alert_mode
            && reading.sound_idle,
        show_popup: popup_due(state, reading, loop_delay),
    }
}

impl WatcherState {
    /// The state of a watcher that starts at the time `now`: no sample yet,
    /// both timers at rest.
    pub fn new(now: TimeSpan) -> (state: WatcherState)
        ensures
            state.previous_stats is None,
            state.last_notification_time == now,
            state.uncommitted_since is None,
    {
        WatcherState { previous_stats: None, last_notification_time: now, uncommitted_since: None }
    }

    /// One cycle of the watcher: from what it remembers and what it finds to
    /// what it is to do. The periodic notification and the commit prompt go
    /// by timers of their own; both wait for more than `loop_delay`.
    pub fn cycle(&mut self, reading: Reading, loop_delay: TimeSpan, audio_alert_mode: bool) -> (orders:
        Orders)
        ensures
            *final(self) == state_after(*old(self), reading, loop_delay),
            orders@ == orders_of(*old(self), reading, loop_delay, audio_alert_mode),
            !has_changes(reading.sample) ==> !orders.show_popup,
            orders.play_sound ==> orders.show_popup,
    {
        let notify = reading.now.saturating_sub(self.last_notification_time).exceeds(loop_delay);
        let notification = if notify {
            let body = get_notification_body(reading.sample, self.previous_stats);
            self.previous_stats = reading.sample;
            self.last_notification_time = reading.now;
            Some(body)
        } else {
            None
        };
        let changed = match reading.sample {
            Some(stats) => stats.total_changes > 0,
            None => false,
        };
        let mut show_popup = false;
        if !changed {
            self.uncommitted_since = None;
        } else {
            let since = match self.uncommitted_since {
                Some(since) => if reading.reset_requested {
                    reading.now
                } else {
                    since
                },
                None => reading.now,
            };
            self.uncommitted_since = Some(since);
            show_popup = reading.now.saturating_sub(since).exceeds(loop_delay);
        }
        let play_sound = show_popup && audio_alert_mode && reading.sound_idle;
        Orders { notification, play_sound, show_popup }
    }

    /// What follows an attempt to send the request for the commit prompt.
    /// A request that went out starts a running prompt timer anew, and the
    /// watcher goes on. One that could not be sent means that the screen is
    /// gone: the watcher is to stop, and `false` is returned. The watcher
    /// has no other way to learn of it, so it goes on until a prompt is due.
    pub fn after_popup_request(&mut self, delivered: bool, now: TimeSpan) -> (go_on: bool)
        ensures
            go_on == delivered,
            *final(self) == timer_after_request(*old(self), delivered, now),
    {
        if delivered && self.uncommitted_since.is_some() {
            self.uncommitted_since = Some(now);
        }
        delivered
    }
}

/// The state after an attempt to send the request for the commit prompt.
pub open spec fn timer_after_request(
    state: WatcherState,
    delivered: bool,
    now: TimeSpan,
) -> WatcherState {
    if delivered && state.uncommitted_since is Some {
        WatcherState { uncommitted_since: Some(now), ..state }
    } else {
        state
    }
}

} // verus!
