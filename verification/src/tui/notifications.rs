use crate::time::{spec_gap, TimeSpan};
use std::collections::VecDeque;
use std::time::Instant;
use vstd::prelude::*;
use vstd::string::*;

verus! {

/// A reading of the standard library's monotonic clock. Nothing can be seen
/// inside one: it only serves to measure the time since it was taken.
#[verifier::external_type_specification]
#[verifier::external_body]
pub struct ExInstant(Instant);

/// A line for the notification panel and the time it was made at, counted
/// from the moment its manager was made.
pub struct Notification {
    pub message: String,
    pub timestamp: TimeSpan,
}

/// A notification as plain values.
pub struct NotificationView {
    pub message: Seq<char>,
    pub timestamp: TimeSpan,
}

impl View for Notification {
    type V = NotificationView;

    open spec fn view(&self) -> NotificationView {
        NotificationView { message: self.message@, timestamp: self.timestamp }
    }
}

/// The notifications of a queue as plain values, oldest first.
pub open spec fn views(queue: Seq<Notification>) -> Seq<NotificationView> {
    queue.map_values(|entry: Notification| entry@)
}

/// The queue after `entry` was added under the limit `capacity`: the entry
/// joins at the end, and the oldest entries leave as far as the limit asks.
/// A queue without room keeps nothing.
pub open spec fn appended(
    queue: Seq<NotificationView>,
    capacity: nat,
    entry: NotificationView,
) -> Seq<NotificationView> {
    if capacity == 0 {
        Seq::empty()
    } else if queue.len() >= capacity {
        queue.subrange(queue.len() - capacity + 1, queue.len() as int).push(entry)
    } else {
        queue.push(entry)
    }
}

/// Whether a notification is still shown at the time `now`: it is, unless it
/// is older than `max_age`.
pub open spec fn is_fresh(entry: NotificationView, now: TimeSpan, max_age: TimeSpan) -> bool {
    spec_gap(now, entry.timestamp) <= max_age.nanos
}

/// The queue without the notifications that are older than `max_age` at the
/// time `now`; the others keep their order.
pub open spec fn unexpired(
    queue: Seq<NotificationView>,
    now: TimeSpan,
    max_age: TimeSpan,
) -> Seq<NotificationView> {
    queue.filter(|entry: NotificationView| is_fresh(entry, now, max_age))
}

/// `Instant::now` of the standard library: a reading of the monotonic clock.
/// Nothing is claimed of it.
#[verifier::external_body]
fn clock_reading() -> Instant {
    Instant::now()
}

/// `Instant::elapsed` of the standard library, in whole nanoseconds
/// (`Duration::as_nanos`): the time that has passed since `origin` was read.
/// Nothing is claimed of it.
#[verifier::external_body]
fn clock_elapsed(origin: &Instant) -> TimeSpan {
    TimeSpan { nanos: origin.elapsed().as_nanos() }
}

/// The notifications on screen: a queue, oldest first, that drops its oldest
/// entry to make room for a new one and loses entries to age.
pub struct NotificationManager {
    notifications: VecDeque<Notification>,
    max_notifs: usize,
    origin: Instant,
}

impl View for NotificationManager {
    type V = Seq<NotificationView>;

    closed spec fn view(&self) -> Seq<NotificationView> {
        views(self.notifications@)
    }
}

impl NotificationManager {
    #[verifier::type_invariant]
    spec fn within_capacity(&self) -> bool {
        self.notifications@.len() <= self.max_notifs
    }

    /// The greatest number of entries that the queue holds.
    pub closed spec fn capacity(&self) -> nat {
        self.max_notifs as nat
    }

    /// An empty queue with the given capacity.
    pub fn new(max_notifs: usize) -> (manager: NotificationManager)
        ensures
            manager@ == Seq::<NotificationView>::empty(),
            manager.capacity() == max_notifs,
    {
        let manager = NotificationManager {
            notifications: VecDeque::new(),
            max_notifs,
            origin: clock_reading(),
        };
        assert(manager@ =~= Seq::<NotificationView>::empty());
        manager
    }

    /// Adds `message` with the time `now`. A full queue loses its oldest
    /// entry for it; a queue without room drops the message.
    pub fn add_notif_at(&mut self, message: String, now: TimeSpan)
        ensures
            final(self)@ == appended(
                old(self)@,
                old(self).capacity(),
                NotificationView { message: message@, timestamp: now },
            ),
            final(self).capacity() == old(self).capacity(),
            final(self)@.len() <= final(self).capacity(),
    {
        proof {
            use_type_invariant(&*self);
        }
        let ghost before = self.notifications@;
        if self.max_notifs == 0 {
            assert(views(before) =~= Seq::<NotificationView>::empty());
            return;
        }
        let mut queue: VecDeque<Notification> = VecDeque::new();
        std::mem::swap(&mut self.notifications, &mut queue);
        if queue.len() == self.max_notifs {
            queue.pop_front();
        }
        let entry = Notification { message, timestamp: now };
        queue.push_back(entry);
        std::mem::swap(&mut self.notifications, &mut queue);
        proof {
            if before.len() == self.max_notifs {
                assert(views(before.subrange(1, before.len() as int).push(entry)) =~= views(
                    before,
                ).subrange(1, before.len() as int).push(entry@));
            } else {
                assert(views(before.push(entry)) =~= views(before).push(entry@));
            }
        }
    }

    /// Adds `message` with the time of the call.
    pub fn add_notif(&mut self, message: String)
        ensures
            exists|now: TimeSpan|
                final(self)@ == #[trigger] appended(
                    old(self)@,
                    old(self).capacity(),
                    NotificationView { message: message@, timestamp: now },
                ),
            final(self).capacity() == old(self).capacity(),
            final(self)@.len() <= final(self).capacity(),
    {
        let now = clock_elapsed(&self.origin);
        self.add_notif_at(message, now);
    }

    /// Drops the notifications that are older than `max_age` at the time `now`.
    pub fn update_at(&mut self, max_age: TimeSpan, now: TimeSpan)
        ensures
            final(self)@ == unexpired(old(self)@, now, max_age),
            final(self).capacity() == old(self).capacity(),
            final(self)@.len() <= old(self)@.len(),
            final(self)@.len() <= final(self).capacity(),
    {
        proof {
            use_type_invariant(&*self);
        }
        let ghost before = self.notifications@;
        let ghost fresh = |entry: NotificationView| is_fresh(entry, now, max_age);
        let mut queue: VecDeque<Notification> = VecDeque::new();
        std::mem::swap(&mut self.notifications, &mut queue);
        let total = queue.len();
        let mut kept: VecDeque<Notification> = VecDeque::new();
        let mut done: usize = 0;
        proof {
            reveal(Seq::filter);
            assert(views(before).subrange(0, 0).filter(fresh) =~= views(kept@));
            assert(before.subrange(0, total as int) =~= before);
        }
        while done < total
            invariant
                total == before.len(),
                done <= total,
                fresh == |entry: NotificationView| is_fresh(entry, now, max_age),
                queue@ == before.subrange(done as int, total as int),
                views(kept@) == views(before).subrange(0, done as int).filter(fresh),
                kept@.len() <= done,
            decreases total - done,
        {
            let next = queue.pop_front();
            let entry = next.unwrap();
            proof {
                reveal(Seq::filter);
                assert(entry == before[done as int]);
                assert(views(before).subrange(0, done + 1).drop_last() =~= views(before).subrange(
                    0,
                    done as int,
                ));
                assert(views(before).subrange(0, done + 1).last() == entry@);
                assert(before.subrange(done as int, total as int).subrange(1, total - done)
                    =~= before.subrange(done + 1, total as int));
            }
            let ghost kept_before = kept@;
            if !now.saturating_sub(entry.timestamp).exceeds(max_age) {
                kept.push_back(entry);
                assert(views(kept_before.push(entry)) =~= views(kept_before).push(entry@));
            }
            done += 1;
        }
        std::mem::swap(&mut self.notifications, &mut kept);
        proof {
            assert(views(before).subrange(0, total as int) =~= views(before));
        }
    }

    /// Drops the notifications that are older than `max_age` at the time of
    /// the call.
    pub fn update(&mut self, max_age: TimeSpan)
        ensures
            exists|now: TimeSpan| final(self)@ == #[trigger] unexpired(old(self)@, now, max_age),
            final(self).capacity() == old(self).capacity(),
            final(self)@.len() <= old(self)@.len(),
            final(self)@.len() <= final(self).capacity(),
    {
        let now = clock_elapsed(&self.origin);
        self.update_at(max_age, now);
    }

    /// The notifications, oldest first.
    pub fn get_notifications(&self) -> (queue: &VecDeque<Notification>)
        ensures
            views(queue@) == self@,
            queue@.len() <= self.capacity(),
    {
        proof {
            use_type_invariant(self);
        }
        &self.notifications
    }
}

/// Whatever the capacity and whatever the queue, a queue that an entry was
/// added to is no longer than the capacity. The entry is its last one
/// wherever there is room for one; a queue that was not yet full has lost
/// nothing, and a full one has lost its oldest entry and no other.
pub proof fn lemma_queue_keeps_capacity(
    queue: Seq<NotificationView>,
    capacity: nat,
    entry: NotificationView,
)
    ensures
        appended(queue, capacity, entry).len() <= capacity,
        capacity > 0 ==> appended(queue, capacity, entry).last() == entry,
        queue.len() < capacity ==> appended(queue, capacity, entry) == queue.push(entry),
        queue.len() == capacity && capacity > 0 ==> appended(queue, capacity, entry)
            == queue.subrange(1, queue.len() as int).push(entry),
{
}

/// After an update no notification that is left is older than the greatest
/// age, every notification that was not older is still there, and nothing
/// is there that was not there before.
pub proof fn lemma_update_drops_the_old_only(
    queue: Seq<NotificationView>,
    now: TimeSpan,
    max_age: TimeSpan,
)
    ensures
        forall|i: int|
            0 <= i < unexpired(queue, now, max_age).len() ==> is_fresh(
                #[trigger] unexpired(queue, now, max_age)[i],
                now,
                max_age,
            ),
        forall|i: int|
            0 <= i < queue.len() && is_fresh(queue[i], now, max_age) ==> unexpired(
                queue,
                now,
                max_age,
            ).contains(#[trigger] queue[i]),
        forall|i: int|
            0 <= i < unexpired(queue, now, max_age).len() ==> queue.contains(
                #[trigger] unexpired(queue, now, max_age)[i],
            ),
        unexpired(queue, now, max_age).len() <= queue.len(),
{
    let fresh = |entry: NotificationView| is_fresh(entry, now, max_age);
    let kept = queue.filter(fresh);
    assert forall|i: int| 0 <= i < kept.len() implies is_fresh(#[trigger] kept[i], now, max_age)
        && queue.contains(kept[i]) by {
        queue.lemma_filter_pred(fresh, i);
        queue.lemma_filter_contains_rev(fresh, kept[i]);
    }
    assert forall|i: int| 0 <= i < queue.len() && is_fresh(queue[i], now, max_age) implies kept.contains(
        #[trigger] queue[i],
    ) by {
        queue.lemma_filter_contains(fresh, i);
    }
    queue.lemma_filter_len(fresh);
}

} // verus!
