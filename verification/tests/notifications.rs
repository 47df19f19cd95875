use kwis::time::TimeSpan;
use kwis::tui::notifications::NotificationManager;
use std::time::Instant;

fn messages(manager: &NotificationManager) -> Vec<String> {
    manager.get_notifications().iter().map(|entry| entry.message.clone()).collect()
}

fn at(seconds: u64) -> TimeSpan {
    TimeSpan::from_secs(seconds)
}

fn wait_for_the_clock() {
    let start = Instant::now();
    while start.elapsed().as_millis() < 3 {}
}

#[test]
fn a_new_queue_is_empty() {
    let manager = NotificationManager::new(5);
    assert!(manager.get_notifications().is_empty());
    let manager = NotificationManager::new(0);
    assert_eq!(manager.get_notifications().len(), 0);
}

#[test]
fn entries_keep_their_order_and_their_time() {
    let mut manager = NotificationManager::new(5);
    manager.add_notif_at("one".to_string(), at(1));
    manager.add_notif_at("two".to_string(), at(2));
    manager.add_notif_at("three".to_string(), at(2));
    assert_eq!(messages(&manager), ["one", "two", "three"]);
    let times: Vec<TimeSpan> =
        manager.get_notifications().iter().map(|entry| entry.timestamp).collect();
    assert_eq!(times, [at(1), at(2), at(2)]);
}

#[test]
fn a_full_queue_loses_exactly_its_oldest_entry() {
    let mut manager = NotificationManager::new(5);
    for number in 1..=5u64 {
        manager.add_notif_at(format!("n{}", number), at(number));
        assert_eq!(manager.get_notifications().len() as u64, number);
    }
    assert_eq!(messages(&manager), ["n1", "n2", "n3", "n4", "n5"]);
    manager.add_notif_at("n6".to_string(), at(6));
    assert_eq!(messages(&manager), ["n2", "n3", "n4", "n5", "n6"]);
    manager.add_notif_at("n7".to_string(), at(7));
    assert_eq!(messages(&manager), ["n3", "n4", "n5", "n6", "n7"]);
    for number in 8..200u64 {
        manager.add_notif_at(format!("n{}", number), at(number));
        assert_eq!(manager.get_notifications().len(), 5);
    }
    assert_eq!(messages(&manager), ["n195", "n196", "n197", "n198", "n199"]);
}

#[test]
fn a_queue_for_one_entry_shows_the_latest() {
    let mut manager = NotificationManager::new(1);
    manager.add_notif_at("first".to_string(), at(0));
    assert_eq!(messages(&manager), ["first"]);
    manager.add_notif_at("second".to_string(), at(0));
    assert_eq!(messages(&manager), ["second"]);
}

#[test]
fn a_queue_without_room_keeps_nothing() {
    let mut manager = NotificationManager::new(0);
    manager.add_notif_at("first".to_string(), at(0));
    assert!(messages(&manager).is_empty());
    manager.add_notif_at("second".to_string(), at(0));
    manager.add_notif("third".to_string());
    assert!(messages(&manager).is_empty());
    manager.update_at(at(900), at(1));
    manager.update(at(900));
    assert!(messages(&manager).is_empty());
}

#[test]
fn no_queue_grows_beyond_its_capacity() {
    for capacity in 0..8usize {
        let mut manager = NotificationManager::new(capacity);
        for number in 0..20u64 {
            if number % 3 == 0 {
                manager.add_notif(format!("n{}", number));
            } else {
                manager.add_notif_at(format!("n{}", number), at(number));
            }
            assert!(manager.get_notifications().len() <= capacity);
            assert_eq!(manager.get_notifications().len() as u64, (number + 1).min(capacity as u64));
            if capacity > 0 {
                let newest = manager.get_notifications().back().map(|entry| entry.message.clone());
                assert_eq!(newest, Some(format!("n{}", number)));
            }
        }
    }
}

#[test]
fn update_drops_what_is_older_than_the_greatest_age() {
    let mut manager = NotificationManager::new(10);
    manager.add_notif_at("a".to_string(), at(0));
    manager.add_notif_at("b".to_string(), at(100));
    manager.add_notif_at("c".to_string(), at(50));
    manager.add_notif_at("d".to_string(), at(101));
    manager.add_notif_at("e".to_string(), at(1000));
    manager.update_at(at(900), at(1000));
    assert_eq!(messages(&manager), ["b", "d", "e"]);
    // the same moment again changes nothing
    manager.update_at(at(900), at(1000));
    assert_eq!(messages(&manager), ["b", "d", "e"]);
    // an entry exactly as old as the greatest age stays
    manager.update_at(at(900), at(1001));
    assert_eq!(messages(&manager), ["d", "e"]);
    manager.update_at(at(900), TimeSpan::from_nanos(1001 * 1_000_000_000 + 1));
    assert_eq!(messages(&manager), ["e"]);
    manager.update_at(at(0), at(1000));
    assert_eq!(messages(&manager), ["e"]);
    manager.update_at(at(0), TimeSpan::from_nanos(1000 * 1_000_000_000 + 1));
    assert!(messages(&manager).is_empty());
    manager.update_at(at(0), at(5000));
    assert!(messages(&manager).is_empty());
}

#[test]
fn an_entry_from_the_future_has_no_age() {
    let mut manager = NotificationManager::new(3);
    manager.add_notif_at("later".to_string(), at(500));
    manager.update_at(at(0), at(10));
    assert_eq!(messages(&manager), ["later"]);
}

#[test]
fn update_leaves_room_for_new_entries() {
    let mut manager = NotificationManager::new(2);
    manager.add_notif_at("a".to_string(), at(0));
    manager.add_notif_at("b".to_string(), at(10));
    manager.update_at(at(5), at(12));
    assert_eq!(messages(&manager), ["b"]);
    manager.add_notif_at("c".to_string(), at(12));
    assert_eq!(messages(&manager), ["b", "c"]);
    manager.add_notif_at("d".to_string(), at(13));
    assert_eq!(messages(&manager), ["c", "d"]);
}

#[test]
fn the_clock_stamps_and_ages_entries() {
    let mut manager = NotificationManager::new(5);
    wait_for_the_clock();
    manager.add_notif("first".to_string());
    wait_for_the_clock();
    manager.add_notif("second".to_string());
    let times: Vec<TimeSpan> =
        manager.get_notifications().iter().map(|entry| entry.timestamp).collect();
    assert!(times[0].as_nanos() >= 3_000_000);
    assert!(times[1].as_nanos() >= times[0].as_nanos() + 3_000_000);
    manager.update(at(900));
    assert_eq!(messages(&manager), ["first", "second"]);
    wait_for_the_clock();
    manager.update(TimeSpan::from_millis(1));
    assert!(messages(&manager).is_empty());
}

#[test]
fn the_clock_keeps_the_capacity() {
    let mut manager = NotificationManager::new(5);
    for number in 0..8 {
        manager.add_notif(format!("n{}", number));
    }
    assert_eq!(messages(&manager), ["n3", "n4", "n5", "n6", "n7"]);
}
