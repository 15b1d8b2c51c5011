use std::sync::Arc;

use peakmusic::channel::CHANNEL_CAPACITY;
use peakmusic::connection::user_connected;
use peakmusic::registry::{count_or_zero, Registry};
use peakmusic::shared::SharedRegistry;
use peakmusic::status::{get_status, PlaylistResponse};
use tokio::sync::broadcast::Sender;

#[test]
fn capacity_is_twenty() {
    assert_eq!(20, CHANNEL_CAPACITY);
}

#[test]
fn new_registry_knows_no_playlist() {
    let registry = Registry::new();
    assert!(registry.lookup("echo").is_none());
    assert!(registry.lookup("").is_none());
    assert_eq!(0, registry.subscriber_count("echo"));
}

#[test]
fn first_join_creates_the_playlist() {
    let mut registry = Registry::new();
    let created = registry.get_or_create("echo");
    let found = registry.lookup("echo").unwrap();
    assert!(found.same_channel(&created));
}

#[test]
fn joins_of_one_name_get_one_channel() {
    let mut registry = Registry::new();
    let first = registry.get_or_create("a");
    let _other = registry.get_or_create("b");
    let second = registry.get_or_create("a");
    let third = registry.get_or_create("a");
    assert!(second.same_channel(&first));
    assert!(third.same_channel(&first));
}

#[test]
fn different_names_get_different_channels() {
    let mut registry = Registry::new();
    let a = registry.get_or_create("a");
    let b = registry.get_or_create("b");
    assert!(!a.same_channel(&b));
    assert!(registry.lookup("a").unwrap().same_channel(&a));
    assert!(registry.lookup("b").unwrap().same_channel(&b));
}

#[test]
fn names_are_compared_exactly() {
    let mut registry = Registry::new();
    let lower = registry.get_or_create("echo");
    assert!(registry.lookup("Echo").is_none());
    assert!(registry.lookup("echo ").is_none());
    let upper = registry.get_or_create("Echo");
    assert!(!upper.same_channel(&lower));
}

#[test]
fn lookup_creates_nothing() {
    let mut registry = Registry::new();
    assert!(registry.lookup("a").is_none());
    assert!(registry.lookup("a").is_none());
    let a = registry.get_or_create("a");
    assert!(registry.lookup("b").is_none());
    assert!(registry.lookup("a").unwrap().same_channel(&a));
}

#[test]
fn a_new_playlist_has_no_subscriber() {
    let mut registry = Registry::new();
    let _tx = registry.get_or_create("a");
    assert_eq!(0, registry.subscriber_count("a"));
}

#[test]
fn joining_adds_one_and_leaving_takes_one_away() {
    let mut registry = Registry::new();
    let first = user_connected(registry.get_or_create("a"));
    assert_eq!(1, registry.subscriber_count("a"));
    let second = user_connected(registry.get_or_create("a"));
    assert_eq!(2, registry.subscriber_count("a"));
    let third = user_connected(registry.get_or_create("a"));
    assert_eq!(3, registry.subscriber_count("a"));
    assert_eq!(0, registry.subscriber_count("b"));
    drop(second);
    assert_eq!(2, registry.subscriber_count("a"));
    drop(first);
    assert_eq!(1, registry.subscriber_count("a"));
    drop(third);
    assert_eq!(0, registry.subscriber_count("a"));
}

#[test]
fn count_or_zero_values() {
    assert_eq!(0, count_or_zero(None));
    assert_eq!(0, count_or_zero(Some(0)));
    assert_eq!(1, count_or_zero(Some(1)));
    assert_eq!(7, count_or_zero(Some(7)));
    assert_eq!(usize::MAX, count_or_zero(Some(usize::MAX)));
}

#[test]
fn status_of_a_name_never_joined_is_zero() {
    let mut registry = Registry::new();
    let expected = PlaylistResponse { name: String::from("nobody"), user_count: 0 };
    assert_eq!(expected, get_status(&registry, String::from("nobody")));

    let _listener = user_connected(registry.get_or_create("somebody"));
    assert_eq!(expected, get_status(&registry, String::from("nobody")));
}

#[test]
fn status_creates_no_playlist() {
    let registry = Registry::new();
    let _ = get_status(&registry, String::from("a"));
    let _ = registry.subscriber_count("a");
    assert!(registry.lookup("a").is_none());
}

#[test]
fn status_keeps_the_name_as_given() {
    let mut registry = Registry::new();
    let _listener = user_connected(registry.get_or_create("Mixed Case / 1"));
    let status = get_status(&registry, String::from("Mixed Case / 1"));
    assert_eq!("Mixed Case / 1", status.name);
    assert_eq!(1, status.user_count);
    assert_eq!("", get_status(&registry, String::new()).name);
}

#[test]
fn shared_registry_starts_empty() {
    let shared = SharedRegistry::new();
    assert_eq!(0, shared.subscriber_count("a"));
    let expected = PlaylistResponse { name: String::from("a"), user_count: 0 };
    assert_eq!(expected, shared.get_status(String::from("a")));
}

#[test]
fn shared_registry_gives_one_channel_per_name() {
    let shared = SharedRegistry::new();
    let a1 = shared.get_or_create("a");
    let b = shared.get_or_create("b");
    let a2 = shared.get_or_create("a");
    assert!(a1.same_channel(&a2));
    assert!(!a1.same_channel(&b));
}

#[test]
fn shared_registry_counts_subscribers() {
    let shared = SharedRegistry::new();
    let first = user_connected(shared.get_or_create("a"));
    let second = user_connected(shared.get_or_create("a"));
    let other = user_connected(shared.get_or_create("b"));
    assert_eq!(2, shared.subscriber_count("a"));
    assert_eq!(1, shared.subscriber_count("b"));
    assert_eq!(0, shared.subscriber_count("c"));
    assert_eq!(
        PlaylistResponse { name: String::from("a"), user_count: 2 },
        shared.get_status(String::from("a"))
    );
    drop(first);
    assert_eq!(
        PlaylistResponse { name: String::from("a"), user_count: 1 },
        shared.get_status(String::from("a"))
    );
    drop(second);
    drop(other);
    assert_eq!(0, shared.subscriber_count("a"));
    assert_eq!(0, shared.subscriber_count("b"));
}

#[test]
fn shared_registry_lock_is_free_again_after_each_call() {
    let shared = SharedRegistry::new();
    let mut round: u32 = 0;
    while round < 100 {
        let _ = shared.get_or_create("a");
        let _ = shared.subscriber_count("a");
        let _ = shared.get_status(String::from("b"));
        let _ = shared.get_or_create("b");
        round += 1;
    }
    assert_eq!(0, shared.subscriber_count("a"));
}

#[test]
fn racing_joins_of_one_name_get_one_channel() {
    let runtime = tokio::runtime::Builder::new_multi_thread().worker_threads(4).build().unwrap();
    let shared = Arc::new(SharedRegistry::new());

    let mut tasks = Vec::new();
    let mut task: u32 = 0;
    while task < 32 {
        let shared = Arc::clone(&shared);
        tasks.push(runtime.spawn_blocking(move || {
            let name = if task % 2 == 0 { "even" } else { "odd" };
            (task, shared.get_or_create(name))
        }));
        task += 1;
    }

    let mut even: Vec<Sender<String>> = Vec::new();
    let mut odd: Vec<Sender<String>> = Vec::new();
    for joined in tasks {
        let (task, tx) = runtime.block_on(joined).unwrap();
        if task % 2 == 0 {
            even.push(tx);
        } else {
            odd.push(tx);
        }
    }

    assert_eq!(16, even.len());
    assert_eq!(16, odd.len());
    for tx in &even {
        assert!(tx.same_channel(&even[0]));
        assert!(!tx.same_channel(&odd[0]));
    }
    for tx in &odd {
        assert!(tx.same_channel(&odd[0]));
    }
    assert!(shared.get_or_create("even").same_channel(&even[0]));
    assert!(shared.get_or_create("odd").same_channel(&odd[0]));
}

#[test]
fn a_status_can_be_copied() {
    let status = PlaylistResponse { name: String::from("echo"), user_count: 2 };
    let copy = status.clone();
    assert_eq!(status, copy);
    assert_eq!("echo", copy.name);
    assert_eq!(2, copy.user_count);
}
