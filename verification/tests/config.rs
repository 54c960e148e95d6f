use watchexec::config::{is_valid_channel_size, MAX_CHANNEL_SIZE};
use watchexec::event::{Event, Tag};

#[test]
fn largest_capacity_is_an_eighth_of_the_address_space() {
    assert_eq!(MAX_CHANNEL_SIZE, usize::MAX >> 3);
}

#[test]
fn capacities_from_one_to_the_limit_are_valid() {
    assert!(is_valid_channel_size(1));
    assert!(is_valid_channel_size(1024));
    assert!(is_valid_channel_size(MAX_CHANNEL_SIZE - 1));
    assert!(is_valid_channel_size(MAX_CHANNEL_SIZE));
}

#[test]
fn capacity_of_zero_is_not_valid() {
    assert!(!is_valid_channel_size(0));
}

#[test]
fn capacity_above_the_limit_is_not_valid() {
    assert!(!is_valid_channel_size(MAX_CHANNEL_SIZE + 1));
    assert!(!is_valid_channel_size(usize::MAX));
}

#[test]
fn default_event_is_empty() {
    let event = Event::default();
    assert!(event.tags.is_empty());
    assert!(event.is_empty());
}

#[test]
fn event_with_a_tag_is_not_empty() {
    assert!(!Event { tags: vec![Tag::Signal(15)] }.is_empty());
    assert!(!Event { tags: vec![Tag::Path(String::from("a")), Tag::Signal(1)] }.is_empty());
}
