use find_videos::event::{Event, EventType};
use find_videos::file::File;
use find_videos::util::{host_identity, local_identity, uuid_v4};

fn is_lower_hex(s: &str) -> bool {
    s.chars().all(|c| c.is_ascii_digit() || ('a'..='f').contains(&c))
}

#[test]
fn uuid_is_32_lower_hex_digits() {
    let a = uuid_v4();
    let b = uuid_v4();
    assert_eq!(a.len(), 32);
    assert!(is_lower_hex(&a));
    assert_ne!(a, b);
}

#[test]
fn identity_joins_host_and_user() {
    assert_eq!(host_identity("mac.local", "liwei"), "mac.local:liwei");
    assert_eq!(host_identity("", ""), ":");
    assert!(local_identity().contains(':'));
}

#[test]
fn new_file_keeps_given_fields() {
    let f = File::new(
        "/root/a.mp4".to_string(),
        "a.mp4".to_string(),
        false,
        Some("h:u".to_string()),
        1_700_000_000_000_000_000,
    );
    assert_eq!(f.full_path, "/root/a.mp4");
    assert_eq!(f.file_name, "a.mp4");
    assert!(!f.dir);
    assert_eq!(f.hostname, "h:u");
    assert_eq!(f.timestamp, 1_700_000_000_000_000_000);
    assert_eq!(f.id.len(), 32);
    assert!(is_lower_hex(&f.id));

    let g = File::new("/r".to_string(), "r".to_string(), true, None, 0);
    assert!(g.hostname.contains(':'));
    assert_ne!(f.id, g.id);
}

#[test]
fn create_event_mirrors_entry() {
    let f = File::new("/root/sub".to_string(), "sub".to_string(), true, Some("h:u".to_string()), 42);
    let e = Event::new_create(&f);
    assert_eq!(e.id, f.id);
    assert_eq!(e.timestamp, 42);
    assert_eq!(e.hostname, "h:u");
    assert_eq!(e.event_type, EventType::Create);
    assert_eq!(e.full_path, "/root/sub");
}

#[test]
fn event_types_are_stored_as_text() {
    assert_eq!(EventType::Create.as_text(), "create");
    assert_eq!(EventType::Delete.as_text(), "delete");
}

#[test]
fn test_event() {
    let event = Event::new_delete("/test/rust", 7);
    assert_eq!(event.event_type, EventType::Delete);
    assert_eq!(event.full_path, "/test/rust");
    assert_eq!(event.timestamp, 7);
    assert_eq!(event.id.len(), 32);
    assert!(event.hostname.contains(':'));
}
