use polymorphic_packer::error::PackError;
use polymorphic_packer::event::{failure_event, ProgressEvent, COMPLETE};

#[test]
fn event_percent_is_at_most_one_hundred() {
    assert!(ProgressEvent::new("a".to_string(), 0).is_some());
    assert!(ProgressEvent::new("a".to_string(), 100).is_some());
    assert!(ProgressEvent::new("a".to_string(), 101).is_none());
    assert!(ProgressEvent::new("a".to_string(), u16::MAX).is_none());
}

#[test]
fn event_keeps_message_and_percent() {
    let event = ProgressEvent::new("Compressing payload...".to_string(), 20).unwrap();
    assert_eq!(event.message, "Compressing payload...");
    assert_eq!(event.percent, 20);
    assert_eq!(event.into_pair(), ("Compressing payload...".to_string(), 20));
}

#[test]
fn failure_event_ends_the_run_and_quotes_the_reason() {
    let event = failure_event("linker exploded");
    assert_eq!(event.message, "❌ Error: linker exploded");
    assert_eq!(event.percent, 100);
    assert_eq!(COMPLETE, 100);
}

#[test]
fn every_failure_has_its_text() {
    assert_eq!(PackError::Compression.describe(), "compression failed");
    assert_eq!(PackError::Entropy.describe(), "no secure randomness available");
    assert_eq!(PackError::Decryption.describe(), "decryption failed");
    assert_eq!(PackError::Decompression.describe(), "decompression failed");
}
