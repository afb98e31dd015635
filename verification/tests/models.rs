use baby_birth_guessr::models::GraphPoint;
use baby_birth_guessr::models::GuessUpdate;
use baby_birth_guessr::models::LiveUpdate;
use baby_birth_guessr::models::Timestamp;

#[test]
fn guess_update_belongs_to_its_event() {
    let update = LiveUpdate::Guess(GuessUpdate {
        event_id: 77,
        guess: GraphPoint {
            invitee_id: 5,
            display_name: String::from("Alice"),
            color_hex: String::from("#ff00aa"),
            guessed_date: Timestamp { secs: 1_893_369_600, nanos: 0 },
            guessed_weight_bits: 0x400b_3333_3333_3333,
        },
    });
    assert_eq!(update.event_id(), 77);
}

#[test]
fn settings_update_belongs_to_its_event() {
    let update = LiveUpdate::EventSettings { event_id: u128::MAX, allow_guess_edits: true };
    assert_eq!(update.event_id(), u128::MAX);
}

#[test]
fn updates_are_values() {
    let a = LiveUpdate::EventSettings { event_id: 1, allow_guess_edits: false };
    let b = a.clone();
    assert_eq!(a, b);
    assert_ne!(a, LiveUpdate::EventSettings { event_id: 1, allow_guess_edits: true });
}

#[test]
fn timestamps_are_ordered_by_seconds_then_nanos() {
    let t = Timestamp { secs: 10, nanos: 500 };
    assert!(Timestamp { secs: 11, nanos: 0 }.is_later_than(&t));
    assert!(Timestamp { secs: 10, nanos: 501 }.is_later_than(&t));
    assert!(!Timestamp { secs: 10, nanos: 500 }.is_later_than(&t));
    assert!(!Timestamp { secs: 10, nanos: 499 }.is_later_than(&t));
    assert!(!Timestamp { secs: 9, nanos: 999_999_999 }.is_later_than(&t));
    assert!(Timestamp { secs: 0, nanos: 0 }.is_later_than(&Timestamp { secs: -1, nanos: 999_999_999 }));
    assert!(Timestamp { secs: i64::MAX, nanos: 0 }.is_later_than(&Timestamp { secs: i64::MIN, nanos: u32::MAX }));
}
