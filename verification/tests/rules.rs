use baby_birth_guessr::models::GraphPoint;
use baby_birth_guessr::models::GuessUpdate;
use baby_birth_guessr::models::LiveUpdate;
use baby_birth_guessr::models::Timestamp;
use baby_birth_guessr::rules::after_commit;
use baby_birth_guessr::rules::check_admitted;
use baby_birth_guessr::rules::check_guess;
use baby_birth_guessr::rules::check_guess_edit;
use baby_birth_guessr::rules::check_invitee;
use baby_birth_guessr::rules::check_new_event;
use baby_birth_guessr::rules::check_owner;
use baby_birth_guessr::rules::check_rows_updated;
use baby_birth_guessr::rules::guess_notification;
use baby_birth_guessr::rules::is_open;
use baby_birth_guessr::rules::rejection_of;
use baby_birth_guessr::rules::retention_limit;
use baby_birth_guessr::rules::settings_notification;
use baby_birth_guessr::rules::Rejection;
use baby_birth_guessr::rules::StoreError;
use baby_birth_guessr::rules::RETENTION_SECS;

fn at(secs: i64) -> Timestamp {
    Timestamp { secs, nanos: 0 }
}

fn point() -> GraphPoint {
    GraphPoint {
        invitee_id: 9,
        display_name: String::from("Alice"),
        color_hex: String::from("#ff00aa"),
        guessed_date: at(1_893_369_600),
        guessed_weight_bits: 0x400b_3333_3333_3333,
    }
}

#[test]
fn rejections_have_their_status() {
    assert_eq!(Rejection::BadRequest.status(), 400);
    assert_eq!(Rejection::Forbidden.status(), 403);
    assert_eq!(Rejection::NotFound.status(), 404);
    assert_eq!(Rejection::TooManyRequests.status(), 429);
    assert_eq!(Rejection::AtCapacity.status(), 503);
    assert_eq!(Rejection::Internal.status(), 500);
}

#[test]
fn denied_request_is_turned_down_at_the_gate() {
    assert_eq!(check_admitted(true), Ok(()));
    assert_eq!(check_admitted(false), Err(Rejection::TooManyRequests));
}

#[test]
fn owner_presents_the_secret_key() {
    let secret = String::from("calm-red-fox");
    assert_eq!(check_owner(&secret, &String::from("calm-red-fox")), Ok(()));
    assert_eq!(check_owner(&secret, &String::from("calm-red-fo")), Err(Rejection::Forbidden));
    assert_eq!(check_owner(&secret, &String::new()), Err(Rejection::Forbidden));
    assert_eq!(check_owner(&String::new(), &String::new()), Ok(()));
}

#[test]
fn new_event_needs_challenge_due_date_and_bounds() {
    assert_eq!(check_new_event(true, true, true), Ok(()));
    assert_eq!(check_new_event(false, true, true), Err(Rejection::BadRequest));
    assert_eq!(check_new_event(true, false, true), Err(Rejection::BadRequest));
    assert_eq!(check_new_event(true, true, false), Err(Rejection::BadRequest));
}

#[test]
fn game_without_dates_is_always_open() {
    assert!(is_open(&at(i64::MAX), None, None));
}

#[test]
fn closing_date_goes_before_due_date() {
    // Closed by the closing date although the due date is far off.
    assert!(!is_open(&at(101), Some(at(100)), Some(at(1_000))));
    // Open by the closing date although the due date has passed.
    assert!(is_open(&at(101), Some(at(200)), Some(at(50))));
    // Without a closing date the due date decides.
    assert!(!is_open(&at(101), None, Some(at(100))));
    assert!(is_open(&at(99), None, Some(at(100))));
}

#[test]
fn game_is_open_at_its_closing_time() {
    let close = Timestamp { secs: 100, nanos: 7 };
    assert!(is_open(&Timestamp { secs: 100, nanos: 7 }, Some(close), None));
    assert!(!is_open(&Timestamp { secs: 100, nanos: 8 }, Some(close), None));
}

#[test]
fn guess_is_checked_for_weight_then_time() {
    assert_eq!(check_guess(true, &at(5), None, Some(at(10))), Ok(()));
    assert_eq!(check_guess(false, &at(5), None, Some(at(10))), Err(Rejection::BadRequest));
    assert_eq!(check_guess(true, &at(11), None, Some(at(10))), Err(Rejection::Forbidden));
    assert_eq!(check_guess(false, &at(11), None, Some(at(10))), Err(Rejection::BadRequest));
}

#[test]
fn edit_is_checked_for_permission_first() {
    assert_eq!(check_guess_edit(true, true, &at(5), None, Some(at(10))), Ok(()));
    assert_eq!(
        check_guess_edit(false, true, &at(5), None, Some(at(10))),
        Err(Rejection::Forbidden)
    );
    assert_eq!(
        check_guess_edit(false, false, &at(5), None, Some(at(10))),
        Err(Rejection::Forbidden)
    );
    assert_eq!(
        check_guess_edit(true, false, &at(11), None, Some(at(10))),
        Err(Rejection::BadRequest)
    );
    assert_eq!(
        check_guess_edit(true, true, &at(11), None, Some(at(10))),
        Err(Rejection::Forbidden)
    );
}

#[test]
fn invitee_must_belong_to_the_game() {
    assert_eq!(check_invitee(4, 4), Ok(()));
    assert_eq!(check_invitee(4, 5), Err(Rejection::Forbidden));
}

#[test]
fn update_without_rows_is_not_found() {
    assert_eq!(check_rows_updated(0), Err(StoreError::NotFound));
    assert_eq!(check_rows_updated(1), Ok(()));
    assert_eq!(check_rows_updated(2), Ok(()));
}

#[test]
fn store_errors_become_rejections() {
    assert_eq!(rejection_of(StoreError::NotFound), Rejection::NotFound);
    assert_eq!(rejection_of(StoreError::Other), Rejection::Internal);
}

#[test]
fn guess_notification_carries_the_guess() {
    let update = guess_notification(42, point());
    assert_eq!(update, LiveUpdate::Guess(GuessUpdate { event_id: 42, guess: point() }));
    assert_eq!(update.event_id(), 42);
}

#[test]
fn retention_is_one_year() {
    assert_eq!(RETENTION_SECS, 365 * 24 * 60 * 60);
    let now = Timestamp { secs: 1_900_000_000, nanos: 123 };
    assert_eq!(
        retention_limit(&now),
        Timestamp { secs: 1_900_000_000 - 31_536_000, nanos: 123 }
    );
    let earliest = Timestamp { secs: i64::MIN + RETENTION_SECS, nanos: 0 };
    assert_eq!(retention_limit(&earliest), Timestamp { secs: i64::MIN, nanos: 0 });
}

#[test]
fn settings_notification_carries_the_setting() {
    let update = settings_notification(42, true);
    assert_eq!(update, LiveUpdate::EventSettings { event_id: 42, allow_guess_edits: true });
    assert_eq!(update.event_id(), 42);
    let update = settings_notification(u128::MAX, false);
    assert_eq!(update, LiveUpdate::EventSettings { event_id: u128::MAX, allow_guess_edits: false });
}

#[test]
fn committed_change_is_published_and_answered() {
    let update = guess_notification(42, point());
    let (publish, reply) = after_commit(Ok(("stored", update.clone())));
    assert_eq!(publish, Some(update));
    assert_eq!(reply, Ok("stored"));
}

#[test]
fn failed_change_is_not_published() {
    let (publish, reply) = after_commit::<u8>(Err(StoreError::Other));
    assert_eq!(publish, None);
    assert_eq!(reply, Err(Rejection::Internal));
    assert_eq!(reply.unwrap_err().status(), 500);
    let (publish, reply) = after_commit::<u8>(Err(StoreError::NotFound));
    assert_eq!(publish, None);
    assert_eq!(reply, Err(Rejection::NotFound));
}
