use post_store::ingress::{BAD_REQUEST, CREATED, INTERNAL_SERVER_ERROR};
use post_store::journal::Verb;
use post_store::{
    classify, reject, respond, settle, validate, verdict, Mailbox, NewPost, Post, Response,
    SqlFailure, StoreError, ValidationError,
};

fn request(content: &str, email: &str) -> NewPost {
    NewPost::new(String::from(content), String::from(email))
}

fn post() -> Post {
    Post {
        id: 3,
        user_id: 2,
        content: String::from("hello"),
        created_at: 1700000000,
        updated_at: 1700000000,
    }
}

#[test]
fn a_busy_engine_is_busy_whatever_the_extended_bits() {
    assert_eq!(classify(SqlFailure::Engine { extended_code: 5 }), StoreError::Busy);
    assert_eq!(classify(SqlFailure::Engine { extended_code: 261 }), StoreError::Busy);
    assert_eq!(classify(SqlFailure::Engine { extended_code: 517 }), StoreError::Busy);
    assert_eq!(classify(SqlFailure::Engine { extended_code: 773 }), StoreError::Busy);
}

#[test]
fn other_engine_failures_are_the_catch_all() {
    assert_eq!(
        classify(SqlFailure::Engine { extended_code: 6 }),
        StoreError::Store { code: Some(6) }
    );
    assert_eq!(
        classify(SqlFailure::Engine { extended_code: 19 }),
        StoreError::Store { code: Some(19) }
    );
    assert_eq!(
        classify(SqlFailure::Engine { extended_code: 275 }),
        StoreError::Store { code: Some(275) }
    );
    assert_eq!(
        classify(SqlFailure::Engine { extended_code: 1280 }),
        StoreError::Store { code: Some(1280) }
    );
    assert_eq!(classify(SqlFailure::Other), StoreError::Store { code: None });
}

#[test]
fn a_missing_row_is_not_found() {
    assert_eq!(classify(SqlFailure::NoRows), StoreError::NotFound);
}

#[test]
fn only_busy_and_overloaded_are_worth_retrying() {
    assert!(StoreError::Busy.is_retryable());
    assert!(StoreError::Overloaded.is_retryable());
    assert!(!StoreError::NotFound.is_retryable());
    assert!(!StoreError::Closed.is_retryable());
    assert!(!StoreError::Store { code: Some(19) }.is_retryable());
    assert!(!StoreError::Store { code: None }.is_retryable());
}

#[test]
fn a_transaction_returns_what_its_operation_returned_if_the_commit_went_well() {
    assert_eq!(settle(Ok(7), Ok(())), Ok(7));
}

#[test]
fn a_failed_commit_fails_the_transaction() {
    assert_eq!(settle(Ok(7), Err(StoreError::Busy)), Err(StoreError::Busy));
    assert_eq!(
        settle(Ok(7), Err(StoreError::Store { code: Some(13) })),
        Err(StoreError::Store { code: Some(13) })
    );
}

#[test]
fn a_failed_rollback_does_not_hide_the_error_of_the_operation() {
    assert_eq!(settle(Err::<i32, _>(StoreError::NotFound), Ok(())), Err(StoreError::NotFound));
    assert_eq!(
        settle(Err::<i32, _>(StoreError::NotFound), Err(StoreError::Busy)),
        Err(StoreError::NotFound)
    );
}

#[test]
fn the_verdict_names_every_field_that_failed() {
    assert_eq!(verdict(true, true), Ok(()));
    assert_eq!(verdict(false, true), Err(ValidationError { content: true, email: false }));
    assert_eq!(verdict(true, false), Err(ValidationError { content: false, email: true }));
    assert_eq!(verdict(false, false), Err(ValidationError { content: true, email: true }));
}

#[test]
fn a_request_with_content_and_an_address_is_valid() {
    assert_eq!(validate(&request("hello", "a@example.com")), Ok(()));
    assert_eq!(validate(&request("x", "weirder-email@here.and.there.com")), Ok(()));
    assert_eq!(validate(&request("\u{e9}", "email@[127.0.0.1]")), Ok(()));
}

#[test]
fn empty_content_is_invalid() {
    assert_eq!(
        validate(&request("", "a@example.com")),
        Err(ValidationError { content: true, email: false })
    );
}

#[test]
fn a_text_that_is_no_address_is_invalid() {
    for email in ["", "abc", "abc@", "a @x.cz", "something@@somewhere.com", "@example.com"] {
        assert_eq!(
            validate(&request("hello", email)),
            Err(ValidationError { content: false, email: true })
        );
    }
}

#[test]
fn both_fields_can_be_invalid_at_once() {
    assert_eq!(
        validate(&request("", "not an address")),
        Err(ValidationError { content: true, email: true })
    );
}

#[test]
fn a_written_post_is_answered_with_created() {
    let response = respond(Ok(post()));
    assert_eq!(response, Response::Created(post()));
    assert_eq!(response.status(), 201);
    assert_eq!(CREATED, 201);
}

#[test]
fn every_failure_of_the_core_is_the_same_opaque_answer() {
    for error in [
        StoreError::Busy,
        StoreError::NotFound,
        StoreError::Closed,
        StoreError::Overloaded,
        StoreError::Store { code: Some(275) },
        StoreError::Store { code: None },
    ] {
        let response = respond(Err(error));
        assert_eq!(response, Response::InternalServerError);
        assert_eq!(response.status(), 500);
    }
    assert_eq!(INTERNAL_SERVER_ERROR, 500);
}

#[test]
fn an_invalid_request_is_answered_with_bad_request() {
    let violated = ValidationError { content: true, email: false };
    let response = reject(violated);
    assert_eq!(response, Response::BadRequest(violated));
    assert_eq!(response.status(), 400);
    assert_eq!(BAD_REQUEST, 400);
}

#[test]
fn a_copy_of_a_request_is_equal_to_it() {
    let first = request("hello", "a@example.com");
    let copy = first.duplicate();
    assert_eq!(copy, first);
    assert_eq!(copy.content, "hello");
    assert_eq!(copy.email, "a@example.com");
}

#[test]
fn tickets_count_up_from_zero() {
    let mut mailbox = Mailbox::new(3);
    assert_eq!(mailbox.waiting(), 0);
    assert_eq!(mailbox.submit(request("a", "a@example.com")), Ok(0));
    assert_eq!(mailbox.submit(request("b", "b@example.com")), Ok(1));
    assert_eq!(mailbox.submit(request("c", "c@example.com")), Ok(2));
    assert_eq!(mailbox.waiting(), 3);
}

#[test]
fn a_full_mailbox_is_overloaded() {
    let mut mailbox = Mailbox::new(1);
    assert_eq!(mailbox.submit(request("a", "a@example.com")), Ok(0));
    assert_eq!(mailbox.submit(request("b", "b@example.com")), Err(StoreError::Overloaded));
    assert_eq!(mailbox.waiting(), 1);
    assert!(mailbox.next().is_some());
    assert_eq!(mailbox.submit(request("c", "c@example.com")), Ok(1));
}

#[test]
fn a_mailbox_without_room_takes_nothing() {
    let mut mailbox = Mailbox::new(0);
    assert_eq!(mailbox.submit(request("a", "a@example.com")), Err(StoreError::Overloaded));
    assert!(mailbox.next().is_none());
}

#[test]
fn a_closed_mailbox_is_closed_even_when_full() {
    let mut mailbox = Mailbox::new(1);
    assert_eq!(mailbox.submit(request("a", "a@example.com")), Ok(0));
    mailbox.close();
    assert_eq!(mailbox.submit(request("b", "b@example.com")), Err(StoreError::Closed));
    assert_eq!(mailbox.waiting(), 1);
    let front = mailbox.next().unwrap();
    assert_eq!(front.ticket, 0);
    assert_eq!(mailbox.submit(request("c", "c@example.com")), Err(StoreError::Closed));
}

#[test]
fn the_mailbox_hands_out_what_waited_longest() {
    let mut mailbox = Mailbox::new(4);
    mailbox.submit(request("a", "a@example.com")).unwrap();
    mailbox.submit(request("b", "b@example.com")).unwrap();
    mailbox.submit(request("c", "c@example.com")).unwrap();

    let first = mailbox.next().unwrap();
    assert_eq!((first.ticket, first.request.content.as_str()), (0, "a"));
    mailbox.submit(request("d", "d@example.com")).unwrap();
    let second = mailbox.next().unwrap();
    assert_eq!((second.ticket, second.request.content.as_str()), (1, "b"));
    let third = mailbox.next().unwrap();
    assert_eq!((third.ticket, third.request.content.as_str()), (2, "c"));
    let fourth = mailbox.next().unwrap();
    assert_eq!((fourth.ticket, fourth.request.content.as_str()), (3, "d"));
    assert!(mailbox.next().is_none());
    assert_eq!(mailbox.waiting(), 0);
}

#[test]
fn every_verb_has_its_statement() {
    assert_eq!(Verb::Begin.text(), "BEGIN IMMEDIATE TRANSACTION");
    assert_eq!(Verb::Commit.text(), "COMMIT");
    assert_eq!(Verb::Rollback.text(), "ROLLBACK");
    assert_eq!(Verb::Optimize.text(), "PRAGMA optimize");
    assert_eq!(Verb::BusyTimeout.text(), "busy_timeout");
    assert_eq!(Verb::UpsertUser.text(), "INSERT OR IGNORE INTO users (email) VALUES (?1)");
    let insert = Verb::InsertPost.text();
    assert!(insert.contains("INSERT INTO posts"));
    assert!(insert.contains("WHERE       email = ?2"));
    assert!(insert.contains("RETURNING   id, user_id, content, created_at, updated_at"));
    let profile = Verb::Configure.text();
    for pragma in [
        "PRAGMA journal_mode = wal;",
        "PRAGMA synchronous = normal;",
        "PRAGMA foreign_keys = on;",
        "PRAGMA busy_timeout = 10000;",
        "PRAGMA optimize = 0x10002;",
    ] {
        assert!(profile.contains(pragma));
    }
}
