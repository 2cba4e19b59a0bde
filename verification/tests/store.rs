use post_store::{
    create_post, immediate_tx, new_conn, transact, NewPost, StorageHandle, StoreError,
    WriteCoordinator,
};

const SCHEMA: &str = "
    DROP TABLE IF EXISTS posts;
    DROP TABLE IF EXISTS users;
    CREATE TABLE users (
        id INTEGER PRIMARY KEY,
        email TEXT UNIQUE NOT NULL
    );
    CREATE TABLE posts (
        id INTEGER PRIMARY KEY,
        user_id INTEGER NOT NULL REFERENCES users(id),
        content TEXT NOT NULL CHECK (length(content) > 0),
        created_at INTEGER NOT NULL DEFAULT (unixepoch()),
        updated_at INTEGER NOT NULL DEFAULT (unixepoch())
    );
";

/// An empty store in memory that lives as long as the connection returned,
/// and the path under which other connections reach it.
fn fresh_store(name: &str) -> (rusqlite::Connection, String) {
    let path = format!("file:{}?mode=memory&cache=shared", name);
    let keeper = rusqlite::Connection::open(&path).unwrap();
    keeper.execute_batch(SCHEMA).unwrap();
    (keeper, path)
}

fn count(keeper: &rusqlite::Connection, table: &str) -> i64 {
    keeper
        .query_row(&format!("SELECT count(*) FROM {}", table), [], |row| row.get(0))
        .unwrap()
}

fn request(content: &str, email: &str) -> NewPost {
    NewPost { content: String::from(content), email: String::from(email) }
}

#[test]
fn test_db() {
    let (_keeper, path) = fresh_store("test_db");
    let mut conn = new_conn(&path).unwrap();

    let busy_t = conn.busy_timeout().unwrap();
    assert_eq!(busy_t, 10000);

    let post = transact(
        &mut conn,
        &NewPost {
            content: String::from("content"),
            email: String::from("email@gmail.com"),
        },
    )
    .unwrap();

    assert!(post.id > 0);
    assert_eq!(post.content, "content");

    conn.optimize().unwrap();
}

#[test]
fn first_and_second_post_of_one_author() {
    let (keeper, path) = fresh_store("first_and_second");
    let mut conn = new_conn(&path).unwrap();

    let first = transact(&mut conn, &request("hello", "a@example.com")).unwrap();
    assert_eq!(first.content, "hello");
    assert_eq!(first.id, 1);
    let user_id: i64 = keeper
        .query_row("SELECT id FROM users WHERE email = 'a@example.com'", [], |row| row.get(0))
        .unwrap();
    assert_eq!(first.user_id, user_id);

    let second = transact(&mut conn, &request("world", "a@example.com")).unwrap();
    assert_eq!(second.content, "world");
    assert_eq!(second.id, 2);
    assert_eq!(second.user_id, first.user_id);
    assert_eq!(count(&keeper, "users"), 1);
    assert_eq!(count(&keeper, "posts"), 2);
}

#[test]
fn empty_content_is_rejected_by_the_store_and_leaves_no_row() {
    let (keeper, path) = fresh_store("empty_content");
    let mut conn = new_conn(&path).unwrap();

    let written = transact(&mut conn, &request("", "a@example.com"));
    // 275 is SQLite's extended code for a CHECK constraint that failed.
    assert_eq!(written, Err(StoreError::Store { code: Some(275) }));
    assert_eq!(count(&keeper, "users"), 0);
    assert_eq!(count(&keeper, "posts"), 0);
    assert_eq!(conn.rollback_failure(), None);
}

#[test]
fn a_failed_request_leaves_earlier_rows_alone() {
    let (keeper, path) = fresh_store("failed_after_success");
    let mut conn = new_conn(&path).unwrap();

    transact(&mut conn, &request("kept", "a@example.com")).unwrap();
    let users_before = count(&keeper, "users");
    let posts_before = count(&keeper, "posts");

    assert!(transact(&mut conn, &request("", "b@example.com")).is_err());
    assert_eq!(count(&keeper, "users"), users_before);
    assert_eq!(count(&keeper, "posts"), posts_before);

    let after = transact(&mut conn, &request("next", "b@example.com")).unwrap();
    assert_eq!(after.content, "next");
    assert_eq!(count(&keeper, "users"), 2);
    assert_eq!(count(&keeper, "posts"), 2);
}

#[test]
fn two_authors_get_two_users() {
    let (keeper, path) = fresh_store("two_authors");
    let mut conn = new_conn(&path).unwrap();

    let first = transact(&mut conn, &request("one", "a@example.com")).unwrap();
    let second = transact(&mut conn, &request("two", "b@example.com")).unwrap();
    assert_ne!(first.user_id, second.user_id);
    assert_ne!(first.id, second.id);
    assert_eq!(count(&keeper, "users"), 2);
    assert_eq!(count(&keeper, "posts"), 2);
}

#[test]
fn timestamps_of_a_fresh_post_are_equal() {
    let (_keeper, path) = fresh_store("timestamps");
    let mut conn = new_conn(&path).unwrap();

    let post = transact(&mut conn, &request("hello", "a@example.com")).unwrap();
    assert_eq!(post.created_at, post.updated_at);
    assert!(post.created_at > 0);
}

#[test]
fn an_operation_that_fails_is_rolled_back() {
    let (keeper, path) = fresh_store("operation_fails");
    let mut conn = new_conn(&path).unwrap();

    let returned = immediate_tx(&mut conn, |scope: &mut StorageHandle| {
        create_post(scope, &request("written and undone", "a@example.com"))?;
        Err::<(), StoreError>(StoreError::NotFound)
    });
    assert_eq!(returned, Err(StoreError::NotFound));
    assert_eq!(count(&keeper, "users"), 0);
    assert_eq!(count(&keeper, "posts"), 0);
    assert_eq!(conn.rollback_failure(), None);
}

#[test]
fn an_operation_that_succeeds_is_committed() {
    let (keeper, path) = fresh_store("operation_succeeds");
    let mut conn = new_conn(&path).unwrap();

    let returned = immediate_tx(&mut conn, |scope: &mut StorageHandle| {
        scope.upsert_user("a@example.com")?;
        scope.upsert_user("a@example.com")?;
        scope.upsert_user("b@example.com")?;
        Ok(7)
    });
    assert_eq!(returned, Ok(7));
    assert_eq!(count(&keeper, "users"), 2);
}

#[test]
fn a_post_without_its_user_is_not_found() {
    let (keeper, path) = fresh_store("no_user");
    let mut conn = new_conn(&path).unwrap();

    let returned = immediate_tx(&mut conn, |scope: &mut StorageHandle| {
        scope.insert_post("orphan", "nobody@example.com")
    });
    assert_eq!(returned, Err(StoreError::NotFound));
    assert_eq!(count(&keeper, "posts"), 0);
}

#[test]
fn a_transaction_inside_a_transaction_is_refused() {
    let (keeper, path) = fresh_store("nested");
    let mut conn = new_conn(&path).unwrap();

    let returned = immediate_tx(&mut conn, |scope: &mut StorageHandle| {
        transact(scope, &request("inner", "a@example.com"))
    });
    // 1 is SQLite's generic error; the store refuses to begin twice.
    assert_eq!(returned, Err(StoreError::Store { code: Some(1) }));
    assert_eq!(count(&keeper, "posts"), 0);
}

#[test]
fn a_store_that_cannot_be_opened_is_a_store_error() {
    let opened = new_conn("/no/such/directory/anywhere/db.sqlite");
    // 14 is SQLite's code for a database file that cannot be opened.
    assert!(matches!(opened, Err(StoreError::Store { code: Some(14) })));
}

#[test]
fn a_store_without_tables_is_a_store_error() {
    let path = "file:no_tables?mode=memory&cache=shared";
    let _keeper = rusqlite::Connection::open(path).unwrap();
    let mut conn = new_conn(path).unwrap();
    let written = transact(&mut conn, &request("hello", "a@example.com"));
    assert_eq!(written, Err(StoreError::Store { code: Some(1) }));
}

#[test]
fn closing_a_handle_swallows_nothing_when_all_is_well() {
    let (_keeper, path) = fresh_store("closing");
    let mut conn = new_conn(&path).unwrap();
    transact(&mut conn, &request("hello", "a@example.com")).unwrap();
    assert_eq!(conn.close().swallowed, None);
}

#[test]
fn fifty_requests_give_fifty_posts() {
    let (keeper, path) = fresh_store("fifty");
    let mut coordinator = WriteCoordinator::start(&path, 64).unwrap();

    for n in 0..50u64 {
        let email = format!("author{}@example.com", n % 7);
        let ticket = coordinator.submit(request(&format!("post {}", n), &email)).unwrap();
        assert_eq!(ticket, n);
    }
    assert_eq!(coordinator.waiting(), 50);

    let done = coordinator.drain();
    assert_eq!(coordinator.waiting(), 0);
    assert_eq!(done.len(), 50);
    for (n, completion) in done.iter().enumerate() {
        assert_eq!(completion.ticket, n as u64);
        let post = completion.result.as_ref().unwrap();
        assert_eq!(post.id, n as i64 + 1);
        assert_eq!(post.content, format!("post {}", n));
    }

    assert_eq!(count(&keeper, "posts"), 50);
    assert_eq!(count(&keeper, "users"), 7);
    let distinct: i64 =
        keeper.query_row("SELECT count(DISTINCT id) FROM posts", [], |row| row.get(0)).unwrap();
    assert_eq!(distinct, 50);
    let orphans: i64 = keeper
        .query_row(
            "SELECT count(*) FROM posts WHERE user_id IS NULL
                OR user_id NOT IN (SELECT id FROM users)",
            [],
            |row| row.get(0),
        )
        .unwrap();
    assert_eq!(orphans, 0);
}

#[test]
fn a_request_that_fails_does_not_stop_the_coordinator() {
    let (keeper, path) = fresh_store("goes_on");
    let mut coordinator = WriteCoordinator::start(&path, 8).unwrap();

    coordinator.submit(request("first", "a@example.com")).unwrap();
    coordinator.submit(request("", "b@example.com")).unwrap();
    coordinator.submit(request("third", "c@example.com")).unwrap();

    let first = coordinator.process_next().unwrap();
    assert_eq!(first.ticket, 0);
    assert_eq!(first.result.unwrap().content, "first");

    let second = coordinator.process_next().unwrap();
    assert_eq!(second.ticket, 1);
    assert_eq!(second.result, Err(StoreError::Store { code: Some(275) }));

    let third = coordinator.process_next().unwrap();
    assert_eq!(third.ticket, 2);
    assert_eq!(third.result.unwrap().content, "third");

    assert_eq!(coordinator.process_next(), None);
    assert_eq!(count(&keeper, "posts"), 2);
    assert_eq!(count(&keeper, "users"), 2);
}

#[test]
fn shutdown_writes_what_waits_and_then_closes() {
    let (keeper, path) = fresh_store("shutdown");
    let mut coordinator = WriteCoordinator::start(&path, 8).unwrap();

    coordinator.submit(request("one", "a@example.com")).unwrap();
    coordinator.submit(request("two", "a@example.com")).unwrap();
    coordinator.begin_shutdown();
    assert_eq!(coordinator.submit(request("late", "a@example.com")), Err(StoreError::Closed));
    assert_eq!(coordinator.waiting(), 2);

    let (done, swallowed) = coordinator.shutdown();
    assert_eq!(swallowed, None);
    assert_eq!(done.len(), 2);
    assert_eq!(done[0].ticket, 0);
    assert_eq!(done[1].ticket, 1);
    assert!(done[0].result.is_ok());
    assert!(done[1].result.is_ok());
    assert_eq!(count(&keeper, "posts"), 2);
    assert_eq!(count(&keeper, "users"), 1);
}

#[test]
fn a_coordinator_over_an_open_handle_starts_empty() {
    let (_keeper, path) = fresh_store("over");
    let handle = new_conn(&path).unwrap();
    let mut coordinator = WriteCoordinator::over(handle, 1);
    assert_eq!(coordinator.waiting(), 0);
    assert_eq!(coordinator.process_next(), None);
    assert_eq!(coordinator.submit(request("one", "a@example.com")), Ok(0));
    assert_eq!(
        coordinator.submit(request("two", "a@example.com")),
        Err(StoreError::Overloaded)
    );
    assert_eq!(coordinator.drain().len(), 1);
    assert_eq!(coordinator.submit(request("three", "a@example.com")), Ok(1));
}

#[test]
fn a_coordinator_cannot_start_without_a_store() {
    let started = WriteCoordinator::start("/no/such/directory/anywhere/db.sqlite", 4);
    assert!(matches!(started, Err(StoreError::Store { code: Some(14) })));
}

#[test]
fn a_held_write_lock_is_busy() {
    let path = "/tmp/post_store_held_write_lock.sqlite";
    let keeper = rusqlite::Connection::open(path).unwrap();
    keeper.execute_batch(SCHEMA).unwrap();
    let mut conn = new_conn(path).unwrap();

    keeper.execute_batch("BEGIN IMMEDIATE").unwrap();
    let written = transact(&mut conn, &request("hello", "a@example.com"));
    assert_eq!(written, Err(StoreError::Busy));
    assert!(written.unwrap_err().is_retryable());
    keeper.execute_batch("ROLLBACK").unwrap();

    let retried = transact(&mut conn, &request("hello", "a@example.com")).unwrap();
    assert_eq!(retried.content, "hello");
}

#[test]
fn a_coordinator_reports_no_failed_rollback_after_a_clean_one() {
    let (_keeper, path) = fresh_store("clean_rollback");
    let mut coordinator = WriteCoordinator::start(&path, 2).unwrap();
    coordinator.submit(request("", "a@example.com")).unwrap();
    let done = coordinator.drain();
    assert!(done[0].result.is_err());
    assert_eq!(coordinator.rollback_failure(), None);
}
