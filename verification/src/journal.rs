//! The journal: every statement with which a handle has asked the store to
//! do something, in the order in which it was sent, each with what the store
//! answered.
//!
//! The journal exists only in specifications. It says nothing of what the
//! store holds; it says what the store was asked to do.
use vstd::prelude::*;
use crate::error::StoreError;
use crate::post::{Post, PostData, Request};

verus! {

/// The connection profile: write-ahead logging, relaxed but safe flushing,
/// foreign keys enforced, a ten second wait for a lock, and the planner hint
/// that is meant to be given once per connection.
pub const PROFILE_SQL: &'static str = "
        PRAGMA journal_mode = wal;
        PRAGMA synchronous = normal;
        PRAGMA foreign_keys = on;
        PRAGMA busy_timeout = 10000;
        
        PRAGMA optimize = 0x10002;
        ";

/// Opens a transaction and takes the write lock at once.
pub const BEGIN_SQL: &'static str = "BEGIN IMMEDIATE TRANSACTION";

/// Adds the user unless the email is already there.
pub const UPSERT_USER_SQL: &'static str = "INSERT OR IGNORE INTO users (email) VALUES (?1)";

/// Adds the post under the user that the email names, and hands the new row
/// back. Without such a user it adds nothing and hands nothing back.
pub const INSERT_POST_SQL: &'static str = "
            INSERT INTO posts   (content,   user_id)
            SELECT              ?1,          id
            FROM        users
            WHERE       email = ?2
            RETURNING   id, user_id, content, created_at, updated_at
            ";

pub const COMMIT_SQL: &'static str = "COMMIT";

pub const ROLLBACK_SQL: &'static str = "ROLLBACK";

/// Refreshes the planner's statistics.
pub const OPTIMIZE_SQL: &'static str = "PRAGMA optimize";

/// The pragma that holds the wait for a lock, in milliseconds.
pub const BUSY_TIMEOUT_PRAGMA: &'static str = "busy_timeout";

/// The statements that a handle can send. There are no others.
#[derive(Clone, Copy, Debug, PartialEq, Eq)]
pub enum Verb {
    Configure,
    Begin,
    UpsertUser,
    InsertPost,
    Commit,
    Rollback,
    Optimize,
    /// Reads the wait for a lock back from the connection.
    BusyTimeout,
}

impl Verb {
    /// The text that is sent for this verb: the statement, or for the read
    /// of a pragma the pragma's name.
    pub open spec fn sql(self) -> Seq<char> {
        match self {
            Verb::Configure => PROFILE_SQL@,
            Verb::Begin => BEGIN_SQL@,
            Verb::UpsertUser => UPSERT_USER_SQL@,
            Verb::InsertPost => INSERT_POST_SQL@,
            Verb::Commit => COMMIT_SQL@,
            Verb::Rollback => ROLLBACK_SQL@,
            Verb::Optimize => OPTIMIZE_SQL@,
            Verb::BusyTimeout => BUSY_TIMEOUT_PRAGMA@,
        }
    }

    /// The text that is sent for this verb: the statement, or for the read
    /// of a pragma the pragma's name.
    pub fn text(self) -> (sql: &'static str)
        ensures
            sql@ == self.sql(),
    {
        match self {
            Verb::Configure => PROFILE_SQL,
            Verb::Begin => BEGIN_SQL,
            Verb::UpsertUser => UPSERT_USER_SQL,
            Verb::InsertPost => INSERT_POST_SQL,
            Verb::Commit => COMMIT_SQL,
            Verb::Rollback => ROLLBACK_SQL,
            Verb::Optimize => OPTIMIZE_SQL,
            Verb::BusyTimeout => BUSY_TIMEOUT_PRAGMA,
        }
    }
}

/// A statement as sent: the verb and the text parameters bound to it, in
/// the order of their placeholders.
pub struct Statement {
    pub verb: Verb,
    pub params: Seq<Seq<char>>,
}

/// What the store answered to a statement.
pub enum Outcome {
    /// The statement failed.
    Refused(StoreError),
    /// The statement ran.
    Accepted,
    /// The statement ran and handed this row back.
    Returned(PostData),
    /// The statement ran and handed this number back.
    Number(int),
}

/// One entry of the journal.
pub struct Step {
    pub statement: Statement,
    pub outcome: Outcome,
}

impl Step {
    /// The store did what the statement asked.
    pub open spec fn succeeded(self) -> bool {
        !(self.outcome is Refused)
    }

    /// The error with which the store refused, if it did.
    pub open spec fn failure(self) -> Option<StoreError> {
        match self.outcome {
            Outcome::Refused(error) => Some(error),
            _ => None,
        }
    }
}

/// The entry for a statement that hands a number back.
pub open spec fn measured(statement: Statement, answer: Result<i64, StoreError>) -> Step {
    Step {
        statement,
        outcome: match answer {
            Ok(number) => Outcome::Number(number as int),
            Err(error) => Outcome::Refused(error),
        },
    }
}

/// The answer of the store that stands behind an error kept for the log:
/// no error means that the statement ran.
pub open spec fn answered(swallowed: Option<StoreError>) -> Result<(), StoreError> {
    match swallowed {
        None => Ok(()),
        Some(error) => Err(error),
    }
}

/// The views of a list of text parameters.
pub open spec fn texts(params: Seq<&str>) -> Seq<Seq<char>> {
    params.map_values(|param: &str| param@)
}

/// A statement without parameters.
pub open spec fn plain(verb: Verb) -> Statement {
    Statement { verb, params: Seq::empty() }
}

/// The statement that makes sure of the user.
pub open spec fn upsert_user(email: Seq<char>) -> Statement {
    Statement { verb: Verb::UpsertUser, params: seq![email] }
}

/// The statement that adds the post.
pub open spec fn insert_post(request: Request) -> Statement {
    Statement { verb: Verb::InsertPost, params: seq![request.content, request.email] }
}

/// The entry for a statement that hands no row back.
pub open spec fn ran(statement: Statement, answer: Result<(), StoreError>) -> Step {
    Step {
        statement,
        outcome: match answer {
            Ok(_) => Outcome::Accepted,
            Err(error) => Outcome::Refused(error),
        },
    }
}

/// The entry for a statement that hands a row back.
pub open spec fn fetched(statement: Statement, answer: Result<PostData, StoreError>) -> Step {
    Step {
        statement,
        outcome: match answer {
            Ok(row) => Outcome::Returned(row),
            Err(error) => Outcome::Refused(error),
        },
    }
}

/// The answer to a statement that hands a row back, with the row as the
/// contracts see it.
pub open spec fn viewed(answer: Result<Post, StoreError>) -> Result<PostData, StoreError> {
    match answer {
        Ok(post) => Ok(post@),
        Err(error) => Err(error),
    }
}

/// The failure of the rollback that ended the latest transaction, if that
/// transaction was rolled back and the rollback itself failed.
pub open spec fn rollback_failure(journal: Seq<Step>) -> Option<StoreError>
    decreases journal.len(),
{
    if journal.len() == 0 {
        None
    } else {
        match journal.last().statement.verb {
            Verb::Rollback => journal.last().failure(),
            Verb::Begin => None,
            _ => rollback_failure(journal.drop_last()),
        }
    }
}

/// How many of the journal's statements are commits that the store accepted.
pub open spec fn commits(journal: Seq<Step>) -> nat
    decreases journal.len(),
{
    if journal.len() == 0 {
        0
    } else {
        let earlier = commits(journal.drop_last());
        if journal.last().statement.verb == Verb::Commit && journal.last().succeeded() {
            earlier + 1
        } else {
            earlier
        }
    }
}

} // verus!
