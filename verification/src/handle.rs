//! The storage handle: the one connection to the store, and the only code
//! that sends statements over it.
use vstd::prelude::*;
use crate::error::{classify, StoreError};
use crate::journal::{
    answered, fetched, insert_post, measured, plain, ran, rollback_failure, texts, upsert_user,
    viewed, Statement, Step, Verb,
};
use crate::post::{Post, Request};
use crate::sqlite;

verus! {

/// What the handle remembers of its own traffic.
struct Ledger {
    /// The failure of the latest rollback, kept for whoever wants to log it.
    cleanup: Option<StoreError>,
    journal: Ghost<Seq<Step>>,
}

/// The single open connection to the store, configured once when it was
/// opened.
pub struct StorageHandle {
    conn: rusqlite::Connection,
    ledger: Ledger,
}

/// What is left of a handle that was shut down.
pub struct Closed {
    /// The error of the closing refresh, if it failed; it is meant for the
    /// log and for nothing else.
    pub swallowed: Option<StoreError>,
    /// The statements that were sent over the handle while it was open,
    /// oldest first.
    pub journal: Ghost<Seq<Step>>,
}

/// Opens the store at `path` and applies the connection profile. The handle
/// is returned only if both succeeded, so no write is ever sent over a
/// connection that was not configured.
pub fn new_conn(path: &str) -> (opened: Result<StorageHandle, StoreError>)
    ensures
        opened matches Ok(handle) ==> handle.journal() == seq![
            ran(plain(Verb::Configure), Ok(())),
        ],
        opened matches Err(error) ==> error.from_store(),
{
    match sqlite::open(path) {
        Ok(conn) => match sqlite::execute_batch(&conn, Verb::Configure.text()) {
            Ok(_) => {
                let ghost journal = seq![ran(plain(Verb::Configure), Ok(()))];
                proof {
                    assert(journal.drop_last() =~= Seq::<Step>::empty());
                    reveal_with_fuel(rollback_failure, 2);
                }
                Ok(StorageHandle { conn, ledger: Ledger { cleanup: None, journal: Ghost(journal) } })
            },
            Err(error) => Err(classify(sqlite::failure_of(&error))),
        },
        Err(error) => Err(classify(sqlite::failure_of(&error))),
    }
}

impl StorageHandle {
    #[verifier::type_invariant]
    spec fn remembers_cleanup(self) -> bool {
        self.ledger.cleanup == rollback_failure(self.ledger.journal@)
    }

    /// The statements that were sent over this handle, oldest first.
    pub closed spec fn journal(self) -> Seq<Step> {
        self.ledger.journal@
    }

    /// Sends a statement that hands no row back, and enters it in the
    /// journal with the store's answer.
    fn send(&mut self, verb: Verb, params: &Vec<&str>) -> (sent: Result<(), StoreError>)
        requires
            verb != Verb::Configure,
            verb != Verb::InsertPost,
            verb != Verb::BusyTimeout,
        ensures
            final(self).journal() == old(self).journal().push(
                ran(Statement { verb, params: texts(params@) }, sent),
            ),
            sent matches Err(error) ==> error.from_store(),
    {
        let answer = match sqlite::prepare_cached(&self.conn, verb.text()) {
            Ok(mut statement) => sqlite::execute(&mut statement, params),
            Err(error) => Err(error),
        };
        let sent = match answer {
            Ok(_) => Ok(()),
            Err(error) => Err(classify(sqlite::failure_of(&error))),
        };
        let cleanup = match verb {
            Verb::Rollback => match sent {
                Ok(_) => None,
                Err(error) => Some(error),
            },
            Verb::Begin => None,
            _ => self.ledger.cleanup,
        };
        proof {
            use_type_invariant(&*self);
        }
        let ghost step = ran(Statement { verb, params: texts(params@) }, sent);
        let ghost journal = self.ledger.journal@.push(step);
        proof {
            assert(journal.drop_last() =~= self.ledger.journal@);
        }
        self.ledger = Ledger { cleanup, journal: Ghost(journal) };
        sent
    }

    /// Opens a transaction and takes the write lock before anything is
    /// written. Where the lock cannot be had within the configured wait, the
    /// store refuses and the answer is `Busy`.
    pub(crate) fn begin(&mut self) -> (begun: Result<(), StoreError>)
        ensures
            final(self).journal() == old(self).journal().push(ran(plain(Verb::Begin), begun)),
            begun matches Err(error) ==> error.from_store(),
    {
        let params: Vec<&str> = Vec::new();
        proof {
            assert(texts(params@) =~= Seq::<Seq<char>>::empty());
        }
        self.send(Verb::Begin, &params)
    }

    /// Asks the store to make the open transaction durable.
    pub(crate) fn commit(&mut self) -> (committed: Result<(), StoreError>)
        ensures
            final(self).journal() == old(self).journal().push(
                ran(plain(Verb::Commit), committed),
            ),
            committed matches Err(error) ==> error.from_store(),
    {
        let params: Vec<&str> = Vec::new();
        proof {
            assert(texts(params@) =~= Seq::<Seq<char>>::empty());
        }
        self.send(Verb::Commit, &params)
    }

    /// Asks the store to undo the open transaction.
    pub(crate) fn rollback(&mut self) -> (undone: Result<(), StoreError>)
        ensures
            final(self).journal() == old(self).journal().push(
                ran(plain(Verb::Rollback), undone),
            ),
            undone matches Err(error) ==> error.from_store(),
    {
        let params: Vec<&str> = Vec::new();
        proof {
            assert(texts(params@) =~= Seq::<Seq<char>>::empty());
        }
        self.send(Verb::Rollback, &params)
    }

    /// Makes sure that a user with this email exists: adds one if there is
    /// none, and changes nothing if there is.
    pub fn upsert_user(&mut self, email: &str) -> (sent: Result<(), StoreError>)
        ensures
            final(self).journal() == old(self).journal().push(ran(upsert_user(email@), sent)),
            sent matches Err(error) ==> error.from_store(),
    {
        let mut params: Vec<&str> = Vec::new();
        params.push(email);
        proof {
            assert(texts(params@) =~= seq![email@]);
        }
        self.send(Verb::UpsertUser, &params)
    }

    /// Adds a post with this content under the user that `email` names, and
    /// returns the stored row. The user is looked up by the same statement
    /// that inserts; where there is no such user nothing is inserted and the
    /// answer is `NotFound`.
    pub fn insert_post(&mut self, content: &str, email: &str) -> (inserted: Result<
        Post,
        StoreError,
    >)
        ensures
            final(self).journal() == old(self).journal().push(
                fetched(
                    insert_post(Request { content: content@, email: email@ }),
                    viewed(inserted),
                ),
            ),
            inserted matches Err(error) ==> error.from_store(),
    {
        let mut params: Vec<&str> = Vec::new();
        params.push(content);
        params.push(email);
        proof {
            assert(texts(params@) =~= seq![content@, email@]);
        }
        let answer = match sqlite::prepare_cached(&self.conn, Verb::InsertPost.text()) {
            Ok(mut statement) => sqlite::query_post(&mut statement, &params),
            Err(error) => Err(error),
        };
        let inserted = match answer {
            Ok(post) => Ok(post),
            Err(error) => Err(classify(sqlite::failure_of(&error))),
        };
        proof {
            use_type_invariant(&*self);
        }
        let ghost step = fetched(
            insert_post(Request { content: content@, email: email@ }),
            viewed(inserted),
        );
        let ghost journal = self.ledger.journal@.push(step);
        proof {
            assert(journal.drop_last() =~= self.ledger.journal@);
        }
        self.ledger = Ledger { cleanup: self.ledger.cleanup, journal: Ghost(journal) };
        inserted
    }

    /// Refreshes the planner's statistics.
    pub fn optimize(&mut self) -> (sent: Result<(), StoreError>)
        ensures
            final(self).journal() == old(self).journal().push(ran(plain(Verb::Optimize), sent)),
            sent matches Err(error) ==> error.from_store(),
    {
        let params: Vec<&str> = Vec::new();
        proof {
            assert(texts(params@) =~= Seq::<Seq<char>>::empty());
        }
        self.send(Verb::Optimize, &params)
    }

    /// How many milliseconds this connection waits for a lock before the
    /// store answers `Busy`: the value is read back from the connection, and
    /// what the store answers to the read is what is returned.
    pub fn busy_timeout(&mut self) -> (wait: Result<i64, StoreError>)
        ensures
            final(self).journal() == old(self).journal().push(
                measured(plain(Verb::BusyTimeout), wait),
            ),
            wait matches Err(error) ==> error.from_store(),
    {
        let wait = match sqlite::pragma_value(&self.conn, Verb::BusyTimeout.text()) {
            Ok(milliseconds) => Ok(milliseconds),
            Err(error) => Err(classify(sqlite::failure_of(&error))),
        };
        proof {
            use_type_invariant(&*self);
        }
        let ghost journal = self.ledger.journal@.push(measured(plain(Verb::BusyTimeout), wait));
        proof {
            assert(journal.drop_last() =~= self.ledger.journal@);
        }
        self.ledger = Ledger { cleanup: self.ledger.cleanup, journal: Ghost(journal) };
        wait
    }

    /// Shuts the handle down: refreshes the planner's statistics as far as
    /// that goes, then releases the connection. Shutting down cannot fail;
    /// if the refresh did, its error is handed back to be logged. The refresh
    /// is the last statement that the handle sends.
    pub fn close(self) -> (closed: Closed)
        ensures
            closed.journal@ == self.journal().push(
                ran(plain(Verb::Optimize), answered(closed.swallowed)),
            ),
            closed.swallowed matches Some(error) ==> error.from_store(),
    {
        let mut closing = self;
        let sent = closing.optimize();
        let ghost journal = closing.journal();
        match sent {
            Ok(_) => Closed { swallowed: None, journal: Ghost(journal) },
            Err(error) => Closed { swallowed: Some(error), journal: Ghost(journal) },
        }
    }

    /// The failure of the rollback that ended the latest transaction, if
    /// there was one. A failed rollback never changes what a transaction
    /// returns; this is where it can still be seen.
    pub fn rollback_failure(&self) -> (failure: Option<StoreError>)
        ensures
            failure == rollback_failure(self.journal()),
    {
        proof {
            use_type_invariant(self);
        }
        self.ledger.cleanup
    }
}

} // verus!
