//! The transaction executor and the one write that runs in it.
use vstd::prelude::*;
use crate::error::StoreError;
use crate::handle::StorageHandle;
use crate::journal::{commits, fetched, insert_post, plain, ran, upsert_user, viewed, Step, Verb};
use crate::post::{NewPost, Post, PostData, Request};

verus! {

/// What a transaction returns, given what its operation returned and what
/// the store answered to the statement that closed it: the commit after a
/// success, the rollback after a failure. A commit that fails fails the
/// transaction; a rollback that fails leaves the operation's own error in
/// place.
pub open spec fn settled<T>(operated: Result<T, StoreError>, closed: Result<(), StoreError>)
    -> Result<T, StoreError> {
    match operated {
        Ok(value) => match closed {
            Ok(_) => Ok(value),
            Err(error) => Err(error),
        },
        Err(error) => Err(error),
    }
}

/// Decides what a transaction returns once its closing statement has been
/// answered.
pub fn settle<T>(operated: Result<T, StoreError>, closed: Result<(), StoreError>) -> (returned:
    Result<T, StoreError>)
    ensures
        returned == settled(operated, closed),
{
    match operated {
        Ok(value) => match closed {
            Ok(_) => Ok(value),
            Err(error) => Err(error),
        },
        Err(error) => Err(error),
    }
}

/// The journal entry of a rollback, whatever the store answered to it.
pub open spec fn is_rollback(step: Step) -> bool {
    step.statement == plain(Verb::Rollback) && (step.outcome is Accepted
        || step.outcome is Refused)
}

/// `after` is `failed` with one more entry, a rollback.
pub open spec fn rolled_back(failed: Seq<Step>, after: Seq<Step>) -> bool {
    &&& after.len() == failed.len() + 1
    &&& after.drop_last() == failed
    &&& is_rollback(after.last())
}

/// The statements that close a transaction whose operation has left the
/// journal at `operated_journal`: after a success a commit, and after a
/// commit that failed a rollback; after a failure a rollback, whose answer
/// is then `closed`.
pub open spec fn closes(
    operated_journal: Seq<Step>,
    succeeded: bool,
    after: Seq<Step>,
    closed: Result<(), StoreError>,
) -> bool {
    if succeeded {
        let committed = operated_journal.push(ran(plain(Verb::Commit), closed));
        if closed is Ok {
            after == committed
        } else {
            rolled_back(committed, after)
        }
    } else {
        after == operated_journal.push(ran(plain(Verb::Rollback), closed))
    }
}

/// Runs `exec` as one atomic unit of work.
///
/// Either the store refuses to begin, and nothing else is sent; or it
/// begins, `exec` runs on the handle exactly once, and the transaction is
/// closed according to what `exec` returned.
///
/// The write lock is taken first, so that contention shows as one bounded
/// wait here and not as a failure in the middle of the work. If `exec`
/// succeeds the transaction is committed, and a failed commit is rolled back
/// and fails the transaction. If `exec` fails the transaction is rolled back
/// and the error of `exec` is returned, whatever the rollback answered.
pub fn immediate_tx<T, F: FnOnce(&mut StorageHandle) -> Result<T, StoreError>>(
    handle: &mut StorageHandle,
    exec: F,
) -> (returned: Result<T, StoreError>)
    requires
        forall|scope: &mut StorageHandle|
            scope.journal() == old(handle).journal().push(ran(plain(Verb::Begin), Ok(())))
                ==> call_requires(exec, (scope,)),
    ensures
        ({
            ||| returned matches Err(error) && error.from_store() && final(handle).journal() == old(
                handle,
            ).journal().push(ran(plain(Verb::Begin), Err(error)))
            ||| exists|
                scope: &mut StorageHandle,
                operated: Result<T, StoreError>,
                closed: Result<(), StoreError>,
            |
                {
                    &&& scope.journal() == old(handle).journal().push(
                        ran(plain(Verb::Begin), Ok(())),
                    )
                    &&& #[trigger] call_ensures(exec, (scope,), operated)
                    &&& #[trigger] closes(
                        final(scope).journal(),
                        operated is Ok,
                        final(handle).journal(),
                        closed,
                    )
                    &&& closed matches Err(error) ==> error.from_store()
                    &&& returned == settled(operated, closed)
                }
        }),
{
    match handle.begin() {
        Err(error) => Err(error),
        Ok(_) => {
            let operated = exec(handle);
            let ghost worked = handle.journal();
            let closed = match operated {
                Ok(_) => {
                    let committed = handle.commit();
                    if committed.is_err() {
                        let ghost refused = handle.journal();
                        let _ = handle.rollback();
                        proof {
                            assert(handle.journal().drop_last() =~= refused);
                        }
                    }
                    committed
                },
                Err(_) => handle.rollback(),
            };
            proof {
                assert(closes(worked, operated is Ok, handle.journal(), closed));
            }
            settle(operated, closed)
        },
    }
}

/// Closing a transaction has exactly one commit accepted if the operation
/// succeeded and the store accepted the commit, and none otherwise: whatever
/// a failed transaction did, the closing statements make none of it durable.
pub proof fn lemma_close_commits(
    operated_journal: Seq<Step>,
    succeeded: bool,
    after: Seq<Step>,
    closed: Result<(), StoreError>,
)
    requires
        closes(operated_journal, succeeded, after, closed),
    ensures
        commits(after) == commits(operated_journal) + if succeeded && closed is Ok {
            1nat
        } else {
            0nat
        },
        operated_journal.is_prefix_of(after),
{
    if succeeded {
        let committed = operated_journal.push(ran(plain(Verb::Commit), closed));
        lemma_commits_push(operated_journal, ran(plain(Verb::Commit), closed));
        if closed is Err {
            assert(after =~= committed.push(after.last()));
            lemma_commits_push(committed, after.last());
        }
    } else {
        lemma_commits_push(operated_journal, ran(plain(Verb::Rollback), closed));
    }
}

/// What the write does to a journal that stood at `before`: the user is
/// made sure of first, and only if that went well the post is inserted.
pub open spec fn created(
    request: Request,
    before: Seq<Step>,
    after: Seq<Step>,
    written: Result<PostData, StoreError>,
) -> bool {
    ||| written matches Err(error) && after == before.push(
        ran(upsert_user(request.email), Err(error)),
    )
    ||| after == before.push(ran(upsert_user(request.email), Ok(()))).push(
        fetched(insert_post(request), written),
    )
}

/// The write itself, meant to run inside a transaction: makes sure that the
/// author exists, then inserts the post under the author and returns the
/// stored row. The request is not validated here; what the store's own
/// constraints reject comes back as the store's error.
pub fn create_post(scope: &mut StorageHandle, request: &NewPost) -> (written: Result<
    Post,
    StoreError,
>)
    ensures
        created(request@, old(scope).journal(), final(scope).journal(), viewed(written)),
        written matches Err(error) ==> error.from_store(),
{
    match scope.upsert_user(request.email.as_str()) {
        Ok(_) => scope.insert_post(request.content.as_str(), request.email.as_str()),
        Err(error) => Err(error),
    }
}

/// What a whole write request does to a journal that stood at `before`.
///
/// A request that succeeds sends exactly four statements, all accepted:
/// begin, the upsert of the user, the insert of the post, commit. A request
/// that fails stops at the first statement that the store refuses and, if
/// the transaction had begun, sends a rollback after it.
pub open spec fn write_transaction(
    request: Request,
    before: Seq<Step>,
    after: Seq<Step>,
    written: Result<PostData, StoreError>,
) -> bool {
    let begun = before.push(ran(plain(Verb::Begin), Ok(())));
    let ensured = begun.push(ran(upsert_user(request.email), Ok(())));
    match written {
        Ok(post) => after == ensured.push(fetched(insert_post(request), Ok(post))).push(
            ran(plain(Verb::Commit), Ok(())),
        ),
        Err(error) => {
            ||| after == before.push(ran(plain(Verb::Begin), Err(error)))
            ||| rolled_back(begun.push(ran(upsert_user(request.email), Err(error))), after)
            ||| rolled_back(ensured.push(fetched(insert_post(request), Err(error))), after)
            ||| exists|post: PostData|
                rolled_back(
                    #[trigger] ensured.push(fetched(insert_post(request), Ok(post))).push(
                        ran(plain(Verb::Commit), Err(error)),
                    ),
                    after,
                )
        },
    }
}

/// Adding an entry to a journal adds one to its accepted commits if the
/// entry is an accepted commit, and nothing otherwise.
pub proof fn lemma_commits_push(journal: Seq<Step>, step: Step)
    ensures
        commits(journal.push(step)) == commits(journal) + if step.statement.verb == Verb::Commit
            && step.succeeded() {
            1nat
        } else {
            0nat
        },
{
    assert(journal.push(step).drop_last() =~= journal);
}

/// A write request that fails leaves no commit behind: among the statements
/// that it sent, the store accepted none that makes anything durable.
pub proof fn lemma_failed_write_commits_nothing(
    request: Request,
    before: Seq<Step>,
    after: Seq<Step>,
    written: Result<PostData, StoreError>,
)
    requires
        write_transaction(request, before, after, written),
        written is Err,
    ensures
        commits(after) == commits(before),
{
    let error = written->Err_0;
    let begun = before.push(ran(plain(Verb::Begin), Ok(())));
    let ensured = begun.push(ran(upsert_user(request.email), Ok(())));
    lemma_commits_push(before, ran(plain(Verb::Begin), Ok(())));
    lemma_commits_push(begun, ran(upsert_user(request.email), Ok(())));
    if after == before.push(ran(plain(Verb::Begin), Err(error))) {
        lemma_commits_push(before, ran(plain(Verb::Begin), Err(error)));
    } else {
        assert(after =~= after.drop_last().push(after.last()));
        lemma_commits_push(after.drop_last(), after.last());
        lemma_commits_push(begun, ran(upsert_user(request.email), Err(error)));
        lemma_commits_push(ensured, fetched(insert_post(request), Err(error)));
        if after.drop_last() != begun.push(ran(upsert_user(request.email), Err(error)))
            && after.drop_last() != ensured.push(fetched(insert_post(request), Err(error))) {
            let post = choose|post: PostData|
                rolled_back(
                    #[trigger] ensured.push(fetched(insert_post(request), Ok(post))).push(
                        ran(plain(Verb::Commit), Err(error)),
                    ),
                    after,
                );
            let inserted = ensured.push(fetched(insert_post(request), Ok(post)));
            lemma_commits_push(ensured, fetched(insert_post(request), Ok(post)));
            lemma_commits_push(inserted, ran(plain(Verb::Commit), Err(error)));
        }
    }
}

/// A write request that succeeds has had exactly one commit accepted.
pub proof fn lemma_write_commits_once(
    request: Request,
    before: Seq<Step>,
    after: Seq<Step>,
    written: Result<PostData, StoreError>,
)
    requires
        write_transaction(request, before, after, written),
        written is Ok,
    ensures
        commits(after) == commits(before) + 1,
{
    let post = written->Ok_0;
    let begun = before.push(ran(plain(Verb::Begin), Ok(())));
    let ensured = begun.push(ran(upsert_user(request.email), Ok(())));
    let inserted = ensured.push(fetched(insert_post(request), Ok(post)));
    lemma_commits_push(before, ran(plain(Verb::Begin), Ok(())));
    lemma_commits_push(begun, ran(upsert_user(request.email), Ok(())));
    lemma_commits_push(ensured, fetched(insert_post(request), Ok(post)));
    lemma_commits_push(inserted, ran(plain(Verb::Commit), Ok(())));
}

/// A write request only adds to the journal.
pub proof fn lemma_write_extends(
    request: Request,
    before: Seq<Step>,
    after: Seq<Step>,
    written: Result<PostData, StoreError>,
)
    requires
        write_transaction(request, before, after, written),
    ensures
        before.is_prefix_of(after),
        before.len() < after.len() <= before.len() + 5,
{
    if written is Err && after != before.push(ran(plain(Verb::Begin), Err(written->Err_0))) {
        assert(after =~= after.drop_last().push(after.last()));
    }
}

/// Handles one write request: the user is made sure of and the post is
/// inserted in one immediate transaction, which is committed if both went
/// well and rolled back if not.
///
/// A request that fails has had no commit accepted; one that succeeds has
/// had exactly one.
pub fn transact(handle: &mut StorageHandle, request: &NewPost) -> (written: Result<
    Post,
    StoreError,
>)
    ensures
        write_transaction(
            request@,
            old(handle).journal(),
            final(handle).journal(),
            viewed(written),
        ),
        commits(final(handle).journal()) == commits(old(handle).journal()) + if written is Ok {
            1nat
        } else {
            0nat
        },
        written matches Err(error) ==> error.from_store(),
{
    let write = |scope: &mut StorageHandle| -> (operated: Result<Post, StoreError>)
        ensures
            created(request@, old(scope).journal(), final(scope).journal(), viewed(operated)),
            operated matches Err(error) ==> error.from_store(),
        { create_post(scope, request) };
    let written = immediate_tx(handle, write);
    proof {
        let before = old(handle).journal();
        let after = handle.journal();
        let begun = before.push(ran(plain(Verb::Begin), Ok(())));
        if !(written matches Err(error) && after == before.push(
            ran(plain(Verb::Begin), Err(error)),
        )) {
            let (scope, operated, closed) = choose|
                scope: &mut StorageHandle,
                operated: Result<Post, StoreError>,
                closed: Result<(), StoreError>,
            |
                {
                    &&& scope.journal() == begun
                    &&& #[trigger] call_ensures(write, (scope,), operated)
                    &&& #[trigger] closes(final(scope).journal(), operated is Ok, after, closed)
                    &&& closed matches Err(error) ==> error.from_store()
                    &&& written == settled(operated, closed)
                };
            let worked = final(scope).journal();
            assert(created(request@, begun, worked, viewed(operated)));
            if operated is Err {
                assert(after.drop_last() =~= worked);
                assert(rolled_back(worked, after));
            }
        }
        assert(write_transaction(request@, before, after, viewed(written)));
        if written is Ok {
            lemma_write_commits_once(
                request@,
                old(handle).journal(),
                handle.journal(),
                viewed(written),
            );
        } else {
            lemma_failed_write_commits_nothing(
                request@,
                old(handle).journal(),
                handle.journal(),
                viewed(written),
            );
        }
    }
    written
}

} // verus!
