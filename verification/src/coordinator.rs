//! The write coordinator: the single owner of the storage handle. Requests
//! wait in a bounded queue and are written one at a time, in the order in
//! which they were accepted.
//!
//! The coordinator is sequential. Whoever embeds it has to see to it that
//! one caller at a time holds it; it then needs no lock of its own around
//! the store.
use std::collections::VecDeque;
use vstd::prelude::*;
use crate::error::StoreError;
use crate::handle::{new_conn, StorageHandle};
use crate::journal::{commits, plain, ran, rollback_failure, viewed, Step, Verb};
use crate::post::{NewPost, Post, PostData, Request};
use crate::transaction::{
    lemma_failed_write_commits_nothing, lemma_write_commits_once, lemma_write_extends, transact,
    write_transaction,
};

verus! {

/// A request that has been accepted and waits to be written.
pub struct Pending {
    /// The number under which the submitter finds the outcome again.
    pub ticket: u64,
    pub request: NewPost,
}

/// A waiting request as the contracts see it.
pub struct Waiting {
    pub ticket: nat,
    pub request: Request,
}

impl View for Pending {
    type V = Waiting;

    open spec fn view(&self) -> Waiting {
        Waiting { ticket: self.ticket as nat, request: self.request@ }
    }
}

/// The outcome of one request.
#[derive(Debug, PartialEq, Eq)]
pub struct Completion {
    /// The ticket that `submit` gave out for the request.
    pub ticket: u64,
    /// What the write returned.
    pub result: Result<Post, StoreError>,
}

/// An outcome as the contracts see it.
pub struct Completed {
    pub ticket: nat,
    pub result: Result<PostData, StoreError>,
}

impl View for Completion {
    type V = Completed;

    open spec fn view(&self) -> Completed {
        Completed { ticket: self.ticket as nat, result: viewed(self.result) }
    }
}

/// How many of the outcomes are successes.
pub open spec fn successes(outcomes: Seq<Completed>) -> nat
    decreases outcomes.len(),
{
    if outcomes.len() == 0 {
        0
    } else {
        successes(outcomes.drop_last()) + if outcomes.last().result is Ok {
            1nat
        } else {
            0nat
        }
    }
}

/// The views of a list of outcomes.
pub open spec fn outcomes_of(completions: Seq<Completion>) -> Seq<Completed> {
    completions.map_values(|completion: Completion| completion@)
}

/// The tickets of the requests that wait ascend from the front of the queue
/// to its back, and all of them have been given out: no two requests share a
/// ticket, and a ticket says who was accepted first.
pub open spec fn ascending(pending: Seq<Waiting>, issued: nat) -> bool {
    &&& forall|i: int| 0 <= i < pending.len() ==> (#[trigger] pending[i]).ticket < issued
    &&& forall|i: int, j: int|
        0 <= i < j < pending.len() ==> (#[trigger] pending[i]).ticket < (
        #[trigger] pending[j]).ticket
}

/// The queue in front of the single writer: bounded, first in first out.
pub struct Mailbox {
    queue: VecDeque<Pending>,
    issued: u64,
    capacity: usize,
    closing: bool,
}

impl Mailbox {
    #[verifier::type_invariant]
    spec fn sound(self) -> bool {
        self.in_order()
    }

    /// What holds of every mailbox: no more requests wait than there is room
    /// for, and their tickets ascend.
    pub open spec fn in_order(self) -> bool {
        &&& self.pending().len() <= self.capacity()
        &&& ascending(self.pending(), self.issued())
    }

    /// The requests that wait, the one accepted first in front.
    pub closed spec fn pending(self) -> Seq<Waiting> {
        self.queue@.map_values(|waiting: Pending| waiting@)
    }

    /// How many tickets have been given out.
    pub closed spec fn issued(self) -> nat {
        self.issued as nat
    }

    /// How many requests may wait at a time.
    pub closed spec fn capacity(self) -> nat {
        self.capacity as nat
    }

    /// Whether shutdown has begun.
    pub closed spec fn is_closing(self) -> bool {
        self.closing
    }

    /// Whether a request submitted now would be taken.
    pub open spec fn accepts(self) -> bool {
        !self.is_closing() && self.pending().len() < self.capacity() && self.issued() < u64::MAX
    }

    /// An empty mailbox in which `capacity` requests may wait.
    pub fn new(capacity: usize) -> (mailbox: Mailbox)
        ensures
            mailbox.pending() == Seq::<Waiting>::empty(),
            mailbox.issued() == 0,
            mailbox.capacity() == capacity,
            !mailbox.is_closing(),
            mailbox.in_order(),
    {
        let mailbox = Mailbox { queue: VecDeque::new(), issued: 0, capacity, closing: false };
        assert(mailbox.pending() =~= Seq::<Waiting>::empty());
        mailbox
    }

    /// How many requests wait.
    pub fn waiting(&self) -> (count: usize)
        ensures
            count == self.pending().len(),
            self.in_order(),
    {
        proof {
            use_type_invariant(self);
        }
        self.queue.len()
    }

    /// Takes a request into the queue and gives out its ticket.
    ///
    /// After shutdown has begun every request is turned away with `Closed`,
    /// and while the queue is full, or once the tickets have run out, with
    /// `Overloaded`. A request that is taken goes to the back of the queue,
    /// under the next ticket; tickets count up from zero.
    pub fn submit(&mut self, request: NewPost) -> (accepted: Result<u64, StoreError>)
        ensures
            final(self).in_order(),
            final(self).capacity() == old(self).capacity(),
            final(self).is_closing() == old(self).is_closing(),
            old(self).accepts() ==> {
                &&& accepted == Ok::<u64, StoreError>(old(self).issued() as u64)
                &&& final(self).issued() == old(self).issued() + 1
                &&& final(self).pending() == old(self).pending().push(
                    Waiting { ticket: old(self).issued(), request: request@ },
                )
            },
            !old(self).accepts() ==> {
                &&& accepted == Err::<u64, StoreError>(
                    if old(self).is_closing() {
                        StoreError::Closed
                    } else {
                        StoreError::Overloaded
                    },
                )
                &&& final(self).issued() == old(self).issued()
                &&& final(self).pending() == old(self).pending()
            },
    {
        proof {
            use_type_invariant(&*self);
        }
        if self.closing {
            Err(StoreError::Closed)
        } else if self.queue.len() >= self.capacity || self.issued == u64::MAX {
            Err(StoreError::Overloaded)
        } else {
            let ticket = self.issued;
            let ghost before = self.queue@;
            self.issued = ticket + 1;
            let mut queue = VecDeque::new();
            std::mem::swap(&mut queue, &mut self.queue);
            queue.push_back(Pending { ticket, request });
            assert(queue@.map_values(|waiting: Pending| waiting@) =~= before.map_values(
                |waiting: Pending| waiting@,
            ).push(Waiting { ticket: ticket as nat, request: request@ }));
            self.queue = queue;
            Ok(ticket)
        }
    }

    /// Takes the request that has waited longest out of the queue.
    pub fn next(&mut self) -> (front: Option<Pending>)
        ensures
            final(self).in_order(),
            final(self).capacity() == old(self).capacity(),
            final(self).is_closing() == old(self).is_closing(),
            final(self).issued() == old(self).issued(),
            old(self).pending().len() == 0 ==> front is None && final(self).pending() == old(
                self,
            ).pending(),
            old(self).pending().len() > 0 ==> {
                &&& front matches Some(waiting)
                &&& waiting@ == old(self).pending()[0]
                &&& final(self).pending() == old(self).pending().skip(1)
            },
    {
        proof {
            use_type_invariant(&*self);
        }
        let ghost before = self.queue@;
        let mut queue = VecDeque::new();
        std::mem::swap(&mut queue, &mut self.queue);
        let front = queue.pop_front();
        proof {
            if before.len() > 0 {
                assert(queue@ =~= before.skip(1));
                assert(queue@.map_values(|waiting: Pending| waiting@) =~= before.map_values(
                    |waiting: Pending| waiting@,
                ).skip(1));
            } else {
                assert(queue@ =~= before);
            }
        }
        self.queue = queue;
        front
    }

    /// Begins shutdown: from now on nothing is taken. What waits stays.
    pub fn close(&mut self)
        ensures
            final(self).in_order(),
            final(self).is_closing(),
            final(self).pending() == old(self).pending(),
            final(self).issued() == old(self).issued(),
            final(self).capacity() == old(self).capacity(),
    {
        proof {
            use_type_invariant(&*self);
        }
        self.closing = true;
    }
}

/// The requests `pending` were written one after the other, front first,
/// and `marks` is where the journal stood before the first, between each two,
/// and after the last: each request is one write transaction from its mark to
/// the next, and its outcome stands at the same place in `outcomes` under the
/// request's ticket.
pub open spec fn served_through(
    pending: Seq<Waiting>,
    outcomes: Seq<Completed>,
    marks: Seq<Seq<Step>>,
) -> bool {
    &&& outcomes.len() == pending.len()
    &&& marks.len() == pending.len() + 1
    &&& forall|i: int|
        #![trigger pending[i]]
        0 <= i < pending.len() ==> {
            &&& outcomes[i].ticket == pending[i].ticket
            &&& write_transaction(pending[i].request, marks[i], marks[i + 1], outcomes[i].result)
        }
}

/// Writing the requests `pending` one after the other, front first, took
/// the journal from `before` to `after` and gave `outcomes`.
pub open spec fn served(
    pending: Seq<Waiting>,
    outcomes: Seq<Completed>,
    before: Seq<Step>,
    after: Seq<Step>,
) -> bool {
    exists|marks: Seq<Seq<Step>>|
        {
            &&& #[trigger] served_through(pending, outcomes, marks)
            &&& marks.first() == before
            &&& marks.last() == after
        }
}

/// The single writer: it alone holds the storage handle.
pub struct WriteCoordinator {
    handle: StorageHandle,
    mailbox: Mailbox,
}

impl WriteCoordinator {
    /// The statements sent to the store so far.
    pub closed spec fn journal(self) -> Seq<Step> {
        self.handle.journal()
    }

    /// The requests that wait, the one accepted first in front.
    pub closed spec fn pending(self) -> Seq<Waiting> {
        self.mailbox.pending()
    }

    /// How many tickets have been given out.
    pub closed spec fn issued(self) -> nat {
        self.mailbox.issued()
    }

    /// How many requests may wait at a time.
    pub closed spec fn capacity(self) -> nat {
        self.mailbox.capacity()
    }

    /// Whether shutdown has begun.
    pub closed spec fn is_closing(self) -> bool {
        self.mailbox.is_closing()
    }

    /// Whether a request submitted now would be taken.
    pub open spec fn accepts(self) -> bool {
        !self.is_closing() && self.pending().len() < self.capacity() && self.issued() < u64::MAX
    }

    /// What holds of every coordinator: no more requests wait than there is
    /// room for, and their tickets ascend.
    pub open spec fn in_order(self) -> bool {
        &&& self.pending().len() <= self.capacity()
        &&& ascending(self.pending(), self.issued())
    }

    /// Starts the coordinator: opens the store at `path`, configures the
    /// connection, and stands ready with an empty queue for `capacity`
    /// requests.
    pub fn start(path: &str, capacity: usize) -> (started: Result<WriteCoordinator, StoreError>)
        ensures
            started matches Ok(coordinator) ==> {
                &&& coordinator.journal() == seq![ran(plain(Verb::Configure), Ok(()))]
                &&& coordinator.pending() == Seq::<Waiting>::empty()
                &&& coordinator.issued() == 0
                &&& coordinator.capacity() == capacity
                &&& !coordinator.is_closing()
                &&& coordinator.in_order()
            },
            started matches Err(error) ==> error.from_store(),
    {
        match new_conn(path) {
            Ok(handle) => Ok(WriteCoordinator::over(handle, capacity)),
            Err(error) => Err(error),
        }
    }

    /// A coordinator over a handle that is already open.
    pub fn over(handle: StorageHandle, capacity: usize) -> (coordinator: WriteCoordinator)
        ensures
            coordinator.journal() == handle.journal(),
            coordinator.pending() == Seq::<Waiting>::empty(),
            coordinator.issued() == 0,
            coordinator.capacity() == capacity,
            !coordinator.is_closing(),
            coordinator.in_order(),
    {
        WriteCoordinator { handle, mailbox: Mailbox::new(capacity) }
    }

    /// How many requests wait.
    pub fn waiting(&self) -> (count: usize)
        ensures
            count == self.pending().len(),
            self.in_order(),
    {
        self.mailbox.waiting()
    }

    /// The failure of the rollback that ended the latest transaction, if
    /// there was one; see [`StorageHandle::rollback_failure`].
    pub fn rollback_failure(&self) -> (failure: Option<StoreError>)
        ensures
            failure == rollback_failure(self.journal()),
    {
        self.handle.rollback_failure()
    }

    /// Takes a request into the queue and gives out its ticket.
    ///
    /// After shutdown has begun every request is turned away with `Closed`,
    /// and while the queue is full, or once the tickets have run out, with
    /// `Overloaded`. A request that is taken goes to the back of the queue,
    /// under the next ticket; tickets count up from zero. Nothing is sent to
    /// the store.
    pub fn submit(&mut self, request: NewPost) -> (accepted: Result<u64, StoreError>)
        ensures
            final(self).in_order(),
            final(self).journal() == old(self).journal(),
            final(self).capacity() == old(self).capacity(),
            final(self).is_closing() == old(self).is_closing(),
            old(self).accepts() ==> {
                &&& accepted == Ok::<u64, StoreError>(old(self).issued() as u64)
                &&& final(self).issued() == old(self).issued() + 1
                &&& final(self).pending() == old(self).pending().push(
                    Waiting { ticket: old(self).issued(), request: request@ },
                )
            },
            !old(self).accepts() ==> {
                &&& accepted == Err::<u64, StoreError>(
                    if old(self).is_closing() {
                        StoreError::Closed
                    } else {
                        StoreError::Overloaded
                    },
                )
                &&& final(self).issued() == old(self).issued()
                &&& final(self).pending() == old(self).pending()
            },
    {
        self.mailbox.submit(request)
    }

    /// Writes the request that has waited longest, from begin to commit or
    /// rollback, and returns its outcome under its ticket. With nothing
    /// waiting it does nothing. A request that fails is done with; the
    /// coordinator goes on to the next as if nothing had happened.
    pub fn process_next(&mut self) -> (done: Option<Completion>)
        ensures
            final(self).in_order(),
            final(self).capacity() == old(self).capacity(),
            final(self).is_closing() == old(self).is_closing(),
            final(self).issued() == old(self).issued(),
            old(self).pending().len() == 0 ==> {
                &&& done is None
                &&& final(self).pending() == old(self).pending()
                &&& final(self).journal() == old(self).journal()
            },
            old(self).pending().len() > 0 ==> {
                &&& done matches Some(completion)
                &&& completion@.ticket == old(self).pending()[0].ticket
                &&& final(self).pending() == old(self).pending().skip(1)
                &&& write_transaction(
                    old(self).pending()[0].request,
                    old(self).journal(),
                    final(self).journal(),
                    completion@.result,
                )
                &&& commits(final(self).journal()) == commits(old(self).journal())
                    + if completion@.result is Ok {
                    1nat
                } else {
                    0nat
                }
            },
    {
        match self.mailbox.next() {
            None => None,
            Some(waiting) => {
                let result = transact(&mut self.handle, &waiting.request);
                Some(Completion { ticket: waiting.ticket, result })
            },
        }
    }

    /// Writes everything that waits, in the order of acceptance, and returns
    /// the outcomes in that order.
    pub fn drain(&mut self) -> (done: Vec<Completion>)
        ensures
            final(self).in_order(),
            final(self).capacity() == old(self).capacity(),
            final(self).is_closing() == old(self).is_closing(),
            final(self).issued() == old(self).issued(),
            final(self).pending() == Seq::<Waiting>::empty(),
            served(
                old(self).pending(),
                outcomes_of(done@),
                old(self).journal(),
                final(self).journal(),
            ),
    {
        let mut done: Vec<Completion> = Vec::new();
        let ghost pending = self.pending();
        let ghost mut marks = seq![self.journal()];
        proof {
            assert(outcomes_of(done@) =~= Seq::<Completed>::empty());
            assert(self.pending() =~= pending.skip(0));
        }
        while self.waiting() > 0
            invariant
                self.capacity() == old(self).capacity(),
                self.is_closing() == old(self).is_closing(),
                self.issued() == old(self).issued(),
                pending == old(self).pending(),
                done@.len() <= pending.len(),
                self.pending() == pending.skip(done@.len() as int),
                served_through(pending.take(done@.len() as int), outcomes_of(done@), marks),
                marks.first() == old(self).journal(),
                marks.last() == self.journal(),
            decreases self.pending().len(),
        {
            let ghost count = done@.len() as int;
            let ghost earlier = outcomes_of(done@);
            match self.process_next() {
                Some(completion) => {
                    done.push(completion);
                    proof {
                        let outcomes = outcomes_of(done@);
                        let longer = marks.push(self.journal());
                        assert(self.pending() =~= pending.skip(count + 1));
                        assert(pending.skip(count)[0] == pending[count]);
                        assert forall|i: int| 0 <= i < count + 1 implies {
                            &&& outcomes[i].ticket == (#[trigger] pending.take(count + 1)[i]).ticket
                            &&& write_transaction(
                                pending.take(count + 1)[i].request,
                                longer[i],
                                longer[i + 1],
                                outcomes[i].result,
                            )
                        } by {
                            if i < count {
                                assert(pending.take(count)[i] == pending[i]);
                                assert(outcomes[i] == earlier[i]);
                            }
                        }
                        marks = longer;
                    }
                },
                None => {},
            }
        }
        proof {
            assert(pending.take(done@.len() as int) =~= pending);
            assert(self.pending() =~= Seq::<Waiting>::empty());
        }
        done
    }

    /// Begins shutdown: from now on every request is turned away with
    /// `Closed`. What waits can still be written.
    pub fn begin_shutdown(&mut self)
        ensures
            final(self).in_order(),
            final(self).is_closing(),
            final(self).journal() == old(self).journal(),
            final(self).pending() == old(self).pending(),
            final(self).issued() == old(self).issued(),
            final(self).capacity() == old(self).capacity(),
    {
        self.mailbox.close();
    }

    /// Stops the coordinator: writes what still waits, then closes the
    /// handle. Returns the outcomes of the requests that waited, and the
    /// error of the closing refresh if there was one, to be logged.
    pub fn shutdown(self) -> (stopped: (Vec<Completion>, Option<StoreError>))
        ensures
            exists|after: Seq<Step>| #[trigger]
                served(self.pending(), outcomes_of(stopped.0@), self.journal(), after),
            stopped.1 matches Some(error) ==> error.from_store(),
    {
        let mut stopping = self;
        stopping.begin_shutdown();
        let done = stopping.drain();
        let ghost after = stopping.journal();
        let WriteCoordinator { handle, mailbox: _ } = stopping;
        let swallowed = handle.close().swallowed;
        let stopped = (done, swallowed);
        proof {
            assert(served(self.pending(), outcomes_of(stopped.0@), self.journal(), after));
        }
        stopped
    }
}

/// Up to every mark, as many commits were accepted as requests had
/// succeeded.
proof fn lemma_commits_up_to(
    pending: Seq<Waiting>,
    outcomes: Seq<Completed>,
    marks: Seq<Seq<Step>>,
    count: int,
)
    requires
        served_through(pending, outcomes, marks),
        0 <= count <= pending.len(),
    ensures
        commits(marks[count]) == commits(marks[0]) + successes(outcomes.take(count)),
        marks[0].is_prefix_of(marks[count]),
    decreases count,
{
    if count == 0 {
        assert(outcomes.take(0) =~= Seq::<Completed>::empty());
    } else {
        let at = count - 1;
        lemma_commits_up_to(pending, outcomes, marks, at);
        let request = pending[at].request;
        assert(write_transaction(request, marks[at], marks[at + 1], outcomes[at].result));
        assert(outcomes.take(count).drop_last() =~= outcomes.take(at));
        assert(outcomes.take(count).last() == outcomes[at]);
        lemma_write_extends(request, marks[at], marks[count], outcomes[at].result);
        if outcomes[at].result is Ok {
            lemma_write_commits_once(request, marks[at], marks[count], outcomes[at].result);
        } else {
            lemma_failed_write_commits_nothing(
                request,
                marks[at],
                marks[count],
                outcomes[at].result,
            );
        }
    }
}

/// Writing a queue of requests has as many commits accepted as requests
/// succeed: none is lost, none is written twice, and one that fails leaves
/// nothing behind. The journal is only added to.
pub proof fn lemma_served_commits(
    pending: Seq<Waiting>,
    outcomes: Seq<Completed>,
    before: Seq<Step>,
    after: Seq<Step>,
)
    requires
        served(pending, outcomes, before, after),
    ensures
        commits(after) == commits(before) + successes(outcomes),
        before.is_prefix_of(after),
{
    let marks = choose|marks: Seq<Seq<Step>>|
        {
            &&& #[trigger] served_through(pending, outcomes, marks)
            &&& marks.first() == before
            &&& marks.last() == after
        };
    lemma_commits_up_to(pending, outcomes, marks, pending.len() as int);
    assert(outcomes.take(pending.len() as int) =~= outcomes);
}

/// There is one outcome for every request of a queue, and the outcomes come
/// under the tickets of the requests in the order in which the requests were
/// accepted.
pub proof fn lemma_served_in_order(
    pending: Seq<Waiting>,
    outcomes: Seq<Completed>,
    before: Seq<Step>,
    after: Seq<Step>,
)
    requires
        served(pending, outcomes, before, after),
    ensures
        outcomes.len() == pending.len(),
        forall|i: int| 0 <= i < pending.len() ==> outcomes[i].ticket == (#[trigger] pending[i]).ticket,
{
}

} // verus!
