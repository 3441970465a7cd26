//! Handing the repositories out, in a random order, and closing the queue
//! behind the last of them.

use crate::repo::{names_of, Repo, Repos};
use vstd::prelude::*;

verus! {

/// A distributor as the contracts see it.
pub struct DistributorView {
    /// The names in the order in which they are handed out.
    pub order: Seq<Seq<char>>,
    /// How many of them have been handed out.
    pub sent: nat,
    /// Whether the queue has been declared closed.
    pub closed: bool,
}

impl DistributorView {
    /// No more is sent than there is, and the queue is closed only when
    /// everything has been sent.
    pub open spec fn wf(self) -> bool {
        &&& self.sent <= self.order.len()
        &&& self.closed ==> self.sent == self.order.len()
    }
}

/// What the sender does next, as the contracts see it.
pub enum DispatchView {
    Send(Seq<char>),
    Close,
    Finished,
}

/// A distributor that has sent nothing of `order` yet.
pub open spec fn distributor_start(order: Seq<Seq<char>>) -> DistributorView {
    DistributorView { order, sent: 0, closed: false }
}

/// The rule of the distributor. While names are left, the next one in order
/// is sent. After the last one the queue is closed, once. From then on there
/// is nothing to do.
pub open spec fn distributor_step(distributor: DistributorView) -> (DistributorView, DispatchView) {
    if distributor.sent < distributor.order.len() {
        (
            DistributorView {
                order: distributor.order,
                sent: distributor.sent + 1,
                closed: distributor.closed,
            },
            DispatchView::Send(distributor.order[distributor.sent as int]),
        )
    } else if !distributor.closed {
        (
            DistributorView { order: distributor.order, sent: distributor.sent, closed: true },
            DispatchView::Close,
        )
    } else {
        (distributor, DispatchView::Finished)
    }
}

/// The distributor after it has been asked `asked` times.
pub open spec fn distributor_after(order: Seq<Seq<char>>, asked: nat) -> DistributorView
    decreases asked,
{
    if asked == 0 {
        distributor_start(order)
    } else {
        distributor_step(distributor_after(order, (asked - 1) as nat)).0
    }
}

/// What the distributor says when it is asked after `asked` earlier times.
pub open spec fn dispatch_at(order: Seq<Seq<char>>, asked: nat) -> DispatchView {
    distributor_step(distributor_after(order, asked)).1
}

/// A distributor of `order` says to send each name of `order` once, in
/// order; then, once, to close the queue; and from then on that nothing is
/// left to do. So the queue is closed exactly once, and only when the last
/// name has been sent.
pub proof fn theorem_dispatch_sequence(order: Seq<Seq<char>>, asked: nat)
    ensures
        distributor_after(order, asked).wf(),
        distributor_after(order, asked).order == order,
        asked <= order.len() ==> distributor_after(order, asked).sent == asked,
        asked > order.len() ==> distributor_after(order, asked).sent == order.len(),
        distributor_after(order, asked).closed == (asked > order.len()),
        asked < order.len() ==> dispatch_at(order, asked) == DispatchView::Send(
            order[asked as int],
        ),
        asked == order.len() ==> dispatch_at(order, asked) == DispatchView::Close,
        asked > order.len() ==> dispatch_at(order, asked) == DispatchView::Finished,
    decreases asked,
{
    if asked > 0 {
        theorem_dispatch_sequence(order, (asked - 1) as nat);
    }
}

/// What the sender does next.
#[derive(Debug, PartialEq, Eq)]
pub enum Dispatch {
    /// Put this repository into the queue, waiting while the queue is full,
    /// and ask again when it is in.
    Send(Repo),
    /// Everything is in the queue: close it, and ask no more.
    Close,
    /// The queue was closed before: there is nothing left to do.
    Finished,
}

impl View for Dispatch {
    type V = DispatchView;

    open spec fn view(&self) -> DispatchView {
        match self {
            Dispatch::Send(repo) => DispatchView::Send(repo@),
            Dispatch::Close => DispatchView::Close,
            Dispatch::Finished => DispatchView::Finished,
        }
    }
}

/// Rearranges `repos` at random by `rand::seq::SliceRandom::shuffle`, with
/// the generator that `rand::thread_rng` keeps for the calling thread.
///
/// Taken on trust from the outside function, which does nothing but swap
/// elements: afterwards the vector holds the names it held before, each as
/// often as before. In which order is left to chance, and nothing is claimed
/// of it. The generator is seeded by the operating system when a thread
/// first asks for it, and `rand` panics where the system has no seed to
/// give.
#[verifier::external_body]
fn shuffle(repos: &mut Vec<Repo>)
    ensures
        names_of(final(repos)@).to_multiset() == names_of(old(repos)@).to_multiset(),
{
    rand::seq::SliceRandom::shuffle(repos.as_mut_slice(), &mut rand::thread_rng());
}

/// The sender's side of a sweep: the repositories in the order of their
/// dispatch, and how far the dispatch has come.
#[derive(Debug)]
pub struct Distributor {
    order: Vec<Repo>,
    sent: usize,
    closed: bool,
}

impl View for Distributor {
    type V = DistributorView;

    closed spec fn view(&self) -> DistributorView {
        DistributorView {
            order: names_of(self.order@),
            sent: self.sent as nat,
            closed: self.closed,
        }
    }
}

impl Distributor {
    #[verifier::type_invariant]
    spec fn inv(self) -> bool {
        &&& self.sent <= self.order.len()
        &&& self.closed ==> self.sent == self.order.len()
    }

    /// A distributor that hands `repos` out in a random order. Every
    /// repository is handed out as often as `repos` holds it, and nothing
    /// else is.
    pub fn new(repos: Repos) -> (distributor: Distributor)
        ensures
            distributor@.order.to_multiset() == repos@.to_multiset(),
            distributor@.order.len() == repos@.len(),
            distributor@.sent == 0,
            !distributor@.closed,
            distributor@.wf(),
    {
        let mut order = repos.0;
        shuffle(&mut order);
        proof {
            names_of(order@).to_multiset_ensures();
            repos@.to_multiset_ensures();
        }
        Distributor { order, sent: 0, closed: false }
    }

    /// A distributor that hands `repos` out in the order in which they stand.
    pub fn in_order(repos: Repos) -> (distributor: Distributor)
        ensures
            distributor@ == distributor_start(repos@),
            distributor@.wf(),
    {
        Distributor { order: repos.0, sent: 0, closed: false }
    }

    /// How many repositories are still to be sent.
    pub fn remaining(&self) -> (count: usize)
        ensures
            count == self@.order.len() - self@.sent,
            self@.wf(),
    {
        proof {
            use_type_invariant(self);
        }
        self.order.len() - self.sent
    }

    /// Says what to do next, by the rule `distributor_step`, on the
    /// understanding that what was said before has been done.
    pub fn next(&mut self) -> (dispatch: Dispatch)
        ensures
            (final(self)@, dispatch@) == distributor_step(old(self)@),
            final(self)@.wf(),
    {
        proof {
            use_type_invariant(&*self);
        }
        if self.sent < self.order.len() {
            let repo = self.order[self.sent].clone();
            self.sent = self.sent + 1;
            Dispatch::Send(repo)
        } else if !self.closed {
            self.closed = true;
            Dispatch::Close
        } else {
            Dispatch::Finished
        }
    }
}

} // verus!
