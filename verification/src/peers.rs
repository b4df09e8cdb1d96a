//! The peers that have authenticated, and those that are being authenticated.

use crate::error::Error;
use crate::table::Table;
use crate::wire::EndpointId;
use std::sync::Arc;
use vstd::prelude::*;
use vstd::slice::slice_to_vec;

verus! {

/// What came of authenticating towards a remote; shared by all who wait for it.
pub type AuthResult = Result<(), Arc<Error>>;

/// A set of remote endpoints.
#[derive(Debug)]
pub struct RemoteSet {
    remotes: Table<()>,
}

impl View for RemoteSet {
    type V = Set<Seq<u8>>;

    closed spec fn view(&self) -> Set<Seq<u8>> {
        self.remotes@.dom()
    }
}

impl RemoteSet {
    /// The empty set.
    pub fn new() -> (set: Self)
        ensures
            set@ == Set::<Seq<u8>>::empty(),
    {
        RemoteSet { remotes: Table::new() }
    }

    /// Whether a remote is in the set.
    pub fn contains(&self, remote: &EndpointId) -> (found: bool)
        ensures
            found == self@.contains(remote@),
    {
        self.remotes.contains(remote.as_slice())
    }

    /// Adds a remote.
    pub fn insert(&mut self, remote: &EndpointId)
        ensures
            final(self)@ == old(self)@.insert(remote@),
    {
        self.remotes.insert(slice_to_vec(remote.as_slice()), ());
        assert(self@ =~= old(self)@.insert(remote@));
    }
}

/// Those who wait for a handshake with a remote to end, by remote and in the order in which they
/// came.
#[derive(Debug)]
pub struct Pending<W> {
    waiters: Table<Vec<W>>,
}

impl<W> View for Pending<W> {
    type V = Map<Seq<u8>, Seq<W>>;

    closed spec fn view(&self) -> Map<Seq<u8>, Seq<W>> {
        self.waiters@.map_values(|list: Vec<W>| list@)
    }
}

/// The waiters of a remote; none where no handshake with it is under way.
pub open spec fn waiting<W>(pending: Map<Seq<u8>, Seq<W>>, remote: Seq<u8>) -> Seq<W> {
    if pending.contains_key(remote) {
        pending[remote]
    } else {
        Seq::empty()
    }
}

impl<W> Pending<W> {
    /// Nobody waits.
    pub fn new() -> (pending: Self)
        ensures
            pending@ == Map::<Seq<u8>, Seq<W>>::empty(),
    {
        let pending = Pending { waiters: Table::new() };
        assert(pending@ =~= Map::<Seq<u8>, Seq<W>>::empty());
        pending
    }

    /// Puts a waiter behind those of the same remote; says whether it is the first of them.
    pub fn enqueue(&mut self, remote: &EndpointId, waiter: W) -> (first: bool)
        ensures
            first == !old(self)@.contains_key(remote@),
            final(self)@ == old(self)@.insert(remote@, waiting(old(self)@, remote@).push(waiter)),
    {
        let mut list: Vec<W> = Vec::new();
        let mut first = true;
        match self.waiters.remove(remote.as_slice()) {
            Some(before) => {
                list = before;
                first = false;
            },
            None => {},
        }
        list.push(waiter);
        self.waiters.insert(slice_to_vec(remote.as_slice()), list);
        assert(self@ =~= old(self)@.insert(remote@, waiting(old(self)@, remote@).push(waiter)));
        first
    }

    /// Takes the waiters of a remote out.
    pub fn take(&mut self, remote: &EndpointId) -> (list: Vec<W>)
        ensures
            list@ == waiting(old(self)@, remote@),
            final(self)@ == old(self)@.remove(remote@),
    {
        let taken = self.waiters.remove(remote.as_slice());
        assert(self@ =~= old(self)@.remove(remote@));
        match taken {
            Some(list) => list,
            None => Vec::new(),
        }
    }
}

/// What to do on a request to authenticate towards a remote.
#[derive(Debug)]
pub enum Request<W> {
    /// The remote is known: tell the waiter at once that it may go on.
    Admit(W),
    /// A handshake with the remote is under way; the waiter has been put down.
    Wait,
    /// Start a handshake with the remote; the waiter has been put down.
    Dial,
}

/// The same result once more.
pub fn same_result(res: &AuthResult) -> (copy: AuthResult)
    ensures
        copy == *res,
{
    match res {
        Ok(done) => Ok(*done),
        Err(error) => Err(error.clone()),
    }
}

/// Pairs each waiter with the result that it is to be told.
pub fn answer_all<W>(waiters: Vec<W>, res: &AuthResult) -> (answers: Vec<(W, AuthResult)>)
    ensures
        answers@ == waiters@.map_values(|waiter: W| (waiter, *res)),
{
    let mut answers: Vec<(W, AuthResult)> = Vec::new();
    for waiter in iter: waiters
        invariant
            iter.seq() == waiters@,
            answers@.len() == iter.index(),
            forall|i: int|
                0 <= i < answers@.len() ==> #[trigger] answers@[i] == (waiters@[i], *res),
    {
        answers.push((waiter, same_result(res)));
    }
    assert(answers@ =~= waiters@.map_values(|waiter: W| (waiter, *res)));
    answers
}

} // verus!
