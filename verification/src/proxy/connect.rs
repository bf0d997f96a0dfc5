//! Getting a flow its upstream socket.

use vstd::prelude::*;

use crate::addr::SocketAddress;

verus! {

/// The wildcard address of the family of `base`, with port 0.
pub open spec fn unspecified_like(base: SocketAddress) -> SocketAddress {
    match base {
        SocketAddress::V4 { .. } => SocketAddress::V4 { ip: 0, port: 0 },
        SocketAddress::V6 { .. } => SocketAddress::V6 { ip: 0, port: 0, flowinfo: 0, scope_id: 0 },
    }
}

/// The local address to bind a socket to before it connects to `base`:
/// `0.0.0.0:0` for IPv4 and `[::]:0` for IPv6.
pub fn get_unspec_sock_addr(base: &SocketAddress) -> (local: SocketAddress)
    ensures
        local == unspecified_like(*base),
{
    match base {
        SocketAddress::V4 { .. } => SocketAddress::V4 { ip: 0, port: 0 },
        SocketAddress::V6 { .. } => SocketAddress::V6 { ip: 0, port: 0, flowinfo: 0, scope_id: 0 },
    }
}

/// The step at which an attempt to reach an upstream address failed.
#[derive(Clone, Copy, Debug, PartialEq, Eq, Structural)]
pub enum ConnectStage {
    /// Binding the local socket.
    Bind,
    /// Connecting the bound socket.
    Connect,
}

/// A failed attempt: the candidate, by its place in the list, and the step
/// that failed.
#[derive(Clone, Copy, Debug, PartialEq, Eq, Structural)]
pub struct ConnectFailure {
    pub index: usize,
    pub stage: ConnectStage,
}

/// What to do next to get a connected upstream socket.
#[derive(Clone, Copy, Debug, PartialEq, Eq, Structural)]
pub enum ConnectStep {
    /// Bind a fresh socket to `local_address` and connect it to
    /// `remote_address`, the candidate at `index`. The socket is the result
    /// if both succeed.
    Attempt { index: usize, local_address: SocketAddress, remote_address: SocketAddress },
    /// Every candidate failed, `last` being the failure of the last one, or
    /// there was no candidate and `last` is `None`.
    GiveUp { last: Option<ConnectFailure> },
}

/// The step that follows `attempts` failed attempts on `candidates`, the
/// latest of them being `last`.
pub open spec fn connect_step_of(
    candidates: Seq<SocketAddress>,
    attempts: nat,
    last: Option<ConnectFailure>,
) -> ConnectStep {
    if attempts < candidates.len() {
        ConnectStep::Attempt {
            index: attempts as usize,
            local_address: unspecified_like(candidates[attempts as int]),
            remote_address: candidates[attempts as int],
        }
    } else {
        ConnectStep::GiveUp { last }
    }
}

/// The latest failure after the attempts that failed at the stages
/// `failed`, one for each candidate from the first on.
pub open spec fn last_of(failed: Seq<ConnectStage>) -> Option<ConnectFailure> {
    if failed.len() == 0 {
        None
    } else {
        Some(ConnectFailure { index: (failed.len() - 1) as usize, stage: failed.last() })
    }
}

/// The search for an upstream address that a socket can be connected to.
///
/// The candidates are tried in order. The first on which both bind and
/// connect succeed ends the search; when all have failed, the failure of
/// the last one is what there is to report.
pub struct ConnectAttempts {
    candidates: Vec<SocketAddress>,
    last: Option<ConnectFailure>,
}

impl ConnectAttempts {
    #[verifier::type_invariant]
    spec fn last_is_a_candidate(&self) -> bool {
        self.last matches Some(failure) ==> failure.index < self.candidates@.len()
    }

    /// The addresses to try, in order.
    pub closed spec fn candidates(&self) -> Seq<SocketAddress> {
        self.candidates@
    }

    /// How many candidates have failed so far.
    pub closed spec fn attempts(&self) -> nat {
        match self.last {
            Some(failure) => (failure.index + 1) as nat,
            None => 0,
        }
    }

    /// The latest failure.
    pub closed spec fn last(&self) -> Option<ConnectFailure> {
        self.last
    }

    /// Whether the attempts that led here failed at the stages `failed`, one
    /// for each candidate from the first on.
    pub open spec fn follows(&self, failed: Seq<ConnectStage>) -> bool {
        &&& failed.len() <= self.candidates().len()
        &&& self.attempts() == failed.len()
        &&& self.last() == last_of(failed)
    }

    /// The number of candidates that have failed so far.
    fn tried(&self) -> (tried: usize)
        ensures
            tried == self.attempts(),
            tried <= self.candidates().len(),
    {
        proof {
            use_type_invariant(self);
        }
        let candidates: usize = self.candidates.len();
        match self.last {
            Some(failure) => {
                assert(failure.index < candidates);
                failure.index + 1
            },
            None => 0,
        }
    }

    /// A search that has tried nothing yet.
    pub fn new(candidates: Vec<SocketAddress>) -> (search: Self)
        ensures
            search.candidates() == candidates@,
            search.follows(Seq::empty()),
    {
        Self { candidates, last: None }
    }

    /// What to do next: try the first candidate that has not failed, bound
    /// to the wildcard address of its family, or give up when there is
    /// none.
    pub fn step(&self) -> (step: ConnectStep)
        ensures
            step == connect_step_of(self.candidates(), self.attempts(), self.last()),
    {
        let index: usize = self.tried();
        if index < self.candidates.len() {
            let remote_address: SocketAddress = self.candidates[index];
            ConnectStep::Attempt {
                index,
                local_address: get_unspec_sock_addr(&remote_address),
                remote_address,
            }
        } else {
            ConnectStep::GiveUp { last: self.last }
        }
    }

    /// Records that the attempt that `step` asked for failed at `stage`.
    /// Once the search has given up there is nothing to record.
    pub fn failed(&mut self, stage: ConnectStage)
        ensures
            final(self).candidates() == old(self).candidates(),
            old(self).attempts() < old(self).candidates().len() ==> {
                &&& final(self).attempts() == old(self).attempts() + 1
                &&& final(self).last() == Some(
                    ConnectFailure { index: old(self).attempts() as usize, stage },
                )
            },
            old(self).attempts() >= old(self).candidates().len() ==> {
                &&& final(self).attempts() == old(self).attempts()
                &&& final(self).last() == old(self).last()
            },
            forall|failed: Seq<ConnectStage>|
                old(self).follows(failed) && failed.len() < old(self).candidates().len()
                    ==> final(self).follows(#[trigger] failed.push(stage)),
    {
        let index: usize = self.tried();
        if index < self.candidates.len() {
            self.last = Some(ConnectFailure { index, stage });
        }
    }
}

/// The candidates are tried in order, each once. After attempts that
/// failed at the stages `failed`, one for each candidate from the first on,
/// the search asks for the candidate that comes next; when every candidate
/// has failed it gives up with the failure of the last one; and without a
/// candidate it gives up with no failure at all.
pub proof fn lemma_connect_order(search: ConnectAttempts, failed: Seq<ConnectStage>)
    requires
        search.follows(failed),
    ensures
        failed.len() < search.candidates().len() ==> connect_step_of(
            search.candidates(),
            search.attempts(),
            search.last(),
        ) == (ConnectStep::Attempt {
            index: failed.len() as usize,
            local_address: unspecified_like(search.candidates()[failed.len() as int]),
            remote_address: search.candidates()[failed.len() as int],
        }),
        failed.len() == search.candidates().len() && failed.len() > 0 ==> connect_step_of(
            search.candidates(),
            search.attempts(),
            search.last(),
        ) == (ConnectStep::GiveUp {
            last: Some(
                ConnectFailure {
                    index: (search.candidates().len() - 1) as usize,
                    stage: failed.last(),
                },
            ),
        }),
        search.candidates().len() == 0 ==> connect_step_of(
            search.candidates(),
            search.attempts(),
            search.last(),
        ) == (ConnectStep::GiveUp { last: None }),
{
}

} // verus!
