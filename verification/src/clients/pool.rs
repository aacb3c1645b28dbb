//! The pool of transport identities, handed out in turn.

use crate::clients::http::{accepted_headers, header_texts, Emulation, HttpClient};
use crate::config::Settings;
use std::sync::atomic::AtomicUsize;
use vstd::prelude::*;

verus! {

/// The fingerprint profiles of the pool, in the order of its identities.
pub open spec fn pool_profiles() -> Seq<Emulation> {
    seq![Emulation::Firefox136, Emulation::Chrome133, Emulation::Safari18_3, Emulation::Edge134]
}

/// The position in a pool of `size` identities that ticket number `ticket`
/// falls on when the tickets go round the pool.
pub open spec fn slot_of(ticket: nat, size: nat) -> nat
    recommends
        size > 0,
{
    ticket % size
}

/// Computes the position that a ticket falls on.
pub fn slot(ticket: usize, size: usize) -> (position: usize)
    requires
        size > 0,
    ensures
        position == slot_of(ticket as nat, size as nat),
        position < size,
{
    ticket % size
}

/// Tickets drawn one after the other fall on consecutive positions and
/// start again at the first position after the last.
pub proof fn lemma_round_robin(ticket: nat, size: nat)
    requires
        size > 0,
    ensures
        slot_of(ticket + 1, size) == (if slot_of(ticket, size) + 1 == size {
            0
        } else {
            slot_of(ticket, size) + 1
        }),
        slot_of(ticket + size, size) == slot_of(ticket, size),
{
    let q = ticket / size;
    let r = ticket % size;
    assert(ticket == size * q + r) by (nonlinear_arith)
        requires
            q == ticket / size,
            r == ticket % size,
            size > 0,
    ;
    assert(size * (q + 1) == size * q + size) by (nonlinear_arith);
    if r + 1 == size {
        assert(((ticket + 1) as nat) % size == 0) by (nonlinear_arith)
            requires
                ticket + 1 == size * (q + 1),
                size > 0,
        ;
    } else {
        assert(((ticket + 1) as nat) % size == r + 1) by (nonlinear_arith)
            requires
                ticket + 1 == size * q + (r + 1),
                0 <= r + 1 < size,
        ;
    }
    assert(((ticket + size) as nat) % size == r) by (nonlinear_arith)
        requires
            ticket + size == size * (q + 1) + r,
            0 <= r < size,
    ;
}

/// A fixed set of transport identities that are handed out in turn.
///
/// The set never changes after it was built. The only state that callers
/// share is the ticket counter, which is incremented atomically, so that
/// the pool needs no lock.
pub struct ClientPool {
    clients: Vec<HttpClient>,
    current: AtomicUsize,
}

impl ClientPool {
    #[verifier::type_invariant]
    spec fn inhabited(self) -> bool {
        self.clients@.len() > 0
    }

    /// The identities of the pool, in their order.
    pub closed spec fn identities(self) -> Seq<HttpClient> {
        self.clients@
    }

    /// Builds the pool: one identity for each of the four profiles, each
    /// with the configured headers that the transport accepts, one value
    /// for every name.
    pub fn new(settings: &Settings) -> (pool: ClientPool)
        ensures
            pool.identities().len() == pool_profiles().len(),
            forall|i: int|
                0 <= i < pool.identities().len() ==> {
                    &&& (#[trigger] pool.identities()[i]).profile() == pool_profiles()[i]
                    &&& pool.identities()[i].fixed_headers() == accepted_headers(
                        header_texts(settings.api.headers@),
                    )
                },
    {
        let mut clients: Vec<HttpClient> = Vec::new();
        clients.push(HttpClient::new(settings, Emulation::Firefox136));
        clients.push(HttpClient::new(settings, Emulation::Chrome133));
        clients.push(HttpClient::new(settings, Emulation::Safari18_3));
        clients.push(HttpClient::new(settings, Emulation::Edge134));
        ClientPool { clients, current: AtomicUsize::new(0) }
    }

    /// The number of identities, which is never zero.
    pub fn len(&self) -> (size: usize)
        ensures
            size == self.identities().len(),
            size > 0,
    {
        proof {
            use_type_invariant(self);
        }
        self.clients.len()
    }

    /// Draws the next ticket and returns the position it falls on. Which
    /// ticket it is depends on the calls that other holders of the pool have
    /// made; the position is the ticket's slot.
    pub fn next_index(&self) -> (position: usize)
        ensures
            position < self.identities().len(),
    {
        proof {
            use_type_invariant(self);
        }
        let ticket: usize = self.current.fetch_add(1, std::sync::atomic::Ordering::SeqCst);
        slot(ticket, self.clients.len())
    }

    /// Hands out the identity whose turn it is and moves the turn on.
    pub fn next_client(&self) -> (client: &HttpClient)
        ensures
            exists|i: int| 0 <= i < self.identities().len() && *client == self.identities()[i],
    {
        let position: usize = self.next_index();
        &self.clients[position]
    }

    /// The identity that ticket number `index` falls on.
    pub fn get_client(&self, index: usize) -> (client: &HttpClient)
        ensures
            *client == self.identities()[slot_of(index as nat, self.identities().len()) as int],
    {
        proof {
            use_type_invariant(self);
        }
        let position: usize = slot(index, self.clients.len());
        &self.clients[position]
    }

    /// The position on which the next ticket will fall if no other holder of
    /// the pool draws first.
    pub fn current_index(&self) -> (position: usize)
        ensures
            position < self.identities().len(),
    {
        proof {
            use_type_invariant(self);
        }
        let ticket: usize = self.current.load(std::sync::atomic::Ordering::SeqCst);
        slot(ticket, self.clients.len())
    }
}

} // verus!
