use vstd::prelude::*;
use std::collections::HashMap;
use std::hash::Hash;
use vstd::std_specs::hash::obeys_key_model;

verus! {

#[verifier::external_type_specification]
#[verifier::external_body]
#[verifier::reject_recursive_types(T)]
pub struct ExSender<T>(async_oneshot::Sender<T>);

#[verifier::external_type_specification]
#[verifier::external_body]
pub struct ExClosed(async_oneshot::Closed);

/// Relies on `async_oneshot::Sender::send`: it hands the value to the receiving half, or
/// fails with `Closed` when that half is gone; which of the two happens depends on the
/// receiver, so nothing is promised about it.
pub assume_specification<T>[ async_oneshot::Sender::<T>::send ](
    sender: &mut async_oneshot::Sender<T>,
    value: T,
) -> Result<(), async_oneshot::Closed>;

/// Why a pending request cannot be registered.
#[derive(Debug, Clone, Copy, PartialEq, Eq, Structural)]
pub enum MultiplexError {
    /// A request with this identifier is already waiting for its response.
    DuplicateIdentifier,
}

/// What became of a response handed to the table.
#[derive(Debug, Clone, Copy, PartialEq, Eq, Structural)]
pub enum Resolution {
    /// The identifier was pending and its slot accepted the response.
    Delivered,
    /// The identifier was pending but its slot refused the response: the caller had given
    /// up waiting.
    Abandoned,
    /// No request with this identifier was pending: the response is dropped.
    Unknown,
}

/// The table after registering `slot` under `id`: unchanged when `id` is already pending.
pub open spec fn registered<Id, S>(m: Map<Id, S>, id: Id, slot: S) -> Map<Id, S> {
    if m.contains_key(id) {
        m
    } else {
        m.insert(id, slot)
    }
}

/// The table after a response for `id` arrived: `id` is no longer pending.
pub open spec fn resolved<Id, S>(m: Map<Id, S>, id: Id) -> Map<Id, S> {
    m.remove(id)
}

/// One transition of the table.
pub enum MuxEvent<Id, S> {
    /// A caller registers a completion slot under an identifier.
    Register(Id, S),
    /// A response for an identifier arrives.
    Resolve(Id),
}

/// The table after one event.
pub open spec fn step<Id, S>(m: Map<Id, S>, e: MuxEvent<Id, S>) -> Map<Id, S> {
    match e {
        MuxEvent::Register(id, slot) => registered(m, id, slot),
        MuxEvent::Resolve(id) => resolved(m, id),
    }
}

/// The table after a sequence of events, applied from the first.
pub open spec fn run<Id, S>(m: Map<Id, S>, evs: Seq<MuxEvent<Id, S>>) -> Map<Id, S>
    decreases evs.len(),
{
    if evs.len() == 0 {
        m
    } else {
        run(step(m, evs[0]), evs.drop_first())
    }
}

/// How many responses for `id` a run delivers to a pending slot.
pub open spec fn deliveries<Id, S>(m: Map<Id, S>, evs: Seq<MuxEvent<Id, S>>, id: Id) -> nat
    decreases evs.len(),
{
    if evs.len() == 0 {
        0
    } else {
        let here: nat = match evs[0] {
            MuxEvent::Resolve(k) => if k == id && m.contains_key(id) {
                1
            } else {
                0
            },
            _ => 0,
        };
        here + deliveries(step(m, evs[0]), evs.drop_first(), id)
    }
}

/// How many registrations under `id` a run accepts.
pub open spec fn acceptances<Id, S>(m: Map<Id, S>, evs: Seq<MuxEvent<Id, S>>, id: Id) -> nat
    decreases evs.len(),
{
    if evs.len() == 0 {
        0
    } else {
        let here: nat = match evs[0] {
            MuxEvent::Register(k, _) => if k == id && !m.contains_key(id) {
                1
            } else {
                0
            },
            _ => 0,
        };
        here + acceptances(step(m, evs[0]), evs.drop_first(), id)
    }
}

/// Over any run of registrations and resolutions, each identifier is delivered at most one
/// response per accepted registration: what was pending at the start plus what was
/// accepted equals what was delivered plus what is still pending.
pub proof fn lemma_one_delivery_per_registration<Id, S>(
    m: Map<Id, S>,
    evs: Seq<MuxEvent<Id, S>>,
    id: Id,
)
    ensures
        deliveries(m, evs, id) + (if run(m, evs).contains_key(id) {
            1nat
        } else {
            0nat
        }) == (if m.contains_key(id) {
            1nat
        } else {
            0nat
        }) + acceptances(m, evs, id),
        deliveries(m, evs, id) <= (if m.contains_key(id) {
            1nat
        } else {
            0nat
        }) + acceptances(m, evs, id),
    decreases evs.len(),
{
    if evs.len() > 0 {
        lemma_one_delivery_per_registration(step(m, evs[0]), evs.drop_first(), id);
    }
}

/// A response for an identifier that is not pending leaves the table as it was.
pub proof fn lemma_unknown_response_harmless<Id, S>(m: Map<Id, S>, id: Id)
    requires
        !m.contains_key(id),
    ensures
        resolved(m, id) == m,
{
    assert(m.remove(id) =~= m);
}

/// The table of pending requests: each identifier waiting for its response, with the slot
/// that completes its caller.
#[derive(Debug)]
#[verifier::reject_recursive_types(Id)]
#[verifier::reject_recursive_types(Response)]
pub struct Dispatcher<Id, Response> {
    pending_requests: HashMap<Id, async_oneshot::Sender<Response>>,
}

impl<Id, Response> View for Dispatcher<Id, Response> {
    type V = Map<Id, async_oneshot::Sender<Response>>;

    closed spec fn view(&self) -> Map<Id, async_oneshot::Sender<Response>> {
        self.pending_requests@
    }
}

impl<Id: Eq + Hash, Response> Dispatcher<Id, Response> {
    /// An empty table.
    pub fn new() -> (r: Dispatcher<Id, Response>)
        ensures
            r@ == Map::<Id, async_oneshot::Sender<Response>>::empty(),
    {
        Dispatcher { pending_requests: HashMap::new() }
    }

    /// Tells whether a request with identifier `id` is waiting for its response.
    pub fn is_pending(&self, id: &Id) -> (r: bool)
        requires
            obeys_key_model::<Id>(),
        ensures
            r == self@.contains_key(*id),
    {
        broadcast use vstd::std_specs::hash::group_hash_axioms;

        self.pending_requests.contains_key(id)
    }

    /// Registers the completion slot of a request; fails, leaving the table as it was, when
    /// a request with the same identifier is already pending.
    pub fn register(&mut self, id: Id, sender: async_oneshot::Sender<Response>) -> (r: Result<
        (),
        MultiplexError,
    >)
        requires
            obeys_key_model::<Id>(),
        ensures
            final(self)@ == registered(old(self)@, id, sender),
            old(self)@.contains_key(id) ==> r == Err::<(), MultiplexError>(
                MultiplexError::DuplicateIdentifier,
            ),
            !old(self)@.contains_key(id) ==> r is Ok,
    {
        broadcast use vstd::std_specs::hash::group_hash_axioms;

        if self.pending_requests.contains_key(&id) {
            return Err(MultiplexError::DuplicateIdentifier);
        }
        self.pending_requests.insert(id, sender);
        Ok(())
    }

    /// Removes the request that waits under `id` and hands back its completion slot;
    /// `None`, with the table unchanged, when no such request is pending.
    pub fn take_pending(&mut self, id: &Id) -> (r: Option<async_oneshot::Sender<Response>>)
        requires
            obeys_key_model::<Id>(),
        ensures
            final(self)@ == resolved(old(self)@, *id),
            r == (if old(self)@.contains_key(*id) {
                Some(old(self)@[*id])
            } else {
                None::<async_oneshot::Sender<Response>>
            }),
    {
        broadcast use vstd::std_specs::hash::group_hash_axioms;

        self.pending_requests.remove(id)
    }

    /// Hands a response to the request that waits under `id`, which stops waiting; a
    /// response for no pending request is dropped.
    ///
    /// The slot that `take_pending` removes is the one the response is sent to, and the
    /// result reports whether that slot accepted it.
    pub fn resolve(&mut self, id: &Id, response: Response) -> (r: Resolution)
        requires
            obeys_key_model::<Id>(),
        ensures
            final(self)@ == resolved(old(self)@, *id),
            (r == Resolution::Unknown) == !old(self)@.contains_key(*id),
    {
        match self.take_pending(id) {
            Some(mut sender) => deliver(&mut sender, response),
            None => Resolution::Unknown,
        }
    }
}

/// Sends `response` to a completion slot: `Delivered` when the slot accepts it,
/// `Abandoned` when its receiving half is gone.
pub fn deliver<Response>(sender: &mut async_oneshot::Sender<Response>, response: Response) -> (r:
    Resolution)
    ensures
        r == Resolution::Delivered || r == Resolution::Abandoned,
{
    match sender.send(response) {
        Ok(()) => Resolution::Delivered,
        Err(_) => Resolution::Abandoned,
    }
}

} // verus!
