use vstd::prelude::*;

verus! {

/// How a method reaches the shared service state, from the loosest to the strictest.
///
/// Methods that take ownership of the state are not represented: they are not supported.
#[derive(Clone, Copy, Debug, PartialEq, Eq, Structural, PartialOrd, Ord, Hash)]
pub enum ReceiverType {
    /// The method has no `self` receiver and needs no state.
    NoReceiver,
    /// The method reads the state through `&self`.
    Reference,
    /// The method writes the state through `&mut self`.
    MutableReference,
}

/// The `self` receiver of a method as it was declared.
#[derive(Clone, Copy, Debug, PartialEq, Eq, Structural)]
pub struct Receiver {
    /// The receiver is a reference (`&self`, `&mut self`) rather than an owned `self`.
    pub reference: bool,
    /// The receiver is mutable (`&mut self`, `mut self`).
    pub mutable: bool,
}

/// How the router reaches a method, given the storage it keeps the state in.
#[derive(Clone, Copy, Debug, PartialEq, Eq, Structural)]
pub enum CallPrefix {
    /// An associated function of the service type: `Type::method(..)`.
    Associated,
    /// A call through the shared, read-only handle: `inner.method(..)`.
    Shared,
    /// A call under the exclusive lock, serialised with every other locked call.
    Exclusive,
}

/// How the router holds the service state.
#[derive(Clone, Copy, Debug, PartialEq, Eq, Structural)]
pub enum StateStorage {
    /// No state is held; every method is an associated function.
    Stateless,
    /// The state sits behind a reference-counted handle that many readers share.
    Shared,
    /// The state sits behind a reference-counted handle and a lock that serialises access.
    Serialized,
}

impl ReceiverType {
    /// Position in the order `NoReceiver < Reference < MutableReference`.
    pub open spec fn rank(self) -> nat {
        match self {
            ReceiverType::NoReceiver => 0,
            ReceiverType::Reference => 1,
            ReceiverType::MutableReference => 2,
        }
    }

    /// The stricter of two receiver types.
    pub open spec fn spec_stricter(self, other: ReceiverType) -> ReceiverType {
        if self.rank() >= other.rank() {
            self
        } else {
            other
        }
    }

    /// Classifies a method by its receiver; `None` for a receiver that takes ownership.
    pub fn new(receiver: Option<Receiver>) -> (r: Option<ReceiverType>)
        ensures
            r == receiver_type_of(receiver),
    {
        match receiver {
            None => Some(ReceiverType::NoReceiver),
            Some(rc) => {
                if !rc.reference {
                    None
                } else if rc.mutable {
                    Some(ReceiverType::MutableReference)
                } else {
                    Some(ReceiverType::Reference)
                }
            },
        }
    }

    /// The position of this receiver type in the order `NoReceiver < Reference < MutableReference`.
    pub fn rank_of(&self) -> (r: u8)
        ensures
            r as nat == self.rank(),
    {
        match self {
            ReceiverType::NoReceiver => 0,
            ReceiverType::Reference => 1,
            ReceiverType::MutableReference => 2,
        }
    }

    /// The stricter of `self` and `other`: the least receiver type that covers both.
    pub fn stricter(self, other: ReceiverType) -> (r: ReceiverType)
        ensures
            r == self.spec_stricter(other),
    {
        if self.rank_of() >= other.rank_of() {
            self
        } else {
            other
        }
    }

    /// How a router whose storage follows `self` reaches a method with `method_receiver_type`.
    ///
    /// A method without receiver is an associated function. Once the state is serialised, a
    /// reading method waits for the lock exactly as a writing one does.
    pub fn service_method_call_prefix(&self, method_receiver_type: ReceiverType) -> (r: CallPrefix)
        requires
            method_receiver_type.rank() <= self.rank(),
        ensures
            r == call_prefix(*self, method_receiver_type),
    {
        match method_receiver_type {
            ReceiverType::NoReceiver => CallPrefix::Associated,
            _ => match self {
                ReceiverType::MutableReference => CallPrefix::Exclusive,
                _ => CallPrefix::Shared,
            },
        }
    }

    /// The storage a router needs when `self` is the strictest receiver type of its methods.
    pub fn state_storage(&self) -> (r: StateStorage)
        ensures
            r == storage_for(*self),
    {
        match self {
            ReceiverType::NoReceiver => StateStorage::Stateless,
            ReceiverType::Reference => StateStorage::Shared,
            ReceiverType::MutableReference => StateStorage::Serialized,
        }
    }
}

/// The receiver type of a method with this receiver; `None` for one that takes ownership.
pub open spec fn receiver_type_of(receiver: Option<Receiver>) -> Option<ReceiverType> {
    match receiver {
        None => Some(ReceiverType::NoReceiver),
        Some(rc) => if !rc.reference {
            None
        } else if rc.mutable {
            Some(ReceiverType::MutableReference)
        } else {
            Some(ReceiverType::Reference)
        },
    }
}

/// The call prefix for a method with receiver `method` under a router whose storage follows
/// `service`.
pub open spec fn call_prefix(service: ReceiverType, method: ReceiverType) -> CallPrefix {
    if method == ReceiverType::NoReceiver {
        CallPrefix::Associated
    } else if service == ReceiverType::MutableReference {
        CallPrefix::Exclusive
    } else {
        CallPrefix::Shared
    }
}

/// The storage for the state of a router whose strictest receiver type is `r`.
pub open spec fn storage_for(r: ReceiverType) -> StateStorage {
    match r {
        ReceiverType::NoReceiver => StateStorage::Stateless,
        ReceiverType::Reference => StateStorage::Shared,
        ReceiverType::MutableReference => StateStorage::Serialized,
    }
}

/// The strictest receiver type of `rs`; `NoReceiver` for an empty sequence.
pub open spec fn strictest(rs: Seq<ReceiverType>) -> ReceiverType
    decreases rs.len(),
{
    if rs.len() == 0 {
        ReceiverType::NoReceiver
    } else {
        strictest(rs.drop_last()).spec_stricter(rs.last())
    }
}

/// The strictest receiver type is an upper bound of every element, and for a non-empty
/// sequence it is one of the elements: it is their supremum.
pub proof fn lemma_strictest_is_supremum(rs: Seq<ReceiverType>)
    ensures
        forall|i: int| 0 <= i < rs.len() ==> (#[trigger] rs[i]).rank() <= strictest(rs).rank(),
        rs.len() > 0 ==> exists|i: int| 0 <= i < rs.len() && rs[i] == strictest(rs),
    decreases rs.len(),
{
    if rs.len() > 0 {
        let init = rs.drop_last();
        lemma_strictest_is_supremum(init);
        assert forall|i: int| 0 <= i < rs.len() implies (#[trigger] rs[i]).rank() <= strictest(
            rs,
        ).rank() by {
            if i < rs.len() - 1 {
                assert(rs[i] == init[i]);
            }
        }
        if strictest(rs) == rs.last() {
            assert(rs[rs.len() - 1] == strictest(rs));
        } else {
            let j = choose|j: int| 0 <= j < init.len() && init[j] == strictest(init);
            assert(rs[j] == strictest(rs));
        }
    }
}

/// One method that writes the state makes the whole service serialise its state, however
/// many methods only read it or need no state at all.
pub proof fn lemma_exclusive_write_dominates(rs: Seq<ReceiverType>)
    requires
        exists|i: int| 0 <= i < rs.len() && rs[i] == ReceiverType::MutableReference,
    ensures
        strictest(rs) == ReceiverType::MutableReference,
        storage_for(strictest(rs)) == StateStorage::Serialized,
{
    lemma_strictest_is_supremum(rs);
    let i = choose|i: int| 0 <= i < rs.len() && rs[i] == ReceiverType::MutableReference;
    assert(rs[i].rank() <= strictest(rs).rank());
}

} // verus!
