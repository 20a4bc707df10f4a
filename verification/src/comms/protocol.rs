//! The registry of application protocols: which handler takes the substreams
//! that a peer opens for a protocol.

use crate::comms::peer::bytes_equal;
use vstd::prelude::*;

verus! {

/// The identifier that a substream is negotiated under.
pub type ProtocolId = Vec<u8>;

/// The handler that takes ownership of the substreams of a protocol.
#[derive(Clone, Copy, Debug, PartialEq, Eq, Structural, Hash)]
pub struct HandlerId(pub u64);

/// The handle of a substream that a peer opened.
#[derive(Clone, Copy, Debug, PartialEq, Eq, Structural, Hash)]
pub struct SubstreamId(pub u64);

/// The protocol of a substream has no handler.
#[derive(Clone, Copy, Debug, PartialEq, Eq, Structural)]
pub enum ProtocolError {
    ProtocolNotRegistered,
}

#[derive(Debug)]
struct ProtocolEntry {
    protocol: ProtocolId,
    handler: HandlerId,
}

/// The protocols that this node supports, each with its handler.
#[derive(Debug)]
pub struct Protocols {
    entries: Vec<ProtocolEntry>,
}

/// The registry after `protocols[from..]` were registered for `handler`, one
/// after the other; a later registration of a protocol replaces an earlier one.
pub open spec fn registered(
    table: Map<Seq<u8>, HandlerId>,
    protocols: Seq<Seq<u8>>,
    handler: HandlerId,
) -> Map<Seq<u8>, HandlerId>
    decreases protocols.len(),
{
    if protocols.len() == 0 {
        table
    } else {
        registered(table, protocols.drop_last(), handler).insert(protocols.last(), handler)
    }
}

/// The identifiers of a list of protocols.
pub open spec fn protocol_views(protocols: Seq<ProtocolId>) -> Seq<Seq<u8>> {
    Seq::new(protocols.len(), |i: int| protocols[i]@)
}

impl Protocols {
    spec fn has_at(&self, protocol: Seq<u8>, i: int) -> bool {
        0 <= i < self.entries@.len() && self.entries@[i].protocol@ == protocol
    }

    spec fn has(&self, protocol: Seq<u8>) -> bool {
        exists|i: int| self.has_at(protocol, i)
    }

    spec fn index_of(&self, protocol: Seq<u8>) -> int {
        choose|i: int| self.has_at(protocol, i)
    }

    /// No protocol is registered twice.
    pub closed spec fn wf(&self) -> bool {
        forall|i: int, j: int|
            0 <= i < j < self.entries@.len() ==> self.entries@[i].protocol@
                != self.entries@[j].protocol@
    }

    proof fn lemma_index(&self, protocol: Seq<u8>, i: int)
        requires
            self.wf(),
            self.has_at(protocol, i),
        ensures
            self.has(protocol),
            self.index_of(protocol) == i,
            self@.dom().contains(protocol),
            self@[protocol] == self.entries@[i].handler,
    {
        let j = self.index_of(protocol);
        assert(self.has_at(protocol, j));
        if j < i {
            assert(self.entries@[j].protocol@ != self.entries@[i].protocol@);
        } else if i < j {
            assert(self.entries@[i].protocol@ != self.entries@[j].protocol@);
        }
    }

    /// An empty registry.
    pub fn new() -> (protocols: Protocols)
        ensures
            protocols@ == Map::<Seq<u8>, HandlerId>::empty(),
            protocols.wf(),
    {
        let protocols = Protocols { entries: Vec::new() };
        assert(protocols@ =~= Map::<Seq<u8>, HandlerId>::empty());
        protocols
    }

    fn find(&self, protocol: &ProtocolId) -> (found: Option<usize>)
        requires
            self.wf(),
        ensures
            match found {
                Some(i) => self.has_at(protocol@, i as int),
                None => !self.has(protocol@),
            },
    {
        let mut i: usize = 0;
        while i < self.entries.len()
            invariant
                i <= self.entries.len(),
                forall|j: int| 0 <= j < i ==> !self.has_at(protocol@, j),
            decreases self.entries.len() - i,
        {
            if bytes_equal(&self.entries[i].protocol, protocol) {
                return Some(i);
            }
            i += 1;
        }
        None
    }

    /// The handler of a protocol, if the protocol is registered.
    pub fn lookup(&self, protocol: &ProtocolId) -> (handler: Option<HandlerId>)
        requires
            self.wf(),
        ensures
            handler == if self@.dom().contains(protocol@) {
                Some(self@[protocol@])
            } else {
                None
            },
    {
        match self.find(protocol) {
            Some(i) => {
                proof {
                    self.lemma_index(protocol@, i as int);
                }
                Some(self.entries[i].handler)
            },
            None => None,
        }
    }

    /// The handler that an inbound substream of `protocol` is handed to, or
    /// the error that tells the caller to close the substream.
    pub fn notify(&self, protocol: &ProtocolId) -> (handler: Result<HandlerId, ProtocolError>)
        requires
            self.wf(),
        ensures
            handler == if self@.dom().contains(protocol@) {
                Ok::<HandlerId, ProtocolError>(self@[protocol@])
            } else {
                Err::<HandlerId, ProtocolError>(ProtocolError::ProtocolNotRegistered)
            },
    {
        match self.lookup(protocol) {
            Some(handler) => Ok(handler),
            None => Err(ProtocolError::ProtocolNotRegistered),
        }
    }

    /// Registers one protocol for a handler, in place of any handler it had.
    pub fn insert(&mut self, protocol: ProtocolId, handler: HandlerId)
        requires
            old(self).wf(),
        ensures
            final(self).wf(),
            final(self)@ == old(self)@.insert(protocol@, handler),
    {
        match self.find(&protocol) {
            Some(i) => {
                proof {
                    self.lemma_index(protocol@, i as int);
                }
                let ghost before = *self;
                let old_entry = self.entries.remove(i);
                self.entries.insert(i, ProtocolEntry { protocol, handler });
                proof {
                    assert(self.entries@.len() == before.entries@.len());
                    assert forall|j: int| 0 <= j < self.entries@.len() implies (
                    #[trigger] self.entries@[j]).protocol@ == before.entries@[j].protocol@ by {}
                    assert(self.wf());
                    assert forall|k: Seq<u8>| #[trigger]
                        self@.dom().contains(k) == before@.insert(protocol@, handler).dom().contains(
                            k,
                        ) by {
                        if before.has(k) {
                            let j = before.index_of(k);
                            assert(self.has_at(k, j));
                        }
                        if self.has(k) {
                            let j = self.index_of(k);
                            assert(before.has_at(k, j));
                        }
                    }
                    assert forall|k: Seq<u8>| #[trigger]
                        self@.dom().contains(k) implies self@[k] == before@.insert(
                        protocol@,
                        handler,
                    )[k] by {
                        let j = self.index_of(k);
                        assert(self.has_at(k, j));
                        self.lemma_index(k, j);
                        if k != protocol@ {
                            assert(before.has_at(k, j));
                            before.lemma_index(k, j);
                        } else {
                            self.lemma_index(k, i as int);
                        }
                    }
                    assert(self@ =~= before@.insert(protocol@, handler));
                }
            },
            None => {
                let ghost before = *self;
                self.entries.push(ProtocolEntry { protocol, handler });
                proof {
                    let n = before.entries@.len() as int;
                    assert forall|a: int, b: int| 0 <= a < b < self.entries@.len() implies
                        self.entries@[a].protocol@ != self.entries@[b].protocol@ by {
                        if b == n {
                            assert(!before.has_at(protocol@, a));
                        }
                    }
                    assert(self.has_at(protocol@, n));
                    assert forall|k: Seq<u8>| #[trigger]
                        self@.dom().contains(k) == before@.insert(protocol@, handler).dom().contains(
                            k,
                        ) by {
                        if before.has(k) {
                            let j = before.index_of(k);
                            assert(self.has_at(k, j));
                        }
                        if self.has(k) {
                            let j = self.index_of(k);
                            if j < n {
                                assert(before.has_at(k, j));
                            }
                        }
                    }
                    assert forall|k: Seq<u8>| #[trigger]
                        self@.dom().contains(k) implies self@[k] == before@.insert(
                        protocol@,
                        handler,
                    )[k] by {
                        let j = self.index_of(k);
                        assert(self.has_at(k, j));
                        self.lemma_index(k, j);
                        if k != protocol@ {
                            assert(before.has_at(k, j));
                            before.lemma_index(k, j);
                        } else {
                            self.lemma_index(k, n);
                        }
                    }
                    assert(self@ =~= before@.insert(protocol@, handler));
                }
            },
        }
    }

    /// Registers every protocol of the list for one handler.
    pub fn add(&mut self, protocols: &Vec<ProtocolId>, handler: HandlerId)
        requires
            old(self).wf(),
        ensures
            final(self).wf(),
            final(self)@ == registered(old(self)@, protocol_views(protocols@), handler),
    {
        let ghost all = protocol_views(protocols@);
        let mut i: usize = 0;
        while i < protocols.len()
            invariant
                i <= protocols.len(),
                self.wf(),
                all == protocol_views(protocols@),
                self@ == registered(old(self)@, all.take(i as int), handler),
            decreases protocols.len() - i,
        {
            proof {
                assert(all.take(i + 1).drop_last() =~= all.take(i as int));
                assert(all.take(i + 1).last() == protocols@[i as int]@);
            }
            self.insert(protocols[i].clone(), handler);
            i += 1;
        }
        proof {
            assert(all.take(i as int) =~= all);
        }
    }

    /// Takes over every registration of `other`; where both registries know
    /// a protocol, the handler of `other` replaces the one held here.
    pub fn extend(&mut self, other: Protocols)
        requires
            old(self).wf(),
            other.wf(),
        ensures
            final(self).wf(),
            final(self)@ == old(self)@.union_prefer_right(other@),
    {
        let mut i: usize = 0;
        while i < other.entries.len()
            invariant
                i <= other.entries.len(),
                self.wf(),
                other.wf(),
                forall|k: Seq<u8>| #[trigger]
                    self@.dom().contains(k) <==> (old(self)@.dom().contains(k) || exists|j: int|
                        0 <= j < i && other.has_at(k, j)),
                forall|k: Seq<u8>| #[trigger]
                    self@.dom().contains(k) ==> self@[k] == if exists|j: int|
                        0 <= j < i && other.has_at(k, j) {
                        other@[k]
                    } else {
                        old(self)@[k]
                    },
            decreases other.entries.len() - i,
        {
            let ghost before = self@;
            let ghost key = other.entries@[i as int].protocol@;
            proof {
                assert(other.has_at(key, i as int));
                other.lemma_index(key, i as int);
            }
            self.insert(other.entries[i].protocol.clone(), other.entries[i].handler);
            proof {
                assert forall|k: Seq<u8>| #[trigger]
                    self@.dom().contains(k) <==> (old(self)@.dom().contains(k) || exists|j: int|
                        0 <= j < i + 1 && other.has_at(k, j)) by {
                    if exists|j: int| 0 <= j < i + 1 && other.has_at(k, j) {
                        let j = choose|j: int| 0 <= j < i + 1 && other.has_at(k, j);
                        if j < i {
                            assert(before.dom().contains(k));
                        } else {
                            assert(k == key);
                        }
                    }
                    if before.dom().contains(k) && !old(self)@.dom().contains(k) {
                        let j = choose|j: int| 0 <= j < i && other.has_at(k, j);
                        assert(0 <= j < i + 1 && other.has_at(k, j));
                    }
                }
                assert forall|k: Seq<u8>| #[trigger]
                    self@.dom().contains(k) implies self@[k] == if exists|j: int|
                    0 <= j < i + 1 && other.has_at(k, j) {
                    other@[k]
                } else {
                    old(self)@[k]
                } by {
                    if k == key {
                        assert(0 <= i < i + 1 && other.has_at(k, i as int));
                    } else {
                        assert(before.dom().contains(k));
                        if exists|j: int| 0 <= j < i + 1 && other.has_at(k, j) {
                            let j = choose|j: int| 0 <= j < i + 1 && other.has_at(k, j);
                            assert(j != i);
                            assert(0 <= j < i && other.has_at(k, j));
                        }
                        if exists|j: int| 0 <= j < i && other.has_at(k, j) {
                            let j = choose|j: int| 0 <= j < i && other.has_at(k, j);
                            assert(0 <= j < i + 1 && other.has_at(k, j));
                        }
                    }
                }
            }
            i += 1;
        }
        proof {
            let target = old(self)@.union_prefer_right(other@);
            assert forall|k: Seq<u8>| #[trigger]
                self@.dom().contains(k) == target.dom().contains(k) by {
                if other.has(k) {
                    let j = other.index_of(k);
                    assert(0 <= j < i && other.has_at(k, j));
                }
                if exists|j: int| 0 <= j < i && other.has_at(k, j) {
                    let j = choose|j: int| 0 <= j < i && other.has_at(k, j);
                    assert(other.has_at(k, j));
                }
            }
            assert forall|k: Seq<u8>| #[trigger] self@.dom().contains(k) implies self@[k]
                == target[k] by {
                if other.has(k) {
                    let j = other.index_of(k);
                    assert(0 <= j < i && other.has_at(k, j));
                } else {
                    if exists|j: int| 0 <= j < i && other.has_at(k, j) {
                        let j = choose|j: int| 0 <= j < i && other.has_at(k, j);
                        assert(other.has_at(k, j));
                    }
                }
            }
            assert(self@ =~= target);
        }
    }

    /// The protocols that are registered, each once, in the order in which
    /// they were first registered.
    pub fn get_supported_protocols(&self) -> (protocols: Vec<ProtocolId>)
        requires
            self.wf(),
        ensures
            protocol_views(protocols@).no_duplicates(),
            protocol_views(protocols@).to_set() == self@.dom(),
    {
        let mut protocols: Vec<ProtocolId> = Vec::new();
        let mut i: usize = 0;
        while i < self.entries.len()
            invariant
                i <= self.entries.len(),
                protocols@.len() == i,
                forall|j: int| 0 <= j < i ==> (#[trigger] protocols@[j])@ == self.entries@[j].protocol@,
            decreases self.entries.len() - i,
        {
            protocols.push(self.entries[i].protocol.clone());
            i += 1;
        }
        proof {
            let views = protocol_views(protocols@);
            assert forall|a: int, b: int| 0 <= a < views.len() && 0 <= b < views.len() && a
                != b implies views[a] != views[b] by {
                assert(views[a] == self.entries@[a].protocol@);
                assert(views[b] == self.entries@[b].protocol@);
                if a < b {
                    assert(self.entries@[a].protocol@ != self.entries@[b].protocol@);
                } else {
                    assert(self.entries@[b].protocol@ != self.entries@[a].protocol@);
                }
            }
            assert forall|k: Seq<u8>| #[trigger]
                views.to_set().contains(k) == self@.dom().contains(k) by {
                if views.contains(k) {
                    let j = choose|j: int| 0 <= j < views.len() && views[j] == k;
                    assert(self.has_at(k, j));
                }
                if self.has(k) {
                    let j = self.index_of(k);
                    assert(views[j] == k);
                }
            }
            assert(views.to_set() =~= self@.dom());
        }
        protocols
    }

    /// How many protocols are registered.
    pub fn len(&self) -> (count: usize)
        requires
            self.wf(),
        ensures
            count == self@.dom().len(),
            self@.dom().finite(),
    {
        proof {
            self.lemma_len();
        }
        self.entries.len()
    }

    proof fn lemma_len(&self)
        requires
            self.wf(),
        ensures
            self@.dom().finite(),
            self@.dom().len() == self.entries@.len(),
    {
        let keys = Seq::new(self.entries@.len(), |i: int| self.entries@[i].protocol@);
        assert forall|a: int, b: int| 0 <= a < keys.len() && 0 <= b < keys.len() && a
            != b implies keys[a] != keys[b] by {
            if a < b {
                assert(self.entries@[a].protocol@ != self.entries@[b].protocol@);
            } else {
                assert(self.entries@[b].protocol@ != self.entries@[a].protocol@);
            }
        }
        keys.unique_seq_to_set();
        assert forall|k: Seq<u8>| #[trigger] keys.to_set().contains(k) == self@.dom().contains(
            k,
        ) by {
            if keys.contains(k) {
                let j = choose|j: int| 0 <= j < keys.len() && keys[j] == k;
                assert(self.has_at(k, j));
            }
            if self.has(k) {
                let j = self.index_of(k);
                assert(keys[j] == k);
            }
        }
        assert(keys.to_set() =~= self@.dom());
    }
}

impl View for Protocols {
    type V = Map<Seq<u8>, HandlerId>;

    closed spec fn view(&self) -> Map<Seq<u8>, HandlerId> {
        Map::new(
            |protocol: Seq<u8>| self.has(protocol),
            |protocol: Seq<u8>| self.entries@[self.index_of(protocol)].handler,
        )
    }
}

} // verus!
