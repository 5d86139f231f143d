//! Bookkeeping core of the RPC transport.
//!
//! One live channel to a started remote agent carries line-delimited
//! requests and responses that are correlated purely by numeric id.  This
//! module owns that correlation state: the fresh-id counter, the table of
//! pending calls, the one-shot hand-over of the notification consumer and
//! the alive/dead flag.  The surrounding async loop performs the I/O and
//! drives this core with events; every decision it needs is taken here,
//! under contract.
//!
//! The completion slot type is a parameter (`S`): the runtime stores a
//! one-shot sender in it, the proofs and tests store plain values.

use vstd::prelude::*;
use crate::rpc::RpcError;

verus! {

/// Default timeout for RPC calls, in seconds.
pub const DEFAULT_RPC_TIMEOUT_SECS: u64 = 30;

/// Transport-level errors.
#[derive(Debug, Clone, PartialEq, Eq)]
pub enum TransportError {
    /// The agent is not connected; the transport never was or is no longer alive.
    NotConnected,
    /// The agent channel closed while the call was outstanding.
    ChannelClosed,
    /// No response arrived within the given number of seconds.
    Timeout(u64),
    /// The outgoing request could not be serialized.
    SerializeError(String),
    /// An incoming message could not be deserialized.
    DeserializeError(String),
    /// The agent answered with an RPC error object.
    RpcError(RpcError),
    /// The secure channel itself failed.
    SshError(String),
}

/// The pending-call table as a mathematical map from request id to slot.
pub open spec fn entries_map<S>(s: Seq<(u64, S)>) -> Map<u64, S>
    decreases s.len(),
{
    if s.len() == 0 {
        Map::empty()
    } else {
        entries_map(s.drop_last()).insert(s.last().0, s.last().1)
    }
}

/// An id is in the map exactly when some entry carries it.
pub proof fn lemma_entries_map_dom<S>(s: Seq<(u64, S)>, id: u64)
    ensures
        entries_map(s).contains_key(id) <==> exists|i: int| 0 <= i < s.len() && s[i].0 == id,
    decreases s.len(),
{
    if s.len() > 0 {
        lemma_entries_map_dom(s.drop_last(), id);
        if s.last().0 == id {
            assert(s[s.len() - 1].0 == id);
        } else {
            if entries_map(s).contains_key(id) {
                let i = choose|i: int| 0 <= i < s.drop_last().len() && s.drop_last()[i].0 == id;
                assert(s[i].0 == id);
            }
            if exists|i: int| 0 <= i < s.len() && s[i].0 == id {
                let i = choose|i: int| 0 <= i < s.len() && s[i].0 == id;
                assert(i < s.len() - 1);
                assert(s.drop_last()[i].0 == id);
            }
        }
    }
}

/// With distinct ids, the map value of an id is the slot of its entry.
pub proof fn lemma_entries_map_value<S>(s: Seq<(u64, S)>, i: int)
    requires
        0 <= i < s.len(),
        forall|a: int, b: int| 0 <= a < b < s.len() ==> (#[trigger] s[a]).0 != (#[trigger] s[b]).0,
    ensures
        entries_map(s).contains_key(s[i].0),
        entries_map(s)[s[i].0] == s[i].1,
    decreases s.len(),
{
    if i == s.len() - 1 {
        lemma_entries_map_dom(s, s[i].0);
    } else {
        lemma_entries_map_value(s.drop_last(), i);
        assert(s.drop_last()[i] == s[i]);
        assert(s.last().0 != s[i].0);
    }
}

/// Removing the entry at index `i` removes exactly its id from the map.
pub proof fn lemma_entries_map_remove<S>(s: Seq<(u64, S)>, i: int)
    requires
        0 <= i < s.len(),
        forall|a: int, b: int| 0 <= a < b < s.len() ==> (#[trigger] s[a]).0 != (#[trigger] s[b]).0,
    ensures
        entries_map(s.remove(i)) =~= entries_map(s).remove(s[i].0),
    decreases s.len(),
{
    let id = s[i].0;
    if i == s.len() - 1 {
        assert(s.remove(i) =~= s.drop_last());
        lemma_entries_map_dom(s.drop_last(), id);
        assert(!entries_map(s.drop_last()).contains_key(id)) by {
            if entries_map(s.drop_last()).contains_key(id) {
                let j = choose|j: int|
                    0 <= j < s.drop_last().len() && s.drop_last()[j].0 == id;
                assert(s[j].0 == s[i].0);
            }
        }
        assert(entries_map(s.drop_last()) =~= entries_map(s).remove(id));
    } else {
        assert(s.remove(i).drop_last() =~= s.drop_last().remove(i));
        assert(s.remove(i).last() == s.last());
        assert(forall|a: int, b: int|
            0 <= a < b < s.drop_last().len() ==> (#[trigger] s.drop_last()[a]).0 != (
            #[trigger] s.drop_last()[b]).0);
        lemma_entries_map_remove(s.drop_last(), i);
        assert(s.drop_last()[i] == s[i]);
        assert(s.last().0 != id);
        assert(entries_map(s.remove(i)) =~= entries_map(s.drop_last()).remove(id).insert(
            s.last().0,
            s.last().1,
        ));
        assert(entries_map(s.drop_last()).remove(id).insert(s.last().0, s.last().1)
            =~= entries_map(s).remove(id));
    }
}

/// Table of pending calls, keyed by request id, plus the fresh-id counter.
pub struct PendingMap<S> {
    next_id: u64,
    entries: Vec<(u64, S)>,
}

impl<S> PendingMap<S> {
    /// The table as a map from id to completion slot.
    pub closed spec fn view_map(&self) -> Map<u64, S> {
        entries_map(self.entries@)
    }

    /// The raw entries, in registration order.
    pub closed spec fn spec_entries(&self) -> Seq<(u64, S)> {
        self.entries@
    }

    /// The next id the table will hand out.
    pub closed spec fn spec_next_id(&self) -> u64 {
        self.next_id
    }

    /// Well-formedness: ids are pairwise distinct and below the counter, so a
    /// registered call can never collide with a pending one.
    pub closed spec fn wf(&self) -> bool {
        &&& forall|a: int, b: int|
            0 <= a < b < self.entries@.len() ==> (#[trigger] self.entries@[a]).0 != (
            #[trigger] self.entries@[b]).0
        &&& forall|a: int|
            0 <= a < self.entries@.len() ==> (#[trigger] self.entries@[a]).0 < self.next_id
    }

    /// An empty table.
    pub fn new() -> (r: Self)
        ensures
            r.wf(),
            r.view_map() =~= Map::empty(),
            r.spec_entries() =~= Seq::<(u64, S)>::empty(),
            r.spec_next_id() == 1,
    {
        PendingMap { next_id: 1, entries: Vec::new() }
    }

    /// Number of pending calls.
    pub fn len(&self) -> (r: usize)
        ensures
            r == self.spec_entries().len(),
    {
        self.entries.len()
    }

    /// The id the table will hand out next.
    pub fn next_id_value(&self) -> (r: u64)
        ensures
            r == self.spec_next_id(),
    {
        self.next_id
    }

    /// Register a completion slot under a fresh id and return the id.  The id
    /// is unique for the lifetime of the table: it differs from every id that
    /// is pending and from every id that was ever handed out before.
    pub fn register(&mut self, slot: S) -> (id: u64)
        requires
            old(self).wf(),
            old(self).spec_next_id() < u64::MAX,
        ensures
            final(self).wf(),
            id == old(self).spec_next_id(),
            !old(self).view_map().contains_key(id),
            final(self).view_map() =~= old(self).view_map().insert(id, slot),
            final(self).spec_entries() =~= old(self).spec_entries().push((id, slot)),
            final(self).spec_next_id() == id + 1,
    {
        let id = self.next_id;
        self.next_id = self.next_id + 1;
        self.entries.push((id, slot));
        proof {
            lemma_entries_map_dom(old(self).entries@, id);
            assert(self.entries@.drop_last() =~= old(self).entries@);
        }
        id
    }

    /// Whether a call with this id is pending.
    pub fn contains(&self, id: u64) -> (r: bool)
        requires
            self.wf(),
        ensures
            r == self.view_map().contains_key(id),
    {
        let mut i: usize = 0;
        proof {
            lemma_entries_map_dom(self.entries@, id);
        }
        while i < self.entries.len()
            invariant
                0 <= i <= self.entries@.len(),
                forall|j: int| 0 <= j < i ==> (#[trigger] self.entries@[j]).0 != id,
                self.view_map().contains_key(id) <==> exists|j: int|
                    0 <= j < self.entries@.len() && (#[trigger] self.entries@[j]).0 == id,
            decreases self.entries@.len() - i,
        {
            if self.entries[i].0 == id {
                return true;
            }
            i = i + 1;
        }
        false
    }

    /// Remove and return the slot pending under `id`, if any.  The first
    /// resolution wins: afterwards the id is gone, so a second resolution of
    /// the same id finds nothing.
    pub fn remove(&mut self, id: u64) -> (r: Option<S>)
        requires
            old(self).wf(),
        ensures
            final(self).wf(),
            final(self).spec_next_id() == old(self).spec_next_id(),
            r is Some <==> old(self).view_map().contains_key(id),
            r is Some ==> r->Some_0 == old(self).view_map()[id] && final(self).view_map()
                =~= old(self).view_map().remove(id) && final(self).spec_entries().len() + 1
                == old(self).spec_entries().len(),
            r is None ==> *final(self) == *old(self),
    {
        let mut i: usize = 0;
        proof {
            lemma_entries_map_dom(self.entries@, id);
        }
        while i < self.entries.len()
            invariant
                *self == *old(self),
                self.wf(),
                0 <= i <= self.entries@.len(),
                forall|j: int| 0 <= j < i ==> (#[trigger] self.entries@[j]).0 != id,
                self.view_map().contains_key(id) <==> exists|j: int|
                    0 <= j < self.entries@.len() && (#[trigger] self.entries@[j]).0 == id,
            decreases self.entries@.len() - i,
        {
            if self.entries[i].0 == id {
                proof {
                    lemma_entries_map_value(self.entries@, i as int);
                    lemma_entries_map_remove(self.entries@, i as int);
                }
                let entry = self.entries.remove(i);
                return Some(entry.1);
            }
            i = i + 1;
        }
        None
    }

    /// Remove and return every pending entry, in registration order, leaving
    /// the table empty.
    pub fn drain(&mut self) -> (r: Vec<(u64, S)>)
        requires
            old(self).wf(),
        ensures
            final(self).wf(),
            final(self).spec_next_id() == old(self).spec_next_id(),
            r@ =~= old(self).spec_entries(),
            final(self).view_map() =~= Map::<u64, S>::empty(),
            final(self).spec_entries() =~= Seq::<(u64, S)>::empty(),
    {
        let mut out: Vec<(u64, S)> = Vec::new();
        core::mem::swap(&mut out, &mut self.entries);
        out
    }
}

/// Correlation state of one transport: alive flag, pending calls and the
/// one-shot notification hand-over.
pub struct TransportCore<S> {
    alive: bool,
    watch_taken: bool,
    pending: PendingMap<S>,
}

impl<S> TransportCore<S> {
    /// The pending calls as a map from id to slot.
    pub closed spec fn pending_map(&self) -> Map<u64, S> {
        self.pending.view_map()
    }

    /// The pending entries in registration order.
    pub closed spec fn pending_entries(&self) -> Seq<(u64, S)> {
        self.pending.spec_entries()
    }

    /// Whether the transport is alive.
    pub closed spec fn spec_alive(&self) -> bool {
        self.alive
    }

    /// Whether the notification consumer has been handed out.
    pub closed spec fn spec_watch_taken(&self) -> bool {
        self.watch_taken
    }

    /// The id the next accepted call will get.
    pub closed spec fn spec_next_id(&self) -> u64 {
        self.pending.spec_next_id()
    }

    /// Well-formedness of the pending table.
    pub closed spec fn wf(&self) -> bool {
        self.pending.wf()
    }

    /// A fresh transport: alive, no pending calls, consumer not yet taken,
    /// ids starting at 1.
    pub fn new() -> (r: Self)
        ensures
            r.wf(),
            r.spec_alive(),
            !r.spec_watch_taken(),
            r.pending_map() =~= Map::empty(),
            r.pending_entries() =~= Seq::<(u64, S)>::empty(),
            r.spec_next_id() == 1,
    {
        TransportCore { alive: true, watch_taken: false, pending: PendingMap::new() }
    }

    /// Non-blocking liveness probe.
    pub fn is_alive(&self) -> (r: bool)
        ensures
            r == self.spec_alive(),
    {
        self.alive
    }

    /// Number of calls currently pending.
    pub fn pending_count(&self) -> (r: usize)
        ensures
            r == self.pending_entries().len(),
    {
        self.pending.len()
    }

    /// The id the next accepted call will get.
    pub fn next_id(&self) -> (r: u64)
        ensures
            r == self.spec_next_id(),
    {
        self.pending.next_id_value()
    }

    /// Admit a new call: on a dead transport every call fails at once with
    /// `NotConnected`; on a live one the slot is registered under a fresh id
    /// that no pending call shares.
    pub fn begin_call(&mut self, slot: S) -> (r: Result<u64, TransportError>)
        requires
            old(self).wf(),
            old(self).spec_next_id() < u64::MAX,
        ensures
            final(self).wf(),
            final(self).spec_alive() == old(self).spec_alive(),
            final(self).spec_watch_taken() == old(self).spec_watch_taken(),
            r is Ok <==> old(self).spec_alive(),
            r is Err ==> r == Err::<u64, _>(TransportError::NotConnected) && *final(self)
                == *old(self),
            r is Ok ==> {
                let id = r->Ok_0;
                &&& id == old(self).spec_next_id()
                &&& !old(self).pending_map().contains_key(id)
                &&& final(self).pending_map() =~= old(self).pending_map().insert(id, slot)
                &&& final(self).pending_entries() =~= old(self).pending_entries().push(
                    (id, slot),
                )
                &&& final(self).spec_next_id() == id + 1
            },
    {
        if !self.alive {
            return Err(TransportError::NotConnected);
        }
        let id = self.pending.register(slot);
        Ok(id)
    }

    /// A response with this id arrived: the pending entry, if any, is removed
    /// and its slot returned for fulfilment.  A late or spurious id finds
    /// nothing and changes nothing, so it can only be dropped.
    pub fn on_response(&mut self, id: u64) -> (r: Option<S>)
        requires
            old(self).wf(),
        ensures
            final(self).wf(),
            final(self).spec_alive() == old(self).spec_alive(),
            final(self).spec_watch_taken() == old(self).spec_watch_taken(),
            final(self).spec_next_id() == old(self).spec_next_id(),
            r is Some <==> old(self).pending_map().contains_key(id),
            r is Some ==> r->Some_0 == old(self).pending_map()[id] && final(self).pending_map() =~= old(self).pending_map().remove(id),
            r is None ==> *final(self) == *old(self),
    {
        self.pending.remove(id)
    }

    /// The caller's timeout fired: its own entry is removed, so a response
    /// arriving afterwards finds no match and is dropped.  Afterwards the id
    /// is not pending.
    pub fn on_timeout(&mut self, id: u64) -> (r: Option<S>)
        requires
            old(self).wf(),
        ensures
            final(self).wf(),
            final(self).spec_alive() == old(self).spec_alive(),
            final(self).spec_watch_taken() == old(self).spec_watch_taken(),
            final(self).spec_next_id() == old(self).spec_next_id(),
            !final(self).pending_map().contains_key(id),
            r is Some <==> old(self).pending_map().contains_key(id),
            r is Some ==> r->Some_0 == old(self).pending_map()[id] && final(self).pending_map() =~= old(self).pending_map().remove(id),
            r is None ==> *final(self) == *old(self),
    {
        let r = self.pending.remove(id);
        proof {
            if old(self).pending_map().contains_key(id) {
                assert(!final(self).pending_map().contains_key(id));
            }
        }
        r
    }

    /// The channel reported close, end of file or process exit, or shutdown
    /// was requested: the transport is dead from here on, and every pending
    /// entry is handed back so that each outstanding call can be resolved
    /// with a channel-closed error.  No call is left waiting.
    pub fn on_channel_closed(&mut self) -> (r: Vec<(u64, S)>)
        requires
            old(self).wf(),
        ensures
            final(self).wf(),
            !final(self).spec_alive(),
            final(self).spec_watch_taken() == old(self).spec_watch_taken(),
            r@ =~= old(self).pending_entries(),
            final(self).pending_map() =~= Map::<u64, S>::empty(),
            final(self).pending_entries() =~= Seq::<(u64, S)>::empty(),
    {
        self.alive = false;
        self.pending.drain()
    }

    /// Hand out the notification consumer: true exactly on the first call
    /// over the transport's lifetime, false ever after, because notifications
    /// have at most one logical subscriber.
    pub fn take_notifications(&mut self) -> (r: bool)
        ensures
            r == !old(self).spec_watch_taken(),
            final(self).spec_watch_taken(),
            final(self).spec_alive() == old(self).spec_alive(),
            final(self).pending_map() == old(self).pending_map(),
            final(self).pending_entries() == old(self).pending_entries(),
            final(self).spec_next_id() == old(self).spec_next_id(),
            final(self).wf() == old(self).wf(),
    {
        let was = self.watch_taken;
        self.watch_taken = true;
        !was
    }
}

/// Law: a response completes exactly the call whose id matches.  Resolving
/// id `i` hands back the slot registered under `i`, while any distinct
/// pending id `j` stays pending with its slot untouched; `i` itself is no
/// longer pending, so no cross-completion and no double completion can
/// occur.
pub proof fn lemma_response_completes_only_matching_call<S>(m: Map<u64, S>, i: u64, j: u64)
    requires
        m.contains_key(i),
        m.contains_key(j),
        i != j,
    ensures
        !m.remove(i).contains_key(i),
        m.remove(i).contains_key(j),
        m.remove(i)[j] == m[j],
{
}

/// Law: after a timeout removed id `id`, a late response carrying `id` finds
/// no pending entry, whatever the table holds otherwise.
pub proof fn lemma_late_response_finds_nothing<S>(m: Map<u64, S>, id: u64)
    ensures
        !m.remove(id).contains_key(id),
{
}

} // verus!
