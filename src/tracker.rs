//! Retransmission detection: a record of the (xid, client address) pairs seen
//! recently. A pair is `InProgress` from its first sight until its call is
//! answered, then `Completed` at the time it was answered; completed records
//! older than the retention period are dropped before each new insertion.
//! Times are milliseconds on a clock the caller reads.
use vstd::prelude::*;

verus! {

/// The state of a transaction.
#[derive(Clone, Copy, Debug, PartialEq, Eq, Structural)]
pub enum TransactionState {
    InProgress,
    Completed(u64),
}

struct TxEntry {
    xid: u32,
    addr: Vec<u8>,
    state: TransactionState,
}

impl TxEntry {
    spec fn key(&self) -> (u32, Seq<u8>) {
        (self.xid, self.addr@)
    }
}

/// Whether a record is dropped at a cutoff: only a completed one, and only
/// when it completed before the cutoff.
pub open spec fn expired(s: TransactionState, cutoff: u64) -> bool {
    match s {
        TransactionState::InProgress => false,
        TransactionState::Completed(t) => t < cutoff,
    }
}

/// The oldest completion time that is kept at `now`.
pub open spec fn cutoff(now: u64, retention: u64) -> u64 {
    if now >= retention {
        (now - retention) as u64
    } else {
        0
    }
}

/// The records that survive eviction at `cutoff`.
pub open spec fn evict(m: Map<(u32, Seq<u8>), TransactionState>, cutoff: u64) -> Map<(u32, Seq<u8>), TransactionState> {
    Map::new(|k: (u32, Seq<u8>)| m.contains_key(k) && !expired(m[k], cutoff), |k: (u32, Seq<u8>)| m[k])
}

/// The records of transactions, by (xid, client address).
pub struct TransactionTracker {
    retention_period: u64,
    transactions: Vec<TxEntry>,
    records: Ghost<Map<(u32, Seq<u8>), TransactionState>>,
}

fn bytes_eq(a: &[u8], b: &[u8]) -> (r: bool)
    ensures
        r == (a@ == b@),
{
    if a.len() != b.len() {
        return false;
    }
    let mut i: usize = 0;
    while i < a.len()
        invariant
            a@.len() == b@.len(),
            i <= a@.len(),
            forall|j: int| 0 <= j < i ==> a@[j] == b@[j],
        decreases a@.len() - i,
    {
        if a[i] != b[i] {
            return false;
        }
        i = i + 1;
    }
    assert(a@ =~= b@);
    true
}

impl TransactionTracker {
    pub closed spec fn view(&self) -> Map<(u32, Seq<u8>), TransactionState> {
        self.records@
    }

    pub closed spec fn retention(&self) -> u64 {
        self.retention_period
    }

    pub closed spec fn wf(&self) -> bool {
        &&& forall|i: int|
            0 <= i < self.transactions@.len() ==> #[trigger] self.records@.contains_key(
                self.transactions@[i].key(),
            ) && self.records@[self.transactions@[i].key()] == self.transactions@[i].state
        &&& forall|k: (u32, Seq<u8>)|
            #[trigger] self.records@.contains_key(k) ==> exists|i: int|
                0 <= i < self.transactions@.len() && self.transactions@[i].key() == k
        &&& forall|i: int, j: int|
            0 <= i < self.transactions@.len() && 0 <= j < self.transactions@.len() && i != j
                ==> self.transactions@[i].key() != self.transactions@[j].key()
    }

    /// A tracker that keeps completed records for `retention_period` ms.
    pub fn new(retention_period: u64) -> (r: TransactionTracker)
        ensures
            r.wf(),
            r@ == Map::<(u32, Seq<u8>), TransactionState>::empty(),
            r.retention() == retention_period,
    {
        TransactionTracker {
            retention_period,
            transactions: Vec::new(),
            records: Ghost(Map::empty()),
        }
    }

    fn find(&self, xid: u32, addr: &[u8]) -> (r: Option<usize>)
        requires
            self.wf(),
        ensures
            r matches Some(i) ==> i < self.transactions@.len() && self.transactions@[i as int].key()
                == (xid, addr@),
            r is None <==> !self@.contains_key((xid, addr@)),
    {
        let mut i: usize = 0;
        while i < self.transactions.len()
            invariant
                self.wf(),
                i <= self.transactions@.len(),
                forall|j: int| 0 <= j < i ==> self.transactions@[j].key() != (xid, addr@),
            decreases self.transactions@.len() - i,
        {
            let e = &self.transactions[i];
            if e.xid == xid && bytes_eq(e.addr.as_slice(), addr) {
                assert(self.records@.contains_key(self.transactions@[i as int].key()));
                return Some(i);
            }
            i = i + 1;
        }
        None
    }

    fn remove_at(&mut self, i: usize)
        requires
            old(self).wf(),
            i < old(self).transactions@.len(),
        ensures
            final(self).wf(),
            final(self).retention_period == old(self).retention_period,
            final(self)@ == old(self)@.remove(old(self).transactions@[i as int].key()),
            final(self).transactions@ == old(self).transactions@.remove(i as int),
    {
        let ghost t = self.transactions@;
        let ghost k = t[i as int].key();
        self.transactions.remove(i);
        self.records = Ghost(self.records@.remove(k));
        assert forall|j: int| 0 <= j < self.transactions@.len() implies #[trigger]
            self.records@.contains_key(self.transactions@[j].key())
                && self.records@[self.transactions@[j].key()] == self.transactions@[j].state by {
            let oj = if j < i { j } else { j + 1 };
            assert(self.transactions@[j] == t[oj]);
            assert(old(self).records@.contains_key(t[oj].key()));
        }
        assert forall|key: (u32, Seq<u8>)| #[trigger]
            self.records@.contains_key(key) implies exists|j: int|
            0 <= j < self.transactions@.len() && self.transactions@[j].key() == key by {
            assert(old(self).records@.contains_key(key));
            let oj = choose|oj: int| 0 <= oj < t.len() && t[oj].key() == key;
            assert(oj != i);
            let j = if oj < i { oj } else { oj - 1 };
            assert(self.transactions@[j] == t[oj]);
        }
        assert forall|a: int, b: int|
            0 <= a < self.transactions@.len() && 0 <= b < self.transactions@.len() && a != b
                implies self.transactions@[a].key() != self.transactions@[b].key() by {
            let oa = if a < i { a } else { a + 1 };
            let ob = if b < i { b } else { b + 1 };
            assert(self.transactions@[a] == t[oa]);
            assert(self.transactions@[b] == t[ob]);
        }
    }

    /// Drops the completed records older than the retention period at `now`.
    pub fn housekeeping(&mut self, now: u64)
        requires
            old(self).wf(),
        ensures
            final(self).wf(),
            final(self).retention() == old(self).retention(),
            final(self)@ == evict(old(self)@, cutoff(now, old(self).retention())),
    {
        let cut: u64 = if now >= self.retention_period { now - self.retention_period } else { 0 };
        let ghost m0 = self.records@;
        let mut i: usize = 0;
        while i < self.transactions.len()
            invariant
                self.wf(),
                self.retention_period == old(self).retention_period,
                cut == cutoff(now, old(self).retention()),
                m0 == old(self).records@,
                i <= self.transactions@.len(),
                forall|j: int| 0 <= j < i ==> !expired(#[trigger] self.transactions@[j].state, cut),
                forall|k: (u32, Seq<u8>)| #[trigger]
                    self.records@.contains_key(k) ==> m0.contains_key(k) && self.records@[k]
                        == m0[k],
                forall|k: (u32, Seq<u8>)|
                    #[trigger] m0.contains_key(k) && !expired(m0[k], cut) ==> self.records@.contains_key(k),
            decreases self.transactions@.len() - i,
        {
            let drop = match self.transactions[i].state {
                TransactionState::InProgress => false,
                TransactionState::Completed(t) => t < cut,
            };
            if drop {
                let ghost before = self.transactions@;
                self.remove_at(i);
                assert forall|j: int| 0 <= j < i implies !expired(
                    #[trigger] self.transactions@[j].state,
                    cut,
                ) by {
                    assert(self.transactions@[j] == before[j]);
                }
            } else {
                i = i + 1;
            }
        }
        assert forall|k: (u32, Seq<u8>)| #[trigger] self.records@.contains_key(k) implies !expired(
            self.records@[k],
            cut,
        ) by {
            let j = choose|j: int| 0 <= j < self.transactions@.len() && self.transactions@[j].key() == k;
            assert(self.records@.contains_key(self.transactions@[j].key()));
        }
        assert(self.records@ =~= evict(m0, cut));
    }

    /// Whether the pair was seen before. Evicts old records first; a pair not
    /// seen is then recorded as `InProgress`.
    pub fn is_retransmission(&mut self, xid: u32, client_addr: &[u8], now: u64) -> (r: bool)
        requires
            old(self).wf(),
        ensures
            final(self).wf(),
            final(self).retention() == old(self).retention(),
            r == evict(old(self)@, cutoff(now, old(self).retention())).contains_key((xid, client_addr@)),
            r ==> final(self)@ == evict(old(self)@, cutoff(now, old(self).retention())),
            !r ==> final(self)@ == evict(old(self)@, cutoff(now, old(self).retention())).insert(
                (xid, client_addr@),
                TransactionState::InProgress,
            ),
    {
        self.housekeeping(now);
        match self.find(xid, client_addr) {
            Some(_) => true,
            None => {
                let mut addr: Vec<u8> = Vec::new();
                addr.extend_from_slice(client_addr);
                let ghost k = (xid, client_addr@);
                let ghost pre = self.transactions@;
                let ghost r0 = self.records@;
                assert(forall|key: (u32, Seq<u8>)| #[trigger] r0.contains_key(key) ==> exists|i: int|
                    0 <= i < pre.len() && pre[i].key() == key);
                assert(forall|j: int| 0 <= j < pre.len() ==> #[trigger] r0.contains_key(pre[j].key())
                    && r0[pre[j].key()] == pre[j].state);
                assert(!r0.contains_key(k));
                assert(addr@ =~= client_addr@);
                self.transactions.push(TxEntry { xid, addr, state: TransactionState::InProgress });
                self.records = Ghost(self.records@.insert(k, TransactionState::InProgress));
                assert(self.transactions@[pre.len() as int].key() == k);
                assert forall|key: (u32, Seq<u8>)| #[trigger]
                    self.records@.contains_key(key) implies exists|i: int|
                    0 <= i < self.transactions@.len() && self.transactions@[i].key() == key by {
                    if key != k {
                        assert(r0.contains_key(key));
                        let i = choose|i: int| 0 <= i < pre.len() && pre[i].key() == key;
                        assert(self.transactions@[i] == pre[i]);
                    } else {
                        let i = self.transactions@.len() - 1;
                        assert(self.transactions@[i].key() == key);
                    }
                }
                assert forall|j: int| 0 <= j < self.transactions@.len() implies #[trigger]
                    self.records@.contains_key(self.transactions@[j].key())
                        && self.records@[self.transactions@[j].key()] == self.transactions@[j].state by {
                    if j < pre.len() {
                        assert(self.transactions@[j] == pre[j]);
                        assert(r0.contains_key(pre[j].key()));
                    }
                }
                assert forall|a: int, b: int|
                    0 <= a < self.transactions@.len() && 0 <= b < self.transactions@.len() && a != b
                        implies self.transactions@[a].key() != self.transactions@[b].key() by {
                    if a < pre.len() {
                        assert(self.transactions@[a] == pre[a]);
                        assert(r0.contains_key(pre[a].key()));
                    }
                    if b < pre.len() {
                        assert(self.transactions@[b] == pre[b]);
                        assert(r0.contains_key(pre[b].key()));
                    }
                }
                false
            },
        }
    }

    /// Records that the pair's call was answered at `now`. A pair not
    /// recorded stays unrecorded.
    pub fn mark_processed(&mut self, xid: u32, client_addr: &[u8], now: u64)
        requires
            old(self).wf(),
        ensures
            final(self).wf(),
            final(self).retention() == old(self).retention(),
            old(self)@.contains_key((xid, client_addr@)) ==> final(self)@ == old(self)@.insert(
                (xid, client_addr@),
                TransactionState::Completed(now),
            ),
            !old(self)@.contains_key((xid, client_addr@)) ==> final(self)@ == old(self)@,
    {
        match self.find(xid, client_addr) {
            None => {},
            Some(i) => {
                let ghost k = (xid, client_addr@);
                let ghost t = self.transactions@;
                let mut e = self.transactions.remove(i);
                e.state = TransactionState::Completed(now);
                self.transactions.insert(i, e);
                self.records = Ghost(self.records@.insert(k, TransactionState::Completed(now)));
                assert forall|j: int| 0 <= j < self.transactions@.len() implies #[trigger]
                    self.records@.contains_key(self.transactions@[j].key())
                        && self.records@[self.transactions@[j].key()] == self.transactions@[j].state by {
                    if j != i {
                        assert(self.transactions@[j] == t[j]);
                        assert(t[j].key() != t[i as int].key());
                    }
                }
                assert forall|key: (u32, Seq<u8>)| #[trigger]
                    self.records@.contains_key(key) implies exists|j: int|
                    0 <= j < self.transactions@.len() && self.transactions@[j].key() == key by {
                    let j = choose|j: int| 0 <= j < t.len() && t[j].key() == key;
                    if j != i {
                        assert(self.transactions@[j] == t[j]);
                    } else {
                        assert(self.transactions@[j].key() == key);
                    }
                }
                assert forall|a: int, b: int|
                    0 <= a < self.transactions@.len() && 0 <= b < self.transactions@.len() && a != b
                        implies self.transactions@[a].key() != self.transactions@[b].key() by {
                    assert(self.transactions@[a].key() == t[a].key());
                    assert(self.transactions@[b].key() == t[b].key());
                }
            },
        }
    }
}

/// Sending the same pair twice within the retention window: the first is new,
/// the second is a retransmission, whether or not the first was answered.
pub proof fn lemma_second_sight_is_retransmission(
    m: Map<(u32, Seq<u8>), TransactionState>,
    k: (u32, Seq<u8>),
    first_at: u64,
    answered_at: Option<u64>,
    second_at: u64,
    retention: u64,
)
    requires
        !evict(m, cutoff(first_at, retention)).contains_key(k),
        answered_at matches Some(t) ==> cutoff(second_at, retention) <= t,
    ensures
        ({
            let m1 = evict(m, cutoff(first_at, retention)).insert(k, TransactionState::InProgress);
            let m2 = match answered_at {
                Some(t) => m1.insert(k, TransactionState::Completed(t)),
                None => m1,
            };
            evict(m2, cutoff(second_at, retention)).contains_key(k)
        }),
{
}

} // verus!
