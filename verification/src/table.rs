//! The transposition table: a bounded associative store from position
//! keys to entries, with a small side cache that shields the principal
//! variation from eviction.  The stores are LRU caches of an outside
//! crate, reached through trusted wrappers over a model of their
//! contents; the replacement policy itself is verified code.

use vstd::prelude::*;

use crate::alpha_beta::AlphaBeta;
use crate::board::{board_hash, board_make_move};
use crate::best_moves::BestMoves;
use crate::depth::{Depth, DEPTH_MAX};
use crate::moves::Move;
use crate::table_entry::{entry_superior, spec_superior, TTableEntry};

verus! {

#[verifier::external_type_specification]
#[verifier::external_body]
#[verifier::reject_recursive_types(K)]
#[verifier::reject_recursive_types(V)]
#[verifier::reject_recursive_types(S)]
pub struct ExLruCache<K, V, S>(lru::LruCache<K, V, S>);

#[verifier::external_type_specification]
#[verifier::external_body]
#[verifier::reject_recursive_types(T)]
pub struct ExNoHashHasher<T>(nohash_hasher::NoHashHasher<T>);

#[verifier::external_type_specification]
#[verifier::external_body]
#[verifier::reject_recursive_types(H)]
pub struct ExBuildHasherDefault<H>(core::hash::BuildHasherDefault<H>);

/// One store of the table: position key to entry, evicting least
/// recently used; keys are Zobrist hashes, so the hasher is the identity.
pub type TTableStore = lru::LruCache<u64, TTableEntry, nohash_hasher::BuildNoHashHasher<u64>>;

/// What a store holds, as a map from key to entry.
pub uninterp spec fn store_entries(t: TTableStore) -> Map<u64, TTableEntry>;

/// The capacity the store was given: it never holds more entries.
pub uninterp spec fn store_cap(t: TTableStore) -> nat;

/// Relies on lru::LruCache::with_hasher: an empty store with the given
/// capacity.
#[verifier::external_body]
fn store_new(cap: usize) -> (r: TTableStore)
    requires
        cap >= 1,
    ensures
        store_entries(r) =~= Map::empty(),
        store_cap(r) == cap,
{
    lru::LruCache::with_hasher(
        std::num::NonZeroUsize::new(cap).unwrap(),
        core::hash::BuildHasherDefault::default(),
    )
}

/// Relies on lru::LruCache::put: stores the pair; an existing key is
/// overwritten in place, a new key may evict the least recently used
/// entry.  Every retained entry keeps its value.
#[verifier::external_body]
fn store_put(t: &mut TTableStore, key: u64, value: TTableEntry)
    ensures
        store_cap(*final(t)) == store_cap(*old(t)),
        store_entries(*final(t)).contains_key(key),
        store_entries(*final(t))[key] == value,
        forall|k2: u64|
            #[trigger] store_entries(*final(t)).contains_key(k2) && k2 != key ==> store_entries(
                *old(t),
            ).contains_key(k2) && store_entries(*final(t))[k2] == store_entries(*old(t))[k2],
        store_entries(*old(t)).contains_key(key) ==> store_entries(*final(t)) == store_entries(
            *old(t),
        ).insert(key, value),
        store_entries(*final(t)).dom().len() <= store_cap(*final(t)),
{
    t.put(key, value);
}

/// Relies on lru::LruCache::get: returns the stored entry, refreshing
/// its recency; the contents do not change.
#[verifier::external_body]
fn store_get(t: &mut TTableStore, key: u64) -> (r: Option<TTableEntry>)
    ensures
        store_cap(*final(t)) == store_cap(*old(t)),
        store_entries(*final(t)) == store_entries(*old(t)),
        r == if store_entries(*old(t)).contains_key(key) {
            Some(store_entries(*old(t))[key])
        } else {
            None::<TTableEntry>
        },
{
    match t.get(&key) {
        Some(v) => Some(*v),
        None => None,
    }
}

/// Relies on lru::LruCache::peek: returns the stored entry without
/// touching recency.
#[verifier::external_body]
fn store_peek(t: &TTableStore, key: u64) -> (r: Option<TTableEntry>)
    ensures
        r == if store_entries(*t).contains_key(key) {
            Some(store_entries(*t)[key])
        } else {
            None::<TTableEntry>
        },
{
    match t.peek(&key) {
        Some(v) => Some(*v),
        None => None,
    }
}

/// Relies on lru::LruCache::len: the number of stored entries, which
/// the store keeps at or below its capacity.
#[verifier::external_body]
fn store_len(t: &TTableStore) -> (r: usize)
    ensures
        r == store_entries(*t).dom().len(),
        r <= store_cap(*t),
{
    t.len()
}

/// Relies on lru::LruCache::resize: shrinks or grows the capacity,
/// evicting least recently used entries beyond it; every retained entry
/// keeps its value.
#[verifier::external_body]
fn store_resize(t: &mut TTableStore, cap: usize)
    requires
        cap >= 1,
    ensures
        store_cap(*final(t)) == cap,
        forall|k2: u64|
            #[trigger] store_entries(*final(t)).contains_key(k2) ==> store_entries(
                *old(t),
            ).contains_key(k2) && store_entries(*final(t))[k2] == store_entries(*old(t))[k2],
        store_entries(*final(t)).dom().len() <= cap,
{
    t.resize(std::num::NonZeroUsize::new(cap).unwrap());
}

/// What a table probe found: nothing, a reply list to seed move
/// ordering, or a stored result good enough to answer the node outright.
pub enum TTableSample {
    Miss,
    Moves(BestMoves),
    Score(TTableEntry),
}

/// An estimate of the bytes one stored entry occupies, cache
/// bookkeeping included, used to turn a byte budget into a capacity.
pub const ENTRY_BYTES: usize = 104;

/// The largest capacity the table will accept, keeping every byte and
/// permille count within even the narrowest machine word.
pub const CAP_LIMIT: usize = 4000000;

/// The capacity of the cache that shields the principal variation.
pub const PV_TABLE_SIZE: usize = 256;

/// Every stored entry is well formed, and null-move cuts, which carry no
/// move, are never stored.
pub open spec fn spec_store_wf(m: Map<u64, TTableEntry>) -> bool {
    forall|k: u64| #[trigger]
        m.contains_key(k) ==> m[k].wf() && !(m[k] is NullCut)
}

/// The probe rules of the main search, applied to what a lookup found:
/// nothing, a quiescence leaf at full-width depth or a (never stored)
/// null cut answer nothing; an exact node deep enough answers outright,
/// as does a lower bound at or above beta or an upper bound at or below
/// alpha; any other entry with moves lends them as an ordering seed.
pub open spec fn spec_probe(
    found: Option<TTableEntry>,
    window: AlphaBeta,
    depth: Depth,
) -> TTableSample {
    match found {
        None => TTableSample::Miss,
        Some(e) => match e {
            TTableEntry::ExactNode(d, m) => if depth <= d {
                TTableSample::Score(e)
            } else {
                TTableSample::Moves(m)
            },
            TTableEntry::LowerNode(d, m) => if depth <= d && window.beta <= m.spec_score() {
                TTableSample::Score(e)
            } else {
                TTableSample::Moves(m)
            },
            TTableEntry::UpperNode(d, m) => if depth <= d && m.spec_score() <= window.alpha {
                TTableSample::Score(e)
            } else {
                TTableSample::Moves(m)
            },
            TTableEntry::Edge(_) => TTableSample::Score(e),
            TTableEntry::Leaf(_) => TTableSample::Miss,
            TTableEntry::NullCut(_, _) => TTableSample::Miss,
        },
    }
}

/// The transposition table: the primary bounded store and the small
/// principal-variation cache consulted beside it.
pub struct TTable {
    table: TTableStore,
    pv_table: TTableStore,
    cap: usize,
}

impl TTable {
    /// The primary store's contents.
    pub closed spec fn spec_entries(self) -> Map<u64, TTableEntry> {
        store_entries(self.table)
    }

    /// The principal-variation cache's contents.
    pub closed spec fn spec_pv_entries(self) -> Map<u64, TTableEntry> {
        store_entries(self.pv_table)
    }

    /// The capacity of the primary store.
    pub closed spec fn spec_cap(self) -> nat {
        store_cap(self.table)
    }

    /// What a lookup of a key finds: the primary store first, then the
    /// principal-variation cache.
    pub open spec fn spec_lookup(self, key: u64) -> Option<TTableEntry> {
        if self.spec_entries().contains_key(key) {
            Some(self.spec_entries()[key])
        } else if self.spec_pv_entries().contains_key(key) {
            Some(self.spec_pv_entries()[key])
        } else {
            None
        }
    }

    /// Both stores hold only well-formed entries and the capacity field
    /// mirrors the primary store's true capacity, bounded away from
    /// overflow.
    pub closed spec fn wf(self) -> bool {
        &&& spec_store_wf(self.spec_entries())
        &&& spec_store_wf(self.spec_pv_entries())
        &&& self.cap as nat == store_cap(self.table)
        &&& 1 <= self.cap <= CAP_LIMIT
    }

    /// A table sized to a byte budget; at least one slot, and never more
    /// than the overflow-safe limit.
    pub fn new(table_size: usize) -> (r: TTable)
        ensures
            r.wf(),
            r.spec_entries() == Map::<u64, TTableEntry>::empty(),
            r.spec_pv_entries() == Map::<u64, TTableEntry>::empty(),
    {
        let mut cap = table_size / ENTRY_BYTES;
        if cap < 1 {
            cap = 1;
        }
        if cap > CAP_LIMIT {
            cap = CAP_LIMIT;
        }
        TTable { table: store_new(cap), pv_table: store_new(PV_TABLE_SIZE), cap }
    }

    /// Resizes the primary store to a new byte budget, evicting beyond
    /// the new capacity; retained entries keep their values.
    pub fn set_table_size(&mut self, table_size: usize)
        requires
            old(self).wf(),
        ensures
            final(self).wf(),
            forall|k2: u64|
                #[trigger] final(self).spec_entries().contains_key(k2) ==> old(
                    self,
                ).spec_entries().contains_key(k2) && final(self).spec_entries()[k2] == old(
                    self,
                ).spec_entries()[k2],
    {
        let mut cap = table_size / ENTRY_BYTES;
        if cap < 1 {
            cap = 1;
        }
        if cap > CAP_LIMIT {
            cap = CAP_LIMIT;
        }
        store_resize(&mut self.table, cap);
        self.cap = cap;
    }

    /// Stores a result for a key, under the replacement ordering: a
    /// stored entry that strictly beats the incoming one is kept (its
    /// recency refreshed), anything else is overwritten.  A write marked
    /// as part of the principal variation is mirrored into the
    /// protection cache.  The stored entry never strictly decreases.
    pub fn update<const PV: bool>(&mut self, key: u64, entry: TTableEntry)
        requires
            old(self).wf(),
            entry.wf(),
            !(entry is NullCut),
        ensures
            final(self).wf(),
            final(self).spec_cap() == old(self).spec_cap(),
            final(self).spec_entries().contains_key(key),
            final(self).spec_entries()[key] == if old(self).spec_entries().contains_key(key)
                && spec_superior(old(self).spec_entries()[key], entry) {
                old(self).spec_entries()[key]
            } else {
                entry
            },
            forall|k2: u64|
                #[trigger] final(self).spec_entries().contains_key(k2) && k2 != key ==> old(
                    self,
                ).spec_entries().contains_key(k2) && final(self).spec_entries()[k2] == old(
                    self,
                ).spec_entries()[k2],
            old(self).spec_entries().contains_key(key) ==> !spec_superior(
                old(self).spec_entries()[key],
                final(self).spec_entries()[key],
            ),
            old(self).spec_entries().contains_key(key) ==> final(self).spec_entries()
                == old(self).spec_entries().insert(key, final(self).spec_entries()[key]),
            PV ==> (final(self).spec_pv_entries().contains_key(key)
                && final(self).spec_pv_entries()[key] == final(self).spec_entries()[key]),
            !PV ==> final(self).spec_pv_entries() == old(self).spec_pv_entries(),
    {
        let chosen = match store_peek(&self.table, key) {
            Some(stored) => {
                if entry_superior(&stored, &entry) {
                    stored
                } else {
                    entry
                }
            },
            None => entry,
        };
        store_put(&mut self.table, key, chosen);
        if PV {
            store_put(&mut self.pv_table, key, chosen);
        }
    }

    /// The stored entry for a key, consulting the primary store and then
    /// the principal-variation cache, without touching recency.
    pub fn peek_entry(&self, key: u64) -> (r: Option<TTableEntry>)
        requires
            self.wf(),
        ensures
            r == self.spec_lookup(key),
            r matches Some(e) ==> e.wf() && !(e is NullCut),
    {
        match store_peek(&self.table, key) {
            Some(e) => Some(e),
            None => store_peek(&self.pv_table, key),
        }
    }

    /// The stored entry for a key, refreshing recency in both stores.
    pub fn get(&mut self, key: u64) -> (r: Option<TTableEntry>)
        requires
            old(self).wf(),
        ensures
            final(self).wf(),
            final(self).spec_entries() == old(self).spec_entries(),
            final(self).spec_pv_entries() == old(self).spec_pv_entries(),
            final(self).spec_cap() == old(self).spec_cap(),
            r == old(self).spec_lookup(key),
            r matches Some(e) ==> e.wf() && !(e is NullCut),
    {
        match store_get(&mut self.table, key) {
            Some(e) => Some(e),
            None => store_get(&mut self.pv_table, key),
        }
    }

    /// Probes the table for a node about to be searched at `depth` under
    /// `window`.  A stored entry deep enough to answer (exact, a lower
    /// bound at or above beta, an upper bound at or below alpha, or a
    /// terminal) is returned as a score and refreshed in the store; a
    /// shallower entry lends its reply list as an ordering seed.
    pub fn sample<const PV: bool>(&mut self, key: u64, window: &AlphaBeta, depth: Depth) -> (r:
        TTableSample)
        requires
            old(self).wf(),
            1 <= depth,
        ensures
            final(self).wf(),
            final(self).spec_cap() == old(self).spec_cap(),
            r == spec_probe(old(self).spec_lookup(key), *window, depth),
            old(self).spec_entries().contains_key(key) ==> final(self).spec_entries()
                == old(self).spec_entries(),
            !(r is Score) ==> (final(self).spec_entries() == old(self).spec_entries()
                && final(self).spec_pv_entries() == old(self).spec_pv_entries()),
            match r {
                TTableSample::Score(e) => {
                    &&& e.wf()
                    &&& !(e is NullCut)
                    &&& !(e is Leaf)
                    &&& (e matches TTableEntry::ExactNode(d, _) ==> d >= depth)
                    &&& (e matches TTableEntry::LowerNode(d, m) ==> d >= depth && m.spec_score()
                        >= window.beta)
                    &&& (e matches TTableEntry::UpperNode(d, m) ==> d >= depth && m.spec_score()
                        <= window.alpha)
                },
                TTableSample::Moves(m) => m.elements_wf(),
                TTableSample::Miss => true,
            },
    {
        let sample = match self.peek_entry(key) {
            Some(e) => e,
            None => {
                return TTableSample::Miss;
            },
        };
        match sample {
            TTableEntry::ExactNode(sample_depth, moves) => {
                if depth <= sample_depth {
                    self.update::<PV>(key, sample);
                    proof {
                        if old(self).spec_entries().contains_key(key) {
                            assert(self.spec_entries() =~= old(self).spec_entries());
                        }
                    }
                    TTableSample::Score(sample)
                } else {
                    TTableSample::Moves(moves)
                }
            },
            TTableEntry::LowerNode(sample_depth, moves) => {
                if depth <= sample_depth && window.beta <= moves.score() {
                    self.update::<PV>(key, sample);
                    proof {
                        if old(self).spec_entries().contains_key(key) {
                            assert(self.spec_entries() =~= old(self).spec_entries());
                        }
                    }
                    TTableSample::Score(sample)
                } else {
                    TTableSample::Moves(moves)
                }
            },
            TTableEntry::UpperNode(sample_depth, moves) => {
                if depth <= sample_depth && moves.score() <= window.alpha {
                    self.update::<PV>(key, sample);
                    proof {
                        if old(self).spec_entries().contains_key(key) {
                            assert(self.spec_entries() =~= old(self).spec_entries());
                        }
                    }
                    TTableSample::Score(sample)
                } else {
                    TTableSample::Moves(moves)
                }
            },
            TTableEntry::Edge(_) => {
                self.update::<PV>(key, sample);
                proof {
                    if old(self).spec_entries().contains_key(key) {
                        assert(self.spec_entries() =~= old(self).spec_entries());
                    }
                }
                TTableSample::Score(sample)
            },
            TTableEntry::Leaf(_) => {
                // A quiescence evaluation answers nothing at full-width
                // depth and carries no move to seed ordering.
                TTableSample::Miss
            },
            TTableEntry::NullCut(_, _) => {
                // Never stored; a probe cannot see one.
                TTableSample::Miss
            },
        }
    }

    /// How full the primary store is, in thousandths of its capacity.
    pub fn hashfull_permille(&self) -> (r: usize)
        requires
            self.wf(),
        ensures
            r == self.spec_entries().dom().len() * 1000 / self.spec_cap(),
            r <= 1000,
    {
        let len = store_len(&self.table);
        let r = len * 1000 / self.cap;
        proof {
            let l = self.spec_entries().dom().len() as int;
            let c = self.spec_cap() as int;
            vstd::arithmetic::div_mod::lemma_div_is_ordered(l * 1000, c * 1000, c);
            vstd::arithmetic::div_mod::lemma_div_multiples_vanish(1000, c);
        }
        r
    }

    /// The bytes the primary store's entries occupy, by the per-entry
    /// estimate.
    pub fn memory_bytes(&self) -> (r: usize)
        requires
            self.wf(),
        ensures
            r == self.spec_entries().dom().len() * ENTRY_BYTES,
    {
        let len = store_len(&self.table);
        len * ENTRY_BYTES
    }

    /// The principal variation recorded for the given position: follow
    /// the best stored move from position to position until the line
    /// leaves the table, reaches a terminal entry, or would repeat a
    /// position already visited.  The walk is bounded, every emitted
    /// move is well formed, the primary store's contents are untouched,
    /// and a non-empty line starts with the best move of an entry that
    /// already stood in the table.
    pub fn get_pv_line(&mut self, board: &chess::Board) -> (r: Vec<Move>)
        requires
            old(self).wf(),
        ensures
            final(self).wf(),
            final(self).spec_entries() == old(self).spec_entries(),
            r@.len() <= PV_TABLE_SIZE,
            forall|i: int| 0 <= i < r@.len() ==> (#[trigger] r@[i]).wf(),
            r@.len() > 0 ==> exists|k: u64|
                (#[trigger] old(self).spec_lookup(k)) matches Some(e) && e.spec_peek() == Some(
                    r@[0],
                ),
    {
        let mut line: Vec<Move> = Vec::new();
        let mut visited: Vec<u64> = Vec::new();
        let mut current: chess::Board = *board;
        loop
            invariant_except_break
                line@.len() == 0 ==> self.spec_pv_entries() == old(self).spec_pv_entries(),
            invariant
                self.wf(),
                self.spec_entries() == old(self).spec_entries(),
                line@.len() <= visited@.len(),
                visited@.len() <= PV_TABLE_SIZE,
                forall|i: int| 0 <= i < line@.len() ==> (#[trigger] line@[i]).wf(),
                line@.len() > 0 ==> exists|k: u64|
                    (#[trigger] old(self).spec_lookup(k)) matches Some(e) && e.spec_peek() == Some(
                        line@[0],
                    ),
            decreases PV_TABLE_SIZE - visited@.len(),
        {
            if visited.len() >= PV_TABLE_SIZE {
                break ;
            }
            let key = board_hash(&current);
            if contains_key(&visited, key) {
                break ;
            }
            visited.push(key);
            let entry = match self.get(key) {
                Some(e) => e,
                None => {
                    break ;
                },
            };
            // Mirror the touched entry into the protection cache so LRU
            // eviction of deep positions cannot break the recorded line.
            store_put(&mut self.pv_table, key, entry);
            let best = match entry.peek() {
                Some(m) => m,
                None => {
                    break ;
                },
            };
            proof {
                assert(best.wf());
                if line@.len() == 0 {
                    assert(old(self).spec_lookup(key) matches Some(e) && e.spec_peek() == Some(
                        best,
                    ));
                }
            }
            line.push(best);
            current = match board_make_move(&current, best) {
                Some(b) => b,
                None => {
                    // The recorded move does not fit this position (a
                    // colliding hash can record one): the line ends.
                    break ;
                },
            };
        }
        line
    }

    /// Walks the recorded principal variation, which refreshes each of
    /// its entries and mirrors them into the protection cache.
    pub fn promote_pv_line(&mut self, board: &chess::Board)
        requires
            old(self).wf(),
        ensures
            final(self).wf(),
    {
        let _line = self.get_pv_line(board);
    }
}

fn contains_key(keys: &Vec<u64>, key: u64) -> (r: bool)
    ensures
        r == keys@.contains(key),
{
    let mut i: usize = 0;
    while i < keys.len()
        invariant
            0 <= i <= keys@.len(),
            forall|j: int| 0 <= j < i ==> keys@[j] != key,
        decreases keys@.len() - i,
    {
        if keys[i] == key {
            proof {
                assert(keys@.contains(key));
            }
            return true;
        }
        i += 1;
    }
    false
}

} // verus!
