//! The store facade: opening a configured set of columns, point lookups,
//! atomic transactional writes, ordered iteration and prefix scans, and
//! durability flushes.

use vstd::prelude::*;

use crate::engine::{
    engine_open, iter_next, iter_view, open_segment, transact1, transact9, tree_flush, tree_get,
    tree_iter, tree_scan_prefix, views_of, ENGINE_MIN_CACHE_BYTES,
};
use crate::model::{
    is_prefix, lex_le, lex_lt, lists_map, lists_map_prefix, resolve_spec, segment_count_spec,
    strictly_sorted, supported_arity,
};
use crate::ops::{apply_ops, ops_in_bounds, partial_apply, to_sled_column, DBTransaction};

verus! {

pub const KB: u64 = 1024;

pub const MB: u64 = 1024 * KB;

pub const DB_DEFAULT_MEMORY_BUDGET_MB: u64 = 128;

/// How often, in milliseconds, the engine flushes buffered writes on its own.
pub const FLUSH_INTERVAL_MS: u64 = 2000;

/// How many times one cursor step retries an item the engine cannot read
/// before the scan gives up.
pub const READ_RETRY_LIMIT: u64 = 64;

/// Why a call on the store failed.
#[derive(Clone, Copy, Debug, PartialEq, Eq, Structural)]
pub enum DbError {
    /// The engine could not open the path or create a segment.
    OpenFailed,
    /// A point lookup failed on engine I/O.
    ReadFailed,
    /// The atomic batch failed: rejected before its commit phase, in which
    /// case none of it is visible, or interrupted by a storage failure during
    /// commit, in which case each key it names holds its old or its new value.
    TransactionFailed,
    /// The configured column count matches no arity the engine's transaction
    /// primitive supports.
    UnsupportedColumnCount,
    /// A durability flush failed; earlier segments may have flushed.
    FlushFailed,
}

/// How a store is opened: a path for the engine's files, an optional count
/// of logical columns beyond the default one, and an optional cache budget.
pub struct DatabaseConfig {
    pub columns: Option<u8>,
    pub memory_budget_mb: Option<u64>,
    pub path: String,
}

/// The configured cache budget in mebibytes, defaulted.
pub open spec fn budget_mb_spec(config: DatabaseConfig) -> int {
    match config.memory_budget_mb {
        None => DB_DEFAULT_MEMORY_BUDGET_MB as int,
        Some(m) => m as int,
    }
}

impl DatabaseConfig {
    /// The configured cache budget in bytes.
    pub fn memory_budget(&self) -> (r: u64)
        requires
            budget_mb_spec(*self) * MB <= u64::MAX,
        ensures
            r == budget_mb_spec(*self) * MB,
    {
        let mb = match self.memory_budget_mb {
            None => DB_DEFAULT_MEMORY_BUDGET_MB,
            Some(m) => m,
        };
        mb * MB
    }
}

/// The engine-level name of the segment at physical index `i`: the bytes of
/// `"col"` followed by the decimal digits of `i`.
pub open spec fn seg_name_spec(i: u8) -> Seq<u8> {
    seq![99u8, 111u8, 108u8] + (if i < 10 {
        seq![(48 + i) as u8]
    } else if i < 100 {
        seq![(48 + i / 10) as u8, (48 + i % 10) as u8]
    } else {
        seq![(48 + (i / 10) / 10) as u8, (48 + (i / 10) % 10) as u8, (48 + i % 10) as u8]
    })
}

/// Builds the engine-level name of the segment at physical index `i`.
pub fn segment_name(i: u8) -> (r: Vec<u8>)
    ensures
        r@ == seg_name_spec(i),
{
    let mut name: Vec<u8> = Vec::new();
    name.push(99);
    name.push(111);
    name.push(108);
    if i < 10 {
        name.push(48 + i);
    } else if i < 100 {
        name.push(48 + i / 10);
        name.push(48 + i % 10);
    } else {
        name.push(48 + (i / 10) / 10);
        name.push(48 + (i / 10) % 10);
        name.push(48 + i % 10);
    }
    proof {
        assert(name@ =~= seg_name_spec(i));
    }
    name
}

/// A store of ordered byte-key/byte-value segments, one per logical column
/// plus the reserved default column at physical index 0. Its view is the
/// contents of every segment, in physical index order.
pub struct Database {
    columns: Vec<sled::Tree>,
    path: String,
    num_columns: u8,
}

impl View for Database {
    type V = Seq<Map<Seq<u8>, Seq<u8>>>;

    closed spec fn view(&self) -> Seq<Map<Seq<u8>, Seq<u8>>> {
        views_of(self.columns@)
    }
}

impl Database {
    /// The segment registry holds one segment per declared logical column,
    /// plus the reserved default segment.
    pub closed spec fn wf(&self) -> bool {
        self.columns@.len() == self.num_columns as int + 1
    }

    /// Opens or creates the store at the configured path, then opens one
    /// segment per logical column plus the default segment, in index order.
    /// A column count whose segment group matches no supported transaction
    /// arity is rejected up front; a cache budget below the engine's minimum
    /// is raised to it.
    pub fn open(config: DatabaseConfig) -> (r: Result<Database, DbError>)
        requires
            budget_mb_spec(config) * MB <= u64::MAX,
        ensures
            match r {
                Ok(db) => db.wf() && db@.len() == segment_count_spec(config.columns)
                    && supported_arity(segment_count_spec(config.columns)),
                Err(DbError::UnsupportedColumnCount) => !supported_arity(
                    segment_count_spec(config.columns),
                ),
                Err(DbError::OpenFailed) => supported_arity(segment_count_spec(config.columns)),
                Err(_) => false,
            },
    {
        let num_columns: u8 = match config.columns {
            None => 0,
            Some(n) => n,
        };
        if num_columns != 0 && num_columns != 8 {
            return Err(DbError::UnsupportedColumnCount);
        }
        let seg_count: u8 = num_columns + 1;
        // The engine aborts on a cache budget below its minimum, so a
        // configured budget that small is raised to that floor.
        let raw_cache = config.memory_budget() / 2;
        let cache = if raw_cache < ENGINE_MIN_CACHE_BYTES {
            ENGINE_MIN_CACHE_BYTES
        } else {
            raw_cache
        };
        let db = match engine_open(&config.path, cache, FLUSH_INTERVAL_MS) {
            Ok(db) => db,
            Err(_) => {
                return Err(DbError::OpenFailed);
            },
        };
        let mut columns: Vec<sled::Tree> = Vec::new();
        let mut i: u8 = 0;
        while i < seg_count
            invariant
                i <= seg_count,
                columns@.len() == i as int,
                num_columns == 0 || num_columns == 8,
                seg_count == num_columns + 1,
                num_columns as int == segment_count_spec(config.columns) - 1,
            decreases seg_count - i,
        {
            let name = segment_name(i);
            match open_segment(&db, &name) {
                Ok(tree) => columns.push(tree),
                Err(_) => {
                    return Err(DbError::OpenFailed);
                },
            }
            i = i + 1;
        }
        Ok(Database { columns, path: config.path, num_columns })
    }

    /// Looks the key up on the segment the logical column resolves to.
    pub fn get(&self, col: Option<u32>, key: &[u8]) -> (r: Result<Option<Vec<u8>>, DbError>)
        requires
            self.wf(),
            resolve_spec(col) < self@.len(),
        ensures
            match r {
                Ok(Some(v)) => self@[resolve_spec(col)].contains_key(key@)
                    && v@ == self@[resolve_spec(col)][key@],
                Ok(None) => !self@[resolve_spec(col)].contains_key(key@),
                Err(e) => e == DbError::ReadFailed,
            },
    {
        let idx = to_sled_column(col);
        match tree_get(&self.columns[idx as usize], key) {
            Ok(value) => Ok(value),
            Err(_) => Err(DbError::ReadFailed),
        }
    }

    /// Applies every operation of the transaction to its resolved segment as
    /// one atomic unit: on success the whole batch is visible. On failure
    /// before the engine's commit phase none of it is; the engine does not
    /// undo a storage failure during commit, so a failed write leaves each
    /// key the batch names at its old or its new value and every other key
    /// untouched. A segment count that matches no supported transaction arity
    /// is reported as such, with the store untouched.
    pub fn write(&mut self, tr: DBTransaction) -> (r: Result<(), DbError>)
        requires
            old(self).wf(),
            ops_in_bounds(tr@, old(self)@.len() as int),
        ensures
            final(self).wf(),
            final(self)@.len() == old(self)@.len(),
            match r {
                Ok(()) => supported_arity(old(self)@.len() as int)
                    && final(self)@ == apply_ops(old(self)@, tr@),
                Err(DbError::TransactionFailed) => supported_arity(old(self)@.len() as int)
                    && partial_apply(old(self)@, final(self)@, tr@),
                Err(DbError::UnsupportedColumnCount) => !supported_arity(old(self)@.len() as int)
                    && final(self)@ == old(self)@,
                Err(_) => false,
            },
    {
        let n = self.columns.len();
        if n == 1 {
            match transact1(&mut self.columns, &tr.ops) {
                Ok(()) => Ok(()),
                Err(_) => Err(DbError::TransactionFailed),
            }
        } else if n == 9 {
            match transact9(&mut self.columns, &tr.ops) {
                Ok(()) => Ok(()),
                Err(_) => Err(DbError::TransactionFailed),
            }
        } else {
            Err(DbError::UnsupportedColumnCount)
        }
    }

    /// Applies the transaction with the same atomic semantics as `write`,
    /// but swallows any failure: the caller gets no success signal, and the
    /// store holds the whole batch, or what a failed `write` can leave.
    pub fn write_buffered(&mut self, tr: DBTransaction)
        requires
            old(self).wf(),
            ops_in_bounds(tr@, old(self)@.len() as int),
        ensures
            final(self).wf(),
            final(self)@.len() == old(self)@.len(),
            final(self)@ == apply_ops(old(self)@, tr@) || partial_apply(
                old(self)@,
                final(self)@,
                tr@,
            ),
    {
        let _ = self.write(tr);
    }

    /// Forces a durability flush on every segment in registry order, failing
    /// on the first segment that fails; later segments are then left
    /// unflushed.
    pub fn flush(&self) -> (r: Result<(), DbError>)
        ensures
            match r {
                Ok(()) => true,
                Err(e) => e == DbError::FlushFailed,
            },
    {
        let mut i: usize = 0;
        while i < self.columns.len()
            invariant
                i <= self.columns@.len(),
            decreases self.columns@.len() - i,
        {
            match tree_flush(&self.columns[i]) {
                Ok(_) => {},
                Err(_) => {
                    return Err(DbError::FlushFailed);
                },
            }
            i = i + 1;
        }
        Ok(())
    }

    /// A fresh cursor over the whole segment the logical column resolves to,
    /// in ascending key order. The cursor borrows the store for its whole
    /// life, so no write can interleave with it.
    pub fn iter<'a>(&'a self, col: Option<u32>) -> (r: DbIter<'a>)
        requires
            self.wf(),
            resolve_spec(col) < self@.len(),
        ensures
            lists_map(r.remaining(), self@[resolve_spec(col)]),
            strictly_sorted(r.remaining()),
            !r.spec_interrupted(),
    {
        let idx = to_sled_column(col);
        DbIter { owner: self, inner: tree_iter(&self.columns[idx as usize]), interrupted: false }
    }

    /// A fresh cursor over the entries of the resolved segment whose keys
    /// carry the given byte prefix, in ascending key order. The cursor
    /// borrows the store for its whole life, so no write can interleave
    /// with it.
    pub fn iter_from_prefix<'a>(&'a self, col: Option<u32>, prefix: &[u8]) -> (r: DbIter<'a>)
        requires
            self.wf(),
            resolve_spec(col) < self@.len(),
        ensures
            lists_map_prefix(r.remaining(), self@[resolve_spec(col)], prefix@),
            strictly_sorted(r.remaining()),
            !r.spec_interrupted(),
    {
        let idx = to_sled_column(col);
        DbIter {
            owner: self,
            inner: tree_scan_prefix(&self.columns[idx as usize], prefix),
            interrupted: false,
        }
    }

    /// The value of the first entry, in key order, whose key carries the
    /// given prefix. `None` means no key carries the prefix, or the scan
    /// could not read its first entry.
    pub fn get_by_prefix(&self, col: Option<u32>, prefix: &[u8]) -> (r: Option<Vec<u8>>)
        requires
            self.wf(),
            resolve_spec(col) < self@.len(),
        ensures
            match r {
                Some(v) => exists|k: Seq<u8>|
                    {
                        &&& #[trigger] self@[resolve_spec(col)].contains_key(k)
                        &&& is_prefix(prefix@, k)
                        &&& v@ == self@[resolve_spec(col)][k]
                        &&& forall|k2: Seq<u8>|
                            #[trigger] self@[resolve_spec(col)].contains_key(k2) && is_prefix(
                                prefix@,
                                k2,
                            ) ==> lex_le(k, k2)
                    },
                None => true,
            },
    {
        let mut it = self.iter_from_prefix(col, prefix);
        let ghost entries = it.remaining();
        let ghost m = self@[resolve_spec(col)];
        match it.next() {
            Some(kv) => {
                proof {
                    let k0 = entries[0].0;
                    assert forall|k2: Seq<u8>|
                        #[trigger] m.contains_key(k2) && is_prefix(prefix@, k2) implies lex_le(
                        k0,
                        k2,
                    ) by {
                        let i = choose|i: int|
                            0 <= i < entries.len() && #[trigger] entries[i].0 == k2;
                        if i == 0 {
                        } else {
                            assert(lex_lt(entries[0].0, entries[i].0));
                        }
                    }
                }
                Some(kv.1)
            },
            None => None,
        }
    }
}

/// A forward-only cursor over one segment: single-pass, not restartable, and
/// finite. It leases the store — the borrow lives as long as the cursor — so
/// no write can change the segment under it, and it yields the contents as
/// of its creation. The engine reports an unreadable item without advancing
/// past it and without naming its key, so a scan cannot skip such an item
/// and continue behind it; the nearest a cursor can come to skipping is to
/// retry the item a bounded number of times, surface no error, and end a
/// scan that stays stuck, marked interrupted.
pub struct DbIter<'a> {
    owner: &'a Database,
    inner: sled::Iter,
    interrupted: bool,
}

impl<'a> DbIter<'a> {
    /// The entries the cursor has yet to yield, in order.
    pub closed spec fn remaining(&self) -> Seq<(Seq<u8>, Seq<u8>)> {
        iter_view(self.inner)
    }

    /// Whether the cursor ended early because entries stayed unreadable.
    pub closed spec fn spec_interrupted(&self) -> bool {
        self.interrupted
    }

    /// Whether the cursor ended early because entries stayed unreadable.
    pub fn is_interrupted(&self) -> (r: bool)
        ensures
            r == self.spec_interrupted(),
    {
        self.interrupted
    }

    /// Yields the next readable entry. `None` means the cursor is exhausted,
    /// or it gave up on an entry the engine repeatedly failed to read and is
    /// now marked interrupted.
    pub fn next(&mut self) -> (r: Option<(Vec<u8>, Vec<u8>)>)
        ensures
            old(self).spec_interrupted() ==> final(self).spec_interrupted(),
            match r {
                Some(kv) => old(self).remaining().len() > 0
                    && kv.0@ == old(self).remaining()[0].0
                    && kv.1@ == old(self).remaining()[0].1
                    && final(self).remaining() == old(self).remaining().skip(1)
                    && final(self).spec_interrupted() == old(self).spec_interrupted(),
                None => final(self).remaining() == old(self).remaining()
                    && (old(self).remaining().len() == 0 || final(self).spec_interrupted()),
            },
    {
        let mut attempts: u64 = 0;
        while attempts < READ_RETRY_LIMIT
            invariant
                attempts <= READ_RETRY_LIMIT,
                iter_view(self.inner) == iter_view(old(self).inner),
                self.interrupted == old(self).interrupted,
            decreases READ_RETRY_LIMIT - attempts,
        {
            match iter_next(&mut self.inner) {
                None => {
                    return None;
                },
                Some(Ok(kv)) => {
                    return Some(kv);
                },
                Some(Err(_)) => {
                    attempts = attempts + 1;
                },
            }
        }
        self.interrupted = true;
        None
    }
}

} // verus!
