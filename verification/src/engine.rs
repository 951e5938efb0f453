//! The storage engine boundary. The engine keeps one ordered byte-key/byte-
//! value segment per physical index and offers point reads, ordered cursors,
//! durability flushes, and an atomic transaction primitive over fixed-arity
//! groups of segments. Everything the rest of the crate knows about the
//! engine is stated here, as contracts on thin wrappers around its calls.

use vstd::prelude::*;

use sled::Transactional;

use crate::model::{lists_map, lists_map_prefix, strictly_sorted};
use crate::ops::{ops_in_bounds, apply_ops, partial_apply, to_sled_column, DBOp};

verus! {

#[verifier::external_type_specification]
#[verifier::external_body]
pub struct ExDb(sled::Db);

#[verifier::external_type_specification]
#[verifier::external_body]
pub struct ExTree(sled::Tree);

#[verifier::external_type_specification]
#[verifier::external_body]
pub struct ExIVec(sled::IVec);

#[verifier::external_type_specification]
#[verifier::external_body]
pub struct ExIter(sled::Iter);

#[verifier::external_type_specification]
#[verifier::external_body]
pub struct ExError(sled::Error);

#[verifier::external_type_specification]
#[verifier::external_body]
pub struct ExTransactionalTree(sled::transaction::TransactionalTree);

#[verifier::external_type_specification]
#[verifier::external_body]
pub struct ExUnabortableTransactionError(sled::transaction::UnabortableTransactionError);

#[verifier::external_type_specification]
#[verifier::external_body]
#[verifier::reject_recursive_types(T)]
pub struct ExTransactionError<T>(sled::transaction::TransactionError<T>);

/// The contents of a segment: the finite key/value mapping an engine tree
/// currently holds.
pub uninterp spec fn tree_view(t: sled::Tree) -> Map<Seq<u8>, Seq<u8>>;

/// The entries an engine cursor has yet to yield, in order.
pub uninterp spec fn iter_view(it: sled::Iter) -> Seq<(Seq<u8>, Seq<u8>)>;

/// The contents of every segment of a registry, in index order.
pub open spec fn views_of(segs: Seq<sled::Tree>) -> Seq<Map<Seq<u8>, Seq<u8>>> {
    segs.map_values(|t: sled::Tree| tree_view(t))
}

/// The engine asserts at open that its cache budget is at least this many
/// bytes, and aborts below it.
pub const ENGINE_MIN_CACHE_BYTES: u64 = 256;

/// Relies on sled::Config::open: opens or creates a store at `path`, with
/// the given cache byte budget and background flush cadence. The engine
/// aborts on a cache budget below its minimum, so those are excluded here.
#[verifier::external_body]
pub(crate) fn engine_open(path: &String, cache_capacity: u64, flush_interval_ms: u64) -> (r: Result<
    sled::Db,
    sled::Error,
>)
    requires
        cache_capacity >= ENGINE_MIN_CACHE_BYTES,
{
    sled::Config::default().path(path.as_str()).cache_capacity(cache_capacity).flush_every_ms(
        Some(flush_interval_ms),
    ).open()
}

/// Relies on sled::Db::open_tree: opens or creates the named segment of the
/// store. Nothing is assumed of its contents: an existing segment keeps what
/// it held.
#[verifier::external_body]
pub(crate) fn open_segment(db: &sled::Db, name: &Vec<u8>) -> (r: Result<sled::Tree, sled::Error>) {
    db.open_tree(name.as_slice())
}

/// Relies on sled::Tree::get: retrieves the value of `key` if the segment
/// holds one.
#[verifier::external_body]
pub(crate) fn tree_get(t: &sled::Tree, key: &[u8]) -> (r: Result<Option<Vec<u8>>, sled::Error>)
    ensures
        match r {
            Ok(Some(v)) => tree_view(*t).contains_key(key@) && v@ == tree_view(*t)[key@],
            Ok(None) => !tree_view(*t).contains_key(key@),
            Err(_) => true,
        },
{
    t.get(key).map(|o| o.map(|ivec| ivec.as_ref().to_vec()))
}

/// Relies on sled::Tree::flush: blocks until previous writes are durable on
/// the backing medium, returning the number of bytes flushed.
#[verifier::external_body]
pub(crate) fn tree_flush(t: &sled::Tree) -> (r: Result<usize, sled::Error>) {
    t.flush()
}

/// Relies on sled::Tree::iter: a cursor that yields every entry of the
/// segment in ascending key order. The cursor reads the tree live, so this
/// contract pins the contents as of creation only because a cursor leases
/// the store: it borrows the `Database` for its whole life, and no write can
/// run while it lives.
#[verifier::external_body]
pub(crate) fn tree_iter(t: &sled::Tree) -> (r: sled::Iter)
    ensures
        lists_map(iter_view(r), tree_view(*t)),
        strictly_sorted(iter_view(r)),
{
    t.iter()
}

/// Relies on sled::Tree::scan_prefix: a cursor that yields, in ascending key
/// order, exactly the entries whose key carries the given byte prefix. As
/// with a whole-segment cursor, the contract holds because the cursor leases
/// the store for its whole life.
#[verifier::external_body]
pub(crate) fn tree_scan_prefix(t: &sled::Tree, prefix: &[u8]) -> (r: sled::Iter)
    ensures
        lists_map_prefix(iter_view(r), tree_view(*t), prefix@),
        strictly_sorted(iter_view(r)),
{
    t.scan_prefix(prefix)
}

/// Relies on sled::Iter::next: yields the next entry of the cursor, or a
/// storage error for an item that could not be read; an erroneous item does
/// not consume any entry, and the cursor ends only once no entry remains.
#[verifier::external_body]
pub(crate) fn iter_next(it: &mut sled::Iter) -> (r: Option<
    Result<(Vec<u8>, Vec<u8>), sled::Error>,
>)
    ensures
        match r {
            None => iter_view(*old(it)).len() == 0 && iter_view(*final(it)) == iter_view(*old(it)),
            Some(Ok(kv)) => iter_view(*old(it)).len() > 0 && kv.0@ == iter_view(*old(it))[0].0
                && kv.1@ == iter_view(*old(it))[0].1 && iter_view(*final(it)) == iter_view(
                *old(it),
            ).skip(1),
            Some(Err(_)) => iter_view(*final(it)) == iter_view(*old(it)),
        },
{
    it.next().map(|res| res.map(|(k, v)| (k.as_ref().to_vec(), v.as_ref().to_vec())))
}

/// Relies on sled::transaction::TransactionalTree::insert: stages `key ->
/// value` in the transactional overlay of one segment.
#[verifier::external_body]
pub(crate) fn ttree_insert(
    t: &sled::transaction::TransactionalTree,
    key: &[u8],
    value: &[u8],
) -> (r: Result<Option<Vec<u8>>, sled::transaction::UnabortableTransactionError>) {
    t.insert(key, value).map(|o| o.map(|ivec| ivec.as_ref().to_vec()))
}

/// Relies on sled::transaction::TransactionalTree::remove: stages the removal
/// of `key` in the transactional overlay of one segment.
#[verifier::external_body]
pub(crate) fn ttree_remove(t: &sled::transaction::TransactionalTree, key: &[u8]) -> (r: Result<
    Option<Vec<u8>>,
    sled::transaction::UnabortableTransactionError,
>) {
    t.remove(key).map(|o| o.map(|ivec| ivec.as_ref().to_vec()))
}

/// Stages every operation of a batch on its resolved segment, in order,
/// stopping at the first staging failure.
pub(crate) fn apply_txn_ops(
    handles: &Vec<&sled::transaction::TransactionalTree>,
    ops: &Vec<DBOp>,
) -> (r: Result<(), sled::transaction::UnabortableTransactionError>)
    requires
        ops_in_bounds(ops@, handles@.len() as int),
{
    let mut i: usize = 0;
    while i < ops.len()
        invariant
            ops_in_bounds(ops@, handles@.len() as int),
            i <= ops@.len(),
        decreases ops@.len() - i,
    {
        let outcome = match &ops[i] {
            DBOp::Insert { col, key, value } => {
                let idx = to_sled_column(*col);
                ttree_insert(handles[idx as usize], key.as_slice(), value.as_slice())
            },
            DBOp::Delete { col, key } => {
                let idx = to_sled_column(*col);
                ttree_remove(handles[idx as usize], key.as_slice())
            },
        };
        match outcome {
            Ok(_) => {},
            Err(e) => {
                return Err(e);
            },
        }
        i = i + 1;
    }
    Ok(())
}

/// Relies on sled's transaction primitive over a single segment. On success
/// the staged operations commit as one unit. On failure before the commit
/// phase nothing is applied; a storage failure during the commit phase is
/// not undone in memory, so each key the batch names may then hold its old
/// or its new value, while every other key is untouched.
#[verifier::external_body]
pub(crate) fn transact1(segs: &mut Vec<sled::Tree>, ops: &Vec<DBOp>) -> (r: Result<
    (),
    sled::transaction::TransactionError<()>,
>)
    requires
        old(segs)@.len() == 1,
        ops_in_bounds(ops@, 1),
    ensures
        final(segs)@.len() == old(segs)@.len(),
        match r {
            Ok(()) => views_of(final(segs)@) == apply_ops(views_of(old(segs)@), ops@),
            Err(_) => partial_apply(views_of(old(segs)@), views_of(final(segs)@), ops@),
        },
{
    let res: sled::transaction::TransactionResult<(), ()> = (&segs[0]).transaction(|c0| {
        let handles = vec![c0];
        apply_txn_ops(&handles, ops)?;
        Ok(())
    });
    res
}

/// Relies on sled's transaction primitive over a group of nine segments. On
/// success the staged operations commit across the group as one unit. On
/// failure before the commit phase nothing is applied; a storage failure
/// during the commit phase is not undone in memory, so each key the batch
/// names may then hold its old or its new value, while every other key is
/// untouched.
#[verifier::external_body]
pub(crate) fn transact9(segs: &mut Vec<sled::Tree>, ops: &Vec<DBOp>) -> (r: Result<
    (),
    sled::transaction::TransactionError<()>,
>)
    requires
        old(segs)@.len() == 9,
        ops_in_bounds(ops@, 9),
    ensures
        final(segs)@.len() == old(segs)@.len(),
        match r {
            Ok(()) => views_of(final(segs)@) == apply_ops(views_of(old(segs)@), ops@),
            Err(_) => partial_apply(views_of(old(segs)@), views_of(final(segs)@), ops@),
        },
{
    let group = (
        &segs[0], &segs[1], &segs[2], &segs[3], &segs[4], &segs[5], &segs[6], &segs[7], &segs[8],
    );
    let res: sled::transaction::TransactionResult<(), ()> = group.transaction(|t| {
        let handles = vec![&t.0, &t.1, &t.2, &t.3, &t.4, &t.5, &t.6, &t.7, &t.8];
        apply_txn_ops(&handles, ops)?;
        Ok(())
    });
    res
}

} // verus!
