//! Transactions: ordered batches of insert and delete operations addressed
//! to logical columns, and the effect a committed batch has on the store.

use vstd::prelude::*;

use crate::model::resolve_spec;

verus! {

/// One write operation of a transaction, addressed to a logical column:
/// `None` addresses the reserved default column.
#[derive(Clone, Debug)]
pub enum DBOp {
    Insert { col: Option<u32>, key: Vec<u8>, value: Vec<u8> },
    Delete { col: Option<u32>, key: Vec<u8> },
}

impl DBOp {
    /// The logical column the operation addresses.
    pub open spec fn col_spec(self) -> Option<u32> {
        match self {
            DBOp::Insert { col, .. } => col,
            DBOp::Delete { col, .. } => col,
        }
    }

    /// The key the operation writes.
    pub open spec fn key_spec(self) -> Seq<u8> {
        match self {
            DBOp::Insert { key, .. } => key@,
            DBOp::Delete { key, .. } => key@,
        }
    }
}

/// An ordered batch of operations that is committed atomically: either every
/// operation becomes visible, or none does.
#[derive(Clone, Debug)]
pub struct DBTransaction {
    pub ops: Vec<DBOp>,
}

impl View for DBTransaction {
    type V = Seq<DBOp>;

    open spec fn view(&self) -> Seq<DBOp> {
        self.ops@
    }
}

impl DBTransaction {
    /// An empty transaction.
    pub fn new() -> (r: DBTransaction)
        ensures
            r@ =~= Seq::<DBOp>::empty(),
    {
        DBTransaction { ops: Vec::new() }
    }

    /// Appends an insert of `key -> value` on logical column `col`.
    pub fn put(&mut self, col: Option<u32>, key: Vec<u8>, value: Vec<u8>)
        ensures
            final(self)@ == old(self)@.push(DBOp::Insert { col, key, value }),
    {
        self.ops.push(DBOp::Insert { col, key, value });
    }

    /// Appends a deletion of `key` on logical column `col`.
    pub fn delete(&mut self, col: Option<u32>, key: Vec<u8>)
        ensures
            final(self)@ == old(self)@.push(DBOp::Delete { col, key }),
    {
        self.ops.push(DBOp::Delete { col, key });
    }
}

/// Every operation resolves to a physical segment index below `n`.
pub open spec fn ops_in_bounds(ops: Seq<DBOp>, n: int) -> bool {
    forall|i: int| 0 <= i < ops.len() ==> resolve_spec((#[trigger] ops[i]).col_spec()) < n
}

/// The contents of every segment after one operation is applied.
pub open spec fn apply_op(
    views: Seq<Map<Seq<u8>, Seq<u8>>>,
    op: DBOp,
) -> Seq<Map<Seq<u8>, Seq<u8>>> {
    let i = resolve_spec(op.col_spec());
    match op {
        DBOp::Insert { col: _, key, value } => views.update(i, views[i].insert(key@, value@)),
        DBOp::Delete { col: _, key } => views.update(i, views[i].remove(key@)),
    }
}

/// The contents of every segment after a batch is applied, operation by
/// operation in order.
pub open spec fn apply_ops(
    views: Seq<Map<Seq<u8>, Seq<u8>>>,
    ops: Seq<DBOp>,
) -> Seq<Map<Seq<u8>, Seq<u8>>>
    decreases ops.len(),
{
    if ops.len() == 0 {
        views
    } else {
        apply_ops(apply_op(views, ops[0]), ops.skip(1))
    }
}

/// The entry a segment holds at key `k`, if any.
pub open spec fn entry_of(m: Map<Seq<u8>, Seq<u8>>, k: Seq<u8>) -> Option<Seq<u8>> {
    if m.contains_key(k) {
        Some(m[k])
    } else {
        None
    }
}

/// Whether the batch holds an operation addressed to segment `j` and key `k`.
pub open spec fn batch_names(ops: Seq<DBOp>, j: int, k: Seq<u8>) -> bool {
    exists|i: int|
        0 <= i < ops.len() && resolve_spec((#[trigger] ops[i]).col_spec()) == j && ops[i].key_spec()
            == k
}

/// What a batch that failed mid-commit can leave behind: every segment/key
/// pair the batch does not name is unchanged, and every named pair holds
/// either its old value or the value the full batch would commit.
pub open spec fn partial_apply(
    pre: Seq<Map<Seq<u8>, Seq<u8>>>,
    post: Seq<Map<Seq<u8>, Seq<u8>>>,
    ops: Seq<DBOp>,
) -> bool {
    &&& post.len() == pre.len()
    &&& forall|j: int, k: Seq<u8>|
        0 <= j < pre.len() && !batch_names(ops, j, k) ==> (#[trigger] entry_of(post[j], k))
            == entry_of(pre[j], k)
    &&& forall|j: int, k: Seq<u8>|
        0 <= j < pre.len() && batch_names(ops, j, k) ==> ((#[trigger] entry_of(post[j], k))
            == entry_of(pre[j], k) || entry_of(post[j], k) == entry_of(apply_ops(pre, ops)[j], k))
}

/// Maps a logical column identifier to its physical segment index.
pub fn to_sled_column(col: Option<u32>) -> (r: u64)
    ensures
        r == resolve_spec(col),
{
    match col {
        None => 0,
        Some(c) => (c as u64) + 1,
    }
}

} // verus!
