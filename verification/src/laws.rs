//! Laws of the store: what committed transactions make visible to lookups
//! and cursors, stated over the model and proved once for every input.

use vstd::prelude::*;

use crate::model::{lex_lt, lists_map, resolve_spec, strictly_sorted};
use crate::ops::{apply_op, apply_ops, DBOp};

verus! {

/// Strict key order never relates a key to itself.
pub proof fn lemma_lex_lt_irrefl(a: Seq<u8>)
    ensures
        !lex_lt(a, a),
    decreases a.len(),
{
    if a.len() > 0 {
        lemma_lex_lt_irrefl(a.skip(1));
    }
}

/// A batch of one operation commits as exactly that operation's effect.
pub proof fn lemma_apply_single(views: Seq<Map<Seq<u8>, Seq<u8>>>, op: DBOp)
    ensures
        apply_ops(views, seq![op]) == apply_op(views, op),
{
    let s = seq![op];
    assert(s.skip(1) =~= Seq::<DBOp>::empty());
    assert(apply_ops(views, s) == apply_ops(apply_op(views, s[0]), s.skip(1)));
    assert(apply_ops(apply_op(views, op), Seq::<DBOp>::empty()) == apply_op(views, op));
}

/// Round trip: committing a transaction of one insert on logical column
/// `col` makes `value` what a lookup of `key` on that column finds.
pub proof fn lemma_round_trip(
    views: Seq<Map<Seq<u8>, Seq<u8>>>,
    col: Option<u32>,
    key: Vec<u8>,
    value: Vec<u8>,
)
    requires
        resolve_spec(col) < views.len(),
    ensures
        apply_ops(views, seq![(DBOp::Insert { col, key, value })])[resolve_spec(col)].contains_key(
            key@,
        ),
        apply_ops(views, seq![(DBOp::Insert { col, key, value })])[resolve_spec(col)][key@]
            == value@,
{
    lemma_apply_single(views, DBOp::Insert { col, key, value });
}

/// Committing one batch and then another commits their concatenation: a
/// transaction's effect is the ordered composition of its operations.
pub proof fn lemma_apply_ops_concat(views: Seq<Map<Seq<u8>, Seq<u8>>>, a: Seq<DBOp>, b: Seq<DBOp>)
    ensures
        apply_ops(views, a + b) == apply_ops(apply_ops(views, a), b),
    decreases a.len(),
{
    if a.len() == 0 {
        assert(a + b =~= b);
    } else {
        assert((a + b)[0] == a[0]);
        assert((a + b).skip(1) =~= a.skip(1) + b);
        lemma_apply_ops_concat(apply_op(views, a[0]), a.skip(1), b);
    }
}

/// Deletion: once an insert of `key` on `col` and then a deletion of the
/// same key commit — as two transactions or as one — a lookup of `key` on
/// that column finds nothing.
pub proof fn lemma_insert_then_delete(
    views: Seq<Map<Seq<u8>, Seq<u8>>>,
    col: Option<u32>,
    key: Vec<u8>,
    value: Vec<u8>,
)
    requires
        resolve_spec(col) < views.len(),
    ensures
        !apply_ops(
            apply_ops(views, seq![(DBOp::Insert { col, key, value })]),
            seq![(DBOp::Delete { col, key })],
        )[resolve_spec(col)].contains_key(key@),
        !apply_ops(
            views,
            seq![(DBOp::Insert { col, key, value }), (DBOp::Delete { col, key })],
        )[resolve_spec(col)].contains_key(key@),
{
    let ins = DBOp::Insert { col, key, value };
    let del = DBOp::Delete { col, key };
    let after_insert = apply_ops(views, seq![ins]);
    lemma_apply_single(views, ins);
    lemma_apply_single(after_insert, del);
    lemma_apply_ops_concat(views, seq![ins], seq![del]);
    assert(seq![ins] + seq![del] =~= seq![ins, del]);
}

/// Default column: an operation that names no logical column resolves to the
/// reserved physical segment, index 0, so its writes are what lookups with
/// no logical column find.
pub proof fn lemma_default_column(views: Seq<Map<Seq<u8>, Seq<u8>>>, key: Vec<u8>, value: Vec<u8>)
    requires
        0 < views.len(),
    ensures
        resolve_spec(None) == 0,
        apply_ops(views, seq![(DBOp::Insert { col: None, key, value })])[0].contains_key(key@),
        apply_ops(views, seq![(DBOp::Insert { col: None, key, value })])[0][key@] == value@,
{
    lemma_round_trip(views, None, key, value);
}

/// Order within a batch has no observable effect on operations that address
/// distinct targets: two operations that resolve to different segments, or
/// to different keys of one segment, commit the same state in either order.
pub proof fn lemma_ops_on_distinct_targets_commute(
    views: Seq<Map<Seq<u8>, Seq<u8>>>,
    a: DBOp,
    b: DBOp,
)
    requires
        resolve_spec(a.col_spec()) < views.len(),
        resolve_spec(b.col_spec()) < views.len(),
        resolve_spec(a.col_spec()) != resolve_spec(b.col_spec()) || a.key_spec() != b.key_spec(),
    ensures
        apply_op(apply_op(views, a), b) == apply_op(apply_op(views, b), a),
{
    assert(apply_op(apply_op(views, a), b) =~~= apply_op(apply_op(views, b), a));
}

/// Iteration completeness: a sorted listing of a segment carries every key
/// of the segment exactly once, each with its value, and nothing else.
pub proof fn lemma_iteration_complete(entries: Seq<(Seq<u8>, Seq<u8>)>, m: Map<Seq<u8>, Seq<u8>>)
    requires
        lists_map(entries, m),
        strictly_sorted(entries),
    ensures
        forall|i: int, j: int|
            0 <= i < j < entries.len() ==> (#[trigger] entries[i].0) != (#[trigger] entries[j].0),
        forall|k: Seq<u8>| #[trigger]
            m.contains_key(k) <==> exists|i: int|
                0 <= i < entries.len() && (#[trigger] entries[i].0) == k,
        forall|i: int|
            0 <= i < entries.len() ==> m.contains_key(#[trigger] entries[i].0) && entries[i].1
                == m[entries[i].0],
{
    assert forall|i: int, j: int|
        0 <= i < j < entries.len() implies (#[trigger] entries[i].0) != (
    #[trigger] entries[j].0) by {
        lemma_lex_lt_irrefl(entries[i].0);
    }
}

} // verus!
