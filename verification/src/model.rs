//! The mathematical model of the store: column resolution, the byte-wise
//! key order of the engine, and what it means for a sequence of entries to
//! list the contents of a segment.

use vstd::prelude::*;

verus! {

/// The physical segment index that a logical column maps to: the reserved
/// default segment is index 0, and logical column `c` maps to index `c + 1`.
pub open spec fn resolve_spec(col: Option<u32>) -> int {
    match col {
        None => 0,
        Some(c) => c + 1,
    }
}

/// The number of declared logical columns in a configuration.
pub open spec fn column_count_spec(columns: Option<u8>) -> int {
    match columns {
        None => 0,
        Some(n) => n as int,
    }
}

/// The number of physical segments a store holds: one per logical column,
/// plus the reserved default segment.
pub open spec fn segment_count_spec(columns: Option<u8>) -> int {
    column_count_spec(columns) + 1
}

/// Whether the engine offers an atomic transaction primitive over a group
/// of `n` segments. The engine only transacts over fixed-arity groups; the
/// arities in use here are a single segment and a group of nine.
pub open spec fn supported_arity(n: int) -> bool {
    n == 1 || n == 9
}

/// Strict lexicographic order on byte strings: the order the engine keeps
/// its keys in. A proper prefix sorts before every extension of itself.
pub open spec fn lex_lt(a: Seq<u8>, b: Seq<u8>) -> bool
    decreases a.len(),
{
    if b.len() == 0 {
        false
    } else if a.len() == 0 {
        true
    } else if a[0] < b[0] {
        true
    } else if a[0] > b[0] {
        false
    } else {
        lex_lt(a.skip(1), b.skip(1))
    }
}

/// Non-strict lexicographic order on byte strings.
pub open spec fn lex_le(a: Seq<u8>, b: Seq<u8>) -> bool {
    a == b || lex_lt(a, b)
}

/// Whether `p` is a byte prefix of `k`.
pub open spec fn is_prefix(p: Seq<u8>, k: Seq<u8>) -> bool {
    p.len() <= k.len() && k.subrange(0, p.len() as int) == p
}

/// The keys of `entries` are strictly increasing in the engine's key order.
pub open spec fn strictly_sorted(entries: Seq<(Seq<u8>, Seq<u8>)>) -> bool {
    forall|i: int, j: int|
        0 <= i < j < entries.len() ==> lex_lt(entries[i].0, entries[j].0)
}

/// `entries` lists exactly the contents of the segment `m`: every entry is
/// a pair of `m`, and every key of `m` appears.
pub open spec fn lists_map(entries: Seq<(Seq<u8>, Seq<u8>)>, m: Map<Seq<u8>, Seq<u8>>) -> bool {
    &&& forall|i: int|
        0 <= i < entries.len() ==> m.contains_key(#[trigger] entries[i].0) && m[entries[i].0]
            == entries[i].1
    &&& forall|k: Seq<u8>| #[trigger]
        m.contains_key(k) ==> exists|i: int| 0 <= i < entries.len() && #[trigger] entries[i].0 == k
}

/// `entries` lists exactly the contents of the segment `m` whose keys carry
/// the byte prefix `p`.
pub open spec fn lists_map_prefix(
    entries: Seq<(Seq<u8>, Seq<u8>)>,
    m: Map<Seq<u8>, Seq<u8>>,
    p: Seq<u8>,
) -> bool {
    &&& forall|i: int|
        0 <= i < entries.len() ==> m.contains_key(#[trigger] entries[i].0) && m[entries[i].0]
            == entries[i].1 && is_prefix(p, entries[i].0)
    &&& forall|k: Seq<u8>|
        #[trigger] m.contains_key(k) && is_prefix(p, k) ==> exists|i: int|
            0 <= i < entries.len() && #[trigger] entries[i].0 == k
}

} // verus!
