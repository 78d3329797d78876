//! Vertex welding: triangle corners with identical position keys share one
//! mesh vertex.
use vstd::prelude::*;
use std::collections::HashMap;

verus! {

broadcast use vstd::std_specs::hash::group_hash_axioms;

/// Exact position key of a triangle corner: the bit patterns of its three
/// coordinates.
pub type PositionKey = (u32, u32, u32);

/// `keys[i]` occurs nowhere before index `i`.
pub open spec fn first_occurrence(keys: Seq<PositionKey>, i: int) -> bool {
    forall|j: int| 0 <= j < i ==> keys[j] != keys[i]
}

/// `firsts` lists, in increasing order, the positions of `keys` where a key
/// occurs for the first time, and `indices[j]` is the entry of `firsts` whose
/// key is `keys[j]`; corners share an entry exactly when their keys are equal.
pub open spec fn is_welding(keys: Seq<PositionKey>, firsts: Seq<usize>, indices: Seq<u32>) -> bool {
    &&& indices.len() == keys.len()
    &&& forall|j: int|
        0 <= j < keys.len() ==> {
            &&& (#[trigger] indices[j]) < firsts.len()
            &&& keys[firsts[indices[j] as int] as int] == keys[j]
        }
    &&& forall|a: int|
        0 <= a < firsts.len() ==> (#[trigger] firsts[a]) < keys.len() && first_occurrence(
            keys,
            firsts[a] as int,
        )
    &&& forall|a: int, b: int| 0 <= a < b < firsts.len() ==> firsts[a] < firsts[b]
    &&& forall|i: int, j: int|
        0 <= i < keys.len() && 0 <= j < keys.len() ==> (keys[i] == keys[j] <==> indices[i]
            == indices[j])
}

/// Corners that lie on the same grid edge share one mesh vertex, provided
/// each corner's key depends on its grid edge alone.
pub proof fn lemma_shared_edges_share_vertex(
    edges: Seq<(usize, usize)>,
    keys: Seq<PositionKey>,
    firsts: Seq<usize>,
    indices: Seq<u32>,
)
    requires
        keys.len() == edges.len(),
        forall|i: int, j: int|
            0 <= i < edges.len() && 0 <= j < edges.len() && #[trigger] edges[i] == #[trigger] edges[j]
                ==> keys[i] == keys[j],
        is_welding(keys, firsts, indices),
    ensures
        forall|i: int, j: int|
            0 <= i < edges.len() && 0 <= j < edges.len() && #[trigger] edges[i] == #[trigger] edges[j]
                ==> indices[i] == indices[j],
{
}

/// One 128-bit word holding all three parts of a key.
pub open spec fn pack(k: PositionKey) -> u128 {
    ((k.0 as u128) << 64u128) | ((k.1 as u128) << 32u128) | (k.2 as u128)
}

proof fn lemma_pack_injective(a: PositionKey, b: PositionKey)
    requires
        pack(a) == pack(b),
    ensures
        a == b,
{
    let (a0, a1, a2, b0, b1, b2) = (a.0, a.1, a.2, b.0, b.1, b.2);
    assert(a0 == b0 && a1 == b1 && a2 == b2) by (bit_vector)
        requires
            ((a0 as u128) << 64u128) | ((a1 as u128) << 32u128) | (a2 as u128) == ((b0 as u128)
                << 64u128) | ((b1 as u128) << 32u128) | (b2 as u128),
    ;
}

fn pack_key(k: PositionKey) -> (r: u128)
    ensures
        r == pack(k),
{
    ((k.0 as u128) << 64u128) | ((k.1 as u128) << 32u128) | (k.2 as u128)
}

/// Welds triangle corners by exact key equality.
///
/// Returns `(firsts, indices)`: `firsts` lists, in increasing order, the
/// positions in `keys` where a key occurs for the first time (one mesh vertex
/// each), and `indices[j]` is the vertex of corner `j`, the one whose key
/// equals `keys[j]`. Corners with equal keys share a vertex; corners with
/// different keys never do.
pub fn weld(keys: &Vec<PositionKey>) -> (r: (Vec<usize>, Vec<u32>))
    requires
        keys@.len() <= u32::MAX,
    ensures
        is_welding(keys@, r.0@, r.1@),
{
    let mut seen: HashMap<u128, u32> = HashMap::new();
    let mut firsts: Vec<usize> = Vec::new();
    let mut indices: Vec<u32> = Vec::new();
    let n = keys.len();
    let mut j: usize = 0;
    while j < n
        invariant
            n == keys@.len(),
            n <= u32::MAX,
            j <= n,
            firsts@.len() <= j,
            indices@.len() == j,
            forall|i: int|
                0 <= i < j ==> {
                    &&& seen@.contains_key(pack(#[trigger] keys@[i]))
                    &&& seen@[pack(keys@[i])] == indices@[i]
                },
            forall|q: u128|
                #[trigger] seen@.contains_key(q) ==> {
                    &&& seen@[q] < firsts@.len()
                    &&& pack(keys@[firsts@[seen@[q] as int] as int]) == q
                },
            forall|a: int|
                0 <= a < firsts@.len() ==> {
                    &&& (#[trigger] firsts@[a]) < j
                    &&& first_occurrence(keys@, firsts@[a] as int)
                    &&& seen@.contains_key(pack(keys@[firsts@[a] as int]))
                    &&& seen@[pack(keys@[firsts@[a] as int])] == a
                },
            forall|a: int, b: int| 0 <= a < b < firsts@.len() ==> firsts@[a] < firsts@[b],
            forall|i: int|
                0 <= i < j ==> {
                    &&& (#[trigger] indices@[i]) < firsts@.len()
                    &&& keys@[firsts@[indices@[i] as int] as int] == keys@[i]
                },
        decreases n - j,
    {
        let key = pack_key(keys[j]);
        match seen.get(&key) {
            Some(v) => {
                let v = *v;
                proof {
                    lemma_pack_injective(keys@[firsts@[v as int] as int], keys@[j as int]);
                }
                indices.push(v);
            },
            None => {
                let v = firsts.len() as u32;
                proof {
                    assert forall|i: int| 0 <= i < j implies keys@[i] != keys@[j as int] by {
                        if keys@[i] == keys@[j as int] {
                            assert(seen@.contains_key(pack(keys@[i])));
                        }
                    }
                }
                seen.insert(key, v);
                firsts.push(j);
                indices.push(v);
            },
        }
        j = j + 1;
    }
    proof {
        assert forall|i: int, k: int|
            0 <= i < n && 0 <= k < n && indices@[i] == indices@[k] implies keys@[i] == keys@[k] by {
            assert(keys@[firsts@[indices@[i] as int] as int] == keys@[i]);
            assert(keys@[firsts@[indices@[k] as int] as int] == keys@[k]);
        }
        assert forall|i: int, k: int|
            0 <= i < n && 0 <= k < n && keys@[i] == keys@[k] implies indices@[i] == indices@[k] by {
            assert(seen@[pack(keys@[i])] == indices@[i]);
            assert(seen@[pack(keys@[k])] == indices@[k]);
        }
    }
    (firsts, indices)
}

} // verus!
