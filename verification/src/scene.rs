//! Renderer-independent scene model: glass identifiers and the order in which
//! glass nodes are composited.

use vstd::prelude::*;
use crate::text::{decimal, push_decimal};

verus! {

/// A stable identifier for a glass element.
#[derive(Clone, Copy, Debug, Default, PartialEq, Eq, Hash, Structural)]
pub struct GlassId(pub u64);

impl GlassId {
    /// The display form of the identifier: `glass-` followed by its number.
    pub fn to_string(&self) -> (r: String)
        ensures
            r@ == "glass-"@ + decimal(self.0 as nat),
    {
        let mut s = String::from_str("glass-");
        push_decimal(&mut s, self.0);
        s
    }
}

/// `order` lists every node position `0..z.len()` exactly once.
pub open spec fn is_permutation_of_positions(order: Seq<usize>, n: nat) -> bool {
    &&& order.len() == n
    &&& forall|i: int| 0 <= i < order.len() ==> #[trigger] order[i] < n
    &&& forall|i: int, j: int| 0 <= i < j < order.len() ==> order[i] != order[j]
}

/// Nodes listed in `order` go back to front: their z-indices never decrease.
pub open spec fn is_back_to_front(z: Seq<i32>, order: Seq<usize>) -> bool {
    forall|i: int, j: int|
        0 <= i < j < order.len() ==> z[order[i] as int] <= z[order[j] as int]
}

/// Nodes with equal z-indices keep the order in which they were pushed.
pub open spec fn keeps_push_order_on_ties(z: Seq<i32>, order: Seq<usize>) -> bool {
    forall|i: int, j: int|
        0 <= i < j < order.len() && z[order[i] as int] == z[order[j] as int]
            ==> order[i] < order[j]
}

/// The stable back-to-front compositing order of nodes whose z-indices are
/// `z_indices` (in push order): the returned positions sort the nodes by
/// z-index, and nodes with equal z-indices keep their push order.
pub fn render_order(z_indices: &[i32]) -> (order: Vec<usize>)
    ensures
        is_permutation_of_positions(order@, z_indices@.len()),
        forall|x: usize| x < z_indices@.len() ==> #[trigger] order@.contains(x),
        is_back_to_front(z_indices@, order@),
        keeps_push_order_on_ties(z_indices@, order@),
{
    let n = z_indices.len();
    let mut order: Vec<usize> = Vec::new();
    let mut k: usize = 0;
    while k < n
        invariant
            k <= n,
            n == z_indices@.len(),
            is_permutation_of_positions(order@, k as nat),
            forall|x: usize| x < k ==> #[trigger] order@.contains(x),
            is_back_to_front(z_indices@, order@),
            keeps_push_order_on_ties(z_indices@, order@),
        decreases n - k,
    {
        let key = z_indices[k];
        let mut pos: usize = 0;
        while pos < k && z_indices[order[pos]] <= key
            invariant
                pos <= k,
                k < n,
                n == z_indices@.len(),
                key == z_indices@[k as int],
                is_permutation_of_positions(order@, k as nat),
                forall|i: int| 0 <= i < pos ==> z_indices@[order@[i] as int] <= key,
            decreases k - pos,
        {
            pos = pos + 1;
        }
        let ghost before = order@;
        assert(forall|i: int| pos <= i < k ==> z_indices@[before[i] as int] > key) by {
            if pos < k {
                assert(z_indices@[before[pos as int] as int] > key);
            }
        }
        order.insert(pos, k);
        assert(order@ == before.insert(pos as int, k));
        assert forall|x: usize| x < k + 1 implies #[trigger] order@.contains(x) by {
            if x == k {
                assert(order@[pos as int] == k);
            } else {
                assert(before.contains(x));
                let i = choose|i: int| 0 <= i < before.len() && before[i] == x;
                if i < pos {
                    assert(order@[i] == x);
                } else {
                    assert(order@[i + 1] == x);
                }
            }
        }
        k = k + 1;
    }
    order
}

/// Node `x` is composited before node `y`: it has a lower z-index, or the
/// same z-index and was pushed earlier.
pub open spec fn composited_before(z: Seq<i32>, x: usize, y: usize) -> bool {
    z[x as int] < z[y as int] || (z[x as int] == z[y as int] && x < y)
}

/// Every node in `order` is composited before every node after it.
pub open spec fn strictly_composited(z: Seq<i32>, order: Seq<usize>) -> bool {
    forall|i: int, j: int| 0 <= i < j < order.len() ==> composited_before(z, #[trigger] order[i], #[trigger] order[j])
}

proof fn lemma_strictly_composited_tail(z: Seq<i32>, a: Seq<usize>)
    requires
        strictly_composited(z, a),
        a.len() > 0,
    ensures
        strictly_composited(z, a.skip(1)),
        forall|x: usize| #[trigger] a.skip(1).contains(x) <==> (a.contains(x) && x != a[0]),
{
    assert forall|i: int, j: int| 0 <= i < j < a.skip(1).len() implies composited_before(
        z,
        #[trigger] a.skip(1)[i],
        #[trigger] a.skip(1)[j],
    ) by {
        assert(a.skip(1)[i] == a[i + 1] && a.skip(1)[j] == a[j + 1]);
    }
    assert forall|x: usize| #[trigger] a.skip(1).contains(x) <==> (a.contains(x) && x != a[0]) by {
        if a.skip(1).contains(x) {
            let k = choose|k: int| 0 <= k < a.skip(1).len() && a.skip(1)[k] == x;
            assert(a[k + 1] == x);
            assert(composited_before(z, a[0], a[k + 1]));
        }
        if a.contains(x) && x != a[0] {
            let k = choose|k: int| 0 <= k < a.len() && a[k] == x;
            assert(a.skip(1)[k - 1] == x);
        }
    }
}

proof fn lemma_strictly_composited_unique(z: Seq<i32>, a: Seq<usize>, b: Seq<usize>)
    requires
        strictly_composited(z, a),
        strictly_composited(z, b),
        a.len() == b.len(),
        forall|x: usize| #[trigger] a.contains(x) <==> b.contains(x),
    ensures
        a == b,
    decreases a.len(),
{
    if a.len() > 0 {
        assert(a.contains(a[0]));
        assert(b.contains(b[0]));
        assert(a.contains(b[0]));
        assert(b.contains(a[0]));
        let i = choose|i: int| 0 <= i < a.len() && a[i] == b[0];
        let j = choose|j: int| 0 <= j < b.len() && b[j] == a[0];
        if i > 0 && j > 0 {
            assert(composited_before(z, a[0], a[i]));
            assert(composited_before(z, b[0], b[j]));
        }
        assert(a[0] == b[0]);
        lemma_strictly_composited_tail(z, a);
        lemma_strictly_composited_tail(z, b);
        lemma_strictly_composited_unique(z, a.skip(1), b.skip(1));
        assert(a =~= seq![a[0]] + a.skip(1));
        assert(b =~= seq![b[0]] + b.skip(1));
    }
}

/// The compositing order is unique: any two orders that list every node once,
/// back to front, keeping push order on ties, are the same order. So
/// [`render_order`] returns exactly the stable sort of the nodes by z-index.
pub proof fn lemma_render_order_is_unique(z: Seq<i32>, a: Seq<usize>, b: Seq<usize>)
    requires
        is_permutation_of_positions(a, z.len()),
        is_permutation_of_positions(b, z.len()),
        forall|x: usize| x < z.len() ==> #[trigger] a.contains(x),
        forall|x: usize| x < z.len() ==> #[trigger] b.contains(x),
        is_back_to_front(z, a),
        is_back_to_front(z, b),
        keeps_push_order_on_ties(z, a),
        keeps_push_order_on_ties(z, b),
    ensures
        a == b,
{
    assert forall|i: int, j: int| 0 <= i < j < a.len() implies composited_before(z, #[trigger] a[i], #[trigger] a[j]) by {
        assert(z[a[i] as int] <= z[a[j] as int]);
    }
    assert forall|i: int, j: int| 0 <= i < j < b.len() implies composited_before(z, #[trigger] b[i], #[trigger] b[j]) by {
        assert(z[b[i] as int] <= z[b[j] as int]);
    }
    assert forall|x: usize| #[trigger] a.contains(x) <==> b.contains(x) by {
        if a.contains(x) {
            let k = choose|k: int| 0 <= k < a.len() && a[k] == x;
            assert(a[k] < z.len());
        }
        if b.contains(x) {
            let k = choose|k: int| 0 <= k < b.len() && b[k] == x;
            assert(b[k] < z.len());
        }
    }
    lemma_strictly_composited_unique(z, a, b);
}

} // verus!
