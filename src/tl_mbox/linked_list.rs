//! Intrusive circular doubly linked lists over a fixed arena of nodes.
//!
//! Every exchanged buffer starts with a `ListNode`; nodes are addressed by
//! their slot in a `NodePool`, and `next` / `prev` hold slot indices. A head
//! is an ordinary node whose list is empty when it links to itself.
use vstd::prelude::*;
use vstd::set_lib::*;

verus! {

/// The two link fields at the front of every packet.
#[derive(Clone, Copy)]
pub struct ListNode {
    pub next: usize,
    pub prev: usize,
}

/// Arena of list nodes, with the lists it holds as a ghost model.
///
/// `lists` maps each initialised head to the sequence of its members, in
/// order from `next(head)` to `prev(head)`. `owner` maps every node that is
/// on a list (heads included) to its head.
pub struct NodePool {
    pub nodes: Vec<ListNode>,
    pub lists: Ghost<Map<usize, Seq<usize>>>,
    pub owner: Ghost<Map<usize, usize>>,
}

/// What follows member `i` of the cycle `head, s[0], ..., s[n-1]`.
pub open spec fn succ_in(head: usize, s: Seq<usize>, i: int) -> usize {
    if i + 1 < s.len() {
        s[i + 1]
    } else {
        head
    }
}

/// What precedes member `i` of the cycle `head, s[0], ..., s[n-1]`.
pub open spec fn pred_in(head: usize, s: Seq<usize>, i: int) -> usize {
    if i > 0 {
        s[i - 1]
    } else {
        head
    }
}

/// The first member of the cycle, or the head itself when it is empty.
pub open spec fn first_in(head: usize, s: Seq<usize>) -> usize {
    if s.len() == 0 {
        head
    } else {
        s[0]
    }
}

/// The last member of the cycle, or the head itself when it is empty.
pub open spec fn last_in(head: usize, s: Seq<usize>) -> usize {
    if s.len() == 0 {
        head
    } else {
        s.last()
    }
}

/// The node after which a new node goes so that it lands at index `p`.
pub open spec fn anchor_of(head: usize, s: Seq<usize>, p: int) -> usize {
    if p == 0 {
        head
    } else {
        s[p - 1]
    }
}

/// Index in `s` just after `r`: 0 for the head, else one past `r`'s index.
pub open spec fn slot_after(head: usize, s: Seq<usize>, r: usize) -> int {
    if r == head {
        0
    } else {
        s.index_of(r) + 1
    }
}

impl NodePool {
    pub open spec fn len(&self) -> nat {
        self.nodes@.len()
    }

    pub open spec fn next_of(&self, n: usize) -> usize {
        self.nodes@[n as int].next
    }

    pub open spec fn prev_of(&self, n: usize) -> usize {
        self.nodes@[n as int].prev
    }

    /// The list of `head` is exactly the cycle `head, s[0], ..., s[n-1]`,
    /// consistent in both directions.
    pub open spec fn linked(&self, head: usize, s: Seq<usize>) -> bool {
        &&& head < self.len()
        &&& self.next_of(head) == first_in(head, s)
        &&& self.prev_of(head) == last_in(head, s)
        &&& s.no_duplicates()
        &&& forall|i: int| 0 <= i < s.len() ==> #[trigger] s[i] < self.len() && s[i] != head
        &&& forall|i: int|
            0 <= i < s.len() ==> self.next_of(#[trigger] s[i]) == succ_in(head, s, i)
        &&& forall|i: int|
            0 <= i < s.len() ==> self.prev_of(#[trigger] s[i]) == pred_in(head, s, i)
    }

    /// Every list is a consistent cycle and no node is on two lists.
    pub closed spec fn wf(&self) -> bool {
        &&& forall|h: usize| #[trigger]
            self.lists@.contains_key(h) ==> {
                &&& self.linked(h, self.lists@[h])
                &&& self.owner@.contains_key(h)
                &&& self.owner@[h] == h
            }
        &&& forall|h: usize, i: int|
            self.lists@.contains_key(h) && 0 <= i < self.lists@[h].len() ==> {
                &&& self.owner@.contains_key(#[trigger] self.lists@[h][i])
                &&& self.owner@[self.lists@[h][i]] == h
            }
        &&& forall|n: usize| #[trigger]
            self.owner@.contains_key(n) ==> {
                &&& self.lists@.contains_key(self.owner@[n])
                &&& (n == self.owner@[n] || self.lists@[self.owner@[n]].contains(n))
            }
    }

    /// The members of the list of `head`.
    pub open spec fn list(&self, head: usize) -> Seq<usize> {
        self.lists@[head]
    }

    pub open spec fn is_head(&self, head: usize) -> bool {
        self.lists@.contains_key(head)
    }

    /// A node that is on no list and is not a head.
    pub open spec fn is_free(&self, n: usize) -> bool {
        n < self.len() && !self.owner@.contains_key(n)
    }

    /// A node on some list (not a head).
    pub open spec fn is_member(&self, n: usize) -> bool {
        self.owner@.contains_key(n) && self.owner@[n] != n
    }

    /// A pool of `n` nodes, none of them on a list.
    pub fn new(n: usize) -> (r: NodePool)
        ensures
            r.wf(),
            r.len() == n,
            r.lists@ == Map::<usize, Seq<usize>>::empty(),
            r.owner@ == Map::<usize, usize>::empty(),
    {
        let mut nodes: Vec<ListNode> = Vec::new();
        let mut i: usize = 0;
        while i < n
            invariant
                i <= n,
                nodes@.len() == i,
            decreases n - i,
        {
            nodes.push(ListNode { next: i, prev: i });
            i = i + 1;
        }
        NodePool { nodes, lists: Ghost(Map::empty()), owner: Ghost(Map::empty()) }
    }

    pub fn size(&self) -> (r: usize)
        ensures
            r == self.len(),
    {
        self.nodes.len()
    }
}

/// A sequence of distinct indices below `n` has at most `n` members.
proof fn lemma_distinct_below(s: Seq<usize>, n: usize)
    requires
        s.no_duplicates(),
        forall|i: int| 0 <= i < s.len() ==> #[trigger] s[i] < n,
    ensures
        s.len() <= n,
{
    let t = s.map_values(|x: usize| x as int);
    assert(t.no_duplicates()) by {
        assert forall|i: int, j: int| 0 <= i < t.len() && 0 <= j < t.len() && i != j implies t[i]
            != t[j] by {
            assert(s[i] != s[j]);
        }
    }
    t.unique_seq_to_set();
    lemma_int_range(0, n as int);
    assert(t.to_set().subset_of(set_int_range(0, n as int))) by {
        assert forall|x: int| t.to_set().contains(x) implies set_int_range(0, n as int).contains(
            x,
        ) by {
            let k = choose|k: int| 0 <= k < t.len() && t[k] == x;
            assert(s[k] < n);
        }
    }
    lemma_len_subset(t.to_set(), set_int_range(0, n as int));
}

/// Makes `head` the head of an empty list.
pub fn init_head(pool: &mut NodePool, head: usize)
    requires
        old(pool).wf(),
        old(pool).is_free(head),
    ensures
        final(pool).wf(),
        final(pool).len() == old(pool).len(),
        final(pool).lists@ == old(pool).lists@.insert(head, Seq::empty()),
        final(pool).owner@ == old(pool).owner@.insert(head, head),
{
    pool.nodes.set(head, ListNode { next: head, prev: head });
    proof {
        pool.lists@ = pool.lists@.insert(head, Seq::empty());
        pool.owner@ = pool.owner@.insert(head, head);
        assert forall|h: usize| #[trigger] pool.lists@.contains_key(h) implies pool.linked(
            h,
            pool.lists@[h],
        ) by {
            if h != head {
                let s = pool.lists@[h];
                assert(old(pool).linked(h, s));
                assert forall|i: int| 0 <= i < s.len() implies #[trigger] s[i] != head by {
                    assert(old(pool).owner@.contains_key(old(pool).lists@[h][i]));
                }
            }
        }
    }
}

/// Link changes made by splicing `node` in between `a` and `b`.
pub open spec fn spliced(old_pool: NodePool, pool: NodePool, node: usize, a: usize, b: usize) -> bool {
    &&& pool.len() == old_pool.len()
    &&& pool.next_of(node) == b
    &&& pool.prev_of(node) == a
    &&& pool.next_of(a) == node
    &&& pool.prev_of(b) == node
    &&& forall|k: usize| k < pool.len() && k != node && k != a ==> #[trigger] pool.next_of(k) == old_pool.next_of(k)
    &&& forall|k: usize| k < pool.len() && k != node && k != b ==> #[trigger] pool.prev_of(k) == old_pool.prev_of(k)
}

/// Where `r` sits in the list of its head `h`, for `r` a head or member.
proof fn lemma_anchor(pool: NodePool, r: usize)
    requires
        pool.wf(),
        pool.owner@.contains_key(r),
    ensures
        ({
            let h = pool.owner@[r];
            let s = pool.lists@[h];
            let p = slot_after(h, s, r);
            &&& pool.lists@.contains_key(h)
            &&& pool.linked(h, s)
            &&& 0 <= p <= s.len()
            &&& r == anchor_of(h, s, p)
            &&& pool.next_of(r) == (if p < s.len() { s[p] } else { h })
            &&& pool.owner@.contains_key(pool.next_of(r))
            &&& pool.owner@[pool.next_of(r)] == h
        }),
{
    let h = pool.owner@[r];
    let s = pool.lists@[h];
    assert(pool.linked(h, s));
    if r != h {
        assert(s.contains(r));
        assert(s[s.index_of(r)] == r);
    }
    let p = slot_after(h, s, r);
    if p < s.len() {
        assert(pool.owner@.contains_key(pool.lists@[h][p]));
    }
}

/// After the splice, the list that received `node` is consistent.
#[verifier::rlimit(100)]
proof fn lemma_insert_linked(
    old_pool: NodePool,
    pool: NodePool,
    node: usize,
    h: usize,
    s: Seq<usize>,
    p: int,
)
    requires
        old_pool.linked(h, s),
        0 <= p <= s.len(),
        node < old_pool.len(),
        node != h,
        !s.contains(node),
        spliced(old_pool, pool, node, anchor_of(h, s, p), if p < s.len() { s[p] } else { h }),
    ensures
        pool.linked(h, s.insert(p, node)),
{
    let s2 = s.insert(p, node);
    assert(s2.len() == s.len() + 1);
    assert forall|i: int| 0 <= i < s2.len() implies #[trigger] s2[i] < pool.len() && s2[i]
        != h by {
        if i < p {
            assert(s2[i] == s[i]);
        } else if i > p {
            assert(s2[i] == s[i - 1]);
        }
    }
    assert(s2.no_duplicates()) by {
        assert forall|i: int, j: int|
            0 <= i < s2.len() && 0 <= j < s2.len() && i != j implies s2[i] != s2[j] by {
            let a = if i < p { i } else { i - 1 };
            let b = if j < p { j } else { j - 1 };
            if i != p {
                assert(s2[i] == s[a]);
            }
            if j != p {
                assert(s2[j] == s[b]);
            }
        }
    }
    assert forall|i: int| 0 <= i < s2.len() implies pool.next_of(#[trigger] s2[i]) == succ_in(
        h,
        s2,
        i,
    ) by {
        if i < p - 1 {
            assert(s2[i] == s[i]);
            assert(s2[i + 1] == s[i + 1]);
            assert(old_pool.next_of(s[i]) == succ_in(h, s, i));
        } else if i == p - 1 {
            assert(s2[i] == s[i]);
        } else if i == p {
        } else {
            assert(s2[i] == s[i - 1]);
            assert(old_pool.next_of(s[i - 1]) == succ_in(h, s, i - 1));
            if i + 1 < s2.len() {
                assert(s2[i + 1] == s[i]);
            }
        }
    }
    assert forall|i: int| 0 <= i < s2.len() implies pool.prev_of(#[trigger] s2[i]) == pred_in(
        h,
        s2,
        i,
    ) by {
        if i < p {
            assert(s2[i] == s[i]);
            assert(old_pool.prev_of(s[i]) == pred_in(h, s, i));
            if i > 0 {
                assert(s2[i - 1] == s[i - 1]);
            }
        } else if i == p {
            if p > 0 {
                assert(s2[i - 1] == s[p - 1]);
            }
        } else if i == p + 1 {
            assert(s2[i] == s[p]);
        } else {
            assert(s2[i] == s[i - 1]);
            assert(s2[i - 1] == s[i - 2]);
            assert(old_pool.prev_of(s[i - 1]) == pred_in(h, s, i - 1));
        }
    }
    if p > 0 {
        assert(s2[0] == s[0]);
    }
    if p < s.len() {
        assert(s2.last() == s.last());
    }
}

/// A list none of whose nodes changed links stays consistent.
proof fn lemma_untouched(old_pool: NodePool, pool: NodePool, h: usize, t: Seq<usize>)
    requires
        old_pool.linked(h, t),
        pool.len() == old_pool.len(),
        pool.nodes@[h as int] == old_pool.nodes@[h as int],
        forall|i: int| 0 <= i < t.len() ==> pool.nodes@[#[trigger] t[i] as int] == old_pool.nodes@[t[i] as int],
    ensures
        pool.linked(h, t),
{
    assert forall|i: int| 0 <= i < t.len() implies pool.next_of(#[trigger] t[i]) == succ_in(h, t, i)
        && pool.prev_of(t[i]) == pred_in(h, t, i) by {
        assert(pool.nodes@[t[i] as int] == old_pool.nodes@[t[i] as int]);
    }
}

/// Links the free `node` in just after `ref_node`, which is a head or a
/// member of some list.
pub fn insert_node_after(pool: &mut NodePool, node: usize, ref_node: usize)
    requires
        old(pool).wf(),
        old(pool).is_free(node),
        old(pool).owner@.contains_key(ref_node),
    ensures
        final(pool).wf(),
        final(pool).len() == old(pool).len(),
        ({
            let h = old(pool).owner@[ref_node];
            let s = old(pool).lists@[h];
            &&& final(pool).lists@ == old(pool).lists@.insert(
                h,
                s.insert(slot_after(h, s, ref_node), node),
            )
            &&& final(pool).owner@ == old(pool).owner@.insert(node, h)
        }),
{
    let ghost h = pool.owner@[ref_node];
    let ghost s = pool.lists@[h];
    let ghost p = slot_after(h, s, ref_node);
    proof {
        lemma_anchor(*pool, ref_node);
        assert(!s.contains(node)) by {
            if s.contains(node) {
                let k = choose|k: int| 0 <= k < s.len() && s[k] == node;
                assert(pool.owner@.contains_key(pool.lists@[h][k]));
            }
        }
    }
    let ghost old_pool = *pool;
    let nxt = pool.nodes[ref_node].next;
    pool.nodes.set(node, ListNode { next: nxt, prev: ref_node });
    let mut r = pool.nodes[ref_node];
    r.next = node;
    pool.nodes.set(ref_node, r);
    let mut x = pool.nodes[nxt];
    x.prev = node;
    pool.nodes.set(nxt, x);
    proof {
        assert(pool.nodes@.len() == old_pool.nodes@.len());
        assert(pool.next_of(node) == nxt);
        assert(pool.prev_of(node) == ref_node);
        assert(pool.next_of(ref_node) == node);
        assert(pool.prev_of(nxt) == node);
        assert forall|k: usize| k < pool.len() && k != node && k != ref_node implies #[trigger] pool.next_of(k)
            == old_pool.next_of(k) by {}
        assert forall|k: usize| k < pool.len() && k != node && k != nxt implies #[trigger] pool.prev_of(k)
            == old_pool.prev_of(k) by {}
        assert forall|k: usize| k < pool.len() && k != node && k != ref_node && k != nxt implies pool.nodes@[k as int]
            == old_pool.nodes@[k as int] by {}
        lemma_insert_linked(old_pool, *pool, node, h, s, p);
        pool.lists@ = pool.lists@.insert(h, s.insert(p, node));
        pool.owner@ = pool.owner@.insert(node, h);
        lemma_insert_wf(old_pool, *pool, node, ref_node, nxt);
    }
}

/// The rest of well-formedness after `insert_node_after`'s splice.
#[verifier::rlimit(100)]
proof fn lemma_insert_wf(old_pool: NodePool, pool: NodePool, node: usize, ref_node: usize, nxt: usize)
    requires
        old_pool.wf(),
        old_pool.is_free(node),
        old_pool.owner@.contains_key(ref_node),
        nxt == old_pool.next_of(ref_node),
        pool.len() == old_pool.len(),
        forall|k: usize| k < pool.len() && k != node && k != ref_node && k != nxt ==> pool.nodes@[k as int]
            == old_pool.nodes@[k as int],
        ({
            let h = old_pool.owner@[ref_node];
            let s = old_pool.lists@[h];
            let p = slot_after(h, s, ref_node);
            &&& pool.linked(h, s.insert(p, node))
            &&& pool.lists@ == old_pool.lists@.insert(h, s.insert(p, node))
            &&& pool.owner@ == old_pool.owner@.insert(node, h)
        }),
    ensures
        pool.wf(),
{
    let h = old_pool.owner@[ref_node];
    let s = old_pool.lists@[h];
    let p = slot_after(h, s, ref_node);
    let s2 = s.insert(p, node);
    lemma_anchor(old_pool, ref_node);
    assert forall|h2: usize| #[trigger] pool.lists@.contains_key(h2) implies pool.linked(
        h2,
        pool.lists@[h2],
    ) && pool.owner@.contains_key(h2) && pool.owner@[h2] == h2 by {
        if h2 != h {
            let t = pool.lists@[h2];
            assert(old_pool.linked(h2, t));
            assert(old_pool.owner@.contains_key(h2));
            assert forall|i: int| 0 <= i < t.len() implies pool.nodes@[#[trigger] t[i] as int]
                == old_pool.nodes@[t[i] as int] by {
                assert(old_pool.owner@.contains_key(old_pool.lists@[h2][i]));
            }
            lemma_untouched(old_pool, pool, h2, t);
        }
    }
    assert forall|h2: usize, i: int|
        pool.lists@.contains_key(h2) && 0 <= i < pool.lists@[h2].len() implies {
        &&& pool.owner@.contains_key(#[trigger] pool.lists@[h2][i])
        &&& pool.owner@[pool.lists@[h2][i]] == h2
    } by {
        if h2 == h {
            if i < p {
                assert(s2[i] == s[i]);
                assert(old_pool.owner@.contains_key(old_pool.lists@[h][i]));
            } else if i > p {
                assert(s2[i] == s[i - 1]);
                assert(old_pool.owner@.contains_key(old_pool.lists@[h][i - 1]));
            }
        } else {
            assert(old_pool.owner@.contains_key(old_pool.lists@[h2][i]));
        }
    }
    assert forall|n: usize| #[trigger] pool.owner@.contains_key(n) implies {
        &&& pool.lists@.contains_key(pool.owner@[n])
        &&& (n == pool.owner@[n] || pool.lists@[pool.owner@[n]].contains(n))
    } by {
        if n == node {
            assert(s2[p] == node);
        } else {
            assert(old_pool.owner@.contains_key(n));
            let o = old_pool.owner@[n];
            if n != o && o == h {
                let k = choose|k: int| 0 <= k < s.len() && s[k] == n;
                if k < p {
                    assert(s2[k] == n);
                } else {
                    assert(s2[k + 1] == n);
                }
            }
        }
    }
}

/// Link changes made by unlinking the node between `a` and `b`.
pub open spec fn unspliced(old_pool: NodePool, pool: NodePool, a: usize, b: usize) -> bool {
    &&& pool.len() == old_pool.len()
    &&& pool.next_of(a) == b
    &&& pool.prev_of(b) == a
    &&& forall|k: usize| k < pool.len() && k != a ==> #[trigger] pool.next_of(k) == old_pool.next_of(k)
    &&& forall|k: usize| k < pool.len() && k != b ==> #[trigger] pool.prev_of(k) == old_pool.prev_of(k)
}

/// After unlinking member `k`, its former list is consistent without it.
#[verifier::rlimit(100)]
proof fn lemma_remove_linked(old_pool: NodePool, pool: NodePool, h: usize, s: Seq<usize>, k: int)
    requires
        old_pool.linked(h, s),
        0 <= k < s.len(),
        unspliced(old_pool, pool, pred_in(h, s, k), succ_in(h, s, k)),
    ensures
        pool.linked(h, s.remove(k)),
{
    let s2 = s.remove(k);
    assert(s2.len() == s.len() - 1);
    assert forall|i: int| 0 <= i < s2.len() implies #[trigger] s2[i] == (if i < k { s[i] } else { s[i + 1] }) by {}
    assert forall|i: int| 0 <= i < s2.len() implies #[trigger] s2[i] < pool.len() && s2[i]
        != h by {
        if i >= k {
            assert(s2[i] == s[i + 1]);
        }
    }
    assert(s2.no_duplicates()) by {
        assert forall|i: int, j: int|
            0 <= i < s2.len() && 0 <= j < s2.len() && i != j implies s2[i] != s2[j] by {
            let a = if i < k { i } else { i + 1 };
            let b = if j < k { j } else { j + 1 };
            assert(s2[i] == s[a]);
            assert(s2[j] == s[b]);
        }
    }
    assert forall|i: int| 0 <= i < s2.len() implies pool.next_of(#[trigger] s2[i]) == succ_in(
        h,
        s2,
        i,
    ) by {
        if i < k - 1 {
            assert(s2[i] == s[i]);
            assert(s[i] != s[k - 1]);
            assert(old_pool.next_of(s[i]) == succ_in(h, s, i));
        } else if i == k - 1 {
            assert(s2[i] == s[i]);
            if i + 1 < s2.len() {
                assert(s2[i + 1] == s[k + 1]);
            }
        } else {
            assert(s2[i] == s[i + 1]);
            if k > 0 {
                assert(s[i + 1] != s[k - 1]);
            }
            assert(old_pool.next_of(s[i + 1]) == succ_in(h, s, i + 1));
            if i + 1 < s2.len() {
                assert(s2[i + 1] == s[i + 2]);
            }
        }
    }
    assert forall|i: int| 0 <= i < s2.len() implies pool.prev_of(#[trigger] s2[i]) == pred_in(
        h,
        s2,
        i,
    ) by {
        if i < k {
            assert(s2[i] == s[i]);
            if k + 1 < s.len() {
                assert(s[i] != s[k + 1]);
            }
            assert(old_pool.prev_of(s[i]) == pred_in(h, s, i));
            if i > 0 {
                assert(s2[i - 1] == s[i - 1]);
            }
        } else if i == k {
            assert(s2[i] == s[k + 1]);
            if k > 0 {
                assert(s2[i - 1] == s[k - 1]);
            }
        } else {
            assert(s2[i] == s[i + 1]);
            assert(s[i + 1] != s[k + 1]);
            assert(s2[i - 1] == s[i]);
            assert(old_pool.prev_of(s[i + 1]) == pred_in(h, s, i + 1));
        }
    }
    if s2.len() > 0 {
        if k > 0 {
            assert(s2[0] == s[0]);
        } else {
            assert(s2[0] == s[1]);
        }
        if k < s.len() - 1 {
            assert(s2.last() == s.last());
        } else {
            assert(s2.last() == s[k - 1]);
        }
    }
}

/// The rest of well-formedness after `remove_node`'s unlink.
#[verifier::rlimit(100)]
proof fn lemma_remove_wf(old_pool: NodePool, pool: NodePool, node: usize, a: usize, b: usize)
    requires
        old_pool.wf(),
        old_pool.is_member(node),
        ({
            let h = old_pool.owner@[node];
            let s = old_pool.lists@[h];
            let k = s.index_of(node);
            &&& 0 <= k < s.len()
            &&& s[k] == node
            &&& a == pred_in(h, s, k)
            &&& b == succ_in(h, s, k)
            &&& pool.linked(h, s.remove(k))
            &&& pool.lists@ == old_pool.lists@.insert(h, s.remove(k))
            &&& pool.owner@ == old_pool.owner@.remove(node)
        }),
        pool.len() == old_pool.len(),
        forall|j: usize| j < pool.len() && j != a && j != b ==> pool.nodes@[j as int]
            == old_pool.nodes@[j as int],
    ensures
        pool.wf(),
{
    let h = old_pool.owner@[node];
    let s = old_pool.lists@[h];
    let k = s.index_of(node);
    let s2 = s.remove(k);
    assert(old_pool.linked(h, s));
    assert(old_pool.owner@.contains_key(h));
    if k > 0 {
        assert(old_pool.owner@.contains_key(old_pool.lists@[h][k - 1]));
    }
    if k + 1 < s.len() {
        assert(old_pool.owner@.contains_key(old_pool.lists@[h][k + 1]));
    }
    assert forall|h2: usize| #[trigger] pool.lists@.contains_key(h2) implies pool.linked(
        h2,
        pool.lists@[h2],
    ) && pool.owner@.contains_key(h2) && pool.owner@[h2] == h2 by {
        if h2 != h {
            let t = pool.lists@[h2];
            assert(old_pool.linked(h2, t));
            assert(old_pool.owner@.contains_key(h2));
            assert forall|i: int| 0 <= i < t.len() implies pool.nodes@[#[trigger] t[i] as int]
                == old_pool.nodes@[t[i] as int] by {
                assert(old_pool.owner@.contains_key(old_pool.lists@[h2][i]));
            }
            lemma_untouched(old_pool, pool, h2, t);
        }
    }
    assert forall|h2: usize, i: int|
        pool.lists@.contains_key(h2) && 0 <= i < pool.lists@[h2].len() implies {
        &&& pool.owner@.contains_key(#[trigger] pool.lists@[h2][i])
        &&& pool.owner@[pool.lists@[h2][i]] == h2
    } by {
        if h2 == h {
            if i < k {
                assert(s2[i] == s[i]);
                assert(old_pool.owner@.contains_key(old_pool.lists@[h][i]));
            } else {
                assert(s2[i] == s[i + 1]);
                assert(old_pool.owner@.contains_key(old_pool.lists@[h][i + 1]));
            }
        } else {
            assert(old_pool.owner@.contains_key(old_pool.lists@[h2][i]));
        }
    }
    assert forall|n: usize| #[trigger] pool.owner@.contains_key(n) implies {
        &&& pool.lists@.contains_key(pool.owner@[n])
        &&& (n == pool.owner@[n] || pool.lists@[pool.owner@[n]].contains(n))
    } by {
        assert(old_pool.owner@.contains_key(n));
        let o = old_pool.owner@[n];
        if n != o && o == h {
            let j = choose|j: int| 0 <= j < s.len() && s[j] == n;
            if j < k {
                assert(s2[j] == n);
            } else {
                assert(s2[j - 1] == n);
            }
        }
    }
}

/// Unlinks `node` from the list it is on. Its own link fields are left as
/// they were.
pub fn remove_node(pool: &mut NodePool, node: usize)
    requires
        old(pool).wf(),
        old(pool).is_member(node),
    ensures
        final(pool).wf(),
        final(pool).len() == old(pool).len(),
        final(pool).nodes@[node as int] == old(pool).nodes@[node as int],
        ({
            let h = old(pool).owner@[node];
            let s = old(pool).lists@[h];
            &&& final(pool).lists@ == old(pool).lists@.insert(h, s.remove(s.index_of(node)))
            &&& final(pool).owner@ == old(pool).owner@.remove(node)
        }),
{
    let ghost h = pool.owner@[node];
    let ghost s = pool.lists@[h];
    let ghost k = s.index_of(node);
    proof {
        assert(pool.linked(h, s));
        assert(s.contains(node));
        assert(s[k] == node);
        assert(node < pool.len());
    }
    let ghost old_pool = *pool;
    let prv = pool.nodes[node].prev;
    let nxt = pool.nodes[node].next;
    let mut a = pool.nodes[prv];
    a.next = nxt;
    pool.nodes.set(prv, a);
    let mut b = pool.nodes[nxt];
    b.prev = prv;
    pool.nodes.set(nxt, b);
    proof {
        assert(prv != node && nxt != node) by {
            assert(s.no_duplicates());
        }
        assert(pool.nodes@.len() == old_pool.nodes@.len());
        assert forall|j: usize| j < pool.len() && j != prv implies #[trigger] pool.next_of(j)
            == old_pool.next_of(j) by {}
        assert forall|j: usize| j < pool.len() && j != nxt implies #[trigger] pool.prev_of(j)
            == old_pool.prev_of(j) by {}
        assert forall|j: usize| j < pool.len() && j != prv && j != nxt implies pool.nodes@[j as int]
            == old_pool.nodes@[j as int] by {}
        lemma_remove_linked(old_pool, *pool, h, s, k);
        pool.lists@ = pool.lists@.insert(h, s.remove(k));
        pool.owner@ = pool.owner@.remove(node);
        lemma_remove_wf(old_pool, *pool, node, prv, nxt);
    }
}

/// The node before `r` is on the same list, and a node put after it lands
/// just before `r`.
proof fn lemma_before(pool: NodePool, r: usize)
    requires
        pool.wf(),
        pool.owner@.contains_key(r),
    ensures
        ({
            let h = pool.owner@[r];
            let s = pool.lists@[h];
            let q = pool.prev_of(r);
            &&& pool.owner@.contains_key(q)
            &&& pool.owner@[q] == h
            &&& slot_after(h, s, q) == (if r == h { s.len() as int } else { s.index_of(r) })
        }),
{
    let h = pool.owner@[r];
    let s = pool.lists@[h];
    assert(pool.linked(h, s));
    if r == h {
        if s.len() > 0 {
            let l = s.len() - 1;
            assert(pool.owner@.contains_key(pool.lists@[h][l]));
            assert(s.contains(s[l]));
            assert(s[s.index_of(s[l])] == s[l]);
        }
    } else {
        assert(s.contains(r));
        let k = s.index_of(r);
        assert(s[k] == r);
        if k > 0 {
            assert(pool.owner@.contains_key(pool.lists@[h][k - 1]));
            assert(s.contains(s[k - 1]));
            assert(s[s.index_of(s[k - 1])] == s[k - 1]);
        }
    }
}

/// Links the free `node` in just before `ref_node`, which is a head or a
/// member of some list.
pub fn insert_node_before(pool: &mut NodePool, node: usize, ref_node: usize)
    requires
        old(pool).wf(),
        old(pool).is_free(node),
        old(pool).owner@.contains_key(ref_node),
    ensures
        final(pool).wf(),
        final(pool).len() == old(pool).len(),
        ({
            let h = old(pool).owner@[ref_node];
            let s = old(pool).lists@[h];
            let p = if ref_node == h { s.len() as int } else { s.index_of(ref_node) };
            &&& final(pool).lists@ == old(pool).lists@.insert(h, s.insert(p, node))
            &&& final(pool).owner@ == old(pool).owner@.insert(node, h)
        }),
{
    proof {
        lemma_before(*pool, ref_node);
        assert(pool.linked(pool.owner@[ref_node], pool.lists@[pool.owner@[ref_node]]));
    }
    let q = pool.nodes[ref_node].prev;
    insert_node_after(pool, node, q);
}

/// Links the free `node` in as the first member of the list of `head`.
pub fn insert_head(pool: &mut NodePool, head: usize, node: usize)
    requires
        old(pool).wf(),
        old(pool).is_head(head),
        old(pool).is_free(node),
    ensures
        final(pool).wf(),
        final(pool).len() == old(pool).len(),
        final(pool).lists@ == old(pool).lists@.insert(head, seq![node] + old(pool).list(head)),
        final(pool).owner@ == old(pool).owner@.insert(node, head),
{
    let ghost s = pool.lists@[head];
    insert_node_after(pool, node, head);
    proof {
        assert(s.insert(0, node) =~= seq![node] + s);
    }
}

/// Links the free `node` in as the last member of the list of `head`.
pub fn insert_tail(pool: &mut NodePool, head: usize, node: usize)
    requires
        old(pool).wf(),
        old(pool).is_head(head),
        old(pool).is_free(node),
    ensures
        final(pool).wf(),
        final(pool).len() == old(pool).len(),
        final(pool).lists@ == old(pool).lists@.insert(head, old(pool).list(head).push(node)),
        final(pool).owner@ == old(pool).owner@.insert(node, head),
{
    let ghost s = pool.lists@[head];
    insert_node_before(pool, node, head);
    proof {
        assert(s.insert(s.len() as int, node) =~= s.push(node));
    }
}

/// Unlinks and returns the first member of the non-empty list of `head`.
pub fn remove_head(pool: &mut NodePool, head: usize) -> (r: usize)
    requires
        old(pool).wf(),
        old(pool).is_head(head),
        old(pool).list(head).len() > 0,
    ensures
        final(pool).wf(),
        final(pool).len() == old(pool).len(),
        r == old(pool).list(head)[0],
        r < old(pool).len(),
        old(pool).owner@.contains_key(r),
        final(pool).lists@ == old(pool).lists@.insert(head, old(pool).list(head).drop_first()),
        final(pool).owner@ == old(pool).owner@.remove(r),
{
    let ghost s = pool.lists@[head];
    proof {
        assert(pool.linked(head, s));
        assert(pool.owner@.contains_key(pool.lists@[head][0]));
        assert(s.contains(s[0]));
        assert(s[s.index_of(s[0])] == s[0]);
    }
    let r = pool.nodes[head].next;
    remove_node(pool, r);
    proof {
        assert(s.remove(0) =~= s.drop_first());
    }
    r
}

/// Unlinks and returns the last member of the non-empty list of `head`.
pub fn remove_tail(pool: &mut NodePool, head: usize) -> (r: usize)
    requires
        old(pool).wf(),
        old(pool).is_head(head),
        old(pool).list(head).len() > 0,
    ensures
        final(pool).wf(),
        final(pool).len() == old(pool).len(),
        r == old(pool).list(head).last(),
        r < old(pool).len(),
        old(pool).owner@.contains_key(r),
        final(pool).lists@ == old(pool).lists@.insert(head, old(pool).list(head).drop_last()),
        final(pool).owner@ == old(pool).owner@.remove(r),
{
    let ghost s = pool.lists@[head];
    proof {
        let l = s.len() - 1;
        assert(pool.linked(head, s));
        assert(pool.owner@.contains_key(pool.lists@[head][l]));
        assert(s.contains(s[l]));
        assert(s[s.index_of(s[l])] == s[l]);
    }
    let r = pool.nodes[head].prev;
    remove_node(pool, r);
    proof {
        assert(s.remove(s.len() - 1) =~= s.drop_last());
    }
    r
}

/// Whether the list of `head` has no member.
pub fn is_empty(pool: &NodePool, head: usize) -> (r: bool)
    requires
        pool.wf(),
        pool.is_head(head),
    ensures
        r == (pool.list(head).len() == 0),
{
    proof {
        assert(pool.linked(head, pool.lists@[head]));
    }
    pool.nodes[head].next == head
}

/// Number of members of the list of `head`, counted by walking it.
pub fn get_size(pool: &NodePool, head: usize) -> (r: usize)
    requires
        pool.wf(),
        pool.is_head(head),
    ensures
        r == pool.list(head).len(),
{
    let ghost s = pool.lists@[head];
    let n = pool.nodes.len();
    proof {
        assert(pool.linked(head, s));
        lemma_distinct_below(s, n);
    }
    let mut size: usize = 0;
    let mut temp = pool.nodes[head].next;
    while temp != head
        invariant
            head < pool.len(),
            forall|i: int| 0 <= i < s.len() ==> #[trigger] s[i] < pool.len() && s[i] != head,
            forall|i: int|
                0 <= i < s.len() ==> pool.next_of(#[trigger] s[i]) == succ_in(head, s, i),
            s.len() <= n,
            size <= s.len(),
            temp == (if size < s.len() {
                s[size as int]
            } else {
                head
            }),
        decreases s.len() - size,
    {
        assert(size < s.len());
        assert(temp == s[size as int]);
        temp = pool.nodes[temp].next;
        size = size + 1;
    }
    proof {
        if size < s.len() {
            assert(s[size as int] != head);
        }
    }
    size
}

/// The node after `ref_node` on its list (the head after the last member).
pub fn get_next_node(pool: &NodePool, ref_node: usize) -> (r: usize)
    requires
        ref_node < pool.len(),
    ensures
        r == pool.next_of(ref_node),
{
    pool.nodes[ref_node].next
}

/// The node before `ref_node` on its list (the head before the first member).
pub fn get_prev_node(pool: &NodePool, ref_node: usize) -> (r: usize)
    requires
        ref_node < pool.len(),
    ensures
        r == pool.prev_of(ref_node),
{
    pool.nodes[ref_node].prev
}

/// On a well-formed pool, every node on a list is linked consistently both
/// ways: the node after the one before `n` is `n`, and the node before the
/// one after `n` is `n`. This holds after any sequence of the operations
/// above, since each of them keeps the pool well formed.
pub proof fn lemma_links_consistent(pool: NodePool, n: usize)
    requires
        pool.wf(),
        pool.owner@.contains_key(n),
    ensures
        pool.next_of(pool.prev_of(n)) == n,
        pool.prev_of(pool.next_of(n)) == n,
{
    let h = pool.owner@[n];
    let s = pool.lists@[h];
    assert(pool.linked(h, s));
    if n == h {
        if s.len() > 0 {
            assert(pool.next_of(s[s.len() - 1]) == succ_in(h, s, s.len() - 1));
            assert(pool.prev_of(s[0]) == pred_in(h, s, 0));
        }
    } else {
        assert(s.contains(n));
        let k = s.index_of(n);
        assert(s[k] == n);
        if k > 0 {
            assert(pool.next_of(s[k - 1]) == succ_in(h, s, k - 1));
        }
        if k + 1 < s.len() {
            assert(pool.prev_of(s[k + 1]) == pred_in(h, s, k + 1));
        }
    }
}

/// What a well-formed pool guarantees of one list: its members are
/// distinct nodes of the pool other than the head, each owned by the head,
/// and every node the head owns, other than itself, is a member.
pub proof fn lemma_list_members(pool: NodePool, head: usize)
    requires
        pool.wf(),
        pool.is_head(head),
    ensures
        head < pool.len(),
        pool.owner@.contains_key(head),
        pool.owner@[head] == head,
        pool.list(head).no_duplicates(),
        forall|i: int|
            0 <= i < pool.list(head).len() ==> {
                &&& #[trigger] pool.list(head)[i] < pool.len()
                &&& pool.list(head)[i] != head
                &&& pool.owner@.contains_key(pool.list(head)[i])
                &&& pool.owner@[pool.list(head)[i]] == head
            },
        forall|n: usize|
            #[trigger] pool.owner@.contains_key(n) && pool.owner@[n] == head && n != head
                ==> pool.list(head).contains(n),
{
    assert(pool.linked(head, pool.lists@[head]));
    assert forall|i: int| 0 <= i < pool.list(head).len() implies {
        &&& #[trigger] pool.list(head)[i] < pool.len()
        &&& pool.list(head)[i] != head
        &&& pool.owner@.contains_key(pool.list(head)[i])
        &&& pool.owner@[pool.list(head)[i]] == head
    } by {
        assert(pool.owner@.contains_key(pool.lists@[head][i]));
    }
}

/// A head links to itself exactly when its list has no member: the test
/// `is_empty` makes and the count `get_size` makes agree on every
/// well-formed pool.
pub proof fn lemma_empty_iff_no_members(pool: NodePool, head: usize)
    requires
        pool.wf(),
        pool.is_head(head),
    ensures
        (pool.next_of(head) == head) <==> pool.list(head).len() == 0,
        (pool.prev_of(head) == head) <==> pool.list(head).len() == 0,
{
    assert(pool.linked(head, pool.lists@[head]));
}

/// The members after inserting each of `xs`, in turn, at the tail.
pub open spec fn tail_inserts(s: Seq<usize>, xs: Seq<usize>) -> Seq<usize>
    decreases xs.len(),
{
    if xs.len() == 0 {
        s
    } else {
        tail_inserts(s.push(xs[0]), xs.drop_first())
    }
}

/// The members after inserting each of `xs`, in turn, at the head.
pub open spec fn head_inserts(s: Seq<usize>, xs: Seq<usize>) -> Seq<usize>
    decreases xs.len(),
{
    if xs.len() == 0 {
        s
    } else {
        head_inserts(seq![xs[0]] + s, xs.drop_first())
    }
}

/// The nodes that `n` head removals return, in the order they come.
pub open spec fn head_removals(s: Seq<usize>, n: nat) -> Seq<usize>
    decreases n,
{
    if n == 0 || s.len() == 0 {
        Seq::empty()
    } else {
        seq![s[0]] + head_removals(s.drop_first(), (n - 1) as nat)
    }
}

/// The members left after `n` head removals.
pub open spec fn after_head_removals(s: Seq<usize>, n: nat) -> Seq<usize>
    decreases n,
{
    if n == 0 || s.len() == 0 {
        s
    } else {
        after_head_removals(s.drop_first(), (n - 1) as nat)
    }
}

/// `xs` back to front.
pub open spec fn reversed(xs: Seq<usize>) -> Seq<usize>
    decreases xs.len(),
{
    if xs.len() == 0 {
        xs
    } else {
        reversed(xs.drop_first()).push(xs[0])
    }
}

proof fn lemma_tail_inserts(s: Seq<usize>, xs: Seq<usize>)
    ensures
        tail_inserts(s, xs) == s + xs,
    decreases xs.len(),
{
    if xs.len() > 0 {
        lemma_tail_inserts(s.push(xs[0]), xs.drop_first());
        assert(s.push(xs[0]) + xs.drop_first() =~= s + xs);
    } else {
        assert(s + xs =~= s);
    }
}

proof fn lemma_head_inserts(s: Seq<usize>, xs: Seq<usize>)
    ensures
        head_inserts(s, xs) == reversed(xs) + s,
    decreases xs.len(),
{
    if xs.len() > 0 {
        lemma_head_inserts(seq![xs[0]] + s, xs.drop_first());
        assert(reversed(xs.drop_first()) + (seq![xs[0]] + s) =~= reversed(xs.drop_first()).push(
            xs[0],
        ) + s);
    } else {
        assert(reversed(xs) + s =~= s);
    }
}

proof fn lemma_head_removals(s: Seq<usize>)
    ensures
        head_removals(s, s.len()) == s,
        after_head_removals(s, s.len()) == Seq::<usize>::empty(),
    decreases s.len(),
{
    if s.len() > 0 {
        lemma_head_removals(s.drop_first());
        assert(seq![s[0]] + s.drop_first() =~= s);
    } else {
        assert(s =~= Seq::<usize>::empty());
    }
}

/// Round trip, first in first out: inserting `xs` one by one at the tail of
/// an empty list, then removing as many nodes at the head, returns `xs` in
/// the order they went in and leaves the list empty.
pub proof fn lemma_round_trip_fifo(xs: Seq<usize>)
    ensures
        head_removals(tail_inserts(Seq::empty(), xs), xs.len()) == xs,
        after_head_removals(tail_inserts(Seq::empty(), xs), xs.len()) == Seq::<usize>::empty(),
{
    lemma_tail_inserts(Seq::empty(), xs);
    assert(Seq::<usize>::empty() + xs =~= xs);
    lemma_head_removals(xs);
}

/// Round trip, last in first out: inserting `xs` one by one at the head of
/// an empty list, then removing as many nodes at the head, returns `xs` in
/// reverse order and leaves the list empty.
pub proof fn lemma_round_trip_lifo(xs: Seq<usize>)
    ensures
        head_removals(head_inserts(Seq::empty(), xs), xs.len()) == reversed(xs),
        after_head_removals(head_inserts(Seq::empty(), xs), xs.len()) == Seq::<usize>::empty(),
{
    lemma_head_inserts(Seq::empty(), xs);
    assert(reversed(xs) + Seq::<usize>::empty() =~= reversed(xs));
    lemma_reversed_len(xs);
    lemma_head_removals(reversed(xs));
}

proof fn lemma_reversed_len(xs: Seq<usize>)
    ensures
        reversed(xs).len() == xs.len(),
    decreases xs.len(),
{
    if xs.len() > 0 {
        lemma_reversed_len(xs.drop_first());
    }
}

} // verus!
