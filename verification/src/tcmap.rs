use vstd::prelude::*;
use vstd::set_lib::*;

verus! {

/// Number of socket priorities that a traffic-class map covers.
pub const PRIORITIES: usize = 16;

/// The priority that stands for the best-effort class.
pub const BEST_EFFORT: i64 = -1;

/// Whether a value is one of the sixteen priorities.
pub open spec fn is_priority(p: i64) -> bool {
    0 <= p < PRIORITIES
}

/// The priorities that a configuration lists, each once, in the order in which
/// they are first seen.
pub open spec fn first_seen(listed: Seq<i64>) -> Seq<i64>
    decreases listed.len(),
{
    if listed.len() == 0 {
        Seq::empty()
    } else {
        seen_with(first_seen(listed.drop_last()), listed.last())
    }
}

/// The order of first sight once one more value is listed.
pub open spec fn seen_with(order: Seq<i64>, p: i64) -> Seq<i64> {
    if is_priority(p) && !order.contains(p) {
        order.push(p)
    } else {
        order
    }
}

/// The traffic class of a value: its place in the order of first sight, or the
/// class after all of them, the best-effort class, where it has none.
pub open spec fn class_of(order: Seq<i64>, p: i64, from: int) -> int
    decreases order.len() - from,
{
    if from < 0 || from >= order.len() {
        order.len() as int
    } else if order[from] == p {
        from
    } else {
        class_of(order, p, from + 1)
    }
}

/// The map from each of the sixteen priorities to its traffic class.
pub open spec fn tc_map_of(order: Seq<i64>) -> Seq<i64> {
    Seq::new(PRIORITIES as nat, |p: int| class_of(order, p as i64, 0) as i64)
}

/// The bitmask of a schedule entry: one bit for the class of each value that
/// the entry lists.
pub open spec fn mask_of(prios: Seq<i64>, order: Seq<i64>) -> u32
    decreases prios.len(),
{
    if prios.len() == 0 {
        0
    } else {
        mask_of(prios.drop_last(), order) | (1u32 << (class_of(order, prios.last(), 0) as u32))
    }
}

/// The order of first sight lists nothing twice and only priorities, and it
/// lists just the priorities that the configuration lists.
pub proof fn lemma_first_seen(listed: Seq<i64>)
    ensures
        first_seen(listed).no_duplicates(),
        forall|p: i64|
            #![trigger listed.contains(p)]
            #![trigger first_seen(listed).contains(p)]
            first_seen(listed).contains(p) <==> (is_priority(p) && listed.contains(p)),
    decreases listed.len(),
{
    if listed.len() == 0 {
        assert(first_seen(listed) =~= Seq::<i64>::empty());
        assert forall|p: i64| !first_seen(listed).contains(p) && !listed.contains(p) by {}
    } else {
        let rest = listed.drop_last();
        let last = listed.last();
        lemma_first_seen(rest);
        let r = first_seen(rest);
        let o = first_seen(listed);
        assert forall|p: i64|
            #![trigger listed.contains(p)]
            #![trigger o.contains(p)]
            o.contains(p) <==> (is_priority(p) && listed.contains(p)) by {
            if listed.contains(p) {
                let k = choose|k: int| 0 <= k < listed.len() && listed[k] == p;
                if k < rest.len() {
                    assert(rest[k] == p);
                    assert(rest.contains(p));
                }
            }
            if rest.contains(p) {
                let k = choose|k: int| 0 <= k < rest.len() && rest[k] == p;
                assert(listed[k] == p);
            }
            assert(listed[listed.len() - 1] == last);
            if o.contains(p) && !r.contains(p) {
                let k = choose|k: int| 0 <= k < o.len() && o[k] == p;
                assert(o == r.push(last));
                assert(k == r.len());
            }
            if r.contains(p) {
                let k = choose|k: int| 0 <= k < r.len() && r[k] == p;
                assert(o[k] == p);
            }
            if is_priority(last) && !r.contains(last) {
                assert(o[r.len() as int] == last);
            }
        }
    }
}

/// Sixteen priorities at most are listed once each.
pub proof fn lemma_first_seen_len(listed: Seq<i64>)
    ensures
        first_seen(listed).len() <= PRIORITIES,
        first_seen(listed).len() == Set::new(
            |p: i64| is_priority(p) && listed.contains(p),
        ).len(),
{
    lemma_first_seen(listed);
    let o = first_seen(listed);
    let s = Set::new(|p: i64| is_priority(p) && listed.contains(p));
    assert(o.to_set() =~= s) by {
        assert forall|p: i64| o.to_set().contains(p) <==> s.contains(p) by {
            assert(o.to_set().contains(p) == o.contains(p));
        }
    }
    o.unique_seq_to_set();
    let all = Set::new(|p: i64| is_priority(p));
    assert(s.subset_of(all));
    assert(all.finite() && all.len() == 16) by {
        lemma_priorities_count();
    }
    lemma_len_subset(s, all);
}

proof fn lemma_priorities_count()
    ensures
        Set::new(|p: i64| is_priority(p)).finite(),
        Set::new(|p: i64| is_priority(p)).len() == 16,
{
    let all = Set::new(|p: i64| is_priority(p));
    let listed = seq![
        0i64,
        1i64,
        2i64,
        3i64,
        4i64,
        5i64,
        6i64,
        7i64,
        8i64,
        9i64,
        10i64,
        11i64,
        12i64,
        13i64,
        14i64,
        15i64,
    ];
    assert(listed.no_duplicates());
    assert(listed.to_set() =~= all) by {
        assert forall|p: i64| all.contains(p) implies listed.to_set().contains(p) by {
            assert(listed[p as int] == p);
        }
    }
    listed.unique_seq_to_set();
}

/// The class of a value lies among the classes, and a listed priority has the
/// class of its place.
pub proof fn lemma_class_of(order: Seq<i64>, p: i64, from: int)
    requires
        0 <= from <= order.len(),
    ensures
        from <= class_of(order, p, from) <= order.len(),
        class_of(order, p, from) < order.len() ==> order[class_of(order, p, from)] == p,
        class_of(order, p, from) == order.len() ==> forall|k: int|
            from <= k < order.len() ==> order[k] != p,
    decreases order.len() - from,
{
    if from < order.len() && order[from] != p {
        lemma_class_of(order, p, from + 1);
    }
}

/// A traffic-class map is a total function on the sixteen priorities, and
/// each of its values is a class: there are no more values than classes.
pub proof fn lemma_tc_map_total(order: Seq<i64>)
    requires
        order.len() <= PRIORITIES,
    ensures
        tc_map_of(order).len() == PRIORITIES,
        forall|p: int|
            0 <= p < PRIORITIES ==> 0 <= (#[trigger] tc_map_of(order)[p]) < order.len() + 1,
        tc_map_of(order).to_set().finite(),
        tc_map_of(order).to_set().len() <= order.len() + 1,
{
    let m = tc_map_of(order);
    assert forall|p: int| 0 <= p < PRIORITIES implies 0 <= (#[trigger] m[p]) < order.len()
        + 1 by {
        lemma_class_of(order, p as i64, 0);
    }
    let classes = Set::new(|c: i64| 0 <= c < order.len() + 1);
    let listed = Seq::new((order.len() + 1) as nat, |i: int| i as i64);
    assert(listed.no_duplicates());
    assert(listed.to_set() =~= classes) by {
        assert forall|c: i64| classes.contains(c) implies listed.to_set().contains(c) by {
            assert(listed[c as int] == c);
        }
    }
    listed.unique_seq_to_set();
    assert(m.to_set().subset_of(classes)) by {
        assert forall|c: i64| m.to_set().contains(c) implies classes.contains(c) by {
            let k = choose|k: int| 0 <= k < m.len() && m[k] == c;
            assert(0 <= m[k] < order.len() + 1);
        }
    }
    lemma_len_subset(m.to_set(), classes);
}

/// Lists one more value in the order of first sight.
pub fn see(order: &mut Vec<i64>, p: i64)
    ensures
        final(order)@ == seen_with(old(order)@, p),
{
    if p < 0 || p >= PRIORITIES as i64 {
        return ;
    }
    let n: usize = order.len();
    let mut i: usize = 0;
    while i < n
        invariant
            i <= n,
            n == order@.len(),
            order@ == old(order)@,
            forall|k: int| 0 <= k < i ==> order@[k] != p,
        decreases n - i,
    {
        if order[i] == p {
            assert(order@.contains(p));
            return ;
        }
        i = i + 1;
    }
    assert(!order@.contains(p));
    order.push(p);
}

/// The traffic class of a value.
pub fn class_index(order: &Vec<i64>, p: i64) -> (c: usize)
    ensures
        c == class_of(order@, p, 0),
        c <= order@.len(),
{
    let n: usize = order.len();
    let mut i: usize = 0;
    while i < n
        invariant
            i <= n,
            n == order@.len(),
            class_of(order@, p, 0) == class_of(order@, p, i as int),
        decreases n - i,
    {
        if order[i] == p {
            return i;
        }
        i = i + 1;
    }
    n
}

/// Builds the map from each of the sixteen priorities to its traffic class.
pub fn dense_map(order: &Vec<i64>) -> (map: Vec<i64>)
    requires
        order@.len() <= PRIORITIES,
    ensures
        map@ == tc_map_of(order@),
{
    let mut map: Vec<i64> = Vec::new();
    let mut p: usize = 0;
    while p < PRIORITIES
        invariant
            p <= PRIORITIES,
            order@.len() <= PRIORITIES,
            map@.len() == p,
            forall|k: int| 0 <= k < p ==> map@[k] == tc_map_of(order@)[k],
        decreases PRIORITIES - p,
    {
        let c: usize = class_index(order, p as i64);
        map.push(c as i64);
        p = p + 1;
    }
    assert(map@ =~= tc_map_of(order@));
    map
}

/// Builds the bitmask of a schedule entry.
pub fn gate_mask(prios: &Vec<i64>, order: &Vec<i64>) -> (mask: u32)
    requires
        order@.len() <= PRIORITIES,
    ensures
        mask == mask_of(prios@, order@),
{
    let n: usize = prios.len();
    let mut mask: u32 = 0;
    let mut i: usize = 0;
    while i < n
        invariant
            i <= n,
            n == prios@.len(),
            order@.len() <= PRIORITIES,
            mask == mask_of(prios@.take(i as int), order@),
        decreases n - i,
    {
        let c: u32 = class_index(order, prios[i]) as u32;
        assert(prios@.take(i + 1).drop_last() =~= prios@.take(i as int));
        mask = mask | (1u32 << c);
        i = i + 1;
    }
    assert(prios@.take(n as int) =~= prios@);
    mask
}

} // verus!
