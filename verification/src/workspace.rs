//! The order in which a user's workspaces are listed: oldest first, and
//! workspaces created in the same millisecond in the order the database
//! returned them.
use crate::model::Workspace;
use vstd::prelude::*;
use vstd::seq_lib::group_filter_ensures;

verus! {

/// Every workspace of `ws` is created no later than every one after it.
pub open spec fn sorted_by_creation(ws: Seq<Workspace>) -> bool {
    forall|i: int, j: int| 0 <= i <= j < ws.len() ==> ws[i].created_at_ms <= ws[j].created_at_ms
}

/// The workspaces of `ws` created at `at`, in the order of `ws`.
pub open spec fn created_at(ws: Seq<Workspace>, at: i64) -> Seq<Workspace> {
    ws.filter(|w: Workspace| w.created_at_ms == at)
}

/// `sorted` holds the workspaces of `ws` by creation time, and those created
/// at the same time in their order in `ws`.
pub open spec fn stable_order_of(sorted: Seq<Workspace>, ws: Seq<Workspace>) -> bool {
    &&& sorted_by_creation(sorted)
    &&& forall|at: i64| #[trigger] created_at(sorted, at) == created_at(ws, at)
}

/// Inserting `w` after every workspace created no later than it, into a
/// sequence sorted by creation, extends only the group of `w`'s time.
proof fn lemma_insert_in_place(s: Seq<Workspace>, pos: int, w: Workspace, at: i64)
    requires
        sorted_by_creation(s),
        0 <= pos <= s.len(),
        forall|i: int| 0 <= i < pos ==> s[i].created_at_ms <= w.created_at_ms,
        forall|i: int| pos <= i < s.len() ==> s[i].created_at_ms > w.created_at_ms,
    ensures
        sorted_by_creation(s.insert(pos, w)),
        created_at(s.insert(pos, w), at) == (if w.created_at_ms == at {
            created_at(s, at).push(w)
        } else {
            created_at(s, at)
        }),
{
    broadcast use group_filter_ensures;

    let pred = |x: Workspace| x.created_at_ms == at;
    let head = s.subrange(0, pos);
    let tail = s.subrange(pos, s.len() as int);
    assert(s.insert(pos, w) =~= head.push(w) + tail);
    assert(s =~= head + tail);
    Seq::filter_distributes_over_add(head.push(w), tail, pred);
    Seq::filter_distributes_over_add(head, tail, pred);
    head.lemma_filter_push(w, pred);
    if w.created_at_ms == at {
        assert forall|i: int| 0 <= i < tail.len() implies !pred(tail[i]) by {
            assert(tail[i] == s[pos + i]);
        }
        lemma_filter_none(tail, pred);
        assert(head.filter(pred) + tail.filter(pred) =~= head.filter(pred));
        assert(head.filter(pred).push(w) + tail.filter(pred) =~= head.filter(pred).push(w));
    }
}

/// A filter that no element passes leaves nothing.
proof fn lemma_filter_none(s: Seq<Workspace>, pred: spec_fn(Workspace) -> bool)
    requires
        forall|i: int| 0 <= i < s.len() ==> !pred(s[i]),
    ensures
        s.filter(pred) =~= Seq::<Workspace>::empty(),
    decreases s.len(),
{
    reveal(Seq::filter);
    if s.len() > 0 {
        lemma_filter_none(s.drop_last(), pred);
    }
}

/// Orders workspaces by creation time, oldest first; workspaces created at
/// the same time keep their relative order.
pub fn sort_by_creation(workspaces: Vec<Workspace>) -> (sorted: Vec<Workspace>)
    ensures
        stable_order_of(sorted@, workspaces@),
{
    let ghost input = workspaces@;
    let mut rest = workspaces;
    let mut sorted: Vec<Workspace> = Vec::new();
    let n = rest.len();
    let mut done: usize = 0;
    while done < n
        invariant
            done <= n,
            n == input.len(),
            rest@ == input.skip(done as int),
            sorted_by_creation(sorted@),
            forall|at: i64| #[trigger] created_at(sorted@, at) == created_at(input.take(done as int), at),
        decreases n - done,
    {
        let w = rest.remove(0);
        assert(w == input[done as int]);
        let mut pos: usize = 0;
        while pos < sorted.len() && sorted[pos].created_at_ms <= w.created_at_ms
            invariant
                pos <= sorted.len(),
                sorted_by_creation(sorted@),
                forall|i: int| 0 <= i < pos ==> sorted@[i].created_at_ms <= w.created_at_ms,
            decreases sorted.len() - pos,
        {
            pos = pos + 1;
        }
        let ghost before = sorted@;
        proof {
            assert forall|i: int| pos <= i < before.len() implies before[i].created_at_ms > w.created_at_ms by {
                assert(before[pos as int].created_at_ms > w.created_at_ms);
            }
            assert(input.take(done + 1) =~= input.take(done as int).push(w));
            assert forall|at: i64| #[trigger] created_at(before.insert(pos as int, w), at) == created_at(input.take(done + 1), at) by {
                lemma_insert_in_place(before, pos as int, w, at);
                input.take(done as int).lemma_filter_push(w, |x: Workspace| x.created_at_ms == at);
            }
            lemma_insert_in_place(before, pos as int, w, 0);
        }
        sorted.insert(pos, w);
        assert(rest@ =~= input.skip(done + 1));
        done = done + 1;
    }
    assert(input.take(n as int) =~= input);
    sorted
}

/// Ordering workspaces by creation time is deterministic: two sequences that
/// both hold the workspaces of `ws` oldest first, with ties in the order of
/// `ws`, are the same sequence.  In particular, sorting an already sorted list
/// gives it back unchanged.
pub proof fn lemma_stable_order_is_unique(a: Seq<Workspace>, b: Seq<Workspace>, ws: Seq<Workspace>)
    requires
        stable_order_of(a, ws),
        stable_order_of(b, ws),
    ensures
        a == b,
{
    lemma_same_groups_same_sequence(a, b);
}

/// A sequence already in creation order is its own stable order.
pub proof fn lemma_sorted_is_own_order(ws: Seq<Workspace>)
    requires
        sorted_by_creation(ws),
    ensures
        stable_order_of(ws, ws),
{
}

/// Ordering by creation time neither loses nor adds a workspace: the sorted
/// list holds exactly the workspaces of the input, each as often.
pub proof fn lemma_stable_order_is_permutation(sorted: Seq<Workspace>, ws: Seq<Workspace>)
    requires
        stable_order_of(sorted, ws),
    ensures
        sorted.to_multiset() == ws.to_multiset(),
        sorted.len() == ws.len(),
{
    broadcast use vstd::seq_lib::group_to_multiset_ensures;

    assert forall|x: Workspace| sorted.to_multiset().count(x) == ws.to_multiset().count(x) by {
        lemma_count_within_group(sorted, x);
        lemma_count_within_group(ws, x);
        assert(created_at(sorted, x.created_at_ms) == created_at(ws, x.created_at_ms));
    }
    assert(sorted.to_multiset() =~= ws.to_multiset());
    vstd::seq_lib::to_multiset_len(sorted);
    vstd::seq_lib::to_multiset_len(ws);
}

/// A workspace occurs in `s` as often as in the group of its creation time.
proof fn lemma_count_within_group(s: Seq<Workspace>, x: Workspace)
    ensures
        s.to_multiset().count(x) == created_at(s, x.created_at_ms).to_multiset().count(x),
    decreases s.len(),
{
    broadcast use vstd::seq_lib::group_to_multiset_ensures;
    broadcast use vstd::multiset::group_multiset_axioms;

    let at = x.created_at_ms;
    if s.len() == 0 {
        reveal(Seq::filter);
        assert(created_at(s, at) =~= s);
    } else {
        let init = s.drop_last();
        lemma_count_within_group(init, x);
        assert(s =~= init.push(s.last()));
        init.lemma_filter_push(s.last(), |w: Workspace| w.created_at_ms == at);
    }
}

/// Two sequences in creation order with the same group at every creation
/// time are equal.
proof fn lemma_same_groups_same_sequence(a: Seq<Workspace>, b: Seq<Workspace>)
    requires
        sorted_by_creation(a),
        sorted_by_creation(b),
        forall|at: i64| #[trigger] created_at(a, at) == created_at(b, at),
    ensures
        a == b,
    decreases a.len() + b.len(),
{
    if a.len() == 0 && b.len() == 0 {
        assert(a =~= b);
    } else if a.len() == 0 {
        lemma_last_in_group(b);
        lemma_group_members_belong(a, b.last().created_at_ms, b.last());
    } else if b.len() == 0 {
        lemma_last_in_group(a);
        lemma_group_members_belong(b, a.last().created_at_ms, a.last());
    } else {
        let ka = a.last().created_at_ms;
        let kb = b.last().created_at_ms;
        lemma_last_in_group(a);
        lemma_last_in_group(b);
        lemma_group_members_belong(b, ka, a.last());
        lemma_group_members_belong(a, kb, b.last());
        lemma_member_not_after_last(b, a.last());
        lemma_member_not_after_last(a, b.last());
        assert(ka == kb);
        let a0 = a.drop_last();
        let b0 = b.drop_last();
        assert forall|at: i64| #[trigger] created_at(a0, at) == created_at(b0, at) by {
            assert(a =~= a0.push(a.last()));
            assert(b =~= b0.push(b.last()));
            a0.lemma_filter_push(a.last(), |w: Workspace| w.created_at_ms == at);
            b0.lemma_filter_push(b.last(), |w: Workspace| w.created_at_ms == at);
            if at == ka {
                assert(created_at(a0, at) == created_at(a, at).drop_last());
                assert(created_at(b0, at) == created_at(b, at).drop_last());
            }
        }
        a0.lemma_filter_push(a.last(), |w: Workspace| w.created_at_ms == ka);
        b0.lemma_filter_push(b.last(), |w: Workspace| w.created_at_ms == ka);
        assert(a =~= a0.push(a.last()));
        assert(b =~= b0.push(b.last()));
        assert(a.last() == created_at(a, ka).last());
        assert(b.last() == created_at(b, ka).last());
        lemma_same_groups_same_sequence(a0, b0);
    }
}

/// The last workspace of a non-empty sequence is the last of its group.
proof fn lemma_last_in_group(s: Seq<Workspace>)
    requires
        s.len() > 0,
    ensures
        created_at(s, s.last().created_at_ms).contains(s.last()),
        created_at(s, s.last().created_at_ms).last() == s.last(),
        created_at(s, s.last().created_at_ms).len() > 0,
{
    let at = s.last().created_at_ms;
    assert(s =~= s.drop_last().push(s.last()));
    s.drop_last().lemma_filter_push(s.last(), |w: Workspace| w.created_at_ms == at);
    assert(created_at(s, at)[created_at(s, at).len() - 1] == s.last());
}

/// A member of a group of `s`, shared with another sequence, is in `s`.
proof fn lemma_group_members_belong(s: Seq<Workspace>, at: i64, x: Workspace)
    requires
        exists|other: Seq<Workspace>| created_at(other, at).contains(x) && #[trigger] created_at(other, at) == created_at(s, at),
    ensures
        s.contains(x),
{
    s.lemma_filter_contains_rev(|w: Workspace| w.created_at_ms == at, x);
}

/// No workspace of a sequence in creation order is newer than its last.
proof fn lemma_member_not_after_last(s: Seq<Workspace>, x: Workspace)
    requires
        sorted_by_creation(s),
        s.contains(x),
    ensures
        x.created_at_ms <= s.last().created_at_ms,
{
    let i = choose|i: int| 0 <= i < s.len() && s[i] == x;
    assert(s[i].created_at_ms <= s[s.len() - 1].created_at_ms);
}

/// What the order of `sort_by_creation` means, element by element: a
/// workspace never comes before one created earlier, and for every creation
/// time the workspaces created then come in the same order as in the input.
pub proof fn lemma_stable_order_means(sorted: Seq<Workspace>, ws: Seq<Workspace>)
    requires
        stable_order_of(sorted, ws),
    ensures
        forall|i: int, j: int| 0 <= i < j < sorted.len() ==> sorted[i].created_at_ms <= sorted[j].created_at_ms,
        forall|at: i64| #[trigger] created_at(sorted, at) == created_at(ws, at),
{
}

/// What the group of a creation time is: empty for no workspaces, and
/// appending a workspace extends the group of its own time by it and leaves
/// every other group as it was; every member has that creation time.
pub proof fn lemma_created_at_means(ws: Seq<Workspace>, w: Workspace, at: i64)
    ensures
        created_at(Seq::<Workspace>::empty(), at) == Seq::<Workspace>::empty(),
        created_at(ws.push(w), at) == (if w.created_at_ms == at {
            created_at(ws, at).push(w)
        } else {
            created_at(ws, at)
        }),
        forall|i: int| 0 <= i < created_at(ws, at).len() ==> (#[trigger] created_at(ws, at)[i]).created_at_ms == at,
{
    broadcast use group_filter_ensures;

    reveal(Seq::filter);
    ws.lemma_filter_push(w, |x: Workspace| x.created_at_ms == at);
}

} // verus!
