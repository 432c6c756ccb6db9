//! What the selection becomes after undo or redo.

use vstd::prelude::*;

verus! {

/// The key of an item on the board: a slot and the generation of that slot.
#[derive(Debug, Clone, Copy, PartialEq, Eq, Hash, Structural)]
pub struct ItemId {
    pub index: u32,
    pub generation: u32,
}

impl ItemId {
    /// The key of slot `index` in its `generation`.
    pub fn from_parts(index: u32, generation: u32) -> (id: Self)
        ensures
            id == (ItemId { index, generation }),
    {
        ItemId { index, generation }
    }
}

/// The elements of `s` whose flag in `keep` is set, in their order.
pub open spec fn kept<A>(s: Seq<A>, keep: Seq<bool>) -> Seq<A>
    decreases s.len(),
{
    if s.len() == 0 {
        Seq::empty()
    } else if keep[s.len() - 1] {
        kept(s.drop_last(), keep).push(s.last())
    } else {
        kept(s.drop_last(), keep)
    }
}

/// The selection after an undo or redo of a command that reports the items
/// it touched: `None` (leave the selection alone) when it touched none;
/// otherwise the touched items that are still alive, which is empty when
/// all of them went away.
///
/// The emptiness is judged before the filter: "touched nothing" and
/// "touched only items that are gone now" are different cases.
pub fn selection_after_history<F: Fn(ItemId) -> bool>(affected: &[ItemId], alive: F) -> (r: Option<
    Vec<ItemId>,
>)
    requires
        forall|i: int| 0 <= i < affected@.len() ==> call_requires(alive, (affected@[i],)),
    ensures
        r is None <==> affected@.len() == 0,
        r matches Some(v) ==> exists|keep: Seq<bool>|
            {
                &&& keep.len() == affected@.len()
                &&& forall|i: int|
                    0 <= i < affected@.len() ==> call_ensures(alive, (affected@[i],), #[trigger] keep[i])
                &&& v@ == kept(affected@, keep)
            },
{
    if affected.len() == 0 {
        return None;
    }
    let mut out: Vec<ItemId> = Vec::new();
    let ghost mut keep: Seq<bool> = Seq::empty();
    let mut i: usize = 0;
    while i < affected.len()
        invariant
            i <= affected@.len(),
            keep.len() == i,
            forall|k: int| 0 <= k < affected@.len() ==> call_requires(alive, (affected@[k],)),
            forall|k: int| 0 <= k < i ==> call_ensures(alive, (affected@[k],), #[trigger] keep[k]),
            out@ == kept(affected@.take(i as int), keep),
        decreases affected@.len() - i,
    {
        let id = affected[i];
        let live = alive(id);
        proof {
            assert(affected@.take(i + 1) == affected@.take(i as int).push(id));
            lemma_kept_extend(affected@.take(i as int), keep, live);
        }
        if live {
            out.push(id);
        }
        proof {
            keep = keep.push(live);
        }
        i = i + 1;
    }
    proof {
        assert(affected@.take(affected@.len() as int) == affected@);
    }
    Some(out)
}

/// `kept` only reads the flags of the elements it is given.
pub proof fn lemma_kept_frame<A>(s: Seq<A>, keep: Seq<bool>, more: Seq<bool>)
    requires
        keep.len() >= s.len(),
        more.len() >= s.len(),
        forall|i: int| 0 <= i < s.len() ==> keep[i] == more[i],
    ensures
        kept(s, keep) == kept(s, more),
    decreases s.len(),
{
    if s.len() > 0 {
        lemma_kept_frame(s.drop_last(), keep, more);
    }
}

/// Keeping one more element extends the result by it when its flag is set.
pub proof fn lemma_kept_extend<A>(s: Seq<A>, keep: Seq<bool>, b: bool)
    requires
        keep.len() == s.len(),
    ensures
        forall|a: A| kept(#[trigger] s.push(a), keep.push(b)) == if b {
            kept(s, keep).push(a)
        } else {
            kept(s, keep)
        },
{
    assert forall|a: A| kept(#[trigger] s.push(a), keep.push(b)) == if b {
        kept(s, keep).push(a)
    } else {
        kept(s, keep)
    } by {
        assert(s.push(a).drop_last() == s);
        lemma_kept_frame(s, keep, keep.push(b));
    }
}

/// Whether `id` occurs in `v`.
fn contains_id(v: &Vec<ItemId>, id: ItemId) -> (r: bool)
    ensures
        r == v@.contains(id),
{
    let mut i: usize = 0;
    while i < v.len()
        invariant
            i <= v@.len(),
            forall|k: int| 0 <= k < i ==> v@[k] != id,
        decreases v@.len() - i,
    {
        if v[i] == id {
            assert(v@[i as int] == id);
            return true;
        }
        i = i + 1;
    }
    false
}

/// For each element of `s`, whether it is not among `t`.
pub open spec fn outside(s: Seq<ItemId>, t: Seq<ItemId>) -> Seq<bool> {
    Seq::new(s.len(), |i: int| !t.contains(s[i]))
}

/// Keeps the elements of `s` whose flag in `decide` is set, in order.
fn keep_flagged(s: &Vec<ItemId>, decide: &Vec<bool>) -> (out: Vec<ItemId>)
    requires
        decide@.len() == s@.len(),
    ensures
        out@ == kept(s@, decide@),
{
    let mut out: Vec<ItemId> = Vec::new();
    let mut i: usize = 0;
    while i < s.len()
        invariant
            i <= s@.len(),
            decide@.len() == s@.len(),
            out@ == kept(s@.take(i as int), decide@.take(i as int)),
        decreases s@.len() - i,
    {
        let id = s[i];
        let keep = decide[i];
        proof {
            assert(s@.take(i + 1) == s@.take(i as int).push(id));
            assert(decide@.take(i + 1) == decide@.take(i as int).push(keep));
            lemma_kept_extend(s@.take(i as int), decide@.take(i as int), keep);
        }
        if keep {
            out.push(id);
        }
        i = i + 1;
    }
    proof {
        assert(s@.take(s@.len() as int) == s@);
        assert(decide@.take(s@.len() as int) == decide@);
    }
    out
}

/// What deleting the selection removes and what stays selected.
#[derive(Debug, Clone, PartialEq, Eq)]
pub struct DeletePlan {
    /// The selected items that are removed, in selection order.
    pub targets: Vec<ItemId>,
    /// The selected items that stay selected (the locked ones), in order.
    pub survivors: Vec<ItemId>,
}

/// Plans the deletion of the selection. `deletable[i]` says whether the
/// `i`-th selected item is still on the board and not locked. Only those
/// are removed (an empty `targets` means "nothing to delete"); the others
/// stay selected.
pub fn plan_delete(selection: &Vec<ItemId>, deletable: &Vec<bool>) -> (plan: DeletePlan)
    requires
        deletable@.len() == selection@.len(),
    ensures
        plan.targets@ == kept(selection@, deletable@),
        plan.survivors@ == kept(selection@, outside(selection@, plan.targets@)),
{
    let targets = keep_flagged(selection, deletable);
    let mut stays: Vec<bool> = Vec::new();
    let mut i: usize = 0;
    while i < selection.len()
        invariant
            i <= selection@.len(),
            stays@ == outside(selection@, targets@).take(i as int),
        decreases selection@.len() - i,
    {
        let inside = contains_id(&targets, selection[i]);
        stays.push(!inside);
        proof {
            assert(stays@ == outside(selection@, targets@).take(i + 1));
        }
        i = i + 1;
    }
    proof {
        assert(stays@ == outside(selection@, targets@));
    }
    let survivors = keep_flagged(selection, &stays);
    DeletePlan { targets, survivors }
}

/// Deleting never touches a locked item or one that is gone: every target
/// was selected and deletable, and every selected item is either a target or
/// stays selected, never both.
pub proof fn law_delete_splits_the_selection(selection: Seq<ItemId>, deletable: Seq<bool>, i: int)
    requires
        deletable.len() == selection.len(),
        0 <= i < selection.len(),
    ensures
        deletable[i] ==> kept(selection, deletable).contains(selection[i]),
        kept(selection, deletable).contains(selection[i]) ==> !kept(
            selection,
            outside(selection, kept(selection, deletable)),
        ).contains(selection[i]),
        !kept(selection, deletable).contains(selection[i]) ==> kept(
            selection,
            outside(selection, kept(selection, deletable)),
        ).contains(selection[i]),
{
    let t = kept(selection, deletable);
    let o = outside(selection, t);
    lemma_kept_has(selection, deletable, i);
    lemma_kept_has(selection, o, i);
    lemma_kept_only(selection, o, selection[i]);
}

/// An element whose flag is set is kept.
pub proof fn lemma_kept_has<A>(s: Seq<A>, keep: Seq<bool>, i: int)
    requires
        keep.len() >= s.len(),
        0 <= i < s.len(),
    ensures
        keep[i] ==> kept(s, keep).contains(s[i]),
    decreases s.len(),
{
    if i < s.len() - 1 {
        lemma_kept_has(s.drop_last(), keep, i);
        if keep[i] {
            let w = choose|j: int|
                0 <= j < kept(s.drop_last(), keep).len() && kept(s.drop_last(), keep)[j] == s[i];
            if keep[s.len() - 1] {
                assert(kept(s, keep)[w] == s[i]);
            }
        }
    } else if keep[i] {
        assert(kept(s, keep)[kept(s, keep).len() - 1] == s[i]);
    }
}

/// Everything kept has its flag set somewhere it occurs.
pub proof fn lemma_kept_only<A>(s: Seq<A>, keep: Seq<bool>, a: A)
    requires
        keep.len() >= s.len(),
    ensures
        kept(s, keep).contains(a) ==> exists|j: int| 0 <= j < s.len() && s[j] == a && keep[j],
    decreases s.len(),
{
    if s.len() > 0 {
        lemma_kept_only(s.drop_last(), keep, a);
        if kept(s, keep).contains(a) {
            let w = choose|j: int| 0 <= j < kept(s, keep).len() && kept(s, keep)[j] == a;
            if keep[s.len() - 1] && w == kept(s, keep).len() - 1 {
                assert(s[s.len() - 1] == a);
            } else {
                assert(kept(s.drop_last(), keep)[w] == a);
                let j = choose|j: int|
                    0 <= j < s.drop_last().len() && s.drop_last()[j] == a && keep[j];
                assert(s[j] == a);
            }
        }
    }
}

/// The key of a group on the board.
#[derive(Debug, Clone, Copy, PartialEq, Eq, Hash, Structural)]
pub struct GroupId {
    pub index: u32,
    pub generation: u32,
}

/// What the group panel shows for the selection.
#[derive(Debug, Clone, Copy, PartialEq, Eq, Structural)]
pub enum GroupPick {
    /// Nothing on the board is selected: no panel.
    Nothing,
    /// The selection spans more than one group (or groups and loose items).
    Mixed,
    /// Everything selected is in no group.
    Loose,
    /// Everything selected is in this group.
    One(GroupId),
}

/// The groups of the selected items that are still on the board, in order.
pub open spec fn present_groups(s: Seq<Option<Option<GroupId>>>) -> Seq<Option<GroupId>>
    decreases s.len(),
{
    if s.len() == 0 {
        Seq::empty()
    } else {
        let before = present_groups(s.drop_last());
        match s.last() {
            Some(g) => before.push(g),
            None => before,
        }
    }
}

/// The panel for groups `p` of the selected items: none when nothing is
/// selected, mixed when two differ, else the one group they share or loose.
pub open spec fn group_pick_spec(p: Seq<Option<GroupId>>) -> GroupPick {
    if p.len() == 0 {
        GroupPick::Nothing
    } else if exists|j: int| 0 <= j < p.len() && #[trigger] p[j] != p[0] {
        GroupPick::Mixed
    } else {
        match p[0] {
            None => GroupPick::Loose,
            Some(g) => GroupPick::One(g),
        }
    }
}

fn same_group(a: Option<GroupId>, b: Option<GroupId>) -> (r: bool)
    ensures
        r == (a == b),
{
    match (a, b) {
        (None, None) => true,
        (Some(x), Some(y)) => x == y,
        _ => false,
    }
}

/// What the group panel shows. `groups[i]` is the group of the `i`-th
/// selected item (`Some(None)` for an item in no group), or `None` when
/// that item is no longer on the board; such items are passed over. The
/// application shows a group that no longer exists as loose.
pub fn selection_group(groups: &Vec<Option<Option<GroupId>>>) -> (r: GroupPick)
    ensures
        r == group_pick_spec(present_groups(groups@)),
{
    let mut seen: Option<Option<GroupId>> = None;
    let mut mixed = false;
    let mut i: usize = 0;
    while i < groups.len()
        invariant
            i <= groups@.len(),
            ({
                let p = present_groups(groups@.take(i as int));
                &&& (seen is None <==> p.len() == 0)
                &&& (p.len() > 0 ==> seen == Some(p[0]))
                &&& (mixed <==> exists|j: int| 0 <= j < p.len() && #[trigger] p[j] != p[0])
            }),
        decreases groups@.len() - i,
    {
        let ghost p = present_groups(groups@.take(i as int));
        proof {
            assert(groups@.take(i + 1).drop_last() == groups@.take(i as int));
        }
        match groups[i] {
            None => {},
            Some(g) => {
                let ghost q = p.push(g);
                let ghost was_mixed = mixed;
                proof {
                    assert(present_groups(groups@.take(i + 1)) == q);
                }
                match seen {
                    None => {
                        seen = Some(g);
                        proof {
                            assert(q.len() == 1);
                            assert(!(exists|j: int| 0 <= j < q.len() && #[trigger] q[j] != q[0]));
                        }
                    },
                    Some(first) => {
                        let differs = !same_group(first, g);
                        if differs {
                            mixed = true;
                        }
                        proof {
                            assert(q[0] == p[0]);
                            if differs {
                                assert(q[q.len() - 1] != q[0]);
                            } else if was_mixed {
                                let j = choose|j: int| 0 <= j < p.len() && #[trigger] p[j] != p[0];
                                assert(q[j] != q[0]);
                            } else {
                                assert forall|j: int| 0 <= j < q.len() implies #[trigger] q[j] == q[0] by {
                                    if j < p.len() {
                                        assert(q[j] == p[j]);
                                    }
                                }
                            }
                        }
                    },
                }
            },
        }
        i = i + 1;
    }
    proof {
        assert(groups@.take(groups@.len() as int) == groups@);
    }
    if mixed {
        GroupPick::Mixed
    } else {
        match seen {
            None => GroupPick::Nothing,
            Some(None) => GroupPick::Loose,
            Some(Some(g)) => GroupPick::One(g),
        }
    }
}

} // verus!
