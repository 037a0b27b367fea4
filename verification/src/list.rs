use vstd::prelude::*;

verus! {

/// What a visitor hands back for a node of a list: one node that takes its
/// place, or any number of nodes (none at all removes it).
pub enum ValueOrVec<V> {
    Value(V),
    Vec(Vec<V>),
}

/// The nodes that stand in a list where `current` stood, once a visitor
/// answered `result` for it: the node itself when there is no answer.
pub open spec fn replacement<V>(current: V, result: Option<ValueOrVec<V>>) -> Seq<V> {
    match result {
        None => seq![current],
        Some(ValueOrVec::Value(v)) => seq![v],
        Some(ValueOrVec::Vec(vs)) => vs@,
    }
}

/// The list after the node at `i` was handed to a visitor that answered `result`.
pub open spec fn spliced<V>(list: Seq<V>, i: int, result: Option<ValueOrVec<V>>) -> Seq<V> {
    list.take(i) + replacement(list[i], result) + list.skip(i + 1)
}

/// The index of the next node to hand to the visitor: the first node after
/// those that took the place of the node at `i`.
pub open spec fn next_index<V>(list: Seq<V>, i: int, result: Option<ValueOrVec<V>>) -> int {
    i + replacement(list[i], result).len()
}

/// Puts the nodes that a visitor answered for the node at `i` in its place,
/// and returns the index of the next node to visit. An empty answer removes
/// the node.
pub fn map_step<V>(list: &mut Vec<V>, i: usize, result: Option<ValueOrVec<V>>) -> (next: usize)
    requires
        i < old(list).len(),
    ensures
        final(list)@ == spliced(old(list)@, i as int, result),
        next == next_index(old(list)@, i as int, result),
        next <= final(list)@.len(),
{
    match result {
        None => {
            assert(list@ =~= spliced(list@, i as int, None::<ValueOrVec<V>>));
            i + 1
        },
        Some(ValueOrVec::Value(v)) => {
            let ghost before = list@;
            list.set(i, v);
            assert(list@ =~= spliced(before, i as int, Some(ValueOrVec::Value(v))));
            i + 1
        },
        Some(ValueOrVec::Vec(mut items)) => {
            let ghost before = list@;
            let ghost given = items@;
            if items.len() == 0 {
                list.remove(i);
                assert(list@ =~= before.take(i as int) + given + before.skip(i + 1));
                i
            } else {
                let mut tail = list.split_off(i + 1);
                list.pop();
                list.append(&mut items);
                let next = list.len();
                list.append(&mut tail);
                assert(list@ =~= before.take(i as int) + given + before.skip(i + 1));
                next
            }
        },
    }
}

/// Like [`map_step`], for a list whose nodes are never taken out (a list of
/// rules): an empty answer puts `placeholder` in the node's place, and the same
/// index is visited next, now holding the placeholder. Such a list never gets
/// shorter.
pub fn fill_step<V>(list: &mut Vec<V>, i: usize, result: Option<ValueOrVec<V>>, placeholder: V) -> (next: usize)
    requires
        i < old(list).len(),
    ensures
        replacement(old(list)@[i as int], result).len() == 0 ==> {
            &&& final(list)@ == old(list)@.update(i as int, placeholder)
            &&& next == i
            &&& next < final(list)@.len()
        },
        replacement(old(list)@[i as int], result).len() > 0 ==> {
            &&& final(list)@ == spliced(old(list)@, i as int, result)
            &&& next == next_index(old(list)@, i as int, result)
        },
        final(list)@.len() >= old(list)@.len(),
        next <= final(list)@.len(),
{
    let empty = match &result {
        Some(ValueOrVec::Vec(items)) => items.len() == 0,
        _ => false,
    };
    if empty {
        list.set(i, placeholder);
        i
    } else {
        map_step(list, i, result)
    }
}

/// What goes on to the exit visitor once a node's enter visitor answered.
pub enum ExitPlan<V> {
    /// The enter visitor answered one node: its children are visited and it is
    /// handed to the exit visitor in place of the original node.
    Replaced(V),
    /// The enter visitor answered several nodes: each one's children are
    /// visited and each is handed to the exit visitor, the list of them being
    /// walked as any list is; the list that results is the final answer.
    Expanded(Vec<V>),
    /// The enter visitor gave no answer: the node itself has its children
    /// visited and is handed to the exit visitor.
    Kept,
}

/// What goes on to the exit visitor, given the enter visitor's answer.
pub fn plan_exit<V>(entered: Option<ValueOrVec<V>>) -> (plan: ExitPlan<V>)
    ensures
        plan == match entered {
            Some(ValueOrVec::Value(v)) => ExitPlan::Replaced(v),
            Some(ValueOrVec::Vec(vs)) => ExitPlan::Expanded(vs),
            None => ExitPlan::Kept,
        },
{
    match entered {
        Some(ValueOrVec::Value(v)) => ExitPlan::Replaced(v),
        Some(ValueOrVec::Vec(vs)) => ExitPlan::Expanded(vs),
        None => ExitPlan::Kept,
    }
}

/// What was done for a node after its enter visitor answered, as its
/// [`ExitPlan`] said.
pub enum ExitDone<V> {
    /// The replacing node, as its children's visits left it, and the exit
    /// visitor's answer for it.
    Replaced(V, Option<ValueOrVec<V>>),
    /// The replacing nodes, once the list of them was walked with each one's
    /// children visited and its exit visitor's answer put in its place.
    Expanded(Vec<V>),
    /// The exit visitor's answer for the node itself, its children visited in
    /// place.
    Kept(Option<ValueOrVec<V>>),
}

/// The answer that stands for a node once its exit visit is done: an answer
/// from the exit visitor replaces whatever the enter visitor answered; with
/// none, a replacing node stands as its children's visits left it, and a node
/// kept in place stands as it is; the nodes of an array answer stand as the
/// walk over them left them.
pub fn finish_node<V>(done: ExitDone<V>) -> (res: Option<ValueOrVec<V>>)
    ensures
        res == match done {
            ExitDone::Replaced(v, Some(r)) => Some(r),
            ExitDone::Replaced(v, None) => Some(ValueOrVec::Value(v)),
            ExitDone::Expanded(vs) => Some(ValueOrVec::Vec(vs)),
            ExitDone::Kept(exited) => exited,
        },
{
    match done {
        ExitDone::Replaced(v, Some(r)) => Some(r),
        ExitDone::Replaced(v, None) => Some(ValueOrVec::Value(v)),
        ExitDone::Expanded(vs) => Some(ValueOrVec::Vec(vs)),
        ExitDone::Kept(exited) => exited,
    }
}

/// One step of a walk that may fail: the visitor's answer, or its error. An
/// error leaves the list as the visitor left it and ends the walk with that
/// error; an answer is put in the node's place as by [`map_step`].
pub fn try_map_step<V, E>(list: &mut Vec<V>, i: usize, answer: Result<Option<ValueOrVec<V>>, E>) -> (res: Result<usize, E>)
    requires
        i < old(list).len(),
    ensures
        match answer {
            Ok(r) => final(list)@ == spliced(old(list)@, i as int, r) && res == Ok::<usize, E>(
                next_index(old(list)@, i as int, r) as usize),
            Err(e) => final(list)@ == old(list)@ && res == Err::<usize, E>(e),
        },
        res matches Ok(next) ==> next <= final(list)@.len(),
{
    match answer {
        Ok(r) => Ok(map_step(list, i, r)),
        Err(e) => Err(e),
    }
}

/// Like [`try_map_step`], with the answers put in place as by [`fill_step`].
pub fn try_fill_step<V, E>(
    list: &mut Vec<V>,
    i: usize,
    answer: Result<Option<ValueOrVec<V>>, E>,
    placeholder: V,
) -> (res: Result<usize, E>)
    requires
        i < old(list).len(),
    ensures
        match answer {
            Ok(r) => {
                &&& replacement(old(list)@[i as int], r).len() == 0 ==> {
                    &&& final(list)@ == old(list)@.update(i as int, placeholder)
                    &&& res == Ok::<usize, E>(i)
                }
                &&& replacement(old(list)@[i as int], r).len() > 0 ==> {
                    &&& final(list)@ == spliced(old(list)@, i as int, r)
                    &&& res == Ok::<usize, E>(next_index(old(list)@, i as int, r) as usize)
                }
            },
            Err(e) => final(list)@ == old(list)@ && res == Err::<usize, E>(e),
        },
        res matches Ok(next) ==> next <= final(list)@.len(),
        final(list)@.len() >= old(list)@.len(),
{
    match answer {
        Ok(r) => Ok(fill_step(list, i, r, placeholder)),
        Err(e) => Err(e),
    }
}

/// An answer of a one-node array puts the list in the same state as an answer
/// of that node alone.
pub proof fn single_node_array_acts_as_node<V>(list: Seq<V>, i: int, v: V, vs: Vec<V>)
    requires
        0 <= i < list.len(),
        vs@ == seq![v],
    ensures
        spliced(list, i, Some(ValueOrVec::Vec(vs))) == spliced(list, i, Some(ValueOrVec::Value(v))),
        next_index(list, i, Some(ValueOrVec::Vec(vs))) == next_index(list, i, Some(ValueOrVec::Value(v))),
{
}

/// One visit of a list node: the node as the visitor left it, and its answer.
pub type Visit<V> = (V, Option<ValueOrVec<V>>);

/// The list once the nodes from index `i` on were visited in turn, the `k`-th
/// visit being `visits[k]`: each visit first leaves the node as the visitor
/// left it, then puts the visitor's answer in its place.
pub open spec fn visit_all<V>(list: Seq<V>, i: int, visits: Seq<Visit<V>>) -> Seq<V>
    decreases visits.len(),
{
    if visits.len() == 0 {
        list
    } else {
        let touched = list.update(i, visits[0].0);
        visit_all(
            spliced(touched, i, visits[0].1),
            next_index(touched, i, visits[0].1),
            visits.drop_first(),
        )
    }
}

/// The nodes that one visit leaves in the list.
pub open spec fn visit_outcome<V>(visit: Visit<V>) -> Seq<V> {
    replacement(visit.0, visit.1)
}

/// One step of the walk over a list keeps what was already visited, puts the
/// answer for the first unvisited node in its place, leaves every later node
/// as it was, and goes on with the node that followed it.
pub proof fn map_step_keeps_visited_and_unvisited<V>(
    visited: Seq<V>,
    unvisited: Seq<V>,
    result: Option<ValueOrVec<V>>,
)
    requires
        unvisited.len() > 0,
    ensures
        spliced(visited + unvisited, visited.len() as int, result)
            == visited + replacement(unvisited[0], result) + unvisited.drop_first(),
        next_index(visited + unvisited, visited.len() as int, result)
            == (visited + replacement(unvisited[0], result)).len(),
{
    let list = visited + unvisited;
    let i = visited.len() as int;
    assert(list.take(i) =~= visited);
    assert(list.skip(i + 1) =~= unvisited.drop_first());
    assert(list[i] == unvisited[0]);
}

/// Walking a list with [`map_step`] visits every node that was in it exactly
/// once and in order, and never a node that a visitor put there: the list that
/// results is what was visited before, followed by the answers for the nodes
/// in order, an absent answer standing for the node itself and an empty one
/// for no node.
pub proof fn map_visits_each_node_once<V>(visited: Seq<V>, unvisited: Seq<V>, visits: Seq<Visit<V>>)
    requires
        unvisited.len() == visits.len(),
    ensures
        visit_all(visited + unvisited, visited.len() as int, visits)
            == visited + visits.map_values(|v: Visit<V>| visit_outcome(v)).flatten(),
    decreases visits.len(),
{
    let outcomes = visits.map_values(|v: Visit<V>| visit_outcome(v));
    if visits.len() == 0 {
        assert(outcomes =~= Seq::<Seq<V>>::empty());
        assert(visited + unvisited =~= visited);
        assert(visited + outcomes.flatten() =~= visited);
    } else {
        let list = visited + unvisited;
        let i = visited.len() as int;
        let touched = list.update(i, visits[0].0);
        let rest = unvisited.update(0, visits[0].0);
        assert(touched =~= visited + rest);
        map_step_keeps_visited_and_unvisited(visited, rest, visits[0].1);
        let done = visited + replacement(visits[0].0, visits[0].1);
        assert(rest.drop_first() =~= unvisited.drop_first());
        map_visits_each_node_once(done, unvisited.drop_first(), visits.drop_first());
        assert(spliced(touched, i, visits[0].1) =~= done + unvisited.drop_first());
        let tail = visits.drop_first().map_values(|v: Visit<V>| visit_outcome(v));
        assert(outcomes.drop_first() =~= tail);
        assert(outcomes.first() == visit_outcome(visits[0]));
        assert(outcomes.flatten() == outcomes.first() + outcomes.drop_first().flatten());
        assert(done + tail.flatten() =~= visited + outcomes.flatten());
    }
}

/// The list once the nodes from index `i` on were visited in turn with
/// [`fill_step`], `placeholder` being what an empty answer leaves.
pub open spec fn fill_all<V>(list: Seq<V>, i: int, visits: Seq<Visit<V>>, placeholder: V) -> Seq<V>
    decreases visits.len(),
{
    if visits.len() == 0 {
        list
    } else {
        let touched = list.update(i, visits[0].0);
        if replacement(visits[0].0, visits[0].1).len() == 0 {
            fill_all(touched.update(i, placeholder), i, visits.drop_first(), placeholder)
        } else {
            fill_all(
                spliced(touched, i, visits[0].1),
                next_index(touched, i, visits[0].1),
                visits.drop_first(),
                placeholder,
            )
        }
    }
}

/// The visits of a walk over a rule list, given the visits of its original
/// rules: each visit that empties a rule's place is followed by one visit of
/// the placeholder left there, which the visitor leaves as it is.
pub open spec fn with_placeholder_visits<V>(visits: Seq<Visit<V>>, placeholder: V) -> Seq<Visit<V>>
    decreases visits.len(),
{
    if visits.len() == 0 {
        Seq::empty()
    } else {
        let first = if replacement(visits[0].0, visits[0].1).len() == 0 {
            seq![visits[0], (placeholder, None::<ValueOrVec<V>>)]
        } else {
            seq![visits[0]]
        };
        first + with_placeholder_visits(visits.drop_first(), placeholder)
    }
}

/// The nodes that one visit leaves in a rule list: the placeholder where the
/// answer is empty.
pub open spec fn fill_outcome<V>(visit: Visit<V>, placeholder: V) -> Seq<V> {
    if replacement(visit.0, visit.1).len() == 0 {
        seq![placeholder]
    } else {
        replacement(visit.0, visit.1)
    }
}

/// Walking a rule list with [`fill_step`] visits every original rule exactly
/// once and in order, plus, right after each visit that empties a rule's
/// place, the placeholder left there (kept as it is); it never visits a rule
/// that a visitor put there. The list that results holds the answers in
/// order, the placeholder standing where an answer was empty.
pub proof fn fill_visits_each_rule_once<V>(visited: Seq<V>, unvisited: Seq<V>, visits: Seq<Visit<V>>, placeholder: V)
    requires
        unvisited.len() == visits.len(),
    ensures
        fill_all(visited + unvisited, visited.len() as int, with_placeholder_visits(visits, placeholder), placeholder)
            == visited + visits.map_values(|v: Visit<V>| fill_outcome(v, placeholder)).flatten(),
    decreases visits.len(),
{
    let f = |v: Visit<V>| fill_outcome(v, placeholder);
    let outs = visits.map_values(f);
    let ws = with_placeholder_visits(visits, placeholder);
    if visits.len() == 0 {
        assert(outs =~= Seq::<Seq<V>>::empty());
        assert(visited + unvisited =~= visited);
        assert(visited + outs.flatten() =~= visited);
    } else {
        let list = visited + unvisited;
        let i = visited.len() as int;
        let v0 = visits[0];
        let touched = list.update(i, v0.0);
        let rest = unvisited.update(0, v0.0);
        assert(touched =~= visited + rest);
        let tail = visits.drop_first();
        let tail_ws = with_placeholder_visits(tail, placeholder);
        let tail_outs = tail.map_values(f);
        assert(outs.drop_first() =~= tail_outs);
        assert(outs.flatten() == outs.first() + outs.drop_first().flatten());
        if replacement(v0.0, v0.1).len() == 0 {
            let pv = (placeholder, None::<ValueOrVec<V>>);
            assert(ws == seq![v0, pv] + tail_ws);
            assert(ws[0] == v0);
            let ws1 = ws.drop_first();
            assert(ws1 =~= seq![pv] + tail_ws);
            let list1 = touched.update(i, placeholder);
            let done = visited + seq![placeholder];
            assert(list1 =~= done + unvisited.drop_first());
            assert(ws1[0] == pv);
            assert(ws1.drop_first() =~= tail_ws);
            assert(list1.update(i, placeholder) =~= list1);
            assert(spliced(list1, i, None::<ValueOrVec<V>>) =~= list1);
            assert(next_index(list1, i, None::<ValueOrVec<V>>) == done.len());
            assert(fill_all(list1, i, ws1, placeholder) == fill_all(list1, done.len() as int, tail_ws, placeholder));
            fill_visits_each_rule_once(done, unvisited.drop_first(), tail, placeholder);
            assert(outs.first() == seq![placeholder]);
            assert(done + tail_outs.flatten() =~= visited + outs.flatten());
        } else {
            assert(ws == seq![v0] + tail_ws);
            assert(ws[0] == v0);
            assert(ws.drop_first() =~= tail_ws);
            map_step_keeps_visited_and_unvisited(visited, rest, v0.1);
            let done = visited + replacement(v0.0, v0.1);
            assert(rest.drop_first() =~= unvisited.drop_first());
            assert(spliced(touched, i, v0.1) =~= done + unvisited.drop_first());
            fill_visits_each_rule_once(done, unvisited.drop_first(), tail, placeholder);
            assert(outs.first() == replacement(v0.0, v0.1));
            assert(done + tail_outs.flatten() =~= visited + outs.flatten());
        }
    }
}

/// One visit of a list node that may fail: the node as the visitor left it,
/// and its answer or error.
pub type TryVisit<V, E> = (V, Result<Option<ValueOrVec<V>>, E>);

/// The list once the nodes from index `i` on were visited in turn with
/// [`try_map_step`], and the error that ended the walk, if one did.
pub open spec fn try_visit_all<V, E>(list: Seq<V>, i: int, visits: Seq<TryVisit<V, E>>) -> (Seq<V>, Option<E>)
    decreases visits.len(),
{
    if visits.len() == 0 {
        (list, None)
    } else {
        let touched = list.update(i, visits[0].0);
        match visits[0].1 {
            Err(e) => (touched, Some(e)),
            Ok(r) => try_visit_all(spliced(touched, i, r), next_index(touched, i, r), visits.drop_first()),
        }
    }
}

/// The nodes that one successful visit leaves in the list.
pub open spec fn try_visit_outcome<V, E>(visit: TryVisit<V, E>) -> Seq<V> {
    match visit.1 {
        Ok(r) => replacement(visit.0, r),
        Err(_) => seq![visit.0],
    }
}

/// A walk whose `k`-th visit is the first to fail stops there with that
/// visit's error: the nodes visited before it are replaced by their answers,
/// the failing node stays as its visitor left it, and every later node is
/// left as it was, unvisited.
pub proof fn walk_stops_at_first_failure<V, E>(
    visited: Seq<V>,
    unvisited: Seq<V>,
    visits: Seq<TryVisit<V, E>>,
    k: int,
)
    requires
        unvisited.len() == visits.len(),
        0 <= k < visits.len(),
        visits[k].1 is Err,
        forall|j: int| 0 <= j < k ==> (#[trigger] visits[j]).1 is Ok,
    ensures
        try_visit_all(visited + unvisited, visited.len() as int, visits) == (
            visited + visits.take(k).map_values(|v: TryVisit<V, E>| try_visit_outcome(v)).flatten()
                + seq![visits[k].0] + unvisited.skip(k + 1),
            Some(visits[k].1->Err_0),
        ),
    decreases k,
{
    let list = visited + unvisited;
    let i = visited.len() as int;
    let touched = list.update(i, visits[0].0);
    let rest = unvisited.update(0, visits[0].0);
    assert(touched =~= visited + rest);
    if k == 0 {
        assert(visits.take(0).map_values(|v: TryVisit<V, E>| try_visit_outcome(v)) =~= Seq::<Seq<V>>::empty());
        assert(visited + Seq::<Seq<V>>::empty().flatten() + seq![visits[0].0] + unvisited.skip(1) =~= touched);
    } else {
        assert(visits[0].1 is Ok);
        let r = visits[0].1->Ok_0;
        map_step_keeps_visited_and_unvisited(visited, rest, r);
        let done = visited + replacement(visits[0].0, r);
        assert(rest.drop_first() =~= unvisited.drop_first());
        assert(spliced(touched, i, r) =~= done + unvisited.drop_first());
        let tail = visits.drop_first();
        assert forall|j: int| 0 <= j < k - 1 implies (#[trigger] tail[j]).1 is Ok by {
            assert(tail[j] == visits[j + 1]);
        }
        walk_stops_at_first_failure(done, unvisited.drop_first(), tail, k - 1);
        let f = |v: TryVisit<V, E>| try_visit_outcome(v);
        let outs = visits.take(k).map_values(f);
        let tail_outs = tail.take(k - 1).map_values(f);
        assert(outs.drop_first() =~= tail_outs);
        assert(outs.first() == replacement(visits[0].0, r));
        assert(outs.flatten() == outs.first() + outs.drop_first().flatten());
        assert(unvisited.drop_first().skip(k) =~= unvisited.skip(k + 1));
        assert(tail[k - 1] == visits[k]);
        assert(done + tail_outs.flatten() =~= visited + outs.flatten());
    }
}

/// A walk in which no visit fails ends without an error, and leaves the list
/// that [`map_visits_each_node_once`] describes.
pub proof fn walk_without_failure_is_complete<V, E>(visited: Seq<V>, unvisited: Seq<V>, visits: Seq<TryVisit<V, E>>)
    requires
        unvisited.len() == visits.len(),
        forall|j: int| 0 <= j < visits.len() ==> (#[trigger] visits[j]).1 is Ok,
    ensures
        try_visit_all(visited + unvisited, visited.len() as int, visits) == (
            visited + visits.map_values(|v: TryVisit<V, E>| try_visit_outcome(v)).flatten(),
            None::<E>,
        ),
    decreases visits.len(),
{
    let f = |v: TryVisit<V, E>| try_visit_outcome(v);
    let outs = visits.map_values(f);
    if visits.len() == 0 {
        assert(outs =~= Seq::<Seq<V>>::empty());
        assert(visited + unvisited =~= visited);
        assert(visited + outs.flatten() =~= visited);
    } else {
        let list = visited + unvisited;
        let i = visited.len() as int;
        let touched = list.update(i, visits[0].0);
        let rest = unvisited.update(0, visits[0].0);
        assert(touched =~= visited + rest);
        assert(visits[0].1 is Ok);
        let r = visits[0].1->Ok_0;
        map_step_keeps_visited_and_unvisited(visited, rest, r);
        let done = visited + replacement(visits[0].0, r);
        assert(rest.drop_first() =~= unvisited.drop_first());
        assert(spliced(touched, i, r) =~= done + unvisited.drop_first());
        let tail = visits.drop_first();
        assert forall|j: int| 0 <= j < tail.len() implies (#[trigger] tail[j]).1 is Ok by {
            assert(tail[j] == visits[j + 1]);
        }
        walk_without_failure_is_complete(done, unvisited.drop_first(), tail);
        let tail_outs = tail.map_values(f);
        assert(outs.drop_first() =~= tail_outs);
        assert(outs.first() == replacement(visits[0].0, r));
        assert(outs.flatten() == outs.first() + outs.drop_first().flatten());
        assert(done + tail_outs.flatten() =~= visited + outs.flatten());
    }
}

} // verus!
