//! Whole-system laws of the runtime, stated and proved over the model.
use vstd::prelude::*;
use crate::arena::{find_free_spec, fresh_handle, insert_slots};
use crate::errors::Error;
use crate::model::{
    Model, deln, fresh, live, m_cleanup_list, m_create_value, m_deliver, m_dispose_children,
    m_dispose_node, m_eval, m_prune_dependants, m_read_untracked, m_receiver_dispose,
    m_recompute_node, m_run_cleanups, m_run_reactions, m_set_silent, m_update, node, setn,
};
use crate::nodes::{NodeRec, Policy, Scope};
use crate::value::ValueS;

verus! {

/// Round-trip read/write: creating a storage cell with `v` and reading it
/// back yields `v`; after storing `v2`, reading yields `v2`.
pub proof fn lemma_round_trip_read_write(m: Model, v: ValueS, v2: ValueS)
    requires
        m.tracker is Some,
        m.next_stamp < u64::MAX,
        m.nodes.len() <= usize::MAX,
    ensures
        ({
            let (m1, r) = m_create_value(m, v);
            let h = fresh(m);
            &&& r == Ok::<ValueS, Error>(ValueS::Node(h))
            &&& m_read_untracked(m1, h) == Ok::<ValueS, Error>(v)
            &&& ({
                let (m2, e) = m_set_silent(m1, h, v2);
                e is None && m_read_untracked(m2, h) == Ok::<ValueS, Error>(v2)
            })
        }),
{
    reveal(m_create_value);
    let h = fresh(m);
    let p = m.tracker.unwrap();
    let (m1, r) = m_create_value(m, v);
    lemma_find_free_ok(m.nodes, 0);
    match find_free_spec(m.nodes, 0) {
        Some(i) => {
            assert(h.index == i);
            assert(live(m, p) ==> m.nodes[p.index as int].1 is Some);
            assert(live(m, p) ==> p.index != i as int);
            assert(live(m1, h));
            assert(node(m1, h).value == Some(v));
        }
        None => {
            assert(h.index == m.nodes.len());
            assert(live(m, p) ==> p.index < m.nodes.len());
            assert(live(m1, h));
            assert(node(m1, h).value == Some(v));
        }
    }
    let (m2, e) = m_set_silent(m1, h, v2);
    assert(live(m2, h));
    assert(node(m2, h).value == Some(v2));
}

/// A free slot found by the allocator really is free.
proof fn lemma_find_free_ok<V>(s: Seq<(u64, Option<V>)>, i: nat)
    requires
        i <= s.len(),
    ensures
        match find_free_spec(s, i) {
            Some(j) => i <= j < s.len() && s[j as int].1 is None && s[j as int].0 < u64::MAX,
            None => true,
        },
    decreases s.len() - i,
{
    if i < s.len() {
        if !(s[i as int].1 is None && s[i as int].0 < u64::MAX) {
            lemma_find_free_ok(s, i + 1);
        }
    }
}

/// Disposal safety: after a scope is disposed, every read or write through
/// its handle fails with `Disposed`; it never succeeds on stale data.
pub proof fn lemma_disposal_safety(m: Model, h: crate::nodes::Scope, v: ValueS)
    requires
        live(m, h),
    ensures
        !live(m_dispose_node(m, h), h),
        m_read_untracked(m_dispose_node(m, h), h) == Err::<ValueS, Error>(Error::Disposed),
        m_set_silent(m_dispose_node(m, h), h, v).1 == Some(Error::Disposed),
        m_set_silent(m_dispose_node(m, h), h, v).0 == m_dispose_node(m, h),
{
    reveal(crate::model::m_dispose_node);
    reveal(crate::model::m_prune_dependants);
    let ma = crate::model::m_receiver_dispose(m, h);
    let mb = crate::model::m_prune_dependants(ma, h);
    assert(mb.nodes.len() == m.nodes.len());
    assert(live(mb, h));
    let md = m_dispose_node(m, h);
    assert(md == deln(mb, h));
    assert(md.nodes[h.index as int].1 is None);
}

/// Selector cutoff: when a selector's re-run yields a value equal to the one
/// it already holds, the node keeps its cached value and releases no
/// dependants, so nothing downstream of it is recomputed by this step.
pub proof fn lemma_selector_cutoff(m: Model, id: Scope, fuel: nat)
    requires
        fuel > 0,
        live(m, id),
        node(m, id).compute is Some,
        node(m, id).policy == Policy::Selector,
        ({
            let nr = node(m, id);
            let m1 = setn(
                m,
                id,
                NodeRec { compute: None, value: None, stale: true, ..nr },
            );
            let (m2b, e2) = m_run_cleanups(m1, id, (fuel - 1) as nat);
            let m3 = m_dispose_children(m2b, id);
            let m4 = m_prune_dependants(m3, id);
            let m5 = m_receiver_dispose(m4, id);
            let m6 = Model { tracker: Some(id), ..m5 };
            let (m7, r) = m_eval(
                m6,
                nr.compute.unwrap().env,
                nr.compute.unwrap().body,
                (fuel - 1) as nat,
            );
            let m8 = Model { tracker: m5.tracker, ..m7 };
            e2 is None && (r matches Ok(v) && live(m8, id) && nr.value == Some(v)) && node(
                m8,
                id,
            ).policy == Policy::Selector
        }),
    ensures
        ({
            let (m2, r) = m_recompute_node(m, id, fuel);
            &&& r == Ok::<Seq<Scope>, Error>(Seq::empty())
            &&& live(m2, id)
            &&& node(m2, id).value == node(m, id).value
        }),
{
    reveal_with_fuel(m_recompute_node, 1);
}

/// Receiver scoping: a scope that is no longer live receives nothing --
/// delivering to it leaves the whole runtime untouched, so state owned by a
/// disposed branch's receiver can never be affected by a later send.
pub proof fn lemma_dormant_receiver(m: Model, s: Scope, tag: u64, payload: ValueS, fuel: nat)
    requires
        !live(m, s),
    ensures
        m_deliver(m, s, tag, payload, fuel) == (m, None::<Error>),
{
    reveal_with_fuel(m_deliver, 1);
}

/// Cleanup-on-recompute, the at-most-once half: a scope's cleanup list is
/// taken out before any of its entries run, so the entries fire in a state
/// whose registry for that scope is already empty and cannot fire again.
pub proof fn lemma_cleanups_taken(m: Model, x: Scope, fuel: nat)
    requires
        fuel > 0,
        live(m, x),
    ensures
        ({
            let m1 = setn(m, x, NodeRec { cleanups: Seq::empty(), ..node(m, x) });
            let (m2, e) = m_run_reactions(
                m1,
                node(m, x).cleanups,
                0,
                ValueS::Unit,
                (fuel - 1) as nat,
            );
            m_cleanup_list(m, seq![x], 0, fuel) == (match e {
                Some(err) => (m2, Some(err)),
                None => (m2, None::<Error>),
            })
        }),
{
    reveal_with_fuel(m_cleanup_list, 2);
}

/// Dynamic dependency narrowing: writing a storage cell that no scope read
/// during its last run -- its dependant set is empty, as edges are rebuilt
/// from each run's reads alone -- stores the value and recomputes nothing.
pub proof fn lemma_write_unread_cell(m: Model, h: Scope, v: ValueS, fuel: nat)
    requires
        fuel >= 3,
        live(m, h),
        node(m, h).compute is None,
        node(m, h).dependants == Seq::<Scope>::empty(),
    ensures
        m_update(m, h, v, fuel) == (
            setn(m, h, NodeRec { value: Some(v), stale: false, ..node(m, h) }),
            None::<Error>,
        ),
{
    reveal_with_fuel(crate::model::m_update, 1);
    reveal_with_fuel(crate::model::m_recompute, 1);
    reveal_with_fuel(m_recompute_node, 1);
    reveal_with_fuel(crate::model::m_propagate, 1);
    let (m1, e1) = m_set_silent(m, h, v);
    assert(m1 == setn(m, h, NodeRec { value: Some(v), ..node(m, h) }));
    assert(live(m1, h));
    assert(node(m1, h).compute is None);
    let (m2, r2) = m_recompute_node(m1, h, (fuel - 2) as nat);
    assert(m2 =~~= setn(m, h, NodeRec { value: Some(v), stale: false, ..node(m, h) }));
    assert(r2 == Ok::<Seq<Scope>, Error>(Seq::<Scope>::empty()));
}

} // verus!
