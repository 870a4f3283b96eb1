//! The mathematical model of the reactive runtime: a pure, total description
//! of every engine step. Each executable engine operation is proved to
//! transform the runtime exactly as the corresponding function here says.
use vstd::prelude::*;
use crate::arena::{Handle, fresh_handle, insert_slots};
use crate::errors::Error;
use crate::expr::{BinOp, ExprS, ReactOpS, ReactionS, UnOp, env_lookup, esize};
use crate::nodes::{ComputeS, NodeRec, Policy, Scope, remove_scope};
use crate::value::{ValueS, lower_byte, upper_byte};

verus! {

/// The whole runtime state: the node slots, the tracking cursor, the
/// bus's reentrancy marker, and the creation-order counter.
#[verifier::ext_equal]
pub struct Model {
    pub nodes: Seq<(u64, Option<NodeRec>)>,
    pub tracker: Option<Scope>,
    pub borrowed: Option<Scope>,
    pub next_stamp: u64,
}

pub open spec fn live(m: Model, h: Scope) -> bool {
    &&& h.index < m.nodes.len()
    &&& m.nodes[h.index as int].0 == h.generation
    &&& m.nodes[h.index as int].1 is Some
}

pub open spec fn node(m: Model, h: Scope) -> NodeRec {
    m.nodes[h.index as int].1.unwrap()
}

/// Replace the node behind a live handle.
pub open spec fn setn(m: Model, h: Scope, r: NodeRec) -> Model {
    Model { nodes: m.nodes.update(h.index as int, (h.generation, Some(r))), ..m }
}

/// Remove a node and invalidate its handle permanently.
pub open spec fn deln(m: Model, h: Scope) -> Model {
    Model {
        nodes: m.nodes.update(
            h.index as int,
            (
                if h.generation < u64::MAX {
                    (h.generation + 1) as u64
                } else {
                    h.generation
                },
                None,
            ),
        ),
        ..m
    }
}

/// The handle the next node insertion yields.
pub open spec fn fresh(m: Model) -> Scope {
    fresh_handle(m.nodes)
}

pub open spec fn addn(m: Model, r: NodeRec) -> Model {
    Model { nodes: insert_slots(m.nodes, r), ..m }
}

/// Saturating increment of a run counter.
pub open spec fn bump_runs(r: u64) -> u64 {
    if r < u64::MAX {
        (r + 1) as u64
    } else {
        r
    }
}

/// A run counter as an integer observation.
pub open spec fn runs_as_int(r: u64) -> i64 {
    if r > i64::MAX as u64 {
        i64::MAX
    } else {
        r as i64
    }
}

/// Register the current cursor as a dependant of a read node (set semantics:
/// at most one occurrence).
pub open spec fn m_register_read(m: Model, target: Scope, cur: Scope) -> Model {
    let deps = node(m, target).dependants;
    if deps.contains(cur) {
        m
    } else {
        setn(m, target, NodeRec { dependants: deps.push(cur), ..node(m, target) })
    }
}

/// Untracked read: the cached value of a live node, never touching the cursor.
pub open spec fn m_read_untracked(m: Model, h: Scope) -> Result<ValueS, Error> {
    if !live(m, h) {
        Err(Error::Disposed)
    } else {
        match node(m, h).value {
            Some(v) => Ok(v),
            None => Err(Error::Disposed),
        }
    }
}

/// A pure unary operation; `None` is a type mismatch.
pub open spec fn apply_un(op: UnOp, v: ValueS) -> Option<ValueS> {
    match op {
        UnOp::First => match v {
            ValueS::PairV(a, _) => Some(*a),
            _ => None,
        },
        UnOp::Second => match v {
            ValueS::PairV(_, b) => Some(*b),
            _ => None,
        },
        UnOp::Upper => match v {
            ValueS::Text(t) => Some(ValueS::Text(t.map_values(|b: u8| upper_byte(b)))),
            _ => None,
        },
        UnOp::Lower => match v {
            ValueS::Text(t) => Some(ValueS::Text(t.map_values(|b: u8| lower_byte(b)))),
            _ => None,
        },
    }
}

/// A pure binary operation; `None` is a type mismatch.
pub open spec fn apply_bin(op: BinOp, a: ValueS, b: ValueS) -> Option<ValueS> {
    match op {
        BinOp::MakePair => Some(ValueS::PairV(Box::new(a), Box::new(b))),
        BinOp::EqVal => Some(ValueS::Bool(a == b)),
        BinOp::Concat => match (a, b) {
            (ValueS::Text(x), ValueS::Text(y)) => Some(ValueS::Text(x + y)),
            _ => None,
        },
    }
}

/// The value a reaction writes, from its operation, the delivered payload and
/// the target's current value; `None` is a type mismatch.
pub open spec fn react_value(op: ReactOpS, payload: ValueS, old_v: Option<ValueS>) -> Option<
    ValueS,
> {
    match op {
        ReactOpS::SetPayload => Some(payload),
        ReactOpS::AddPayload => match (old_v, payload) {
            (Some(ValueS::Int(a)), ValueS::Int(b)) => Some(
                ValueS::Int(vstd::wrapping::i64_specs::wrapping_add(a, b)),
            ),
            _ => None,
        },
        ReactOpS::SetConst(v) => Some(v),
        ReactOpS::AddConst(v) => match (old_v, v) {
            (Some(ValueS::Int(a)), ValueS::Int(b)) => Some(
                ValueS::Int(vstd::wrapping::i64_specs::wrapping_add(a, b)),
            ),
            _ => None,
        },
        ReactOpS::SetTagged(t) => Some(ValueS::PairV(Box::new(t), Box::new(payload))),
    }
}

/// The owned subtree of the scopes in `ids`, deepest first, each subtree
/// followed by its root; entries are validated and must have strictly larger
/// creation stamps than their parent.
#[verifier::opaque]
pub open spec fn m_collect_from(m: Model, pstamp: u64, ids: Seq<Scope>, i: nat) -> Seq<Scope>
    decreases m.next_stamp - pstamp, ids.len() - i,
    when pstamp < m.next_stamp
{
    if i >= ids.len() {
        Seq::empty()
    } else {
        let c = ids[i as int];
        let head = if live(m, c) && node(m, c).stamp > pstamp && node(m, c).stamp
            < m.next_stamp {
            m_collect_from(m, node(m, c).stamp, node(m, c).children, 0) + seq![c]
        } else {
            Seq::empty()
        };
        head + m_collect_from(m, pstamp, ids, i + 1)
    }
}

/// All live descendants of a scope, deepest first.
pub open spec fn m_collect(m: Model, id: Scope) -> Seq<Scope> {
    if live(m, id) && node(m, id).stamp < m.next_stamp {
        m_collect_from(m, node(m, id).stamp, node(m, id).children, 0)
    } else {
        Seq::empty()
    }
}

/// Remove `x` from every node's dependant set: edges to a disposed or
/// re-running scope are pruned, never followed.
#[verifier::opaque]
pub open spec fn m_prune_dependants(m: Model, x: Scope) -> Model {
    Model {
        nodes: m.nodes.map_values(
            |p: (u64, Option<NodeRec>)|
                (
                    p.0,
                    match p.1 {
                        Some(r) => Some(
                            NodeRec { dependants: remove_scope(r.dependants, x), ..r },
                        ),
                        None => None,
                    },
                ),
        ),
        ..m
    }
}

/// Drop a scope's bus subscriptions. If the bus is mid-delivery to that very
/// scope, only the reentrancy marker is cleared: the taken handler list must
/// not be re-inserted afterwards.
pub open spec fn m_receiver_dispose(m: Model, x: Scope) -> Model {
    if m.borrowed == Some(x) {
        Model { borrowed: None, ..m }
    } else if live(m, x) {
        setn(m, x, NodeRec { recievers: Seq::empty(), ..node(m, x) })
    } else {
        m
    }
}

/// Dispose one scope: clear its bus state, prune edges pointing at it, and
/// remove it from the arena.
#[verifier::opaque]
pub open spec fn m_dispose_node(m: Model, x: Scope) -> Model {
    if !live(m, x) {
        m
    } else {
        deln(m_prune_dependants(m_receiver_dispose(m, x), x), x)
    }
}

#[verifier::opaque]
pub open spec fn m_dispose_list(m: Model, ids: Seq<Scope>, i: nat) -> Model
    decreases ids.len() - i,
{
    if i >= ids.len() {
        m
    } else {
        m_dispose_list(m_dispose_node(m, ids[i as int]), ids, i + 1)
    }
}

/// Dispose a scope's owned subtree (deepest first) and forget its child list.
#[verifier::opaque]
pub open spec fn m_dispose_children(m: Model, id: Scope) -> Model {
    let m1 = m_dispose_list(m, m_collect(m, id), 0);
    if live(m1, id) {
        setn(m1, id, NodeRec { children: Seq::empty(), ..node(m1, id) })
    } else {
        m1
    }
}

/// Store a value in a live node without propagation.
pub open spec fn m_set_silent(m: Model, h: Scope, v: ValueS) -> (Model, Option<Error>) {
    if !live(m, h) {
        (m, Some(Error::Disposed))
    } else {
        (setn(m, h, NodeRec { value: Some(v), ..node(m, h) }), None)
    }
}

// The mutually recursive engine: evaluation, recomputation, propagation,
// cleanups, reactions and delivery. Every recursive step across functions
// consumes fuel; exhaustion surfaces as `DepthExceeded` rather than
// non-termination on a cyclic graph.

/// Tracked read: register the edge, repair staleness, return the cache.
#[verifier::opaque]
pub open spec fn m_read(m: Model, h: Scope, fuel: nat) -> (Model, Result<ValueS, Error>)
    decreases fuel, 0nat,
{
    match m.tracker {
        None => (m, Err(Error::OutsideTrackingScope)),
        Some(cur) => {
            if !live(m, h) {
                (m, Err(Error::Disposed))
            } else {
                let m1 = m_register_read(m, h, cur);
                if node(m1, h).stale {
                    if fuel == 0 {
                        (m1, Err(Error::DepthExceeded))
                    } else {
                        let (m2, e) = m_recompute(m1, h, (fuel - 1) as nat);
                        match e {
                            Some(err) => (m2, Err(err)),
                            None => (m2, m_read_untracked(m2, h)),
                        }
                    }
                } else {
                    (m1, m_read_untracked(m1, h))
                }
            }
        }
    }
}

/// Recompute a node, then propagate through the dependants it released.
#[verifier::opaque]
pub open spec fn m_recompute(m: Model, id: Scope, fuel: nat) -> (Model, Option<Error>)
    decreases fuel, 0nat,
{
    if fuel == 0 {
        (m, Some(Error::DepthExceeded))
    } else {
        let (m1, r) = m_recompute_node(m, id, (fuel - 1) as nat);
        match r {
            Err(e) => (m1, Some(e)),
            Ok(deps) => m_propagate(m1, deps, 0, (fuel - 1) as nat),
        }
    }
}

#[verifier::opaque]
pub open spec fn m_propagate(m: Model, deps: Seq<Scope>, i: nat, fuel: nat) -> (
    Model,
    Option<Error>,
)
    decreases fuel, deps.len() - i,
{
    if i >= deps.len() {
        (m, None)
    } else if fuel == 0 {
        (m, Some(Error::DepthExceeded))
    } else {
        let (m1, e) = m_recompute(m, deps[i as int], (fuel - 1) as nat);
        match e {
            Some(err) => (m1, Some(err)),
            None => m_propagate(m1, deps, i + 1, fuel),
        }
    }
}

/// One node's recomputation step. A storage cell releases its dependants
/// (take-and-clear). A derived cell first tears down its previous run -- the
/// owned subtree's cleanups run and the subtree is disposed, its own old
/// edges and subscriptions are dropped -- then its closure re-runs attributed
/// to it, and the result is stored under the cutoff policy: a selector whose
/// fresh value equals the previous one keeps it and releases no dependants.
#[verifier::opaque]
pub open spec fn m_recompute_node(m: Model, id: Scope, fuel: nat) -> (
    Model,
    Result<Seq<Scope>, Error>,
)
    decreases fuel, 0nat,
{
    if !live(m, id) {
        (m, Ok(Seq::empty()))
    } else if node(m, id).compute is None {
        let deps = node(m, id).dependants;
        (
            setn(m, id, NodeRec { dependants: Seq::empty(), stale: false, ..node(m, id) }),
            Ok(deps),
        )
    } else if fuel == 0 {
        (m, Err(Error::DepthExceeded))
    } else {
        let nr = node(m, id);
        let comp = nr.compute.unwrap();
        let prev = nr.value;
        let m1 = setn(m, id, NodeRec { compute: None, value: None, stale: true, ..nr });
        let (m2, e2) = m_run_cleanups(m1, id, (fuel - 1) as nat);
        if e2 is Some {
            (m2, Err(e2.unwrap()))
        } else {
            let m3 = m_dispose_children(m2, id);
            let m4 = m_prune_dependants(m3, id);
            let m5 = m_receiver_dispose(m4, id);
            let m6 = Model { tracker: Some(id), ..m5 };
            let (m7, r) = m_eval(m6, comp.env, comp.body, (fuel - 1) as nat);
            let m8 = Model { tracker: m5.tracker, ..m7 };
            match r {
                Err(e) => {
                    if live(m8, id) {
                        (
                            setn(m8, id, NodeRec { compute: Some(comp), ..node(m8, id) }),
                            Err(e),
                        )
                    } else {
                        (m8, Err(e))
                    }
                }
                Ok(v) => {
                    if !live(m8, id) {
                        (m8, Ok(Seq::empty()))
                    } else {
                        let nr8 = node(m8, id);
                        if nr8.policy == Policy::Selector && prev == Some(v) {
                            (
                                setn(
                                    m8,
                                    id,
                                    NodeRec {
                                        compute: Some(comp),
                                        value: prev,
                                        stale: false,
                                        runs: bump_runs(nr8.runs),
                                        ..nr8
                                    },
                                ),
                                Ok(Seq::empty()),
                            )
                        } else {
                            (
                                setn(
                                    m8,
                                    id,
                                    NodeRec {
                                        compute: Some(comp),
                                        value: Some(v),
                                        stale: false,
                                        runs: bump_runs(nr8.runs),
                                        dependants: Seq::empty(),
                                        ..nr8
                                    },
                                ),
                                Ok(nr8.dependants),
                            )
                        }
                    }
                }
            }
        }
    }
}

/// Write a value, then invalidate: the node's released dependants are
/// recomputed depth-first.
#[verifier::opaque]
pub open spec fn m_update(m: Model, h: Scope, v: ValueS, fuel: nat) -> (Model, Option<Error>)
    decreases fuel, 0nat,
{
    let (m1, e) = m_set_silent(m, h, v);
    match e {
        Some(err) => (m1, Some(err)),
        None => {
            if fuel == 0 {
                (m1, Some(Error::DepthExceeded))
            } else {
                m_recompute(m1, h, (fuel - 1) as nat)
            }
        }
    }
}

/// Run one reaction: a reaction whose target has been disposed fires into
/// nothing; one whose shapes mismatch is a fatal type error; otherwise the
/// computed value is written with full propagation.
#[verifier::opaque]
pub open spec fn m_apply_reaction(m: Model, r: ReactionS, payload: ValueS, fuel: nat) -> (
    Model,
    Option<Error>,
)
    decreases fuel, 0nat,
{
    if !live(m, r.target) {
        (m, None)
    } else {
        match react_value(r.op, payload, node(m, r.target).value) {
            None => (m, Some(Error::TypeMismatch)),
            Some(nv) => {
                if fuel == 0 {
                    (m, Some(Error::DepthExceeded))
                } else {
                    m_update(m, r.target, nv, (fuel - 1) as nat)
                }
            }
        }
    }
}

#[verifier::opaque]
pub open spec fn m_run_reactions(
    m: Model,
    rs: Seq<ReactionS>,
    i: nat,
    payload: ValueS,
    fuel: nat,
) -> (Model, Option<Error>)
    decreases fuel, rs.len() - i,
{
    if i >= rs.len() {
        (m, None)
    } else if fuel == 0 {
        (m, Some(Error::DepthExceeded))
    } else {
        let (m1, e) = m_apply_reaction(m, rs[i as int], payload, (fuel - 1) as nat);
        match e {
            Some(err) => (m1, Some(err)),
            None => m_run_reactions(m1, rs, i + 1, payload, fuel),
        }
    }
}

#[verifier::opaque]
pub open spec fn m_cleanup_list(m: Model, ids: Seq<Scope>, i: nat, fuel: nat) -> (
    Model,
    Option<Error>,
)
    decreases fuel, ids.len() - i,
{
    if i >= ids.len() {
        (m, None)
    } else if fuel == 0 {
        (m, Some(Error::DepthExceeded))
    } else {
        let x = ids[i as int];
        if live(m, x) {
            let cs = node(m, x).cleanups;
            let m1 = setn(m, x, NodeRec { cleanups: Seq::empty(), ..node(m, x) });
            let (m2, e) = m_run_reactions(m1, cs, 0, ValueS::Unit, (fuel - 1) as nat);
            match e {
                Some(err) => (m2, Some(err)),
                None => m_cleanup_list(m2, ids, i + 1, fuel),
            }
        } else {
            m_cleanup_list(m, ids, i + 1, fuel)
        }
    }
}

/// Run the one-shot cleanups of a scope's owned subtree and then its own,
/// children before their owner; each list is taken before it runs, so every
/// entry fires at most once.
#[verifier::opaque]
pub open spec fn m_run_cleanups(m: Model, id: Scope, fuel: nat) -> (Model, Option<Error>)
    decreases fuel, 0nat,
{
    if fuel == 0 {
        (m, Some(Error::DepthExceeded))
    } else {
        m_cleanup_list(m, m_collect(m, id) + seq![id], 0, (fuel - 1) as nat)
    }
}

#[verifier::opaque]
pub open spec fn m_deliver_list(
    m: Model,
    hs: Seq<crate::recievers::RecieverS>,
    i: nat,
    s: Scope,
    tag: u64,
    payload: ValueS,
    fuel: nat,
) -> (Model, Option<Error>)
    decreases fuel, hs.len() - i,
{
    if i >= hs.len() {
        (m, None)
    } else {
        let h = hs[i as int];
        if m.borrowed == Some(s) && h.tag == tag {
            if fuel == 0 {
                (m, Some(Error::DepthExceeded))
            } else {
                let (m1, e) = m_apply_reaction(m, h.react, payload, (fuel - 1) as nat);
                match e {
                    Some(err) => (m1, Some(err)),
                    None => m_deliver_list(m1, hs, i + 1, s, tag, payload, fuel),
                }
            }
        } else {
            m_deliver_list(m, hs, i + 1, s, tag, payload, fuel)
        }
    }
}

/// Deliver a message to one scope. The handler list is taken out and the
/// scope marked borrowed for the duration; a handler that disposes the scope
/// mid-delivery clears the marker, which both stops the remaining handlers
/// and prevents the taken list from being re-inserted. Handlers registered
/// during the delivery are kept, after the surviving old ones.
#[verifier::opaque]
pub open spec fn m_deliver(m: Model, s: Scope, tag: u64, payload: ValueS, fuel: nat) -> (
    Model,
    Option<Error>,
)
    decreases fuel, 0nat,
{
    if !live(m, s) {
        (m, None)
    } else if fuel == 0 {
        (m, Some(Error::DepthExceeded))
    } else {
        let hs = node(m, s).recievers;
        let prev_b = m.borrowed;
        let m1 = setn(m, s, NodeRec { recievers: Seq::empty(), ..node(m, s) });
        let m2 = Model { borrowed: Some(s), ..m1 };
        let (m3, e) = m_deliver_list(m2, hs, 0, s, tag, payload, (fuel - 1) as nat);
        let m4 = if m3.borrowed == Some(s) && live(m3, s) {
            setn(m3, s, NodeRec { recievers: hs + node(m3, s).recievers, ..node(m3, s) })
        } else {
            m3
        };
        let m5 = Model { borrowed: prev_b, ..m4 };
        (m5, e)
    }
}

#[verifier::opaque]
pub open spec fn m_send_list(
    m: Model,
    scopes: Seq<Scope>,
    i: nat,
    tag: u64,
    payload: ValueS,
    fuel: nat,
) -> (Model, Option<Error>)
    decreases fuel, scopes.len() - i,
{
    if i >= scopes.len() {
        (m, None)
    } else if fuel == 0 {
        (m, Some(Error::DepthExceeded))
    } else {
        let (m1, e) = m_deliver(m, scopes[i as int], tag, payload, (fuel - 1) as nat);
        match e {
            Some(err) => (m1, Some(err)),
            None => m_send_list(m1, scopes, i + 1, tag, payload, fuel),
        }
    }
}

/// Send a message from the current scope: synchronous fan-out to the scope
/// itself and its whole live subtree, in ownership order.
#[verifier::opaque]
pub open spec fn m_send(m: Model, tag: u64, payload: ValueS, fuel: nat) -> (
    Model,
    Option<Error>,
)
    decreases fuel, 0nat,
{
    match m.tracker {
        None => (m, Some(Error::OutsideTrackingScope)),
        Some(s) => {
            if fuel == 0 {
                (m, Some(Error::DepthExceeded))
            } else {
                m_send_list(m, seq![s] + m_collect(m, s), 0, tag, payload, (fuel - 1) as nat)
            }
        }
    }
}

/// Create a storage cell owned by the current scope.
#[verifier::opaque]
pub open spec fn m_create_value(m: Model, v: ValueS) -> (Model, Result<ValueS, Error>) {
    match m.tracker {
        None => (m, Err(Error::OutsideTrackingScope)),
        Some(p) => {
            if m.next_stamp == u64::MAX {
                (m, Err(Error::DepthExceeded))
            } else {
                let h = fresh(m);
                let rec = NodeRec {
                    value: Some(v),
                    parent: Some(p),
                    stamp: m.next_stamp,
                    ..crate::nodes::blank_node(m.next_stamp)
                };
                let m1 = Model {
                    nodes: insert_slots(m.nodes, rec),
                    next_stamp: (m.next_stamp + 1) as u64,
                    ..m
                };
                let m2 = if live(m1, p) {
                    setn(m1, p, NodeRec { children: node(m1, p).children.push(h), ..node(m1, p) })
                } else {
                    m1
                };
                (m2, Ok(ValueS::Node(h)))
            }
        }
    }
}

/// Create a derived cell: a bare node is inserted and owned by the current
/// scope, then its closure runs once attributed to it, and closure and result
/// are stored.
#[verifier::opaque]
pub open spec fn m_create_derived(m: Model, comp: ComputeS, policy: Policy, fuel: nat) -> (
    Model,
    Result<ValueS, Error>,
)
    decreases fuel, 0nat,
{
    match m.tracker {
        None => (m, Err(Error::OutsideTrackingScope)),
        Some(p) => {
            if m.next_stamp == u64::MAX {
                (m, Err(Error::DepthExceeded))
            } else if fuel == 0 {
                (m, Err(Error::DepthExceeded))
            } else {
                let h = fresh(m);
                let rec = NodeRec {
                    parent: Some(p),
                    policy,
                    stamp: m.next_stamp,
                    ..crate::nodes::blank_node(m.next_stamp)
                };
                let m1 = Model {
                    nodes: insert_slots(m.nodes, rec),
                    next_stamp: (m.next_stamp + 1) as u64,
                    ..m
                };
                let m2 = if live(m1, p) {
                    setn(m1, p, NodeRec { children: node(m1, p).children.push(h), ..node(m1, p) })
                } else {
                    m1
                };
                let m3 = Model { tracker: Some(h), ..m2 };
                let (m4, r) = m_eval(m3, comp.env, comp.body, (fuel - 1) as nat);
                let m5 = Model { tracker: m.tracker, ..m4 };
                match r {
                    Err(e) => (m5, Err(e)),
                    Ok(v) => {
                        if live(m5, h) {
                            (
                                setn(
                                    m5,
                                    h,
                                    NodeRec {
                                        value: Some(v),
                                        compute: Some(comp),
                                        runs: 1,
                                        ..node(m5, h)
                                    },
                                ),
                                Ok(ValueS::Node(h)),
                            )
                        } else {
                            (m5, Err(Error::Disposed))
                        }
                    }
                }
            }
        }
    }
}

/// Register a cleanup on the current scope: resolved to its target at
/// registration time, like capture by value.
pub open spec fn m_register_cleanup(m: Model, target: Scope, op: ReactOpS) -> (
    Model,
    Result<ValueS, Error>,
) {
    match m.tracker {
        None => (m, Err(Error::OutsideTrackingScope)),
        Some(cur) => {
            if live(m, cur) {
                (
                    setn(
                        m,
                        cur,
                        NodeRec {
                            cleanups: node(m, cur).cleanups.push(ReactionS { target, op }),
                            ..node(m, cur)
                        },
                    ),
                    Ok(ValueS::Unit),
                )
            } else {
                (m, Ok(ValueS::Unit))
            }
        }
    }
}

/// Register a receiver for a message tag on the current scope.
pub open spec fn m_register_receiver(m: Model, tag: u64, target: Scope, op: ReactOpS) -> (
    Model,
    Result<ValueS, Error>,
) {
    match m.tracker {
        None => (m, Err(Error::OutsideTrackingScope)),
        Some(cur) => {
            if live(m, cur) {
                (
                    setn(
                        m,
                        cur,
                        NodeRec {
                            recievers: node(m, cur).recievers.push(
                                crate::recievers::RecieverS {
                                    tag,
                                    react: ReactionS { target, op },
                                },
                            ),
                            ..node(m, cur)
                        },
                    ),
                    Ok(ValueS::Unit),
                )
            } else {
                (m, Ok(ValueS::Unit))
            }
        }
    }
}

/// The recompute count of a node, as an observation.
pub open spec fn m_runs_of(m: Model, h: Scope) -> Result<ValueS, Error> {
    if live(m, h) {
        Ok(ValueS::Int(runs_as_int(node(m, h).runs)))
    } else {
        Err(Error::Disposed)
    }
}

/// Evaluate a program in an environment, attributed to the current cursor.
#[verifier::opaque]
pub open spec fn m_eval(m: Model, env: Seq<(u64, ValueS)>, e: ExprS, fuel: nat) -> (
    Model,
    Result<ValueS, Error>,
)
    decreases fuel, esize(e),
{
    match e {
        ExprS::Const(v) => (m, Ok(v)),
        ExprS::Var(x) => match env_lookup(env, x) {
            Some(v) => (m, Ok(v)),
            None => (m, Err(Error::TypeMismatch)),
        },
        ExprS::Let(x, a, b) => {
            let (m1, ra) = m_eval(m, env, *a, fuel);
            match ra {
                Err(err) => (m1, Err(err)),
                Ok(va) => m_eval(m1, env.push((x, va)), *b, fuel),
            }
        }
        ExprS::If(c, a, b) => {
            let (m1, rc) = m_eval(m, env, *c, fuel);
            match rc {
                Err(err) => (m1, Err(err)),
                Ok(ValueS::Bool(true)) => m_eval(m1, env, *a, fuel),
                Ok(ValueS::Bool(false)) => m_eval(m1, env, *b, fuel),
                Ok(_) => (m1, Err(Error::TypeMismatch)),
            }
        }
        ExprS::Un(op, a) => {
            let (m1, ra) = m_eval(m, env, *a, fuel);
            match ra {
                Err(err) => (m1, Err(err)),
                Ok(va) => match apply_un(op, va) {
                    Some(v) => (m1, Ok(v)),
                    None => (m1, Err(Error::TypeMismatch)),
                },
            }
        }
        ExprS::Bin(op, a, b) => {
            let (m1, ra) = m_eval(m, env, *a, fuel);
            match ra {
                Err(err) => (m1, Err(err)),
                Ok(va) => {
                    let (m2, rb) = m_eval(m1, env, *b, fuel);
                    match rb {
                        Err(err) => (m2, Err(err)),
                        Ok(vb) => match apply_bin(op, va, vb) {
                            Some(v) => (m2, Ok(v)),
                            None => (m2, Err(Error::TypeMismatch)),
                        },
                    }
                }
            }
        }
        ExprS::Read(a) => {
            let (m1, ra) = m_eval(m, env, *a, fuel);
            match ra {
                Err(err) => (m1, Err(err)),
                Ok(ValueS::Node(h)) => {
                    if fuel == 0 {
                        (m1, Err(Error::DepthExceeded))
                    } else {
                        m_read(m1, h, (fuel - 1) as nat)
                    }
                }
                Ok(_) => (m1, Err(Error::TypeMismatch)),
            }
        }
        ExprS::Runs(a) => {
            let (m1, ra) = m_eval(m, env, *a, fuel);
            match ra {
                Err(err) => (m1, Err(err)),
                Ok(ValueS::Node(h)) => (m1, m_runs_of(m1, h)),
                Ok(_) => (m1, Err(Error::TypeMismatch)),
            }
        }
        ExprS::Write(a, b) => {
            let (m1, ra) = m_eval(m, env, *a, fuel);
            match ra {
                Err(err) => (m1, Err(err)),
                Ok(ValueS::Node(h)) => {
                    let (m2, rb) = m_eval(m1, env, *b, fuel);
                    match rb {
                        Err(err) => (m2, Err(err)),
                        Ok(vb) => {
                            if fuel == 0 {
                                (m2, Err(Error::DepthExceeded))
                            } else {
                                let (m3, e3) = m_update(m2, h, vb, (fuel - 1) as nat);
                                match e3 {
                                    Some(err) => (m3, Err(err)),
                                    None => (m3, Ok(ValueS::Unit)),
                                }
                            }
                        }
                    }
                }
                Ok(_) => (m1, Err(Error::TypeMismatch)),
            }
        }
        ExprS::CreateSignal(a) => {
            let (m1, ra) = m_eval(m, env, *a, fuel);
            match ra {
                Err(err) => (m1, Err(err)),
                Ok(va) => m_create_value(m1, va),
            }
        }
        ExprS::CreateMemo(a) => {
            if fuel == 0 {
                (m, Err(Error::DepthExceeded))
            } else {
                m_create_derived(
                    m,
                    ComputeS { body: *a, env },
                    Policy::Memo,
                    (fuel - 1) as nat,
                )
            }
        }
        ExprS::CreateSelector(a) => {
            if fuel == 0 {
                (m, Err(Error::DepthExceeded))
            } else {
                m_create_derived(
                    m,
                    ComputeS { body: *a, env },
                    Policy::Selector,
                    (fuel - 1) as nat,
                )
            }
        }
        ExprS::OnCleanup(a, op) => {
            let (m1, ra) = m_eval(m, env, *a, fuel);
            match ra {
                Err(err) => (m1, Err(err)),
                Ok(ValueS::Node(target)) => m_register_cleanup(m1, target, op),
                Ok(_) => (m1, Err(Error::TypeMismatch)),
            }
        }
        ExprS::OnMsg(tag, a, op) => {
            let (m1, ra) = m_eval(m, env, *a, fuel);
            match ra {
                Err(err) => (m1, Err(err)),
                Ok(ValueS::Node(target)) => m_register_receiver(m1, tag, target, op),
                Ok(_) => (m1, Err(Error::TypeMismatch)),
            }
        }
        ExprS::Send(tag, a) => {
            let (m1, ra) = m_eval(m, env, *a, fuel);
            match ra {
                Err(err) => (m1, Err(err)),
                Ok(payload) => {
                    if fuel == 0 {
                        (m1, Err(Error::DepthExceeded))
                    } else {
                        let (m2, e2) = m_send(m1, tag, payload, (fuel - 1) as nat);
                        match e2 {
                            Some(err) => (m2, Err(err)),
                            None => (m2, Ok(ValueS::Unit)),
                        }
                    }
                }
            }
        }
    }
}

/// Context lookup: innermost entry at the starting scope, else up the
/// ownership-parent chain; the dependency graph is never consulted.
#[verifier::opaque]
pub open spec fn m_get_context(m: Model, id: Scope, tag: u64) -> Option<ValueS>
    decreases (if live(m, id) { node(m, id).stamp as int } else { 0int }),
{
    if !live(m, id) {
        None
    } else {
        match env_lookup(node(m, id).contexts, tag) {
            Some(v) => Some(v),
            None => match node(m, id).parent {
                Some(p) => {
                    if live(m, p) && node(m, p).stamp < node(m, id).stamp {
                        m_get_context(m, p, tag)
                    } else {
                        None
                    }
                }
                None => None,
            },
        }
    }
}

} // verus!
