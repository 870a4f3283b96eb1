//! The graph engine: creation, recomputation, invalidation propagation,
//! disposal, context lookup and message delivery, over one arena of nodes.
//! Every operation is proved to match the corresponding function of
//! [`crate::model`] exactly.
use vstd::prelude::*;
use crate::arena::Handle;
use crate::errors::Error;
use crate::expr::{BinOp, Env, Expr, Reaction, ReactOp, UnOp, env_clone, env_view, esize, eview, lookup};
use crate::model::{
    Model, apply_bin, apply_un, bump_runs, deln, fresh, live, m_apply_reaction, m_cleanup_list,
    m_collect, m_collect_from, m_create_derived, m_create_value, m_deliver, m_deliver_list,
    m_dispose_children, m_dispose_list, m_dispose_node, m_eval, m_get_context, m_propagate,
    m_prune_dependants, m_read, m_read_untracked, m_receiver_dispose, m_recompute,
    m_recompute_node, m_register_read, m_run_cleanups, m_run_reactions, m_send, m_send_list,
    m_register_cleanup, m_register_receiver, m_runs_of, m_set_silent, m_update, node,
    react_value, runs_as_int, setn,
};
use crate::nodes::{
    Compute, NodeRec, Policy, ReactiveNode, ReactiveNodes, Scope, blank_node, contains_scope,
    retain_without,
};
use crate::recievers::Reciever;
use crate::value::{Value, text_upper, text_lower, text_concat};

verus! {

/// Propagation budget of one public operation: bounds the depth of the
/// recomputation cascade so that a cyclic dependency is rejected with
/// [`Error::DepthExceeded`] instead of looping.
pub const DEFAULT_FUEL: u64 = 4096;

/// One reactive graph: the node arena, the tracking cursor, the bus's
/// reentrancy marker and the creation-order counter. There is no hidden
/// global: callers pass the runtime explicitly, so several graphs can exist
/// side by side.
pub struct Runtime {
    pub nodes: ReactiveNodes,
    pub tracker: Option<Scope>,
    pub borrowed: Option<Scope>,
    pub next_stamp: u64,
}

impl View for Runtime {
    type V = Model;

    open spec fn view(&self) -> Model {
        Model {
            nodes: self.nodes.smodel(),
            tracker: self.tracker,
            borrowed: self.borrowed,
            next_stamp: self.next_stamp,
        }
    }
}

/// View of an evaluation result.
pub open spec fn res_view(r: Result<Value, Error>) -> Result<crate::value::ValueS, Error> {
    match r {
        Ok(v) => Ok(v@),
        Err(e) => Err(e),
    }
}

/// View of a recompute-step result.
pub open spec fn deps_view(r: Result<Vec<Scope>, Error>) -> Result<Seq<Scope>, Error> {
    match r {
        Ok(v) => Ok(v@),
        Err(e) => Err(e),
    }
}

impl Runtime {
    pub fn new() -> (r: Runtime)
        ensures
            r@ == (Model {
                nodes: Seq::<(u64, Option<NodeRec>)>::empty(),
                tracker: None::<Scope>,
                borrowed: None::<Scope>,
                next_stamp: 0u64,
            }),
    {
        let r = Runtime {
            nodes: ReactiveNodes::new(),
            tracker: None,
            borrowed: None,
            next_stamp: 0,
        };
        proof {
            assert(r@ =~~= Model {
                nodes: Seq::<(u64, Option<NodeRec>)>::empty(),
                tracker: None::<Scope>,
                borrowed: None::<Scope>,
                next_stamp: 0u64,
            });
        }
        r
    }

    /// The scope all reads and creations are currently attributed to.
    pub fn get_current_scope(&self) -> (r: Option<Scope>)
        ensures
            r == self@.tracker,
    {
        self.tracker
    }

    /// Number of live nodes in the graph.
    pub fn node_count(&self) -> (r: usize)
        ensures
            r == self.nodes.arena.occupied_upto(self@.nodes.len() as int),
    {
        self.nodes.len()
    }

    /// Untracked read: hand out a clone of the cached value.
    pub fn read_untracked(&self, h: Scope) -> (r: Result<Value, Error>)
        ensures
            res_view(r) == m_read_untracked(self@, h),
    {
        match self.nodes.arena.get(h) {
            None => Err(Error::Disposed),
            Some(nd) => match &nd.value {
                Some(v) => Ok(v.clone_value()),
                None => Err(Error::Disposed),
            },
        }
    }

    /// Register the current cursor as a dependant of `target`.
    /// Only called with a live target.
    fn register_read(&mut self, target: Scope, cur: Scope)
        requires
            live(old(self)@, target),
        ensures
            final(self)@ == m_register_read(old(self)@, target, cur),
    {
        let mut nd = match self.nodes.arena.take(target) {
            Some(nd) => nd,
            None => {
                proof {
                    assert(false);
                }
                return ;
            }
        };
        if contains_scope(&nd.dependants, cur) {
            let ok = self.nodes.arena.put(target, nd);
            proof {
                assert(ok);
                assert(final(self)@ =~~= m_register_read(old(self)@, target, cur));
            }
        } else {
            nd.dependants.push(cur);
            let ok = self.nodes.arena.put(target, nd);
            proof {
                assert(ok);
                assert(final(self)@ =~~= m_register_read(old(self)@, target, cur));
            }
        }
    }

    /// Store a value without propagation.
    pub fn set_silent(&mut self, h: Scope, v: Value) -> (r: Option<Error>)
        ensures
            ({
                let (m2, e) = m_set_silent(old(self)@, h, v@);
                final(self)@ == m2 && r == e
            }),
    {
        match self.nodes.arena.take(h) {
            None => Some(Error::Disposed),
            Some(mut nd) => {
                nd.value = Some(v);
                let ok = self.nodes.arena.put(h, nd);
                proof {
                    assert(ok);
                    assert(final(self)@ =~~= m_set_silent(old(self)@, h, v@).0);
                }
                None
            }
        }
    }

    /// The owned subtree below the scopes of `ids[i..]`, deepest first.
    fn collect_from(&self, pstamp: u64, ids: &Vec<Scope>, i: usize) -> (r: Vec<Scope>)
        requires
            pstamp < self@.next_stamp,
        ensures
            r@ == m_collect_from(self@, pstamp, ids@, i as nat),
        decreases self@.next_stamp - pstamp, ids@.len() - i,
    {
        proof {
            reveal_with_fuel(m_collect_from, 1);
        }
        if i >= ids.len() {
            let r: Vec<Scope> = Vec::new();
            proof {
                assert(r@ =~~= m_collect_from(self@, pstamp, ids@, i as nat));
            }
            return r;
        }
        let c = ids[i];
        let mut head: Vec<Scope> = Vec::new();
        match self.nodes.arena.get(c) {
            Some(nd) => {
                if nd.stamp > pstamp && nd.stamp < self.next_stamp {
                    head = self.collect_from(nd.stamp, &nd.children, 0);
                    head.push(c);
                }
            }
            None => {}
        }
        let mut tail = self.collect_from(pstamp, ids, i + 1);
        head.append(&mut tail);
        proof {
            assert(head@ =~~= m_collect_from(self@, pstamp, ids@, i as nat));
        }
        head
    }

    /// All live descendants of a scope, deepest first: the recursive child
    /// walk validates every entry and only descends along strictly
    /// increasing creation stamps.
    pub fn get_node_children_recursive(&self, id: Scope) -> (r: Vec<Scope>)
        ensures
            r@ == m_collect(self@, id),
    {
        proof {
            reveal_with_fuel(m_collect_from, 1);
        }
        match self.nodes.arena.get(id) {
            Some(nd) => {
                if nd.stamp < self.next_stamp {
                    self.collect_from(nd.stamp, &nd.children, 0)
                } else {
                    Vec::new()
                }
            }
            None => Vec::new(),
        }
    }

    /// Remove `x` from every node's dependant set.
    pub fn remove_scope_from_dependants(&mut self, x: Scope)
        ensures
            final(self)@ == m_prune_dependants(old(self)@, x),
    {
        proof {
            reveal(m_prune_dependants);
        }
        let n = self.nodes.arena.slot_count();
        let mut i: usize = 0;
        while i < n
            invariant
                n == self@.nodes.len(),
                i <= n,
                self.tracker == old(self).tracker,
                self.borrowed == old(self).borrowed,
                self.next_stamp == old(self).next_stamp,
                self@.nodes.len() == old(self)@.nodes.len(),
                forall|j: int|
                    0 <= j < i ==> self@.nodes[j] == m_prune_dependants(old(self)@, x).nodes[j],
                forall|j: int| i <= j < n ==> self@.nodes[j] == old(self)@.nodes[j],
            decreases n - i,
        {
            proof {
                reveal(m_prune_dependants);
            }
            let ghost pre = self@;
            match self.nodes.arena.take_at(i) {
                Some(mut nd) => {
                    let ghost nv = nd@;
                    retain_without(&mut nd.dependants, x);
                    proof {
                        assert(nd@ =~~= NodeRec {
                            dependants: crate::nodes::remove_scope(nv.dependants, x),
                            ..nv
                        });
                    }
                    self.nodes.arena.put_at(i, nd);
                }
                None => {}
            }
            proof {
                assert(self@.nodes[i as int] == m_prune_dependants(old(self)@, x).nodes[
                    i as int
                ]);
                assert forall|j: int| 0 <= j < i + 1 implies self@.nodes[j]
                    == m_prune_dependants(old(self)@, x).nodes[j] by {
                    if j < i {
                        assert(self@.nodes[j] == pre.nodes[j]);
                        assert(pre.nodes[j] == m_prune_dependants(old(self)@, x).nodes[j]);
                    }
                }
                assert forall|j: int| i + 1 <= j < n implies self@.nodes[j] == old(self)@.nodes[
                    j
                ] by {
                    assert(self@.nodes[j] == pre.nodes[j]);
                }
            }
            i += 1;
        }
        proof {
            reveal(m_prune_dependants);
            assert(final(self)@ =~~= m_prune_dependants(old(self)@, x));
        }
    }

    /// Drop a scope's bus subscriptions, honouring the reentrancy marker.
    pub fn receiver_dispose(&mut self, x: Scope)
        ensures
            final(self)@ == m_receiver_dispose(old(self)@, x),
    {
        if self.borrowed == Some(x) {
            self.borrowed = None;
            proof {
                assert(final(self)@ =~~= m_receiver_dispose(old(self)@, x));
            }
        } else {
            match self.nodes.arena.take(x) {
                Some(mut nd) => {
                    nd.recievers = Vec::new();
                    let ok = self.nodes.arena.put(x, nd);
                    proof {
                        assert(ok);
                        assert(final(self)@ =~~= m_receiver_dispose(old(self)@, x));
                    }
                }
                None => {
                    proof {
                        assert(final(self)@ =~~= m_receiver_dispose(old(self)@, x));
                    }
                }
            }
        }
    }

    /// Dispose one scope: bus state cleared, incoming edges pruned, slot
    /// removed with its generation bumped.
    pub fn dispose(&mut self, x: Scope)
        ensures
            final(self)@ == m_dispose_node(old(self)@, x),
    {
        proof {
            reveal(m_dispose_node);
            reveal(m_prune_dependants);
        }
        if !self.nodes.arena.contains(x) {
            return ;
        }
        self.receiver_dispose(x);
        self.remove_scope_from_dependants(x);
        let _ = self.nodes.arena.remove(x);
        proof {
            assert(final(self)@ =~~= m_dispose_node(old(self)@, x));
        }
    }

    fn dispose_list(&mut self, ids: &Vec<Scope>, i: usize)
        ensures
            final(self)@ == m_dispose_list(old(self)@, ids@, i as nat),
        decreases ids@.len() - i,
    {
        proof {
            reveal_with_fuel(m_dispose_list, 1);
        }
        if i >= ids.len() {
            return ;
        }
        self.dispose(ids[i]);
        self.dispose_list(ids, i + 1);
    }

    /// Dispose a scope's owned subtree and forget its child list.
    pub fn dispose_of_children(&mut self, id: Scope)
        ensures
            final(self)@ == m_dispose_children(old(self)@, id),
    {
        proof {
            reveal(m_dispose_children);
        }
        let subtree = self.get_node_children_recursive(id);
        self.dispose_list(&subtree, 0);
        match self.nodes.arena.take(id) {
            Some(mut nd) => {
                nd.children = Vec::new();
                let ok = self.nodes.arena.put(id, nd);
                proof {
                    assert(ok);
                    assert(final(self)@ =~~= m_dispose_children(old(self)@, id));
                }
            }
            None => {
                proof {
                    assert(final(self)@ =~~= m_dispose_children(old(self)@, id));
                }
            }
        }
    }

    /// Tracked read: register the edge from the read node to the current
    /// cursor, repair staleness if needed, and hand out a clone of the cache.
    #[verifier::rlimit(50)]
    #[verifier::spinoff_prover]
    pub fn read(&mut self, h: Scope, fuel: u64) -> (r: Result<Value, Error>)
        ensures
            ({
                let (m2, rr) = m_read(old(self)@, h, fuel as nat);
                final(self)@ == m2 && res_view(r) == rr
            }),
        decreases fuel, 0int,
    {
        proof {
            reveal_with_fuel(m_read, 1);
        }
        let cur = match self.tracker {
            None => {
                return Err(Error::OutsideTrackingScope);
            }
            Some(c) => c,
        };
        if !self.nodes.arena.contains(h) {
            return Err(Error::Disposed);
        }
        self.register_read(h, cur);
        let stale = match self.nodes.arena.get(h) {
            Some(nd) => nd.stale,
            None => false,
        };
        if stale {
            if fuel == 0 {
                return Err(Error::DepthExceeded);
            }
            match self.recompute(h, fuel - 1) {
                Some(e) => Err(e),
                None => self.read_untracked(h),
            }
        } else {
            self.read_untracked(h)
        }
    }

    /// Recompute one node, then its released dependants, depth-first.
    #[verifier::rlimit(50)]
    #[verifier::spinoff_prover]
    pub fn recompute(&mut self, id: Scope, fuel: u64) -> (r: Option<Error>)
        ensures
            ({
                let (m2, e) = m_recompute(old(self)@, id, fuel as nat);
                final(self)@ == m2 && r == e
            }),
        decreases fuel, 0int,
    {
        proof {
            reveal_with_fuel(m_recompute, 1);
        }
        if fuel == 0 {
            return Some(Error::DepthExceeded);
        }
        match self.recompute_node(id, fuel - 1) {
            Err(e) => Some(e),
            Ok(deps) => self.propagate(&deps, 0, fuel - 1),
        }
    }

    #[verifier::rlimit(50)]
    #[verifier::spinoff_prover]
    fn propagate(&mut self, deps: &Vec<Scope>, i: usize, fuel: u64) -> (r: Option<Error>)
        ensures
            ({
                let (m2, e) = m_propagate(old(self)@, deps@, i as nat, fuel as nat);
                final(self)@ == m2 && r == e
            }),
        decreases fuel, deps@.len() - i,
    {
        proof {
            reveal_with_fuel(m_propagate, 1);
        }
        if i >= deps.len() {
            return None;
        }
        if fuel == 0 {
            return Some(Error::DepthExceeded);
        }
        match self.recompute(deps[i], fuel - 1) {
            Some(e) => Some(e),
            None => self.propagate(deps, i + 1, fuel),
        }
    }

    /// One node's recomputation step; returns the dependants it released.
    #[verifier::rlimit(100)]
    #[verifier::spinoff_prover]
    pub fn recompute_node(&mut self, id: Scope, fuel: u64) -> (r: Result<Vec<Scope>, Error>)
        ensures
            ({
                let (m2, rr) = m_recompute_node(old(self)@, id, fuel as nat);
                final(self)@ == m2 && deps_view(r) == rr
            }),
        decreases fuel, 0int,
    {
        proof {
            reveal_with_fuel(m_recompute_node, 1);
            reveal(m_prune_dependants);
        }
        let has_compute = match self.nodes.arena.get(id) {
            None => {
                return Ok(Vec::new());
            }
            Some(nd) => nd.compute.is_some(),
        };
        if !has_compute {
            let mut nd = match self.nodes.arena.take(id) {
                Some(nd) => nd,
                None => {
                    proof {
                        assert(false);
                    }
                    return Ok(Vec::new());
                }
            };
            let deps = nd.dependants;
            nd.dependants = Vec::new();
            nd.stale = false;
            let ok = self.nodes.arena.put(id, nd);
            proof {
                assert(ok);
                assert(final(self)@ =~~= m_recompute_node(old(self)@, id, fuel as nat).0);
            }
            return Ok(deps);
        }
        if fuel == 0 {
            return Err(Error::DepthExceeded);
        }
        let mut nd = match self.nodes.arena.take(id) {
            Some(nd) => nd,
            None => {
                proof {
                    assert(false);
                }
                return Ok(Vec::new());
            }
        };
        let comp_opt = nd.compute;
        nd.compute = None;
        let comp = match comp_opt {
            Some(c) => c,
            None => {
                proof {
                    assert(false);
                }
                return Ok(Vec::new());
            }
        };
        let ghost compv = comp@;
        let prev = nd.value;
        let ghost prevv = (match prev {
            Some(ref pv) => Some(pv@),
            None => None::<crate::value::ValueS>,
        });
        nd.value = None;
        nd.stale = true;
        let ok1 = self.nodes.arena.put(id, nd);
        proof {
            assert(ok1);
            assert(compv == node(old(self)@, id).compute.unwrap());
            assert(prevv == node(old(self)@, id).value);
            assert(self@ =~~= setn(
                old(self)@,
                id,
                NodeRec {
                    compute: None,
                    value: None,
                    stale: true,
                    ..node(old(self)@, id)
                },
            ));
        }
        match self.run_cleanups(id, fuel - 1) {
            Some(e) => {
                return Err(e);
            }
            None => {}
        }
        self.dispose_of_children(id);
        self.remove_scope_from_dependants(id);
        self.receiver_dispose(id);
        let saved = self.tracker;
        self.tracker = Some(id);
        let rr = self.eval(&comp.env, &comp.body, fuel - 1);
        self.tracker = saved;
        let ghost m8v = self@;
        match rr {
            Err(e) => {
                match self.nodes.arena.take(id) {
                    Some(mut nd8) => {
                        nd8.compute = Some(comp);
                        let ok = self.nodes.arena.put(id, nd8);
                        proof {
                            assert(ok);
                            assert(self@ =~~= setn(
                                m8v,
                                id,
                                NodeRec { compute: Some(compv), ..node(m8v, id) },
                            ));
                            assert(final(self)@ =~~= m_recompute_node(
                                old(self)@,
                                id,
                                fuel as nat,
                            ).0);
                        }
                    }
                    None => {}
                }
                Err(e)
            }
            Ok(v) => {
                match self.nodes.arena.take(id) {
                    None => Ok(Vec::new()),
                    Some(mut nd8) => {
                        let cutoff = nd8.policy == Policy::Selector && (match &prev {
                            Some(pv) => pv.eq_value(&v),
                            None => false,
                        });
                        nd8.runs = if nd8.runs < u64::MAX {
                            nd8.runs + 1
                        } else {
                            nd8.runs
                        };
                        if cutoff {
                            nd8.compute = Some(comp);
                            nd8.value = prev;
                            nd8.stale = false;
                            let ok = self.nodes.arena.put(id, nd8);
                            proof {
                                assert(ok);
                                assert(self@ =~~= setn(
                                    m8v,
                                    id,
                                    NodeRec {
                                        compute: Some(compv),
                                        value: prevv,
                                        stale: false,
                                        runs: bump_runs(node(m8v, id).runs),
                                        ..node(m8v, id)
                                    },
                                ));
                                assert(final(self)@ =~~= m_recompute_node(
                                    old(self)@,
                                    id,
                                    fuel as nat,
                                ).0);
                            }
                            Ok(Vec::new())
                        } else {
                            let deps = nd8.dependants;
                            nd8.dependants = Vec::new();
                            nd8.compute = Some(comp);
                            nd8.value = Some(v);
                            nd8.stale = false;
                            let ok = self.nodes.arena.put(id, nd8);
                            proof {
                                assert(ok);
                                assert(deps@ == node(m8v, id).dependants);
                                assert(self@ =~~= setn(
                                    m8v,
                                    id,
                                    NodeRec {
                                        compute: Some(compv),
                                        value: Some(v@),
                                        stale: false,
                                        runs: bump_runs(node(m8v, id).runs),
                                        dependants: Seq::empty(),
                                        ..node(m8v, id)
                                    },
                                ));
                                assert(final(self)@ =~~= m_recompute_node(
                                    old(self)@,
                                    id,
                                    fuel as nat,
                                ).0);
                            }
                            Ok(deps)
                        }
                    }
                }
            }
        }
    }

    /// Write a value, then recompute the dependants the write released.
    #[verifier::rlimit(50)]
    #[verifier::spinoff_prover]
    pub fn update_value(&mut self, h: Scope, v: Value, fuel: u64) -> (r: Option<Error>)
        ensures
            ({
                let (m2, e) = m_update(old(self)@, h, v@, fuel as nat);
                final(self)@ == m2 && r == e
            }),
        decreases fuel, 0int,
    {
        proof {
            reveal_with_fuel(m_update, 1);
        }
        match self.set_silent(h, v) {
            Some(e) => Some(e),
            None => {
                if fuel == 0 {
                    Some(Error::DepthExceeded)
                } else {
                    self.recompute(h, fuel - 1)
                }
            }
        }
    }

    /// Fire one deferred action at its target.
    #[verifier::rlimit(100)]
    #[verifier::spinoff_prover]
    fn apply_reaction(&mut self, r: &Reaction, payload: &Value, fuel: u64) -> (res: Option<
        Error,
    >)
        ensures
            ({
                let (m2, e) = m_apply_reaction(old(self)@, r@, payload@, fuel as nat);
                final(self)@ == m2 && res == e
            }),
        decreases fuel, 0int,
    {
        proof {
            reveal_with_fuel(m_apply_reaction, 1);
        }
        let nv: Option<Value> = match self.nodes.arena.get(r.target) {
            None => {
                return None;
            }
            Some(nd) => match &r.op {
                ReactOp::SetPayload => Some(payload.clone_value()),
                ReactOp::AddPayload => match (&nd.value, payload) {
                    (Some(Value::Int(a)), Value::Int(b)) => Some(
                        Value::Int(a.wrapping_add(*b)),
                    ),
                    _ => None,
                },
                ReactOp::SetConst(v) => Some(v.clone_value()),
                ReactOp::AddConst(v) => match (&nd.value, v) {
                    (Some(Value::Int(a)), Value::Int(b)) => Some(
                        Value::Int(a.wrapping_add(*b)),
                    ),
                    _ => None,
                },
                ReactOp::SetTagged(t) => Some(
                    Value::PairV(Box::new(t.clone_value()), Box::new(payload.clone_value())),
                ),
            },
        };
        match nv {
            None => Some(Error::TypeMismatch),
            Some(nv) => {
                if fuel == 0 {
                    Some(Error::DepthExceeded)
                } else {
                    self.update_value(r.target, nv, fuel - 1)
                }
            }
        }
    }

    #[verifier::rlimit(50)]
    #[verifier::spinoff_prover]
    fn run_reactions(
        &mut self,
        rs: &Vec<Reaction>,
        i: usize,
        payload: &Value,
        fuel: u64,
    ) -> (res: Option<Error>)
        ensures
            ({
                let (m2, e) = m_run_reactions(
                    old(self)@,
                    rs@.map_values(|x: Reaction| x@),
                    i as nat,
                    payload@,
                    fuel as nat,
                );
                final(self)@ == m2 && res == e
            }),
        decreases fuel, rs@.len() - i,
    {
        proof {
            reveal_with_fuel(m_run_reactions, 1);
        }
        if i >= rs.len() {
            return None;
        }
        if fuel == 0 {
            return Some(Error::DepthExceeded);
        }
        match self.apply_reaction(&rs[i], payload, fuel - 1) {
            Some(e) => Some(e),
            None => self.run_reactions(rs, i + 1, payload, fuel),
        }
    }

    #[verifier::rlimit(50)]
    #[verifier::spinoff_prover]
    fn cleanup_list(&mut self, ids: &Vec<Scope>, i: usize, fuel: u64) -> (res: Option<Error>)
        ensures
            ({
                let (m2, e) = m_cleanup_list(old(self)@, ids@, i as nat, fuel as nat);
                final(self)@ == m2 && res == e
            }),
        decreases fuel, ids@.len() - i,
    {
        proof {
            reveal_with_fuel(m_cleanup_list, 1);
        }
        if i >= ids.len() {
            return None;
        }
        if fuel == 0 {
            return Some(Error::DepthExceeded);
        }
        let x = ids[i];
        match self.nodes.arena.take(x) {
            Some(mut nd) => {
                let cs = nd.cleanups;
                nd.cleanups = Vec::new();
                let ok = self.nodes.arena.put(x, nd);
                proof {
                    assert(ok);
                    assert(self@ =~~= setn(
                        old(self)@,
                        x,
                        NodeRec { cleanups: Seq::empty(), ..node(old(self)@, x) },
                    ));
                }
                match self.run_reactions(&cs, 0, &Value::Unit, fuel - 1) {
                    Some(e) => Some(e),
                    None => self.cleanup_list(ids, i + 1, fuel),
                }
            }
            None => self.cleanup_list(ids, i + 1, fuel),
        }
    }

    /// Run the one-shot cleanups of a scope's owned subtree and then its
    /// own, children before their owner; each list is taken before it runs.
    #[verifier::rlimit(50)]
    #[verifier::spinoff_prover]
    pub fn run_cleanups(&mut self, id: Scope, fuel: u64) -> (res: Option<Error>)
        ensures
            ({
                let (m2, e) = m_run_cleanups(old(self)@, id, fuel as nat);
                final(self)@ == m2 && res == e
            }),
        decreases fuel, 0int,
    {
        proof {
            reveal_with_fuel(m_run_cleanups, 1);
        }
        if fuel == 0 {
            return Some(Error::DepthExceeded);
        }
        let mut list = self.get_node_children_recursive(id);
        list.push(id);
        proof {
            assert(list@ =~~= m_collect(old(self)@, id) + seq![id]);
        }
        self.cleanup_list(&list, 0, fuel - 1)
    }

    #[verifier::rlimit(50)]
    #[verifier::spinoff_prover]
    fn deliver_list(
        &mut self,
        hs: &Vec<Reciever>,
        i: usize,
        s: Scope,
        tag: u64,
        payload: &Value,
        fuel: u64,
    ) -> (res: Option<Error>)
        ensures
            ({
                let (m2, e) = m_deliver_list(
                    old(self)@,
                    hs@.map_values(|x: Reciever| x@),
                    i as nat,
                    s,
                    tag,
                    payload@,
                    fuel as nat,
                );
                final(self)@ == m2 && res == e
            }),
        decreases fuel, hs@.len() - i,
    {
        proof {
            reveal_with_fuel(m_deliver_list, 1);
        }
        if i >= hs.len() {
            return None;
        }
        let fire = self.borrowed == Some(s) && hs[i].tag == tag;
        if fire {
            if fuel == 0 {
                return Some(Error::DepthExceeded);
            }
            match self.apply_reaction(&hs[i].react, payload, fuel - 1) {
                Some(e) => Some(e),
                None => self.deliver_list(hs, i + 1, s, tag, payload, fuel),
            }
        } else {
            self.deliver_list(hs, i + 1, s, tag, payload, fuel)
        }
    }

    /// Deliver a message to one scope under the reentrancy guard.
    #[verifier::rlimit(100)]
    #[verifier::spinoff_prover]
    fn deliver(&mut self, s: Scope, tag: u64, payload: &Value, fuel: u64) -> (res: Option<
        Error,
    >)
        ensures
            ({
                let (m2, e) = m_deliver(old(self)@, s, tag, payload@, fuel as nat);
                final(self)@ == m2 && res == e
            }),
        decreases fuel, 0int,
    {
        proof {
            reveal_with_fuel(m_deliver, 1);
        }
        let mut nd = match self.nodes.arena.take(s) {
            Some(nd) => nd,
            None => {
                return None;
            }
        };
        if fuel == 0 {
            let ok = self.nodes.arena.put(s, nd);
            proof {
                assert(ok);
                assert(final(self)@ =~~= old(self)@);
            }
            return Some(Error::DepthExceeded);
        }
        let ghost hs_s = node(old(self)@, s).recievers;
        let hs = nd.recievers;
        nd.recievers = Vec::new();
        proof {
            assert(hs@.map_values(|x: Reciever| x@) =~~= hs_s);
        }
        let ok = self.nodes.arena.put(s, nd);
        let prev_b = self.borrowed;
        self.borrowed = Some(s);
        proof {
            assert(ok);
            assert(self@ =~~= Model {
                borrowed: Some(s),
                ..setn(
                    old(self)@,
                    s,
                    NodeRec { recievers: Seq::empty(), ..node(old(self)@, s) },
                )
            });
        }
        let e = self.deliver_list(&hs, 0, s, tag, payload, fuel - 1);
        let ghost m3v = self@;
        let alive = self.nodes.arena.contains(s);
        proof {
            assert(alive == live(m3v, s));
        }
        let reinsert = self.borrowed == Some(s) && alive;
        if reinsert {
            match self.nodes.arena.take(s) {
                Some(mut nd3) => {
                    let mut merged = hs;
                    let mut newer = nd3.recievers;
                    merged.append(&mut newer);
                    proof {
                        assert(merged@.map_values(|x: Reciever| x@) =~~= hs_s + node(
                            m3v,
                            s,
                        ).recievers);
                    }
                    nd3.recievers = merged;
                    let ok3 = self.nodes.arena.put(s, nd3);
                    proof {
                        assert(ok3);
                        assert(self@ =~~= setn(
                            m3v,
                            s,
                            NodeRec {
                                recievers: hs_s + node(m3v, s).recievers,
                                ..node(m3v, s)
                            },
                        ));
                    }
                }
                None => {
                    proof {
                        assert(false);
                    }
                }
            }
        }
        self.borrowed = prev_b;
        proof {
            assert(final(self)@ =~~= m_deliver(old(self)@, s, tag, payload@, fuel as nat).0);
        }
        e
    }

    #[verifier::rlimit(50)]
    #[verifier::spinoff_prover]
    fn send_list(
        &mut self,
        scopes: &Vec<Scope>,
        i: usize,
        tag: u64,
        payload: &Value,
        fuel: u64,
    ) -> (res: Option<Error>)
        ensures
            ({
                let (m2, e) = m_send_list(
                    old(self)@,
                    scopes@,
                    i as nat,
                    tag,
                    payload@,
                    fuel as nat,
                );
                final(self)@ == m2 && res == e
            }),
        decreases fuel, scopes@.len() - i,
    {
        proof {
            reveal_with_fuel(m_send_list, 1);
        }
        if i >= scopes.len() {
            return None;
        }
        if fuel == 0 {
            return Some(Error::DepthExceeded);
        }
        match self.deliver(scopes[i], tag, payload, fuel - 1) {
            Some(e) => Some(e),
            None => self.send_list(scopes, i + 1, tag, payload, fuel),
        }
    }

    /// Send a typed message from the current scope: synchronous fan-out to
    /// the scope itself and its whole live subtree, in ownership order.
    #[verifier::rlimit(50)]
    #[verifier::spinoff_prover]
    pub fn send(&mut self, tag: u64, payload: &Value, fuel: u64) -> (res: Option<Error>)
        ensures
            ({
                let (m2, e) = m_send(old(self)@, tag, payload@, fuel as nat);
                final(self)@ == m2 && res == e
            }),
        decreases fuel, 0int,
    {
        proof {
            reveal_with_fuel(m_send, 1);
        }
        let s = match self.tracker {
            None => {
                return Some(Error::OutsideTrackingScope);
            }
            Some(s) => s,
        };
        if fuel == 0 {
            return Some(Error::DepthExceeded);
        }
        let mut scopes: Vec<Scope> = Vec::new();
        scopes.push(s);
        let mut rest = self.get_node_children_recursive(s);
        scopes.append(&mut rest);
        proof {
            assert(scopes@ =~~= seq![s] + m_collect(old(self)@, s));
        }
        self.send_list(&scopes, 0, tag, payload, fuel - 1)
    }

    /// Create a storage cell owned by the current scope.
    #[verifier::rlimit(50)]
    #[verifier::spinoff_prover]
    pub fn create_value_node(&mut self, v: Value) -> (r: Result<Value, Error>)
        ensures
            ({
                let (m2, rr) = m_create_value(old(self)@, v@);
                final(self)@ == m2 && res_view(r) == rr
            }),
    {
        proof {
            reveal(m_create_value);
        }
        let p = match self.tracker {
            None => {
                return Err(Error::OutsideTrackingScope);
            }
            Some(p) => p,
        };
        if self.next_stamp == u64::MAX {
            return Err(Error::DepthExceeded);
        }
        let stamp = self.next_stamp;
        let mut nd = ReactiveNode::empty(stamp);
        nd.value = Some(v);
        nd.parent = Some(p);
        proof {
            assert(nd@ =~~= NodeRec {
                value: Some(v@),
                parent: Some(p),
                stamp,
                ..blank_node(stamp)
            });
        }
        let h = self.nodes.arena.insert(nd);
        self.next_stamp = stamp + 1;
        if self.nodes.arena.contains(p) {
            match self.nodes.arena.take(p) {
                Some(mut pn) => {
                    pn.children.push(h);
                    let ok = self.nodes.arena.put(p, pn);
                    proof {
                        assert(ok);
                    }
                }
                None => {
                    proof {
                        assert(false);
                    }
                }
            }
        }
        proof {
            assert(final(self)@ =~~= m_create_value(old(self)@, v@).0);
        }
        Ok(Value::Node(h))
    }

    /// Create a derived cell: a bare node owned by the current scope, whose
    /// closure then runs once attributed to it.
    #[verifier::rlimit(100)]
    #[verifier::spinoff_prover]
    pub fn create_cb_node(&mut self, comp: Compute, policy: Policy, fuel: u64) -> (r: Result<
        Value,
        Error,
    >)
        ensures
            ({
                let (m2, rr) = m_create_derived(old(self)@, comp@, policy, fuel as nat);
                final(self)@ == m2 && res_view(r) == rr
            }),
        decreases fuel, 0int,
    {
        proof {
            reveal_with_fuel(m_create_derived, 1);
        }
        let p = match self.tracker {
            None => {
                return Err(Error::OutsideTrackingScope);
            }
            Some(p) => p,
        };
        if self.next_stamp == u64::MAX {
            return Err(Error::DepthExceeded);
        }
        if fuel == 0 {
            return Err(Error::DepthExceeded);
        }
        let stamp = self.next_stamp;
        let mut nd = ReactiveNode::empty(stamp);
        nd.parent = Some(p);
        nd.policy = policy;
        proof {
            assert(nd@ =~~= NodeRec { parent: Some(p), policy, stamp, ..blank_node(stamp) });
        }
        let h = self.nodes.arena.insert(nd);
        self.next_stamp = stamp + 1;
        proof {
            assert(h == fresh(old(self)@));
            assert(self@ =~~= Model {
                nodes: crate::arena::insert_slots(
                    old(self)@.nodes,
                    NodeRec { parent: Some(p), policy, stamp, ..blank_node(stamp) },
                ),
                next_stamp: (stamp + 1) as u64,
                ..old(self)@
            });
        }
        let ghost m1v = self@;
        let palive = self.nodes.arena.contains(p);
        proof {
            assert(palive == live(m1v, p));
        }
        if palive {
            match self.nodes.arena.take(p) {
                Some(mut pn) => {
                    pn.children.push(h);
                    let ok = self.nodes.arena.put(p, pn);
                    proof {
                        assert(ok);
                        assert(self@ =~~= setn(
                            m1v,
                            p,
                            NodeRec { children: node(m1v, p).children.push(h), ..node(m1v, p) },
                        ));
                    }
                }
                None => {
                    proof {
                        assert(false);
                    }
                }
            }
        }
        let ghost m2v = self@;
        let saved = self.tracker;
        self.tracker = Some(h);
        proof {
            assert(self@ =~~= Model { tracker: Some(h), ..m2v });
        }
        let ghost compv = comp@;
        let rr = self.eval(&comp.env, &comp.body, fuel - 1);
        self.tracker = saved;
        let ghost m5v = self@;
        proof {
            assert(m5v =~~= Model {
                tracker: old(self)@.tracker,
                ..m_eval(
                    Model { tracker: Some(h), ..m2v },
                    compv.env,
                    compv.body,
                    (fuel - 1) as nat,
                ).0
            });
        }
        match rr {
            Err(e) => Err(e),
            Ok(v) => {
                match self.nodes.arena.take(h) {
                    None => Err(Error::Disposed),
                    Some(mut nd5) => {
                        nd5.value = Some(v);
                        nd5.compute = Some(comp);
                        nd5.runs = 1;
                        let ok = self.nodes.arena.put(h, nd5);
                        proof {
                            assert(ok);
                            assert(self@ =~~= setn(
                                m5v,
                                h,
                                NodeRec {
                                    value: Some(v@),
                                    compute: Some(compv),
                                    runs: 1,
                                    ..node(m5v, h)
                                },
                            ));
                            assert(final(self)@ =~~= m_create_derived(
                                old(self)@,
                                compv,
                                policy,
                                fuel as nat,
                            ).0);
                        }
                        Ok(Value::Node(h))
                    }
                }
            }
        }
    }

    /// The recompute count of a node, as an untracked observation.
    pub fn runs_of(&self, h: Scope) -> (r: Result<Value, Error>)
        ensures
            res_view(r) == m_runs_of(self@, h),
    {
        match self.nodes.arena.get(h) {
            Some(nd) => {
                let runs = nd.runs;
                if runs > i64::MAX as u64 {
                    Ok(Value::Int(i64::MAX))
                } else {
                    Ok(Value::Int(runs as i64))
                }
            }
            None => Err(Error::Disposed),
        }
    }

    /// Attach a one-shot teardown action to the current scope.
    pub fn register_cleanup(&mut self, target: Scope, op: &ReactOp) -> (r: Result<Value, Error>)
        ensures
            ({
                let (m2, rr) = m_register_cleanup(old(self)@, target, op@);
                final(self)@ == m2 && res_view(r) == rr
            }),
    {
        let cur = match self.tracker {
            None => {
                return Err(Error::OutsideTrackingScope);
            }
            Some(cur) => cur,
        };
        match self.nodes.arena.take(cur) {
            Some(mut nd) => {
                nd.cleanups.push(Reaction { target, op: op.clone_op() });
                let ok = self.nodes.arena.put(cur, nd);
                proof {
                    assert(ok);
                    assert(final(self)@ =~~= m_register_cleanup(old(self)@, target, op@).0);
                }
            }
            None => {}
        }
        Ok(Value::Unit)
    }

    /// Attach a bus subscription to the current scope.
    pub fn register_receiver(&mut self, tag: u64, target: Scope, op: &ReactOp) -> (r: Result<
        Value,
        Error,
    >)
        ensures
            ({
                let (m2, rr) = m_register_receiver(old(self)@, tag, target, op@);
                final(self)@ == m2 && res_view(r) == rr
            }),
    {
        let cur = match self.tracker {
            None => {
                return Err(Error::OutsideTrackingScope);
            }
            Some(cur) => cur,
        };
        match self.nodes.arena.take(cur) {
            Some(mut nd) => {
                nd.recievers.push(Reciever { tag, react: Reaction { target, op: op.clone_op() } });
                let ok = self.nodes.arena.put(cur, nd);
                proof {
                    assert(ok);
                    assert(final(self)@ =~~= m_register_receiver(
                        old(self)@,
                        tag,
                        target,
                        op@,
                    ).0);
                }
            }
            None => {}
        }
        Ok(Value::Unit)
    }

    /// Evaluate a program in an environment, attributed to the current
    /// cursor: reads register edges, creations attach children, writes
    /// propagate, registrations attach to the cursor's scope.
    #[verifier::rlimit(100)]
    #[verifier::spinoff_prover]
    pub fn eval(&mut self, env: &Env, e: &Expr, fuel: u64) -> (r: Result<Value, Error>)
        ensures
            ({
                let (m2, rr) = m_eval(old(self)@, env_view(env@), e@, fuel as nat);
                final(self)@ == m2 && res_view(r) == rr
            }),
        decreases fuel, esize(e@), 1int,
    {
        proof {
            reveal_with_fuel(m_eval, 1);
        }
        match e {
            Expr::Const(v) => Ok(v.clone_value()),
            Expr::Var(x) => match lookup(env, *x) {
                Some(v) => Ok(v),
                None => Err(Error::TypeMismatch),
            },
            Expr::Let(x, a, b) => {
                let va = match self.eval(env, &**a, fuel) {
                    Err(err) => {
                        return Err(err);
                    }
                    Ok(va) => va,
                };
                let mut env2 = env_clone(env);
                env2.push((*x, va));
                proof {
                    assert(env_view(env2@) =~~= env_view(env@).push((*x, va@)));
                }
                self.eval(&env2, &**b, fuel)
            }
            Expr::If(c, a, b) => {
                let vc = match self.eval(env, &**c, fuel) {
                    Err(err) => {
                        return Err(err);
                    }
                    Ok(vc) => vc,
                };
                match vc {
                    Value::Bool(true) => self.eval(env, &**a, fuel),
                    Value::Bool(false) => self.eval(env, &**b, fuel),
                    _ => Err(Error::TypeMismatch),
                }
            }
            Expr::Un(op, a) => {
                let va = match self.eval(env, &**a, fuel) {
                    Err(err) => {
                        return Err(err);
                    }
                    Ok(va) => va,
                };
                match (op, va) {
                    (UnOp::First, Value::PairV(x, _)) => Ok(*x),
                    (UnOp::Second, Value::PairV(_, y)) => Ok(*y),
                    (UnOp::Upper, Value::Text(t)) => Ok(Value::Text(text_upper(&t))),
                    (UnOp::Lower, Value::Text(t)) => Ok(Value::Text(text_lower(&t))),
                    _ => Err(Error::TypeMismatch),
                }
            }
            Expr::Bin(op, a, b) => {
                let va = match self.eval(env, &**a, fuel) {
                    Err(err) => {
                        return Err(err);
                    }
                    Ok(va) => va,
                };
                let vb = match self.eval(env, &**b, fuel) {
                    Err(err) => {
                        return Err(err);
                    }
                    Ok(vb) => vb,
                };
                match op {
                    BinOp::MakePair => Ok(Value::PairV(Box::new(va), Box::new(vb))),
                    BinOp::EqVal => Ok(Value::Bool(va.eq_value(&vb))),
                    BinOp::Concat => match (&va, &vb) {
                        (Value::Text(x), Value::Text(y)) => Ok(Value::Text(text_concat(x, y))),
                        _ => Err(Error::TypeMismatch),
                    },
                }
            }
            _ => self.eval_eff(env, e, fuel),
        }
    }

    /// The effectful program forms: reads, writes, creations, registrations
    /// and sends.
    #[verifier::rlimit(100)]
    #[verifier::spinoff_prover]
    fn eval_eff(&mut self, env: &Env, e: &Expr, fuel: u64) -> (r: Result<Value, Error>)
        requires
            !(e@ is Const) && !(e@ is Var) && !(e@ is Let) && !(e@ is If) && !(e@ is Un) && !(
            e@ is Bin),
        ensures
            ({
                let (m2, rr) = m_eval(old(self)@, env_view(env@), e@, fuel as nat);
                final(self)@ == m2 && res_view(r) == rr
            }),
        decreases fuel, esize(e@), 0int,
    {
        proof {
            reveal_with_fuel(m_eval, 1);
        }
        match e {
            Expr::Read(a) => {
                let va = match self.eval(env, &**a, fuel) {
                    Err(err) => {
                        return Err(err);
                    }
                    Ok(va) => va,
                };
                match va {
                    Value::Node(h) => {
                        if fuel == 0 {
                            Err(Error::DepthExceeded)
                        } else {
                            self.read(h, fuel - 1)
                        }
                    }
                    _ => Err(Error::TypeMismatch),
                }
            }
            Expr::Runs(a) => {
                let va = match self.eval(env, &**a, fuel) {
                    Err(err) => {
                        return Err(err);
                    }
                    Ok(va) => va,
                };
                match va {
                    Value::Node(h) => self.runs_of(h),
                    _ => Err(Error::TypeMismatch),
                }
            }
            Expr::Write(a, b) => {
                let va = match self.eval(env, &**a, fuel) {
                    Err(err) => {
                        return Err(err);
                    }
                    Ok(va) => va,
                };
                match va {
                    Value::Node(h) => {
                        let vb = match self.eval(env, &**b, fuel) {
                            Err(err) => {
                                return Err(err);
                            }
                            Ok(vb) => vb,
                        };
                        if fuel == 0 {
                            Err(Error::DepthExceeded)
                        } else {
                            match self.update_value(h, vb, fuel - 1) {
                                Some(err) => Err(err),
                                None => Ok(Value::Unit),
                            }
                        }
                    }
                    _ => Err(Error::TypeMismatch),
                }
            }
            Expr::CreateSignal(a) => {
                let va = match self.eval(env, &**a, fuel) {
                    Err(err) => {
                        return Err(err);
                    }
                    Ok(va) => va,
                };
                self.create_value_node(va)
            }
            Expr::CreateMemo(a) => {
                if fuel == 0 {
                    Err(Error::DepthExceeded)
                } else {
                    let comp = Compute { body: a.clone_expr(), env: env_clone(env) };
                    proof {
                        assert(comp@ == crate::nodes::ComputeS {
                            body: eview(**a),
                            env: env_view(env@),
                        });
                    }
                    self.create_cb_node(comp, Policy::Memo, fuel - 1)
                }
            }
            Expr::CreateSelector(a) => {
                if fuel == 0 {
                    Err(Error::DepthExceeded)
                } else {
                    let comp = Compute { body: a.clone_expr(), env: env_clone(env) };
                    proof {
                        assert(comp@ == crate::nodes::ComputeS {
                            body: eview(**a),
                            env: env_view(env@),
                        });
                    }
                    self.create_cb_node(comp, Policy::Selector, fuel - 1)
                }
            }
            Expr::OnCleanup(a, op) => {
                let va = match self.eval(env, &**a, fuel) {
                    Err(err) => {
                        return Err(err);
                    }
                    Ok(va) => va,
                };
                match va {
                    Value::Node(target) => self.register_cleanup(target, op),
                    _ => Err(Error::TypeMismatch),
                }
            }
            Expr::OnMsg(tag, a, op) => {
                let va = match self.eval(env, &**a, fuel) {
                    Err(err) => {
                        return Err(err);
                    }
                    Ok(va) => va,
                };
                match va {
                    Value::Node(target) => self.register_receiver(*tag, target, op),
                    _ => Err(Error::TypeMismatch),
                }
            }
            Expr::Send(tag, a) => {
                let va = match self.eval(env, &**a, fuel) {
                    Err(err) => {
                        return Err(err);
                    }
                    Ok(va) => va,
                };
                if fuel == 0 {
                    Err(Error::DepthExceeded)
                } else {
                    match self.send(*tag, &va, fuel - 1) {
                        Some(err) => Err(err),
                        None => Ok(Value::Unit),
                    }
                }
            }
            _ => {
                proof {
                    assert(false);
                }
                Err(Error::TypeMismatch)
            }
        }
    }

    /// Context lookup from a scope up its ownership-parent chain.
    pub fn get_context(&self, id: Scope, tag: u64) -> (r: Option<Value>)
        ensures
            match r {
                Some(v) => m_get_context(self@, id, tag) == Some(v@),
                None => m_get_context(self@, id, tag) is None,
            },
        decreases (if live(self@, id) {
            node(self@, id).stamp as int
        } else {
            0int
        }),
    {
        proof {
            reveal_with_fuel(m_get_context, 1);
        }
        match self.nodes.arena.get(id) {
            None => None,
            Some(nd) => {
                match lookup(&nd.contexts, tag) {
                    Some(v) => Some(v),
                    None => match nd.parent {
                        Some(p) => {
                            let walk = match self.nodes.arena.get(p) {
                                Some(pn) => pn.stamp < nd.stamp,
                                None => false,
                            };
                            if walk {
                                self.get_context(p, tag)
                            } else {
                                None
                            }
                        }
                        None => None,
                    },
                }
            }
        }
    }
}

} // verus!
