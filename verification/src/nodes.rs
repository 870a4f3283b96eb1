use vstd::prelude::*;
use crate::arena::{Arena, Handle};
use crate::expr::{Env, Expr, ExprS, Reaction, ReactionS, env_view};
use crate::recievers::{Reciever, RecieverS};
use crate::value::{Value, ValueS, vview};

verus! {

/// Core handles are scope identifiers: every node is also an ownership scope.
pub type Scope = Handle;

/// Invalidation policy of a derived node.
#[derive(Clone, Copy, Debug, PartialEq, Eq, Structural)]
pub enum Policy {
    /// Any recomputation unconditionally replaces the value and propagates.
    Memo,
    /// A recomputation whose result equals the previous value clears
    /// staleness but does not invalidate dependents (propagation cutoff).
    Selector,
}

/// A derived node's closure: its program together with the environment
/// captured when the node was created.
#[derive(Debug)]
pub struct Compute {
    pub body: Expr,
    pub env: Env,
}

pub struct ComputeS {
    pub body: ExprS,
    pub env: Seq<(u64, ValueS)>,
}

impl View for Compute {
    type V = ComputeS;

    open spec fn view(&self) -> ComputeS {
        ComputeS { body: self.body@, env: env_view(self.env@) }
    }
}

/// The fundamental cell of the graph: an optional cached value, an optional
/// recomputation closure, ownership links, dependency edges, and the per-scope
/// registries (cleanups, receivers, context entries) that die with it.
#[derive(Debug)]
pub struct ReactiveNode {
    /// Cached payload; authoritative only while `stale` is false.
    pub value: Option<Value>,
    /// Recomputation closure; `None` for a pure storage cell.
    pub compute: Option<Compute>,
    pub policy: Policy,
    /// The scope that was current when this node was created.
    pub parent: Option<Scope>,
    /// Scopes created while this node was current; entries may be stale and
    /// are validated before use.
    pub children: Vec<Scope>,
    /// Scopes that read this node during their most recent run.
    pub dependants: Vec<Scope>,
    /// Whether the cached value is known to be out of date.
    pub stale: bool,
    /// How many times the closure has run.
    pub runs: u64,
    /// Creation order mark: strictly increasing from parent to child.
    pub stamp: u64,
    /// One-shot teardown actions, run at disposal or before a re-run.
    pub cleanups: Vec<Reaction>,
    /// Message-bus subscriptions owned by this scope.
    pub recievers: Vec<Reciever>,
    /// Context entries provided at this scope, keyed by type tag.
    pub contexts: Vec<(u64, Value)>,
}

#[verifier::ext_equal]
pub struct NodeRec {
    pub value: Option<ValueS>,
    pub compute: Option<ComputeS>,
    pub policy: Policy,
    pub parent: Option<Scope>,
    pub children: Seq<Scope>,
    pub dependants: Seq<Scope>,
    pub stale: bool,
    pub runs: u64,
    pub stamp: u64,
    pub cleanups: Seq<ReactionS>,
    pub recievers: Seq<RecieverS>,
    pub contexts: Seq<(u64, ValueS)>,
}

impl View for ReactiveNode {
    type V = NodeRec;

    open spec fn view(&self) -> NodeRec {
        NodeRec {
            value: match self.value {
                Some(v) => Some(vview(v)),
                None => None,
            },
            compute: match self.compute {
                Some(c) => Some(ComputeS { body: c.body@, env: env_view(c.env@) }),
                None => None,
            },
            policy: self.policy,
            parent: self.parent,
            children: self.children@,
            dependants: self.dependants@,
            stale: self.stale,
            runs: self.runs,
            stamp: self.stamp,
            cleanups: self.cleanups@.map_values(|r: Reaction| r@),
            recievers: self.recievers@.map_values(|r: Reciever| r@),
            contexts: env_view(self.contexts@),
        }
    }
}

impl ReactiveNode {
    /// A bare storage node with no value and no closure.
    pub fn empty(stamp: u64) -> (r: ReactiveNode)
        ensures
            r@ == blank_node(stamp),
    {
        let r = ReactiveNode {
            value: None,
            compute: None,
            policy: Policy::Memo,
            parent: None,
            children: Vec::new(),
            dependants: Vec::new(),
            stale: false,
            runs: 0,
            stamp,
            cleanups: Vec::new(),
            recievers: Vec::new(),
            contexts: Vec::new(),
        };
        proof {
            assert(r@ =~= blank_node(stamp));
        }
        r
    }
}

/// The view of a freshly made bare node.
pub open spec fn blank_node(stamp: u64) -> NodeRec {
    NodeRec {
        value: None,
        compute: None,
        policy: Policy::Memo,
        parent: None,
        children: Seq::empty(),
        dependants: Seq::empty(),
        stale: false,
        runs: 0,
        stamp,
        cleanups: Seq::empty(),
        recievers: Seq::empty(),
        contexts: Seq::empty(),
    }
}

/// The node arena: slot storage of every scope in one graph.
pub struct ReactiveNodes {
    pub arena: Arena<ReactiveNode>,
}

impl ReactiveNodes {
    pub open spec fn smodel(self) -> Seq<(u64, Option<NodeRec>)> {
        self.arena.smodel()
    }

    pub fn new() -> (r: Self)
        ensures
            r.smodel() == Seq::<(u64, Option<NodeRec>)>::empty(),
    {
        ReactiveNodes { arena: Arena::new() }
    }

    /// Number of live nodes.
    pub fn len(&self) -> (r: usize)
        ensures
            r == self.arena.occupied_upto(self.smodel().len() as int),
    {
        self.arena.live_count()
    }
}

/// A sequence of scopes with one occurrence of `x` stripped from nowhere:
/// every occurrence of `x` removed, order otherwise kept.
pub open spec fn remove_scope(s: Seq<Scope>, x: Scope) -> Seq<Scope>
    decreases s.len(),
{
    if s.len() == 0 {
        Seq::empty()
    } else {
        remove_scope(s.drop_last(), x) + if s.last() == x {
            Seq::empty()
        } else {
            seq![s.last()]
        }
    }
}

/// Remove every occurrence of `x` from a vector of scopes, keeping order.
pub fn retain_without(v: &mut Vec<Scope>, x: Scope)
    ensures
        final(v)@ == remove_scope(old(v)@, x),
{
    let mut out: Vec<Scope> = Vec::new();
    let n = v.len();
    let mut i: usize = 0;
    while i < n
        invariant
            n == v@.len(),
            i <= n,
            out@ == remove_scope(v@.take(i as int), x),
        decreases n - i,
    {
        proof {
            assert(v@.take(i + 1int).drop_last() =~= v@.take(i as int));
        }
        if v[i] != x {
            out.push(v[i]);
        }
        i += 1;
    }
    proof {
        assert(v@.take(n as int) =~= v@);
    }
    *v = out;
}

/// Whether a sequence of scopes holds `x`.
pub fn contains_scope(v: &Vec<Scope>, x: Scope) -> (r: bool)
    ensures
        r == v@.contains(x),
{
    let n = v.len();
    let mut i: usize = 0;
    while i < n
        invariant
            n == v@.len(),
            i <= n,
            forall|j: int| 0 <= j < i ==> v@[j] != x,
        decreases n - i,
    {
        if v[i] == x {
            return true;
        }
        i += 1;
    }
    false
}

} // verus!
