use vstd::prelude::*;
use crate::arena::Handle;
use crate::value::{Value, ValueS, vview};

verus! {

/// Pure operations on one value.
#[derive(Clone, Copy, Debug, PartialEq, Eq, Structural)]
pub enum UnOp {
    /// First component of a pair.
    First,
    /// Second component of a pair.
    Second,
    /// ASCII uppercase of a text.
    Upper,
    /// ASCII lowercase of a text.
    Lower,
}

/// Pure operations on two values.
#[derive(Clone, Copy, Debug, PartialEq, Eq, Structural)]
pub enum BinOp {
    /// Build a pair.
    MakePair,
    /// Structural equality, as a boolean.
    EqVal,
    /// Concatenation of two texts.
    Concat,
}

/// What a receiver or cleanup does when it fires, to a target node, given the
/// delivered payload (cleanups fire with a unit payload). The deferred
/// callbacks of the original design become data so the engine that runs them
/// can be verified.
#[derive(Debug)]
pub enum ReactOp {
    /// Store the payload in the target.
    SetPayload,
    /// Add the integer payload to the target's integer value (wrapping).
    AddPayload,
    /// Store a constant.
    SetConst(Value),
    /// Add a constant integer to the target's integer value (wrapping).
    AddConst(Value),
    /// Store the pair (tag, payload).
    SetTagged(Value),
}

pub enum ReactOpS {
    SetPayload,
    AddPayload,
    SetConst(ValueS),
    AddConst(ValueS),
    SetTagged(ValueS),
}

impl View for ReactOp {
    type V = ReactOpS;

    open spec fn view(&self) -> ReactOpS {
        match self {
            ReactOp::SetPayload => ReactOpS::SetPayload,
            ReactOp::AddPayload => ReactOpS::AddPayload,
            ReactOp::SetConst(v) => ReactOpS::SetConst(vview(*v)),
            ReactOp::AddConst(v) => ReactOpS::AddConst(vview(*v)),
            ReactOp::SetTagged(v) => ReactOpS::SetTagged(vview(*v)),
        }
    }
}

/// A deferred action bound to a concrete target node. The target is resolved
/// at registration time, mirroring capture-by-value in a callback.
#[derive(Debug)]
pub struct Reaction {
    pub target: Handle,
    pub op: ReactOp,
}

pub struct ReactionS {
    pub target: Handle,
    pub op: ReactOpS,
}

impl View for Reaction {
    type V = ReactionS;

    open spec fn view(&self) -> ReactionS {
        ReactionS { target: self.target, op: self.op@ }
    }
}

/// The body of a derived node, and of any program run inside a tracking
/// scope: a closed language of reads, writes, node creation, registrations
/// and message sends. Recomputation callbacks of the original design become
/// programs in this language, paired with a captured environment.
#[derive(Debug)]
pub enum Expr {
    /// A literal value.
    Const(Value),
    /// A variable bound by `Let`, or captured at node creation.
    Var(u64),
    /// Bind the first expression's value, then run the second.
    Let(u64, Box<Expr>, Box<Expr>),
    /// Branch on a boolean; only the taken branch runs, so only its reads
    /// register dependencies.
    If(Box<Expr>, Box<Expr>, Box<Expr>),
    Un(UnOp, Box<Expr>),
    Bin(BinOp, Box<Expr>, Box<Expr>),
    /// Tracked read of the node the inner expression evaluates to.
    Read(Box<Expr>),
    /// The recompute count of a node (untracked observation).
    Runs(Box<Expr>),
    /// Write a value to a node, then propagate invalidation.
    Write(Box<Expr>, Box<Expr>),
    /// Create a storage cell owned by the current scope.
    CreateSignal(Box<Expr>),
    /// Create a derived node with unconditional propagation.
    CreateMemo(Box<Expr>),
    /// Create a derived node with equality-based propagation cutoff.
    CreateSelector(Box<Expr>),
    /// Register a cleanup on the current scope.
    OnCleanup(Box<Expr>, ReactOp),
    /// Register a receiver for a message tag on the current scope.
    OnMsg(u64, Box<Expr>, ReactOp),
    /// Send a message from the current scope through its subtree.
    Send(u64, Box<Expr>),
}

pub enum ExprS {
    Const(ValueS),
    Var(u64),
    Let(u64, Box<ExprS>, Box<ExprS>),
    If(Box<ExprS>, Box<ExprS>, Box<ExprS>),
    Un(UnOp, Box<ExprS>),
    Bin(BinOp, Box<ExprS>, Box<ExprS>),
    Read(Box<ExprS>),
    Runs(Box<ExprS>),
    Write(Box<ExprS>, Box<ExprS>),
    CreateSignal(Box<ExprS>),
    CreateMemo(Box<ExprS>),
    CreateSelector(Box<ExprS>),
    OnCleanup(Box<ExprS>, ReactOpS),
    OnMsg(u64, Box<ExprS>, ReactOpS),
    Send(u64, Box<ExprS>),
}

pub open spec fn eview(e: Expr) -> ExprS
    decreases e,
{
    match e {
        Expr::Const(v) => ExprS::Const(vview(v)),
        Expr::Var(x) => ExprS::Var(x),
        Expr::Let(x, a, b) => ExprS::Let(x, Box::new(eview(*a)), Box::new(eview(*b))),
        Expr::If(c, a, b) => ExprS::If(
            Box::new(eview(*c)),
            Box::new(eview(*a)),
            Box::new(eview(*b)),
        ),
        Expr::Un(op, a) => ExprS::Un(op, Box::new(eview(*a))),
        Expr::Bin(op, a, b) => ExprS::Bin(op, Box::new(eview(*a)), Box::new(eview(*b))),
        Expr::Read(a) => ExprS::Read(Box::new(eview(*a))),
        Expr::Runs(a) => ExprS::Runs(Box::new(eview(*a))),
        Expr::Write(a, b) => ExprS::Write(Box::new(eview(*a)), Box::new(eview(*b))),
        Expr::CreateSignal(a) => ExprS::CreateSignal(Box::new(eview(*a))),
        Expr::CreateMemo(a) => ExprS::CreateMemo(Box::new(eview(*a))),
        Expr::CreateSelector(a) => ExprS::CreateSelector(Box::new(eview(*a))),
        Expr::OnCleanup(a, op) => ExprS::OnCleanup(Box::new(eview(*a)), op@),
        Expr::OnMsg(t, a, op) => ExprS::OnMsg(t, Box::new(eview(*a)), op@),
        Expr::Send(t, a) => ExprS::Send(t, Box::new(eview(*a))),
    }
}

impl View for Expr {
    type V = ExprS;

    open spec fn view(&self) -> ExprS {
        eview(*self)
    }
}

/// Size of a program, the structural part of the engine's termination
/// measure.
pub open spec fn esize(e: ExprS) -> nat
    decreases e,
{
    match e {
        ExprS::Const(_) => 1,
        ExprS::Var(_) => 1,
        ExprS::Let(_, a, b) => 1 + esize(*a) + esize(*b),
        ExprS::If(c, a, b) => 1 + esize(*c) + esize(*a) + esize(*b),
        ExprS::Un(_, a) => 1 + esize(*a),
        ExprS::Bin(_, a, b) => 1 + esize(*a) + esize(*b),
        ExprS::Read(a) => 1 + esize(*a),
        ExprS::Runs(a) => 1 + esize(*a),
        ExprS::Write(a, b) => 1 + esize(*a) + esize(*b),
        ExprS::CreateSignal(a) => 1 + esize(*a),
        ExprS::CreateMemo(a) => 1 + esize(*a),
        ExprS::CreateSelector(a) => 1 + esize(*a),
        ExprS::OnCleanup(a, _) => 1 + esize(*a),
        ExprS::OnMsg(_, a, _) => 1 + esize(*a),
        ExprS::Send(_, a) => 1 + esize(*a),
    }
}

impl ReactOp {
    pub fn clone_op(&self) -> (r: ReactOp)
        ensures
            r@ == self@,
    {
        match self {
            ReactOp::SetPayload => ReactOp::SetPayload,
            ReactOp::AddPayload => ReactOp::AddPayload,
            ReactOp::SetConst(v) => ReactOp::SetConst(v.clone_value()),
            ReactOp::AddConst(v) => ReactOp::AddConst(v.clone_value()),
            ReactOp::SetTagged(v) => ReactOp::SetTagged(v.clone_value()),
        }
    }
}

impl Reaction {
    pub fn clone_reaction(&self) -> (r: Reaction)
        ensures
            r@ == self@,
    {
        Reaction { target: self.target, op: self.op.clone_op() }
    }
}

impl Expr {
    pub fn clone_expr(&self) -> (r: Expr)
        ensures
            r@ == self@,
        decreases self,
    {
        let r = match self {
            Expr::Const(v) => Expr::Const(v.clone_value()),
            Expr::Var(x) => Expr::Var(*x),
            Expr::Let(x, a, b) => Expr::Let(
                *x,
                Box::new(a.clone_expr()),
                Box::new(b.clone_expr()),
            ),
            Expr::If(c, a, b) => Expr::If(
                Box::new(c.clone_expr()),
                Box::new(a.clone_expr()),
                Box::new(b.clone_expr()),
            ),
            Expr::Un(op, a) => Expr::Un(*op, Box::new(a.clone_expr())),
            Expr::Bin(op, a, b) => Expr::Bin(
                *op,
                Box::new(a.clone_expr()),
                Box::new(b.clone_expr()),
            ),
            Expr::Read(a) => Expr::Read(Box::new(a.clone_expr())),
            Expr::Runs(a) => Expr::Runs(Box::new(a.clone_expr())),
            Expr::Write(a, b) => Expr::Write(
                Box::new(a.clone_expr()),
                Box::new(b.clone_expr()),
            ),
            Expr::CreateSignal(a) => Expr::CreateSignal(Box::new(a.clone_expr())),
            Expr::CreateMemo(a) => Expr::CreateMemo(Box::new(a.clone_expr())),
            Expr::CreateSelector(a) => Expr::CreateSelector(Box::new(a.clone_expr())),
            Expr::OnCleanup(a, op) => Expr::OnCleanup(Box::new(a.clone_expr()), op.clone_op()),
            Expr::OnMsg(t, a, op) => Expr::OnMsg(*t, Box::new(a.clone_expr()), op.clone_op()),
            Expr::Send(t, a) => Expr::Send(*t, Box::new(a.clone_expr())),
        };
        proof {
            assert(r@ == self@);
        }
        r
    }
}

/// A captured variable environment: bindings resolved innermost-last.
pub type Env = Vec<(u64, Value)>;

/// The mathematical shape of an environment.
pub open spec fn env_view(env: Seq<(u64, Value)>) -> Seq<(u64, ValueS)> {
    env.map_values(|p: (u64, Value)| (p.0, vview(p.1)))
}

/// Innermost binding of a variable, if any.
pub open spec fn env_lookup(env: Seq<(u64, ValueS)>, x: u64) -> Option<ValueS>
    decreases env.len(),
{
    if env.len() == 0 {
        None
    } else if env.last().0 == x {
        Some(env.last().1)
    } else {
        env_lookup(env.drop_last(), x)
    }
}

pub fn lookup(env: &Env, x: u64) -> (r: Option<Value>)
    ensures
        match r {
            Some(v) => env_lookup(env_view(env@), x) == Some(v@),
            None => env_lookup(env_view(env@), x) is None,
        },
{
    let n = env.len();
    let mut i: usize = n;
    proof {
        assert(env_view(env@).take(n as int) =~= env_view(env@));
    }
    while i > 0
        invariant
            n == env@.len(),
            i <= n,
            env_lookup(env_view(env@), x) == env_lookup(env_view(env@).take(i as int), x),
        decreases i,
    {
        proof {
            let pre = env_view(env@).take(i as int);
            assert(pre.last() == (env@[i - 1].0, vview(env@[i - 1].1)));
            assert(pre.drop_last() =~= env_view(env@).take(i - 1int));
        }
        if env[i - 1].0 == x {
            return Some(env[i - 1].1.clone_value());
        }
        i -= 1;
    }
    proof {
        assert(env_view(env@).take(0) =~= Seq::<(u64, ValueS)>::empty());
    }
    None
}

pub fn env_clone(env: &Env) -> (r: Env)
    ensures
        env_view(r@) == env_view(env@),
{
    let mut out: Env = Vec::new();
    let n = env.len();
    let mut i: usize = 0;
    while i < n
        invariant
            n == env@.len(),
            i <= n,
            out@.len() == i,
            env_view(out@) == env_view(env@).take(i as int),
        decreases n - i,
    {
        out.push((env[i].0, env[i].1.clone_value()));
        proof {
            assert(env_view(out@) =~= env_view(env@).take(i + 1int));
        }
        i += 1;
    }
    proof {
        assert(env_view(env@).take(n as int) =~= env_view(env@));
    }
    out
}

} // verus!
