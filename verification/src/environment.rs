//! The public face of the reactive core: tracking scopes, cleanups, context,
//! the message bus, and signal/memo/selector creation, all against an
//! explicit [`Runtime`].
use vstd::prelude::*;
use crate::arena::insert_slots;
use crate::errors::Error;
use crate::expr::{Env, Expr, ExprS, ReactOp};
use crate::model::{
    Model, fresh, live, m_create_derived, m_create_value, m_dispose_children, m_dispose_node,
    m_eval, m_get_context, m_register_cleanup, m_register_receiver, m_run_cleanups, m_send,
    node, setn,
};
use crate::nodes::{Compute, ComputeS, NodeRec, Policy, ReactiveNode, Scope, blank_node};
use crate::runtime::{DEFAULT_FUEL, Runtime, res_view};
use crate::signal::{ReadSignal, Signal};
use crate::value::{Value, ValueS};

verus! {

/// What one whole tracking-scope run leaves behind: a fresh root scope is
/// made current, the program runs attributed to it, the cursor is restored,
/// the root's own and its subtree's cleanups run, and root and subtree are
/// disposed, so nothing created inside outlives the scope.
#[verifier::opaque]
pub open spec fn m_tracking_scope(m: Model, body: ExprS, fuel: nat) -> (
    Model,
    Result<ValueS, Error>,
) {
    if m.next_stamp == u64::MAX {
        (m, Err(Error::DepthExceeded))
    } else {
        let h = fresh(m);
        let m1 = Model {
            nodes: insert_slots(m.nodes, blank_node(m.next_stamp)),
            next_stamp: (m.next_stamp + 1) as u64,
            ..m
        };
        let m2 = Model { tracker: Some(h), ..m1 };
        let (m3, r) = m_eval(m2, Seq::empty(), body, fuel);
        let m4 = Model { tracker: m.tracker, ..m3 };
        let (m5, e5) = m_run_cleanups(m4, h, fuel);
        let m6 = m_dispose_children(m5, h);
        let m7 = m_dispose_node(m6, h);
        match r {
            Err(e) => (m7, Err(e)),
            Ok(v) => match e5 {
                Some(e) => (m7, Err(e)),
                None => (m7, Ok(v)),
            },
        }
    }
}

/// Run a program inside a fresh tracking scope; everything it creates is
/// owned by that scope and disposed when it returns.
#[verifier::rlimit(100)]
#[verifier::spinoff_prover]
pub fn create_tracking_scope(rt: &mut Runtime, body: &Expr) -> (r: Result<Value, Error>)
    ensures
        ({
            let (m2, rr) = m_tracking_scope(old(rt)@, body@, DEFAULT_FUEL as nat);
            final(rt)@ == m2 && res_view(r) == rr
        }),
{
    proof {
        reveal(m_tracking_scope);
    }
    if rt.next_stamp == u64::MAX {
        return Err(Error::DepthExceeded);
    }
    let stamp = rt.next_stamp;
    let nd = ReactiveNode::empty(stamp);
    let h = rt.nodes.arena.insert(nd);
    rt.next_stamp = stamp + 1;
    proof {
        assert(h == fresh(old(rt)@));
        assert(rt@ =~~= Model {
            nodes: insert_slots(old(rt)@.nodes, blank_node(stamp)),
            next_stamp: (stamp + 1) as u64,
            ..old(rt)@
        });
    }
    let ghost m1v = rt@;
    let saved = rt.tracker;
    rt.tracker = Some(h);
    proof {
        assert(rt@ =~~= Model { tracker: Some(h), ..m1v });
    }
    let empty_env: Env = Vec::new();
    proof {
        assert(crate::expr::env_view(empty_env@) =~~= Seq::<(u64, ValueS)>::empty());
    }
    let r = rt.eval(&empty_env, body, DEFAULT_FUEL);
    rt.tracker = saved;
    let e5 = rt.run_cleanups(h, DEFAULT_FUEL);
    rt.dispose_of_children(h);
    rt.dispose(h);
    proof {
        assert(final(rt)@ =~~= m_tracking_scope(old(rt)@, body@, DEFAULT_FUEL as nat).0);
    }
    match r {
        Err(e) => Err(e),
        Ok(v) => match e5 {
            Some(e) => Err(e),
            None => Ok(v),
        },
    }
}

/// Register a one-shot teardown action on the current scope; it runs exactly
/// once, when the scope's next recomputation supersedes this run or when an
/// ancestor is disposed.
pub fn on_cleanup(rt: &mut Runtime, target: Scope, op: ReactOp) -> (r: Result<Value, Error>)
    ensures
        ({
            let (m2, rr) = m_register_cleanup(old(rt)@, target, op@);
            final(rt)@ == m2 && res_view(r) == rr
        }),
{
    rt.register_cleanup(target, &op)
}

/// Provide a context value at the current scope, keyed by type tag; later
/// entries for the same tag shadow earlier ones.
pub fn provide_context(rt: &mut Runtime, tag: u64, v: Value) -> (r: Option<Error>)
    ensures
        ({
            match old(rt)@.tracker {
                None => final(rt)@ == old(rt)@ && r == Some(Error::OutsideTrackingScope),
                Some(cur) => {
                    if live(old(rt)@, cur) {
                        final(rt)@ == setn(
                            old(rt)@,
                            cur,
                            NodeRec {
                                contexts: node(old(rt)@, cur).contexts.push((tag, v@)),
                                ..node(old(rt)@, cur)
                            },
                        ) && r is None
                    } else {
                        final(rt)@ == old(rt)@ && r == Some(Error::Disposed)
                    }
                }
            }
        }),
{
    let cur = match rt.tracker {
        None => {
            return Some(Error::OutsideTrackingScope);
        }
        Some(cur) => cur,
    };
    match rt.nodes.arena.take(cur) {
        None => Some(Error::Disposed),
        Some(mut nd) => {
            nd.contexts.push((tag, v));
            let ok = rt.nodes.arena.put(cur, nd);
            proof {
                assert(ok);
                assert(final(rt)@ =~~= setn(
                    old(rt)@,
                    cur,
                    NodeRec {
                        contexts: node(old(rt)@, cur).contexts.push((tag, v@)),
                        ..node(old(rt)@, cur)
                    },
                ));
            }
            None
        }
    }
}

/// Look a context tag up from the current scope along the ownership chain;
/// absence is an expected, recoverable outcome.
pub fn use_context_option(rt: &Runtime, tag: u64) -> (r: Option<Value>)
    ensures
        match rt@.tracker {
            None => r is None,
            Some(cur) => match r {
                Some(v) => m_get_context(rt@, cur, tag) == Some(v@),
                None => m_get_context(rt@, cur, tag) is None,
            },
        },
{
    match rt.get_current_scope() {
        None => None,
        Some(cur) => rt.get_context(cur, tag),
    }
}

/// Look a context tag up from the current scope; a miss is a fatal
/// [`Error::MissingContext`], never a silent default.
pub fn use_context(rt: &Runtime, tag: u64) -> (r: Result<Value, Error>)
    ensures
        match rt@.tracker {
            None => r == Err::<Value, Error>(Error::OutsideTrackingScope),
            Some(cur) => match r {
                Ok(v) => m_get_context(rt@, cur, tag) == Some(v@),
                Err(e) => e == Error::MissingContext && m_get_context(rt@, cur, tag) is None,
            },
        },
{
    match rt.get_current_scope() {
        None => Err(Error::OutsideTrackingScope),
        Some(cur) => match rt.get_context(cur, tag) {
            Some(v) => Ok(v),
            None => Err(Error::MissingContext),
        },
    }
}

/// Subscribe the current scope to messages with a tag; the reaction fires on
/// each matching delivery while the scope is alive.
pub fn on(rt: &mut Runtime, tag: u64, target: Scope, op: ReactOp) -> (r: Result<Value, Error>)
    ensures
        ({
            let (m2, rr) = m_register_receiver(old(rt)@, tag, target, op@);
            final(rt)@ == m2 && res_view(r) == rr
        }),
{
    rt.register_receiver(tag, target, &op)
}

/// Send a borrowed message from the current scope through its subtree.
pub fn send_boxed(rt: &mut Runtime, tag: u64, payload: &Value) -> (r: Option<Error>)
    ensures
        ({
            let (m2, e) = m_send(old(rt)@, tag, payload@, DEFAULT_FUEL as nat);
            final(rt)@ == m2 && r == e
        }),
{
    rt.send(tag, payload, DEFAULT_FUEL)
}

/// Send a message from the current scope: synchronous fan-out to every live
/// matching receiver in the scope's subtree, exactly once per receiver.
pub fn send(rt: &mut Runtime, tag: u64, payload: Value) -> (r: Option<Error>)
    ensures
        ({
            let (m2, e) = m_send(old(rt)@, tag, payload@, DEFAULT_FUEL as nat);
            final(rt)@ == m2 && r == e
        }),
{
    rt.send(tag, &payload, DEFAULT_FUEL)
}

/// Create a storage cell holding `value`, owned by the current scope.
pub fn create_signal(rt: &mut Runtime, value: Value) -> (r: Result<Signal, Error>)
    ensures
        ({
            let (m2, rr) = m_create_value(old(rt)@, value@);
            final(rt)@ == m2 && (match r {
                Ok(s) => rr == Ok::<ValueS, Error>(ValueS::Node(s.0)),
                Err(e) => rr == Err::<ValueS, Error>(e),
            })
        }),
{
    proof {
        reveal(m_create_value);
    }
    match rt.create_value_node(value) {
        Ok(Value::Node(h)) => Ok(Signal(h)),
        Ok(_) => {
            proof {
                assert(false);
            }
            Err(Error::TypeMismatch)
        }
        Err(e) => Err(e),
    }
}

/// Create a derived cell with unconditional propagation.
pub fn create_memo(rt: &mut Runtime, body: Expr) -> (r: Result<ReadSignal, Error>)
    ensures
        ({
            let (m2, rr) = m_create_derived(
                old(rt)@,
                ComputeS { body: body@, env: Seq::empty() },
                Policy::Memo,
                DEFAULT_FUEL as nat,
            );
            final(rt)@ == m2 && (match r {
                Ok(s) => rr == Ok::<ValueS, Error>(ValueS::Node(s.0)),
                Err(e) => rr == Err::<ValueS, Error>(e),
            })
        }),
{
    let comp = Compute { body, env: Vec::new() };
    proof {
        reveal_with_fuel(m_create_derived, 1);
        assert(crate::expr::env_view(comp.env@) =~= Seq::<(u64, ValueS)>::empty());
        assert(comp@ == ComputeS { body: comp.body@, env: Seq::<(u64, ValueS)>::empty() });
    }
    match rt.create_cb_node(comp, Policy::Memo, DEFAULT_FUEL) {
        Ok(Value::Node(h)) => Ok(ReadSignal(h)),
        Ok(_) => {
            proof {
                assert(false);
            }
            Err(Error::TypeMismatch)
        }
        Err(e) => Err(e),
    }
}

/// Create a derived cell with equality-based propagation cutoff: a
/// recomputation whose result equals the previous value does not invalidate
/// dependents.
pub fn create_selector(rt: &mut Runtime, body: Expr) -> (r: Result<ReadSignal, Error>)
    ensures
        ({
            let (m2, rr) = m_create_derived(
                old(rt)@,
                ComputeS { body: body@, env: Seq::empty() },
                Policy::Selector,
                DEFAULT_FUEL as nat,
            );
            final(rt)@ == m2 && (match r {
                Ok(s) => rr == Ok::<ValueS, Error>(ValueS::Node(s.0)),
                Err(e) => rr == Err::<ValueS, Error>(e),
            })
        }),
{
    let comp = Compute { body, env: Vec::new() };
    proof {
        reveal_with_fuel(m_create_derived, 1);
        assert(crate::expr::env_view(comp.env@) =~= Seq::<(u64, ValueS)>::empty());
        assert(comp@ == ComputeS { body: comp.body@, env: Seq::<(u64, ValueS)>::empty() });
    }
    match rt.create_cb_node(comp, Policy::Selector, DEFAULT_FUEL) {
        Ok(Value::Node(h)) => Ok(ReadSignal(h)),
        Ok(_) => {
            proof {
                assert(false);
            }
            Err(Error::TypeMismatch)
        }
        Err(e) => Err(e),
    }
}

} // verus!
