//! The render-side cell: a cached view value, a render program, and a dirty
//! flag. A renderer pulls [`Node::update`] once per redraw cycle and relies
//! on the recompute-on-demand contract to resolve staleness.
use vstd::prelude::*;
use crate::errors::Error;
use crate::expr::{Env, Expr, env_view};
use crate::model::m_eval;
use crate::nodes::Scope;
use crate::runtime::{DEFAULT_FUEL, Runtime, res_view};
use crate::value::{Value, ValueS};

verus! {

/// A renderable cell: an optional render program and its cached output.
pub struct Node {
    /// Program producing the view value, run against the reactive runtime.
    pub update_fn: Option<Expr>,
    /// The cached view value from the last run.
    pub value: Option<Value>,
    /// Whether the cached value must be recomputed before the next use.
    pub requires_update: bool,
}

impl Node {
    pub fn new() -> (r: Node)
        ensures
            r.update_fn is None,
            r.value is None,
            !r.requires_update,
    {
        Node { update_fn: None, value: None, requires_update: false }
    }

    /// Mark or clear the dirty flag.
    pub fn set_requires_update(&mut self, requires_update: bool)
        ensures
            final(self).requires_update == requires_update,
            final(self).update_fn == old(self).update_fn,
            final(self).value == old(self).value,
    {
        self.requires_update = requires_update;
    }

    /// Install the render program.
    pub fn set_render_fn(&mut self, f: Expr)
        ensures
            final(self).update_fn == Some(f),
            final(self).value == old(self).value,
            final(self).requires_update == old(self).requires_update,
    {
        self.update_fn = Some(f);
    }

    /// Refresh the cached view if it is missing or marked dirty, by running
    /// the render program against the reactive runtime; a cell without a
    /// program keeps its cache.
    pub fn update(&mut self, rt: &mut Runtime) -> (r: Option<Error>)
        ensures
            final(self).update_fn == old(self).update_fn,
            ({
                match old(self).update_fn {
                    None => final(rt)@ == old(rt)@ && *final(self) == *old(self) && r is None,
                    Some(f) => {
                        if old(self).requires_update || old(self).value is None {
                            let (m2, rr) = m_eval(
                                old(rt)@,
                                Seq::empty(),
                                f@,
                                DEFAULT_FUEL as nat,
                            );
                            final(rt)@ == m2 && (match rr {
                                Ok(v) => r is None && (final(self).value matches Some(nv)
                                    && nv@ == v) && !final(self).requires_update,
                                Err(e) => r == Some(e) && final(self).value == old(self).value
                                    && final(self).requires_update == old(
                                    self,
                                ).requires_update,
                            })
                        } else {
                            final(rt)@ == old(rt)@ && *final(self) == *old(self) && r is None
                        }
                    }
                }
            }),
    {
        match &self.update_fn {
            None => None,
            Some(f) => {
                if self.requires_update || self.value.is_none() {
                    let empty_env: Env = Vec::new();
                    proof {
                        assert(env_view(empty_env@) =~~= Seq::<(u64, ValueS)>::empty());
                    }
                    match rt.eval(&empty_env, f, DEFAULT_FUEL) {
                        Ok(v) => {
                            self.value = Some(v);
                            self.requires_update = false;
                            None
                        }
                        Err(e) => Some(e),
                    }
                } else {
                    None
                }
            }
        }
    }
}

/// Mark a graph-held render cell dirty through its handle: the node's stored
/// value is replaced by nothing, forcing the next pull to recompute.
pub fn set_requires_update(n: &mut Node, requires_update: bool)
    ensures
        final(n).requires_update == requires_update,
        final(n).update_fn == old(n).update_fn,
        final(n).value == old(n).value,
{
    n.set_requires_update(requires_update);
}

/// A handle to a mounted render cell.
#[derive(Clone, Copy, Debug, PartialEq, Eq, Structural)]
pub struct Child {
    pub id: Scope,
}

impl Child {
    pub fn new(id: Scope) -> (r: Child)
        ensures
            r.id == id,
    {
        Child { id }
    }
}

} // verus!
