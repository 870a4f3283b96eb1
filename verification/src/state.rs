//! Per-widget state cells: thin typed handles over storage nodes of the
//! reactive graph.
use vstd::prelude::*;
use crate::errors::Error;
use crate::model::{m_create_value, m_read_untracked, m_set_silent, m_update};
use crate::nodes::Scope;
use crate::runtime::{DEFAULT_FUEL, Runtime, res_view};
use crate::value::{Value, ValueS};

verus! {

/// A handle to one state cell.
#[derive(Clone, Copy, Debug, PartialEq, Eq, Structural)]
pub struct StateRef(pub Scope);

impl StateRef {
    /// The current value of the cell.
    pub fn get(&self, rt: &Runtime) -> (r: Result<Value, Error>)
        ensures
            res_view(r) == m_read_untracked(rt@, self.0),
    {
        rt.read_untracked(self.0)
    }

    /// Replace the value and invalidate dependents.
    pub fn set(&self, rt: &mut Runtime, v: Value) -> (r: Option<Error>)
        ensures
            ({
                let (m2, e) = m_update(old(rt)@, self.0, v@, DEFAULT_FUEL as nat);
                final(rt)@ == m2 && r == e
            }),
    {
        rt.update_value(self.0, v, DEFAULT_FUEL)
    }

    /// Replace the value without invalidating dependents.
    pub fn update(&self, rt: &mut Runtime, v: Value) -> (r: Option<Error>)
        ensures
            ({
                let (m2, e) = m_set_silent(old(rt)@, self.0, v@);
                final(rt)@ == m2 && r == e
            }),
    {
        rt.set_silent(self.0, v)
    }
}

/// Allocate a state cell holding `value`, owned by the current scope.
pub fn use_state(rt: &mut Runtime, value: Value) -> (r: Result<StateRef, Error>)
    ensures
        ({
            let (m2, rr) = m_create_value(old(rt)@, value@);
            final(rt)@ == m2 && (match r {
                Ok(s) => rr == Ok::<ValueS, Error>(ValueS::Node(s.0)),
                Err(e) => rr == Err::<ValueS, Error>(e),
            })
        }),
{
    proof {
        reveal(crate::model::m_create_value);
    }
    match rt.create_value_node(value) {
        Ok(Value::Node(h)) => Ok(StateRef(h)),
        Ok(_) => {
            proof {
                assert(false);
            }
            Err(Error::TypeMismatch)
        }
        Err(e) => Err(e),
    }
}

} // verus!
