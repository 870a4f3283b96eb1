//! Handle views over one node kind: read-only, write-only, and read-write,
//! differing only in which operations they expose.
use vstd::prelude::*;
use crate::errors::Error;
use crate::model::{m_read, m_read_untracked, m_set_silent, m_update};
use crate::nodes::Scope;
use crate::runtime::{DEFAULT_FUEL, Runtime, res_view};
use crate::value::Value;

verus! {

/// Anything that stands for one node of the graph.
pub trait IntoScope {
    spec fn spec_scope(&self) -> Scope;

    fn into_scope(&self) -> (s: Scope)
        ensures
            s == self.spec_scope(),
    ;
}

/// Read operations over a handle.
pub trait SignalRead: IntoScope {
    /// Untracked read of the cached value; `None` if disposed.
    fn with_untracked(&self, rt: &Runtime) -> (r: Option<Value>)
        ensures
            match r {
                Some(v) => m_read_untracked(rt@, self.spec_scope()) == Ok::<_, Error>(v@),
                None => !(m_read_untracked(rt@, self.spec_scope()) is Ok),
            },
    ;

    /// Tracked read: registers the current cursor as a dependant first.
    fn with(&self, rt: &mut Runtime) -> (r: Result<Value, Error>)
        ensures
            ({
                let (m2, rr) = m_read(old(rt)@, self.spec_scope(), DEFAULT_FUEL as nat);
                final(rt)@ == m2 && res_view(r) == rr
            }),
    ;
}

/// Value-returning reads.
pub trait SignalGet: SignalRead {
    fn get_untracked(&self, rt: &Runtime) -> (r: Result<Value, Error>)
        ensures
            res_view(r) == m_read_untracked(rt@, self.spec_scope()),
    ;

    fn get(&self, rt: &mut Runtime) -> (r: Result<Value, Error>)
        ensures
            ({
                let (m2, rr) = m_read(old(rt)@, self.spec_scope(), DEFAULT_FUEL as nat);
                final(rt)@ == m2 && res_view(r) == rr
            }),
    ;
}

/// Write operations over a handle.
pub trait SignalUpdate: IntoScope {
    /// Store a value without invalidating dependents.
    fn update_silent(&self, rt: &mut Runtime, v: Value) -> (r: Option<Error>)
        ensures
            ({
                let (m2, e) = m_set_silent(old(rt)@, self.spec_scope(), v@);
                final(rt)@ == m2 && r == e
            }),
    ;

    /// Store a value, then recompute the released dependants depth-first.
    fn update(&self, rt: &mut Runtime, v: Value) -> (r: Option<Error>)
        ensures
            ({
                let (m2, e) = m_update(old(rt)@, self.spec_scope(), v@, DEFAULT_FUEL as nat);
                final(rt)@ == m2 && r == e
            }),
    ;
}

/// Whole-value writes.
pub trait SignalSet: SignalUpdate {
    fn set_silent(&self, rt: &mut Runtime, v: Value) -> (r: Option<Error>)
        ensures
            ({
                let (m2, e) = m_set_silent(old(rt)@, self.spec_scope(), v@);
                final(rt)@ == m2 && r == e
            }),
    ;

    fn set(&self, rt: &mut Runtime, v: Value) -> (r: Option<Error>)
        ensures
            ({
                let (m2, e) = m_update(old(rt)@, self.spec_scope(), v@, DEFAULT_FUEL as nat);
                final(rt)@ == m2 && r == e
            }),
    ;
}

/// Read-only view of a node.
#[derive(Clone, Copy, Debug, PartialEq, Eq, Structural)]
pub struct ReadSignal(pub Scope);

/// Write-only view of a node.
#[derive(Clone, Copy, Debug, PartialEq, Eq, Structural)]
pub struct WriteSignal(pub Scope);

/// Read-write view of a node.
#[derive(Clone, Copy, Debug, PartialEq, Eq, Structural)]
pub struct Signal(pub Scope);

impl IntoScope for ReadSignal {
    open spec fn spec_scope(&self) -> Scope {
        self.0
    }

    fn into_scope(&self) -> (s: Scope) {
        self.0
    }
}

impl SignalRead for ReadSignal {
    fn with_untracked(&self, rt: &Runtime) -> (r: Option<Value>) {
        match rt.read_untracked(self.0) {
            Ok(v) => Some(v),
            Err(_) => None,
        }
    }

    fn with(&self, rt: &mut Runtime) -> (r: Result<Value, Error>) {
        rt.read(self.0, DEFAULT_FUEL)
    }
}

impl SignalGet for ReadSignal {
    fn get_untracked(&self, rt: &Runtime) -> (r: Result<Value, Error>) {
        rt.read_untracked(self.0)
    }

    fn get(&self, rt: &mut Runtime) -> (r: Result<Value, Error>) {
        rt.read(self.0, DEFAULT_FUEL)
    }
}

impl IntoScope for WriteSignal {
    open spec fn spec_scope(&self) -> Scope {
        self.0
    }

    fn into_scope(&self) -> (s: Scope) {
        self.0
    }
}

impl SignalUpdate for WriteSignal {
    fn update_silent(&self, rt: &mut Runtime, v: Value) -> (r: Option<Error>) {
        rt.set_silent(self.0, v)
    }

    fn update(&self, rt: &mut Runtime, v: Value) -> (r: Option<Error>) {
        rt.update_value(self.0, v, DEFAULT_FUEL)
    }
}

impl SignalSet for WriteSignal {
    fn set_silent(&self, rt: &mut Runtime, v: Value) -> (r: Option<Error>) {
        rt.set_silent(self.0, v)
    }

    fn set(&self, rt: &mut Runtime, v: Value) -> (r: Option<Error>) {
        rt.update_value(self.0, v, DEFAULT_FUEL)
    }
}

impl IntoScope for Signal {
    open spec fn spec_scope(&self) -> Scope {
        self.0
    }

    fn into_scope(&self) -> (s: Scope) {
        self.0
    }
}

impl SignalRead for Signal {
    fn with_untracked(&self, rt: &Runtime) -> (r: Option<Value>) {
        match rt.read_untracked(self.0) {
            Ok(v) => Some(v),
            Err(_) => None,
        }
    }

    fn with(&self, rt: &mut Runtime) -> (r: Result<Value, Error>) {
        rt.read(self.0, DEFAULT_FUEL)
    }
}

impl SignalGet for Signal {
    fn get_untracked(&self, rt: &Runtime) -> (r: Result<Value, Error>) {
        rt.read_untracked(self.0)
    }

    fn get(&self, rt: &mut Runtime) -> (r: Result<Value, Error>) {
        rt.read(self.0, DEFAULT_FUEL)
    }
}

impl SignalUpdate for Signal {
    fn update_silent(&self, rt: &mut Runtime, v: Value) -> (r: Option<Error>) {
        rt.set_silent(self.0, v)
    }

    fn update(&self, rt: &mut Runtime, v: Value) -> (r: Option<Error>) {
        rt.update_value(self.0, v, DEFAULT_FUEL)
    }
}

impl SignalSet for Signal {
    fn set_silent(&self, rt: &mut Runtime, v: Value) -> (r: Option<Error>) {
        rt.set_silent(self.0, v)
    }

    fn set(&self, rt: &mut Runtime, v: Value) -> (r: Option<Error>) {
        rt.update_value(self.0, v, DEFAULT_FUEL)
    }
}

} // verus!
