use vstd::prelude::*;
use crate::arena::Handle;

verus! {

/// The closed set of payload shapes a node, a context entry or a message can
/// hold. Heterogeneous storage in the original design ("any boxed value with
/// an external proof obligation about its type") becomes a tagged union with
/// a single, checked discrimination point.
#[derive(Debug)]
pub enum Value {
    Unit,
    Bool(bool),
    Int(i64),
    Text(Vec<u8>),
    Node(Handle),
    PairV(Box<Value>, Box<Value>),
}

/// Mathematical shape of a [`Value`]: byte vectors become sequences so that
/// equality is extensional.
pub enum ValueS {
    Unit,
    Bool(bool),
    Int(i64),
    Text(Seq<u8>),
    Node(Handle),
    PairV(Box<ValueS>, Box<ValueS>),
}

/// Mathematical shape of a [`Value`].
pub open spec fn vview(v: Value) -> ValueS
    decreases v,
{
    match v {
        Value::Unit => ValueS::Unit,
        Value::Bool(b) => ValueS::Bool(b),
        Value::Int(i) => ValueS::Int(i),
        Value::Text(t) => ValueS::Text(t@),
        Value::Node(h) => ValueS::Node(h),
        Value::PairV(a, b) => ValueS::PairV(Box::new(vview(*a)), Box::new(vview(*b))),
    }
}

impl View for Value {
    type V = ValueS;

    open spec fn view(&self) -> ValueS {
        vview(*self)
    }
}

impl Value {
    /// Storage cell payload from a byte string.
    pub fn text(s: &[u8]) -> (r: Value)
        ensures
            r@ == ValueS::Text(s@),
    {
        Value::Text(slice_to_vec(s))
    }

    pub fn clone_value(&self) -> (r: Value)
        ensures
            r@ == self@,
        decreases self,
    {
        match self {
            Value::Unit => Value::Unit,
            Value::Bool(b) => Value::Bool(*b),
            Value::Int(i) => Value::Int(*i),
            Value::Text(t) => {
                let mut out: Vec<u8> = Vec::new();
                let n = t.len();
                let mut i: usize = 0;
                while i < n
                    invariant
                        n == t@.len(),
                        i <= n,
                        out@ == t@.subrange(0, i as int),
                    decreases n - i,
                {
                    out.push(t[i]);
                    proof {
                        assert(out@ =~= t@.subrange(0, i + 1int));
                    }
                    i += 1;
                }
                proof {
                    assert(out@ =~= t@);
                }
                Value::Text(out)
            }
            Value::Node(h) => Value::Node(*h),
            Value::PairV(a, b) => Value::PairV(
                Box::new(a.clone_value()),
                Box::new(b.clone_value()),
            ),
        }
    }

    /// Structural equality over the mathematical shape: the single
    /// discrimination point for values of unrelated payload kinds.
    pub fn eq_value(&self, other: &Value) -> (r: bool)
        ensures
            r == (self@ == other@),
        decreases self,
    {
        match (self, other) {
            (Value::Unit, Value::Unit) => true,
            (Value::Bool(a), Value::Bool(b)) => *a == *b,
            (Value::Int(a), Value::Int(b)) => *a == *b,
            (Value::Text(a), Value::Text(b)) => bytes_eq(a, b),
            (Value::Node(a), Value::Node(b)) => *a == *b,
            (Value::PairV(a1, a2), Value::PairV(b1, b2)) => {
                let r = a1.eq_value(b1) && a2.eq_value(b2);
                proof {
                    if r {
                        assert(self@ == other@);
                    }
                }
                r
            }
            _ => {
                proof {
                    assert(self@ != other@);
                }
                false
            }
        }
    }
}

fn slice_to_vec(s: &[u8]) -> (r: Vec<u8>)
    ensures
        r@ == s@,
{
    let mut out: Vec<u8> = Vec::new();
    let n = s.len();
    let mut i: usize = 0;
    while i < n
        invariant
            n == s@.len(),
            i <= n,
            out@ == s@.subrange(0, i as int),
        decreases n - i,
    {
        out.push(s[i]);
        proof {
            assert(out@ =~= s@.subrange(0, i + 1int));
        }
        i += 1;
    }
    proof {
        assert(out@ =~= s@);
    }
    out
}

fn bytes_eq(a: &Vec<u8>, b: &Vec<u8>) -> (r: bool)
    ensures
        r == (a@ == b@),
{
    if a.len() != b.len() {
        return false;
    }
    let n = a.len();
    let mut i: usize = 0;
    while i < n
        invariant
            n == a@.len(),
            n == b@.len(),
            i <= n,
            forall|j: int| 0 <= j < i ==> a@[j] == b@[j],
        decreases n - i,
    {
        if a[i] != b[i] {
            return false;
        }
        i += 1;
    }
    proof {
        assert(a@ =~= b@);
    }
    true
}

/// ASCII uppercase of one byte.
pub open spec fn upper_byte(b: u8) -> u8 {
    if 97 <= b <= 122 {
        (b - 32) as u8
    } else {
        b
    }
}

/// ASCII lowercase of one byte.
pub open spec fn lower_byte(b: u8) -> u8 {
    if 65 <= b <= 90 {
        (b + 32) as u8
    } else {
        b
    }
}

pub fn text_upper(t: &Vec<u8>) -> (r: Vec<u8>)
    ensures
        r@ == t@.map_values(|b: u8| upper_byte(b)),
{
    let mut out: Vec<u8> = Vec::new();
    let n = t.len();
    let mut i: usize = 0;
    while i < n
        invariant
            n == t@.len(),
            i <= n,
            out@ == t@.subrange(0, i as int).map_values(|b: u8| upper_byte(b)),
        decreases n - i,
    {
        let b = t[i];
        if 97 <= b && b <= 122 {
            out.push(b - 32);
        } else {
            out.push(b);
        }
        proof {
            assert(t@.subrange(0, i + 1int) =~= t@.subrange(0, i as int).push(t@[i as int]));
            assert(out@ =~= t@.subrange(0, i + 1int).map_values(|x: u8| upper_byte(x)));
        }
        i += 1;
    }
    proof {
        assert(t@.subrange(0, n as int) =~= t@);
    }
    out
}

pub fn text_lower(t: &Vec<u8>) -> (r: Vec<u8>)
    ensures
        r@ == t@.map_values(|b: u8| lower_byte(b)),
{
    let mut out: Vec<u8> = Vec::new();
    let n = t.len();
    let mut i: usize = 0;
    while i < n
        invariant
            n == t@.len(),
            i <= n,
            out@ == t@.subrange(0, i as int).map_values(|b: u8| lower_byte(b)),
        decreases n - i,
    {
        let b = t[i];
        if 65 <= b && b <= 90 {
            out.push(b + 32);
        } else {
            out.push(b);
        }
        proof {
            assert(t@.subrange(0, i + 1int) =~= t@.subrange(0, i as int).push(t@[i as int]));
            assert(out@ =~= t@.subrange(0, i + 1int).map_values(|x: u8| lower_byte(x)));
        }
        i += 1;
    }
    proof {
        assert(t@.subrange(0, n as int) =~= t@);
    }
    out
}

pub fn text_concat(a: &Vec<u8>, b: &Vec<u8>) -> (r: Vec<u8>)
    ensures
        r@ == a@ + b@,
{
    let mut out = slice_to_vec(a.as_slice());
    let n = b.len();
    let mut i: usize = 0;
    while i < n
        invariant
            n == b@.len(),
            i <= n,
            out@ == a@ + b@.subrange(0, i as int),
        decreases n - i,
    {
        out.push(b[i]);
        proof {
            assert(out@ =~= a@ + b@.subrange(0, i + 1int));
        }
        i += 1;
    }
    proof {
        assert(out@ =~= a@ + b@);
    }
    out
}

} // verus!
