//! Values of the ActionScript 1/2 virtual machine, as far as the NetConnection
//! class inspects them.
//!
//! Numbers are IEEE doubles in the virtual machine; this library holds no
//! floating point, so a number is carried as an `Opaque` token that the host
//! chose. Such a value is forwarded unchanged; where it has to be converted
//! to a string or a boolean, the host converts it.
use vstd::prelude::*;

verus! {

/// A reference to an object of the heap (see `crate::heap::Heap`): its index.
#[derive(Clone, Copy, Debug, PartialEq, Eq, Structural)]
pub struct ObjectRef {
    pub index: usize,
}

/// A value of the virtual machine.
#[derive(Debug)]
pub enum Value {
    Undefined,
    Null,
    Bool(bool),
    String(String),
    Object(ObjectRef),
    /// A number, as a token the host chose; the library never looks into it.
    Opaque(u64),
}

/// The mathematical form of a `Value`: strings become sequences of characters.
pub enum AvmValue {
    Undefined,
    Null,
    Bool(bool),
    String(Seq<char>),
    Object(ObjectRef),
    Opaque(u64),
}

impl View for Value {
    type V = AvmValue;

    open spec fn view(&self) -> AvmValue {
        match self {
            Value::Undefined => AvmValue::Undefined,
            Value::Null => AvmValue::Null,
            Value::Bool(b) => AvmValue::Bool(*b),
            Value::String(s) => AvmValue::String(s@),
            Value::Object(r) => AvmValue::Object(*r),
            Value::Opaque(t) => AvmValue::Opaque(*t),
        }
    }
}

/// The views of a sequence of values.
pub open spec fn values_view(values: Seq<Value>) -> Seq<AvmValue> {
    values.map_values(|v: Value| v@)
}

/// `undefined` and `null`: the values that ActionScript treats as "no value".
pub open spec fn is_nullish(v: AvmValue) -> bool {
    v is Undefined || v is Null
}

/// The values from index `n` on (none where `n` is past the end).
pub open spec fn values_after(values: Seq<AvmValue>, n: int) -> Seq<AvmValue> {
    if 0 <= n <= values.len() {
        values.skip(n)
    } else {
        Seq::empty()
    }
}

/// The argument at `i`, or `default` where the caller passed fewer arguments.
pub open spec fn arg_or(args: Seq<AvmValue>, i: int, default: AvmValue) -> AvmValue {
    if 0 <= i < args.len() {
        args[i]
    } else {
        default
    }
}

impl Value {
    /// A copy of this value.
    pub fn duplicate(&self) -> (r: Value)
        ensures
            r@ == self@,
    {
        match self {
            Value::Undefined => Value::Undefined,
            Value::Null => Value::Null,
            Value::Bool(b) => Value::Bool(*b),
            Value::String(s) => Value::String(s.clone()),
            Value::Object(r) => Value::Object(*r),
            Value::Opaque(t) => Value::Opaque(*t),
        }
    }

    /// Whether this is `undefined` or `null`.
    pub fn is_nullish(&self) -> (r: bool)
        ensures
            r == is_nullish(self@),
    {
        match self {
            Value::Undefined | Value::Null => true,
            _ => false,
        }
    }
}

/// Copies of the values of `args` from index `start` on (empty where `start`
/// is past the end).
pub fn values_from(args: &Vec<Value>, start: usize) -> (r: Vec<Value>)
    ensures
        values_view(r@) == values_after(values_view(args@), start as int),
{
    let mut r: Vec<Value> = Vec::new();
    let mut i = start;
    while i < args.len()
        invariant
            start <= i,
            start <= args@.len() ==> i <= args@.len(),
            start > args@.len() ==> r@.len() == 0,
            start <= args@.len() ==> values_view(r@) == values_view(args@).subrange(
                start as int,
                i as int,
            ),
        decreases args@.len() - i,
    {
        r.push(args[i].duplicate());
        i = i + 1;
    }
    if start > args.len() {
        assert(values_view(r@) =~= Seq::<AvmValue>::empty());
    }
    r
}

/// A copy of all of `args`.
pub fn all_values(args: &Vec<Value>) -> (r: Vec<Value>)
    ensures
        values_view(r@) == values_view(args@),
{
    let r = values_from(args, 0);
    assert(values_after(values_view(args@), 0) =~= values_view(args@));
    r
}

/// Appends copies of the values of `src` to `dst`.
pub fn extend_values(dst: &mut Vec<Value>, src: &Vec<Value>)
    ensures
        values_view(final(dst)@) == values_view(old(dst)@) + values_view(src@),
{
    let ghost start = values_view(dst@);
    let mut i: usize = 0;
    while i < src.len()
        invariant
            i <= src@.len(),
            values_view(dst@) == start + values_view(src@).take(i as int),
        decreases src@.len() - i,
    {
        let ghost before = dst@;
        dst.push(src[i].duplicate());
        assert(values_view(dst@) =~= values_view(before).push(src@[i as int]@));
        assert(values_view(src@).take(i + 1) =~= values_view(src@).take(i as int).push(
            src@[i as int]@,
        ));
        i = i + 1;
    }
    assert(values_view(src@).take(src@.len() as int) =~= values_view(src@));
}

/// The argument at `i` (a copy), or `default` where there is none.
pub fn arg_or_default(args: &Vec<Value>, i: usize, default: Value) -> (r: Value)
    ensures
        r@ == arg_or(values_view(args@), i as int, default@),
{
    if i < args.len() {
        args[i].duplicate()
    } else {
        default
    }
}

} // verus!
