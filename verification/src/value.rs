//! Plain language values: object handles, primitives and their wrappers.

use vstd::prelude::*;

verus! {

/// A handle to an object record living in a [`crate::context::Context`]
/// arena.
///
/// Many simultaneously-live references (evaluation stack slots, property
/// values, prototype links, closure captures) may denote the same record,
/// and the links form cycles, so records are shared through small copyable
/// handles rather than owning pointers.  Two handles denote the same record
/// exactly when they are equal, which makes handle equality the "strict
/// identity" the prototype rules speak of.
#[derive(Clone, Copy, PartialEq, Eq, Structural, Debug, Hash)]
pub struct JsObject {
    /// Position of the record in its context's arena.
    pub index: usize,
}

/// Interned text as the engine stores it.
pub type JsString = String;

/// A symbol primitive: a unique identity plus an optional description.
///
/// Identity is the `hash` value; the engine mints a fresh one per symbol.
#[derive(Debug, PartialEq)]
pub struct JsSymbol {
    pub hash: u64,
    pub description: Option<JsString>,
}

impl JsSymbol {
    /// The symbol's identity and the characters of its description.
    pub open spec fn view_spec(&self) -> (u64, Option<Seq<char>>) {
        (
            self.hash,
            match self.description {
                Some(d) => Some(d@),
                None => None,
            },
        )
    }

    /// Copies the symbol; the copy has the same identity and description.
    pub fn duplicate(&self) -> (r: JsSymbol)
        ensures
            r.view_spec() == self.view_spec(),
    {
        JsSymbol {
            hash: self.hash,
            description: match &self.description {
                Some(d) => Some(d.clone()),
                None => None,
            },
        }
    }
}

/// An arbitrary-precision integer primitive: sign plus base-2^64 digits.
#[derive(Debug, PartialEq)]
pub struct JsBigInt {
    pub negative: bool,
    pub digits: Vec<u64>,
}

/// A native (embedder-supplied) function, identified by its slot in the
/// embedder's function registry.  The engine never inspects the code behind
/// the slot; it only selects and stores it.
#[derive(Clone, Copy, PartialEq, Eq, Structural, Debug)]
pub struct NativeFunction {
    pub registry_slot: u64,
}

/// A language value as this component stores it: a primitive or an object
/// handle.
#[derive(Debug, PartialEq)]
pub enum JsValue {
    Undefined,
    Null,
    Boolean(bool),
    Integer(i64),
    String(JsString),
    BigInt(JsBigInt),
    Symbol(JsSymbol),
    Object(JsObject),
}

impl JsValue {
    /// The object handle inside the value, if the value is an object.
    ///
    /// The collector follows exactly these edges out of stored values.
    pub open spec fn as_object_spec(&self) -> Option<JsObject> {
        match *self {
            JsValue::Object(o) => Some(o),
            _ => None,
        }
    }

    /// Returns the object handle if this value is an object, and nothing
    /// otherwise.
    pub fn as_object(&self) -> (r: Option<JsObject>)
        ensures
            r == self.as_object_spec(),
    {
        match self {
            JsValue::Object(o) => Some(*o),
            _ => None,
        }
    }
}

/// The outgoing record references of one value: one edge when the value
/// is an object, none otherwise.
pub open spec fn value_refs(v: &JsValue) -> Seq<JsObject> {
    match v.as_object_spec() {
        Some(o) => seq![o],
        None => Seq::empty(),
    }
}

/// The outgoing record references of a run of values, from position `i`
/// on, in order.
pub open spec fn values_refs_from(s: Seq<JsValue>, i: int) -> Seq<JsObject>
    decreases s.len() - i when 0 <= i <= s.len()
{
    if i >= s.len() {
        Seq::empty()
    } else {
        value_refs(&s[i]) + values_refs_from(s, i + 1)
    }
}

/// Appends the reference of one value, if any, to a trace in progress.
pub fn push_value_refs(out: &mut Vec<JsObject>, v: &JsValue)
    ensures
        final(out)@ == old(out)@ + value_refs(v),
{
    let ghost prior = out@;
    match v.as_object() {
        Some(o) => out.push(o),
        None => proof {
            assert(out@ =~= prior + value_refs(v));
        },
    }
    proof {
        assert(out@ =~= prior + value_refs(v));
    }
}

/// Appends the references of the values from position `i` on to a trace
/// in progress.
pub fn push_values_refs(out: &mut Vec<JsObject>, s: &Vec<JsValue>, i: usize)
    requires
        i <= s@.len(),
    ensures
        final(out)@ == old(out)@ + values_refs_from(s@, i as int),
    decreases s@.len() - i,
{
    let ghost prior = out@;
    if i < s.len() {
        push_value_refs(out, &s[i]);
        push_values_refs(out, s, i + 1);
        proof {
            assert(out@ =~= prior + values_refs_from(s@, i as int));
        }
    } else {
        proof {
            assert(out@ =~= prior + values_refs_from(s@, i as int));
        }
    }
}

/// Appends a run of record handles, from position `i` on, to a trace in
/// progress.
pub fn push_handles(out: &mut Vec<JsObject>, s: &Vec<JsObject>, i: usize)
    requires
        i <= s@.len(),
    ensures
        final(out)@ == old(out)@ + s@.skip(i as int),
    decreases s@.len() - i,
{
    let ghost prior = out@;
    if i < s.len() {
        out.push(s[i]);
        push_handles(out, s, i + 1);
        proof {
            assert(out@ =~= prior + s@.skip(i as int));
        }
    } else {
        proof {
            assert(out@ =~= prior + s@.skip(i as int));
        }
    }
}

} // verus!
