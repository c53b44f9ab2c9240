//! The kind payload set: the variant data an object record may carry.
//!
//! Each payload here stands for the state one behavioral family of objects
//! needs.  The algorithms over that state (how an array write resizes the
//! length, how an iterator steps) belong to the evaluator, not to this
//! component: this component only stores the payload and pairs it with the
//! one correct operation table.

use vstd::prelude::*;
use crate::value::{value_refs, JsObject, JsString, JsValue, NativeFunction};

verus! {

/// What a collection iterator yields: keys, values, or key-value pairs.
#[derive(Clone, Copy, PartialEq, Eq, Structural, Debug)]
pub enum PropertyNameKind {
    Key,
    Value,
    KeyAndValue,
}

/// Iteration state over an array object.
#[derive(Debug, PartialEq)]
pub struct ArrayIterator {
    pub array: JsValue,
    pub next_index: u32,
    pub kind: PropertyNameKind,
    pub done: bool,
}

/// The backing store of an `ArrayBuffer` object; `None` once detached.
#[derive(Debug, PartialEq)]
pub struct ArrayBuffer {
    pub data: Option<Vec<u8>>,
}

/// The entries of a `Map` object, in insertion order.
#[derive(Debug, PartialEq)]
pub struct OrderedMap {
    pub entries: Vec<(JsValue, JsValue)>,
}

/// Iteration state over a map object.
#[derive(Debug, PartialEq)]
pub struct MapIterator {
    pub iterated_map: JsValue,
    pub next_index: u32,
    pub kind: PropertyNameKind,
    pub done: bool,
}

/// The items of a `Set` object, in insertion order.
#[derive(Debug, PartialEq)]
pub struct OrderedSet {
    pub items: Vec<JsValue>,
}

/// Iteration state over a set object.
#[derive(Debug, PartialEq)]
pub struct SetIterator {
    pub iterated_set: JsValue,
    pub next_index: u32,
    pub kind: PropertyNameKind,
}

/// A compiled regular expression: its source text and flags.
#[derive(Debug, PartialEq)]
pub struct RegExp {
    pub source: JsString,
    pub flags: JsString,
}

/// Iteration state for matching a regular expression over a string.
#[derive(Debug, PartialEq)]
pub struct RegExpStringIterator {
    pub matcher: JsObject,
    pub string: JsString,
    pub global: bool,
    pub unicode: bool,
    pub completed: bool,
}

/// Iteration state over a wrapped string's code points.
#[derive(Debug, PartialEq)]
pub struct StringIterator {
    pub string: JsValue,
    pub next_index: u32,
}

/// Iteration state for `for..in` enumeration of an object's keys.
#[derive(Debug, PartialEq)]
pub struct ForInIterator {
    pub object: JsValue,
    pub visited_keys: Vec<JsString>,
    pub remaining_keys: Vec<JsString>,
    pub object_was_visited: bool,
}

/// A `Date` object's instant: milliseconds since the epoch, or `None` for
/// an invalid date.
#[derive(Debug, PartialEq)]
pub struct Date {
    pub instant: Option<i64>,
}

/// Type-erased state captured by a closure function.
///
/// The embedder encodes the captured value as plain words under a runtime
/// type tag of its own choosing; recovery is by exact tag comparison, never
/// by an unchecked cast.
#[derive(Debug, PartialEq)]
pub struct Captures {
    pub type_tag: u64,
    pub data: Vec<u64>,
    /// The object records the captured state owns, for the collector to
    /// follow.
    pub children: Vec<JsObject>,
}

impl Captures {
    /// Builds a capture cell from a tagged, word-encoded value and the
    /// records that value owns.
    pub fn new(type_tag: u64, data: Vec<u64>, children: Vec<JsObject>) -> (r: Captures)
        ensures
            r.type_tag == type_tag,
            r.data == data,
            r.children == children,
    {
        Captures { type_tag, data, children }
    }

    /// Recovers the captured words exactly when `type_tag` names the type
    /// the cell was built with; a mismatch is an empty result, never a
    /// panic.  The caller turns the empty case into its typed failure.
    pub fn downcast_ref(&self, type_tag: u64) -> (r: Option<&Vec<u64>>)
        ensures
            self.type_tag == type_tag ==> r == Some(&self.data),
            self.type_tag != type_tag ==> r is None,
    {
        if self.type_tag == type_tag {
            Some(&self.data)
        } else {
            None
        }
    }
}

/// A callable object's payload: which registered native function runs, and
/// whether the function may be used as a constructor.  The constructibility
/// flag is read once, at construction of the object record, to pick the
/// operation table.
#[derive(Debug, PartialEq)]
pub enum Function {
    Native {
        function: NativeFunction,
        constructor: bool,
    },
    Closure {
        function: NativeFunction,
        constructor: bool,
        captures: Captures,
    },
}

impl Function {
    /// Whether this function may be called with `new`.
    pub open spec fn is_constructor_spec(&self) -> bool {
        match *self {
            Function::Native { constructor, .. } => constructor,
            Function::Closure { constructor, .. } => constructor,
        }
    }

    /// Whether this function may be called with `new`.
    pub fn is_constructor(&self) -> (r: bool)
        ensures
            r == self.is_constructor_spec(),
    {
        match self {
            Function::Native { constructor, .. } => *constructor,
            Function::Closure { constructor, .. } => *constructor,
        }
    }
}

/// The payload of a function produced by partial application: the wrapped
/// callable, the bound `this` value and the leading arguments.
#[derive(Debug, PartialEq)]
pub struct BoundFunction {
    pub target_function: JsObject,
    pub this: JsValue,
    pub args: Vec<JsValue>,
}

/// The payload of a mapped `arguments` object: the parameter map that
/// aliases indices into the call's parameter slots.
#[derive(Debug, PartialEq)]
pub struct MappedArguments {
    pub parameter_map: JsObject,
}

/// An `arguments` object's payload.  Only the mapped variant carries the
/// index-aliasing state and only the mapped variant behaves exotically.
#[derive(Debug, PartialEq)]
pub enum Arguments {
    Unmapped,
    Mapped(MappedArguments),
}

/// The payload of an integer-indexed (typed array) object: the viewed
/// buffer, if any, and the window into it.
#[derive(Debug, PartialEq)]
pub struct IntegerIndexed {
    pub viewed_array_buffer: Option<JsObject>,
    pub byte_offset: u64,
    pub array_length: u64,
}

/// An externally supplied value attached to an object record, in erased
/// form: a runtime type tag, the value's state as plain words, and the
/// object records the value owns.
///
/// The tag is the registry identity of the value's concrete type; recovery
/// of the value goes through exact tag comparison (no coercion, no
/// inheritance-based partial match).  `children` is the exhaustive list of
/// records the value owns, so the collector can follow them.
#[derive(Debug, PartialEq)]
pub struct HostObject {
    pub type_tag: u64,
    pub data: Vec<u64>,
    pub children: Vec<JsObject>,
}

/// The outgoing record references of a run of key-value entries, from
/// position `i` on, in order: each key's edge, then its value's.
pub open spec fn pairs_refs_from(s: Seq<(JsValue, JsValue)>, i: int) -> Seq<JsObject>
    decreases s.len() - i when 0 <= i <= s.len()
{
    if i >= s.len() {
        Seq::empty()
    } else {
        value_refs(&s[i].0) + value_refs(&s[i].1) + pairs_refs_from(s, i + 1)
    }
}

/// Appends the references of the entries from position `i` on to a
/// trace in progress.
pub fn push_pairs_refs(out: &mut Vec<JsObject>, s: &Vec<(JsValue, JsValue)>, i: usize)
    requires
        i <= s@.len(),
    ensures
        final(out)@ == old(out)@ + pairs_refs_from(s@, i as int),
    decreases s@.len() - i,
{
    let ghost prior = out@;
    if i < s.len() {
        crate::value::push_value_refs(out, &s[i].0);
        crate::value::push_value_refs(out, &s[i].1);
        push_pairs_refs(out, s, i + 1);
        proof {
            assert(out@ =~= prior + pairs_refs_from(s@, i as int));
        }
    } else {
        proof {
            assert(out@ =~= prior + pairs_refs_from(s@, i as int));
        }
    }
}

/// The three capabilities an externally supplied type must offer before a
/// value of it may ride inside an object record: a runtime type identity,
/// an exhaustive enumeration of the records it owns, and an erased form of
/// its state.
///
/// Implementors must return the same `type_tag` for every value of one
/// type, pick tags distinct from every other implementor's, and enumerate
/// in `trace` every record the value owns: an omitted edge lets the
/// collector reclaim a live record.
pub trait NativeObject {
    /// The registry identity of the value's concrete type.
    fn type_tag(&self) -> u64;

    /// Every object record this value owns, for the collector to follow.
    fn trace(&self) -> Vec<JsObject>;

    /// The value's state, erased to tagged plain words.
    fn erase(&self) -> HostObject;
}

impl NativeObject for HostObject {
    fn type_tag(&self) -> u64 {
        self.type_tag
    }

    fn trace(&self) -> (r: Vec<JsObject>)
        ensures
            r@ == self.children@,
    {
        let mut out: Vec<JsObject> = Vec::new();
        let mut i: usize = 0;
        while i < self.children.len()
            invariant
                i <= self.children@.len(),
                out@ == self.children@.take(i as int),
            decreases self.children@.len() - i,
        {
            out.push(self.children[i]);
            i = i + 1;
        }
        proof {
            assert(out@ == self.children@.take(self.children@.len() as int));
            assert(self.children@.take(self.children@.len() as int) == self.children@);
        }
        out
    }

    fn erase(&self) -> (r: HostObject)
        ensures
            r.type_tag == self.type_tag,
            r.data@ == self.data@,
            r.children@ == self.children@,
    {
        let mut data: Vec<u64> = Vec::new();
        let mut i: usize = 0;
        while i < self.data.len()
            invariant
                i <= self.data@.len(),
                data@ == self.data@.take(i as int),
            decreases self.data@.len() - i,
        {
            data.push(self.data[i]);
            i = i + 1;
        }
        let children = self.trace();
        proof {
            assert(data@ == self.data@.take(self.data@.len() as int));
            assert(self.data@.take(self.data@.len() as int) == self.data@);
        }
        HostObject { type_tag: self.type_tag, data, children }
    }
}

} // verus!
