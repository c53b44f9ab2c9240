//! Object kinds, operation tables, and the construction-time binding of
//! one to the other.
//!
//! Every object record carries a reference to exactly one statically-known
//! operation table, fixed for the record's lifetime.  The table is chosen
//! here, once, by the factory for the record's kind; nothing else ever
//! re-derives it from the payload.

use vstd::prelude::*;
use crate::payload::{
    pairs_refs_from, Arguments, ArrayBuffer, ArrayIterator, BoundFunction, Date, ForInIterator,
    Function, HostObject, IntegerIndexed, MapIterator, OrderedMap, OrderedSet, RegExp,
    RegExpStringIterator, SetIterator, StringIterator,
};
use crate::value::{
    push_handles, push_value_refs, push_values_refs, value_refs, values_refs_from, JsBigInt,
    JsObject, JsString, JsSymbol,
};

verus! {

/// The identity of one statically-defined operation table.
///
/// Each table is a complete implementation of the essential object
/// operations (get-prototype, set-prototype, is-extensible,
/// prevent-extensions, get-own-property, define-own-property, has-property,
/// get, set, delete, own-property-keys, and, for callable tables, call and
/// construct).  The operation bodies belong to the evaluator; this
/// component guarantees that the one correct table is reachable from any
/// object record in constant time and can neither be forged nor left
/// unset.
#[derive(Clone, Copy, PartialEq, Eq, Structural, Debug)]
pub enum InternalObjectMethods {
    /// Default behavior for every operation.
    Ordinary,
    /// Length-linked exotic writes.
    ArrayExotic,
    /// Exotic index-based own-property lookup over the wrapped text.
    StringExotic,
    /// Index aliasing into a call's parameter slots.
    ArgumentsExotic,
    /// Callable, not usable with `new`.
    Function,
    /// Callable and usable with `new`.
    Constructor,
    /// A partial application, not usable with `new`.
    BoundFunctionExotic,
    /// A partial application usable with `new`.
    BoundConstructorExotic,
    /// Exotic numeric-index access validated against the viewed buffer.
    IntegerIndexedExotic,
}

impl InternalObjectMethods {
    /// Whether this table implements the `call` operation.
    pub open spec fn has_call_spec(&self) -> bool {
        match *self {
            InternalObjectMethods::Function => true,
            InternalObjectMethods::Constructor => true,
            InternalObjectMethods::BoundFunctionExotic => true,
            InternalObjectMethods::BoundConstructorExotic => true,
            _ => false,
        }
    }

    /// Whether this table implements the `construct` operation.
    pub open spec fn has_construct_spec(&self) -> bool {
        match *self {
            InternalObjectMethods::Constructor => true,
            InternalObjectMethods::BoundConstructorExotic => true,
            _ => false,
        }
    }

    /// Whether this table implements `call`.
    pub fn has_call(&self) -> (r: bool)
        ensures
            r == self.has_call_spec(),
    {
        matches!(
            self,
            InternalObjectMethods::Function
                | InternalObjectMethods::Constructor
                | InternalObjectMethods::BoundFunctionExotic
                | InternalObjectMethods::BoundConstructorExotic
        )
    }

    /// Whether this table implements `construct`.  Every table that
    /// implements `construct` also implements `call`.
    pub fn has_construct(&self) -> (r: bool)
        ensures
            r == self.has_construct_spec(),
            r ==> self.has_call_spec(),
    {
        matches!(
            self,
            InternalObjectMethods::Constructor | InternalObjectMethods::BoundConstructorExotic
        )
    }
}

/// The kind of an object: which behavioral family it belongs to, together
/// with that family's payload.
#[derive(Debug)]
pub enum ObjectKind {
    Array,
    ArrayIterator(ArrayIterator),
    ArrayBuffer(ArrayBuffer),
    MapObject(OrderedMap),
    MapIterator(MapIterator),
    RegExp(Box<RegExp>),
    RegExpStringIterator(RegExpStringIterator),
    BigInt(JsBigInt),
    Boolean(bool),
    ForInIterator(ForInIterator),
    Function(Function),
    BoundFunction(BoundFunction),
    SetObject(OrderedSet),
    SetIterator(SetIterator),
    String(JsString),
    StringIterator(StringIterator),
    /// The wrapped numeric primitive, carried as its 64-bit encoding; the
    /// engine's numeric routines live outside this component.
    Number(u64),
    Symbol(JsSymbol),
    Error,
    Ordinary,
    Date(Date),
    Global,
    Arguments(Arguments),
    NativeObject(HostObject),
    IntegerIndexed(IntegerIndexed),
}

/// The outgoing record references a payload owns: the edges out of the
/// payload contents that the collector must follow.  The enumeration is
/// deterministic and exhaustive: an edge omitted here would let the
/// collector reclaim a live record.
pub open spec fn kind_refs(kind: &ObjectKind) -> Seq<JsObject> {
    match *kind {
        ObjectKind::ArrayIterator(ref i) => value_refs(&i.array),
        ObjectKind::MapObject(ref m) => pairs_refs_from(m.entries@, 0),
        ObjectKind::MapIterator(ref i) => value_refs(&i.iterated_map),
        ObjectKind::RegExpStringIterator(ref i) => seq![i.matcher],
        ObjectKind::ForInIterator(ref i) => value_refs(&i.object),
        ObjectKind::Function(ref f) => match f {
            Function::Native { .. } => Seq::empty(),
            Function::Closure { captures, .. } => captures.children@,
        },
        ObjectKind::BoundFunction(ref b) => seq![b.target_function] + value_refs(&b.this)
            + values_refs_from(b.args@, 0),
        ObjectKind::SetObject(ref s) => values_refs_from(s.items@, 0),
        ObjectKind::SetIterator(ref i) => value_refs(&i.iterated_set),
        ObjectKind::StringIterator(ref i) => value_refs(&i.string),
        ObjectKind::Arguments(ref a) => match a {
            Arguments::Unmapped => Seq::empty(),
            Arguments::Mapped(m) => seq![m.parameter_map],
        },
        ObjectKind::NativeObject(ref h) => h.children@,
        ObjectKind::IntegerIndexed(ref t) => match t.viewed_array_buffer {
            Some(b) => seq![b],
            None => Seq::empty(),
        },
        _ => Seq::empty(),
    }
}

impl ObjectKind {
    /// Appends every record reference this payload owns to a trace in
    /// progress.
    pub fn push_refs(&self, out: &mut Vec<JsObject>)
        ensures
            final(out)@ == old(out)@ + kind_refs(self),
    {
        let ghost prior = out@;
        match self {
            ObjectKind::ArrayIterator(i) => push_value_refs(out, &i.array),
            ObjectKind::MapObject(m) => crate::payload::push_pairs_refs(out, &m.entries, 0),
            ObjectKind::MapIterator(i) => push_value_refs(out, &i.iterated_map),
            ObjectKind::RegExpStringIterator(i) => {
                out.push(i.matcher);
                proof {
                    assert(out@ =~= prior + kind_refs(self));
                }
            },
            ObjectKind::ForInIterator(i) => push_value_refs(out, &i.object),
            ObjectKind::Function(f) => match f {
                Function::Native { .. } => (),
                Function::Closure { captures, .. } => {
                    push_handles(out, &captures.children, 0);
                    proof {
                        assert(captures.children@.skip(0) =~= captures.children@);
                    }
                },
            },
            ObjectKind::BoundFunction(b) => {
                out.push(b.target_function);
                push_value_refs(out, &b.this);
                push_values_refs(out, &b.args, 0);
                proof {
                    assert(out@ =~= prior + kind_refs(self));
                }
            },
            ObjectKind::SetObject(s) => push_values_refs(out, &s.items, 0),
            ObjectKind::SetIterator(i) => push_value_refs(out, &i.iterated_set),
            ObjectKind::StringIterator(i) => push_value_refs(out, &i.string),
            ObjectKind::Arguments(a) => match a {
                Arguments::Unmapped => (),
                Arguments::Mapped(m) => {
                    out.push(m.parameter_map);
                    proof {
                        assert(out@ =~= prior + kind_refs(self));
                    }
                },
            },
            ObjectKind::NativeObject(h) => {
                push_handles(out, &h.children, 0);
                proof {
                    assert(h.children@.skip(0) =~= h.children@);
                }
            },
            ObjectKind::IntegerIndexed(t) => match t.viewed_array_buffer {
                Some(b) => {
                    out.push(b);
                    proof {
                        assert(out@ =~= prior + kind_refs(self));
                    }
                },
                None => (),
            },
            _ => (),
        }
        proof {
            assert(out@ =~= prior + kind_refs(self));
        }
    }
}

/// A number distinguishing the variants of [`ObjectKind`], ignoring the
/// payload.
pub open spec fn kind_tag(kind: &ObjectKind) -> int {
    match *kind {
        ObjectKind::Array => 0,
        ObjectKind::ArrayIterator(_) => 1,
        ObjectKind::ArrayBuffer(_) => 2,
        ObjectKind::MapObject(_) => 3,
        ObjectKind::MapIterator(_) => 4,
        ObjectKind::RegExp(_) => 5,
        ObjectKind::RegExpStringIterator(_) => 6,
        ObjectKind::BigInt(_) => 7,
        ObjectKind::Boolean(_) => 8,
        ObjectKind::ForInIterator(_) => 9,
        ObjectKind::Function(_) => 10,
        ObjectKind::BoundFunction(_) => 11,
        ObjectKind::SetObject(_) => 12,
        ObjectKind::SetIterator(_) => 13,
        ObjectKind::String(_) => 14,
        ObjectKind::StringIterator(_) => 15,
        ObjectKind::Number(_) => 16,
        ObjectKind::Symbol(_) => 17,
        ObjectKind::Error => 18,
        ObjectKind::Ordinary => 19,
        ObjectKind::Date(_) => 20,
        ObjectKind::Global => 21,
        ObjectKind::Arguments(_) => 22,
        ObjectKind::NativeObject(_) => 23,
        ObjectKind::IntegerIndexed(_) => 24,
    }
}

/// The documented human-readable label of a kind.  Each kind has exactly
/// one label, the label depends on the variant alone, and distinct kinds
/// have distinct labels (see [`lemma_label_identifies_kind`]).
pub open spec fn label_spec(kind: &ObjectKind) -> Seq<char> {
    match *kind {
        ObjectKind::Array => "Array"@,
        ObjectKind::ArrayIterator(_) => "ArrayIterator"@,
        ObjectKind::ArrayBuffer(_) => "ArrayBuffer"@,
        ObjectKind::MapObject(_) => "Map"@,
        ObjectKind::MapIterator(_) => "MapIterator"@,
        ObjectKind::RegExp(_) => "RegExp"@,
        ObjectKind::RegExpStringIterator(_) => "RegExpStringIterator"@,
        ObjectKind::BigInt(_) => "BigInt"@,
        ObjectKind::Boolean(_) => "Boolean"@,
        ObjectKind::ForInIterator(_) => "ForInIterator"@,
        ObjectKind::Function(_) => "Function"@,
        ObjectKind::BoundFunction(_) => "BoundFunction"@,
        ObjectKind::SetObject(_) => "Set"@,
        ObjectKind::SetIterator(_) => "SetIterator"@,
        ObjectKind::String(_) => "String"@,
        ObjectKind::StringIterator(_) => "StringIterator"@,
        ObjectKind::Number(_) => "Number"@,
        ObjectKind::Symbol(_) => "Symbol"@,
        ObjectKind::Error => "Error"@,
        ObjectKind::Ordinary => "Ordinary"@,
        ObjectKind::Date(_) => "Date"@,
        ObjectKind::Global => "Global"@,
        ObjectKind::Arguments(_) => "Arguments"@,
        ObjectKind::NativeObject(_) => "NativeObject"@,
        ObjectKind::IntegerIndexed(_) => "TypedArray"@,
    }
}

impl ObjectKind {
    /// The kind's human-readable label, e.g. for diagnostics.
    pub fn label(&self) -> (r: &'static str)
        ensures
            r@ == label_spec(self),
    {
        match self {
            ObjectKind::Array => "Array",
            ObjectKind::ArrayIterator(_) => "ArrayIterator",
            ObjectKind::ArrayBuffer(_) => "ArrayBuffer",
            ObjectKind::MapObject(_) => "Map",
            ObjectKind::MapIterator(_) => "MapIterator",
            ObjectKind::RegExp(_) => "RegExp",
            ObjectKind::RegExpStringIterator(_) => "RegExpStringIterator",
            ObjectKind::BigInt(_) => "BigInt",
            ObjectKind::Boolean(_) => "Boolean",
            ObjectKind::ForInIterator(_) => "ForInIterator",
            ObjectKind::Function(_) => "Function",
            ObjectKind::BoundFunction(_) => "BoundFunction",
            ObjectKind::SetObject(_) => "Set",
            ObjectKind::SetIterator(_) => "SetIterator",
            ObjectKind::String(_) => "String",
            ObjectKind::StringIterator(_) => "StringIterator",
            ObjectKind::Number(_) => "Number",
            ObjectKind::Symbol(_) => "Symbol",
            ObjectKind::Error => "Error",
            ObjectKind::Ordinary => "Ordinary",
            ObjectKind::Date(_) => "Date",
            ObjectKind::Global => "Global",
            ObjectKind::Arguments(_) => "Arguments",
            ObjectKind::NativeObject(_) => "NativeObject",
            ObjectKind::IntegerIndexed(_) => "TypedArray",
        }
    }
}

/// Reads a kind's variant number back off its label; label text that is
/// no kind's label maps to a number no kind carries.
pub open spec fn tag_of_label(s: Seq<char>) -> int {
    if s == "Array"@ {
        0
    } else if s == "ArrayIterator"@ {
        1
    } else if s == "ArrayBuffer"@ {
        2
    } else if s == "Map"@ {
        3
    } else if s == "MapIterator"@ {
        4
    } else if s == "RegExp"@ {
        5
    } else if s == "RegExpStringIterator"@ {
        6
    } else if s == "BigInt"@ {
        7
    } else if s == "Boolean"@ {
        8
    } else if s == "ForInIterator"@ {
        9
    } else if s == "Function"@ {
        10
    } else if s == "BoundFunction"@ {
        11
    } else if s == "Set"@ {
        12
    } else if s == "SetIterator"@ {
        13
    } else if s == "String"@ {
        14
    } else if s == "StringIterator"@ {
        15
    } else if s == "Number"@ {
        16
    } else if s == "Symbol"@ {
        17
    } else if s == "Error"@ {
        18
    } else if s == "Ordinary"@ {
        19
    } else if s == "Date"@ {
        20
    } else if s == "Global"@ {
        21
    } else if s == "Arguments"@ {
        22
    } else if s == "NativeObject"@ {
        23
    } else if s == "TypedArray"@ {
        24
    } else {
        25
    }
}

/// A kind's label reads back to that kind's variant number: labeling is
/// invertible.
pub proof fn lemma_label_reads_back(k: &ObjectKind)
    ensures
        tag_of_label(label_spec(k)) == kind_tag(k),
{
    reveal_strlit("Array");
    reveal_strlit("ArrayIterator");
    reveal_strlit("ArrayBuffer");
    reveal_strlit("Map");
    reveal_strlit("MapIterator");
    reveal_strlit("RegExp");
    reveal_strlit("RegExpStringIterator");
    reveal_strlit("BigInt");
    reveal_strlit("Boolean");
    reveal_strlit("ForInIterator");
    reveal_strlit("Function");
    reveal_strlit("BoundFunction");
    reveal_strlit("Set");
    reveal_strlit("SetIterator");
    reveal_strlit("String");
    reveal_strlit("StringIterator");
    reveal_strlit("Number");
    reveal_strlit("Symbol");
    reveal_strlit("Error");
    reveal_strlit("Ordinary");
    reveal_strlit("Date");
    reveal_strlit("Global");
    reveal_strlit("Arguments");
    reveal_strlit("NativeObject");
    reveal_strlit("TypedArray");
    assert("Array"@.len() == 5 && "Array"@[0] == 'A');
    assert("ArrayIterator"@.len() == 13 && "ArrayIterator"@[0] == 'A');
    assert("ArrayBuffer"@.len() == 11 && "ArrayBuffer"@[0] == 'A');
    assert("Map"@.len() == 3 && "Map"@[0] == 'M');
    assert("MapIterator"@.len() == 11 && "MapIterator"@[0] == 'M');
    assert("RegExp"@.len() == 6 && "RegExp"@[0] == 'R');
    assert("RegExpStringIterator"@.len() == 20);
    assert("BigInt"@.len() == 6 && "BigInt"@[0] == 'B');
    assert("Boolean"@.len() == 7);
    assert("ForInIterator"@.len() == 13 && "ForInIterator"@[0] == 'F');
    assert("Function"@.len() == 8 && "Function"@[0] == 'F');
    assert("BoundFunction"@.len() == 13 && "BoundFunction"@[0] == 'B');
    assert("Set"@.len() == 3 && "Set"@[0] == 'S');
    assert("SetIterator"@.len() == 11 && "SetIterator"@[0] == 'S');
    assert("String"@.len() == 6 && "String"@[0] == 'S' && "String"@[1] == 't');
    assert("StringIterator"@.len() == 14);
    assert("Number"@.len() == 6 && "Number"@[0] == 'N');
    assert("Symbol"@.len() == 6 && "Symbol"@[0] == 'S' && "Symbol"@[1] == 'y');
    assert("Error"@.len() == 5 && "Error"@[0] == 'E');
    assert("Ordinary"@.len() == 8 && "Ordinary"@[0] == 'O');
    assert("Date"@.len() == 4);
    assert("Global"@.len() == 6 && "Global"@[0] == 'G');
    assert("Arguments"@.len() == 9);
    assert("NativeObject"@.len() == 12);
    assert("TypedArray"@.len() == 10);
    match *k {
        ObjectKind::Array => assert(tag_of_label("Array"@) == 0),
        ObjectKind::ArrayIterator(_) => assert(tag_of_label("ArrayIterator"@) == 1),
        ObjectKind::ArrayBuffer(_) => assert(tag_of_label("ArrayBuffer"@) == 2),
        ObjectKind::MapObject(_) => assert(tag_of_label("Map"@) == 3),
        ObjectKind::MapIterator(_) => assert(tag_of_label("MapIterator"@) == 4),
        ObjectKind::RegExp(_) => assert(tag_of_label("RegExp"@) == 5),
        ObjectKind::RegExpStringIterator(_) => assert(tag_of_label("RegExpStringIterator"@) == 6),
        ObjectKind::BigInt(_) => assert(tag_of_label("BigInt"@) == 7),
        ObjectKind::Boolean(_) => assert(tag_of_label("Boolean"@) == 8),
        ObjectKind::ForInIterator(_) => assert(tag_of_label("ForInIterator"@) == 9),
        ObjectKind::Function(_) => assert(tag_of_label("Function"@) == 10),
        ObjectKind::BoundFunction(_) => assert(tag_of_label("BoundFunction"@) == 11),
        ObjectKind::SetObject(_) => assert(tag_of_label("Set"@) == 12),
        ObjectKind::SetIterator(_) => assert(tag_of_label("SetIterator"@) == 13),
        ObjectKind::String(_) => assert(tag_of_label("String"@) == 14),
        ObjectKind::StringIterator(_) => assert(tag_of_label("StringIterator"@) == 15),
        ObjectKind::Number(_) => assert(tag_of_label("Number"@) == 16),
        ObjectKind::Symbol(_) => assert(tag_of_label("Symbol"@) == 17),
        ObjectKind::Error => assert(tag_of_label("Error"@) == 18),
        ObjectKind::Ordinary => assert(tag_of_label("Ordinary"@) == 19),
        ObjectKind::Date(_) => assert(tag_of_label("Date"@) == 20),
        ObjectKind::Global => assert(tag_of_label("Global"@) == 21),
        ObjectKind::Arguments(_) => assert(tag_of_label("Arguments"@) == 22),
        ObjectKind::NativeObject(_) => assert(tag_of_label("NativeObject"@) == 23),
        ObjectKind::IntegerIndexed(_) => assert(tag_of_label("TypedArray"@) == 24),
    }
}

/// The labeling is a round trip: a label names exactly one kind, so two
/// kinds with the same label are the same variant.
pub proof fn lemma_label_identifies_kind(a: &ObjectKind, b: &ObjectKind)
    ensures
        label_spec(a) == label_spec(b) ==> kind_tag(a) == kind_tag(b),
{
    lemma_label_reads_back(a);
    lemma_label_reads_back(b);
}

/// The one table designated for a kind.
///
/// For the two constructibility-dependent kinds (functions and bound
/// functions) the choice reads the flag captured inside the payload; an
/// unmapped `arguments` object gets the ordinary table even though mapped
/// `arguments` objects are exotic.
pub open spec fn designated_table(kind: &ObjectKind) -> InternalObjectMethods {
    match *kind {
        ObjectKind::Array => InternalObjectMethods::ArrayExotic,
        ObjectKind::String(_) => InternalObjectMethods::StringExotic,
        ObjectKind::Function(ref f) => if f.is_constructor_spec() {
            InternalObjectMethods::Constructor
        } else {
            InternalObjectMethods::Function
        },
        ObjectKind::BoundFunction(_) => InternalObjectMethods::BoundFunctionExotic,
        ObjectKind::Arguments(ref a) => if a is Unmapped {
            InternalObjectMethods::Ordinary
        } else {
            InternalObjectMethods::ArgumentsExotic
        },
        ObjectKind::IntegerIndexed(_) => InternalObjectMethods::IntegerIndexedExotic,
        _ => InternalObjectMethods::Ordinary,
    }
}

/// A kind paired with its operation table.
///
/// The pairing invariant: `internal_methods` is always exactly the table
/// designated for `kind` — for bound functions, the one matching the
/// constructibility flag given at construction.  The factories below are
/// the only constructors, so a mismatched pair cannot be built.
#[derive(Debug)]
pub struct ObjectData {
    kind: ObjectKind,
    internal_methods: InternalObjectMethods,
}

impl ObjectData {
    /// The kind inside this pairing.
    pub closed spec fn kind_spec(&self) -> &ObjectKind {
        &self.kind
    }

    /// The table inside this pairing.
    pub closed spec fn table_spec(&self) -> InternalObjectMethods {
        self.internal_methods
    }

    /// The pairing invariant.  Every factory establishes it; nothing ever
    /// rebinds a table, so it holds for the record's whole lifetime.
    ///
    /// A bound function's designated table additionally depends on the
    /// constructibility flag given at construction, which the payload does
    /// not record; the invariant therefore pins such a table to one of the
    /// two bound-function tables.
    pub open spec fn well_formed(&self) -> bool {
        match *self.kind_spec() {
            ObjectKind::BoundFunction(_) => {
                ||| self.table_spec() == InternalObjectMethods::BoundFunctionExotic
                ||| self.table_spec() == InternalObjectMethods::BoundConstructorExotic
            },
            _ => self.table_spec() == designated_table(self.kind_spec()),
        }
    }

    /// The kind of the object.
    pub fn kind(&self) -> (r: &ObjectKind)
        ensures
            r == self.kind_spec(),
    {
        &self.kind
    }

    /// The operation table bound to the object, reachable in constant
    /// time.
    pub fn internal_methods(&self) -> (r: &InternalObjectMethods)
        ensures
            *r == self.table_spec(),
    {
        &self.internal_methods
    }


    /// Mutable access to the backing store, if this pairing holds an `ArrayBuffer` object's
    /// payload.  The variant and the bound table cannot change through
    /// the reference.
    pub fn as_array_buffer_mut(&mut self) -> (r: Option<&mut ArrayBuffer>)
        ensures
            final(self).table_spec() == old(self).table_spec(),
            match *old(self).kind_spec() {
                ObjectKind::ArrayBuffer(ref p) => r matches Some(x) && *x == *p
                    && *final(self).kind_spec() == ObjectKind::ArrayBuffer(*final(x)),
                _ => r is None && *final(self) == *old(self),
            },
    {
        match &mut self.kind {
            ObjectKind::ArrayBuffer(p) => Some(p),
            _ => None,
        }
    }
    /// Mutable access to the iteration state, if this pairing holds an `ArrayIterator` object's
    /// payload.  The variant and the bound table cannot change through
    /// the reference.
    pub fn as_array_iterator_mut(&mut self) -> (r: Option<&mut ArrayIterator>)
        ensures
            final(self).table_spec() == old(self).table_spec(),
            match *old(self).kind_spec() {
                ObjectKind::ArrayIterator(ref p) => r matches Some(x) && *x == *p
                    && *final(self).kind_spec() == ObjectKind::ArrayIterator(*final(x)),
                _ => r is None && *final(self) == *old(self),
            },
    {
        match &mut self.kind {
            ObjectKind::ArrayIterator(p) => Some(p),
            _ => None,
        }
    }
    /// Mutable access to the iteration state, if this pairing holds a `StringIterator` object's
    /// payload.  The variant and the bound table cannot change through
    /// the reference.
    pub fn as_string_iterator_mut(&mut self) -> (r: Option<&mut StringIterator>)
        ensures
            final(self).table_spec() == old(self).table_spec(),
            match *old(self).kind_spec() {
                ObjectKind::StringIterator(ref p) => r matches Some(x) && *x == *p
                    && *final(self).kind_spec() == ObjectKind::StringIterator(*final(x)),
                _ => r is None && *final(self) == *old(self),
            },
    {
        match &mut self.kind {
            ObjectKind::StringIterator(p) => Some(p),
            _ => None,
        }
    }
    /// Mutable access to the iteration state, if this pairing holds a `RegExpStringIterator` object's
    /// payload.  The variant and the bound table cannot change through
    /// the reference.
    pub fn as_regexp_string_iterator_mut(&mut self) -> (r: Option<&mut RegExpStringIterator>)
        ensures
            final(self).table_spec() == old(self).table_spec(),
            match *old(self).kind_spec() {
                ObjectKind::RegExpStringIterator(ref p) => r matches Some(x) && *x == *p
                    && *final(self).kind_spec() == ObjectKind::RegExpStringIterator(*final(x)),
                _ => r is None && *final(self) == *old(self),
            },
    {
        match &mut self.kind {
            ObjectKind::RegExpStringIterator(p) => Some(p),
            _ => None,
        }
    }
    /// Mutable access to the iteration state, if this pairing holds a `ForInIterator` object's
    /// payload.  The variant and the bound table cannot change through
    /// the reference.
    pub fn as_for_in_iterator_mut(&mut self) -> (r: Option<&mut ForInIterator>)
        ensures
            final(self).table_spec() == old(self).table_spec(),
            match *old(self).kind_spec() {
                ObjectKind::ForInIterator(ref p) => r matches Some(x) && *x == *p
                    && *final(self).kind_spec() == ObjectKind::ForInIterator(*final(x)),
                _ => r is None && *final(self) == *old(self),
            },
    {
        match &mut self.kind {
            ObjectKind::ForInIterator(p) => Some(p),
            _ => None,
        }
    }
    /// Mutable access to the entries, if this pairing holds a `Map` object's
    /// payload.  The variant and the bound table cannot change through
    /// the reference.
    pub fn as_map_mut(&mut self) -> (r: Option<&mut OrderedMap>)
        ensures
            final(self).table_spec() == old(self).table_spec(),
            match *old(self).kind_spec() {
                ObjectKind::MapObject(ref p) => r matches Some(x) && *x == *p
                    && *final(self).kind_spec() == ObjectKind::MapObject(*final(x)),
                _ => r is None && *final(self) == *old(self),
            },
    {
        match &mut self.kind {
            ObjectKind::MapObject(p) => Some(p),
            _ => None,
        }
    }
    /// Mutable access to the iteration state, if this pairing holds a `MapIterator` object's
    /// payload.  The variant and the bound table cannot change through
    /// the reference.
    pub fn as_map_iterator_mut(&mut self) -> (r: Option<&mut MapIterator>)
        ensures
            final(self).table_spec() == old(self).table_spec(),
            match *old(self).kind_spec() {
                ObjectKind::MapIterator(ref p) => r matches Some(x) && *x == *p
                    && *final(self).kind_spec() == ObjectKind::MapIterator(*final(x)),
                _ => r is None && *final(self) == *old(self),
            },
    {
        match &mut self.kind {
            ObjectKind::MapIterator(p) => Some(p),
            _ => None,
        }
    }
    /// Mutable access to the items, if this pairing holds a `Set` object's
    /// payload.  The variant and the bound table cannot change through
    /// the reference.
    pub fn as_set_mut(&mut self) -> (r: Option<&mut OrderedSet>)
        ensures
            final(self).table_spec() == old(self).table_spec(),
            match *old(self).kind_spec() {
                ObjectKind::SetObject(ref p) => r matches Some(x) && *x == *p
                    && *final(self).kind_spec() == ObjectKind::SetObject(*final(x)),
                _ => r is None && *final(self) == *old(self),
            },
    {
        match &mut self.kind {
            ObjectKind::SetObject(p) => Some(p),
            _ => None,
        }
    }
    /// Mutable access to the iteration state, if this pairing holds a `SetIterator` object's
    /// payload.  The variant and the bound table cannot change through
    /// the reference.
    pub fn as_set_iterator_mut(&mut self) -> (r: Option<&mut SetIterator>)
        ensures
            final(self).table_spec() == old(self).table_spec(),
            match *old(self).kind_spec() {
                ObjectKind::SetIterator(ref p) => r matches Some(x) && *x == *p
                    && *final(self).kind_spec() == ObjectKind::SetIterator(*final(x)),
                _ => r is None && *final(self) == *old(self),
            },
    {
        match &mut self.kind {
            ObjectKind::SetIterator(p) => Some(p),
            _ => None,
        }
    }
    /// Mutable access to the callable payload, if this pairing holds a `Function` object's
    /// payload.  The variant and the bound table cannot change through
    /// the reference.
    pub fn as_function_mut(&mut self) -> (r: Option<&mut Function>)
        ensures
            final(self).table_spec() == old(self).table_spec(),
            match *old(self).kind_spec() {
                ObjectKind::Function(ref p) => r matches Some(x) && *x == *p
                    && *final(self).kind_spec() == ObjectKind::Function(*final(x)),
                _ => r is None && *final(self) == *old(self),
            },
    {
        match &mut self.kind {
            ObjectKind::Function(p) => Some(p),
            _ => None,
        }
    }
    /// Mutable access to the integer-indexed payload, if this pairing holds a typed array's
    /// payload.  The variant and the bound table cannot change through
    /// the reference.
    pub fn as_typed_array_mut(&mut self) -> (r: Option<&mut IntegerIndexed>)
        ensures
            final(self).table_spec() == old(self).table_spec(),
            match *old(self).kind_spec() {
                ObjectKind::IntegerIndexed(ref p) => r matches Some(x) && *x == *p
                    && *final(self).kind_spec() == ObjectKind::IntegerIndexed(*final(x)),
                _ => r is None && *final(self) == *old(self),
            },
    {
        match &mut self.kind {
            ObjectKind::IntegerIndexed(p) => Some(p),
            _ => None,
        }
    }
    /// Mutable access to the erased host payload, exactly when this
    /// pairing holds one registered under `type_tag`.  The variant and
    /// the bound table cannot change through the reference.
    pub fn downcast_mut(&mut self, type_tag: u64) -> (r: Option<&mut HostObject>)
        ensures
            final(self).table_spec() == old(self).table_spec(),
            match *old(self).kind_spec() {
                ObjectKind::NativeObject(ref h) => if h.type_tag == type_tag {
                    r matches Some(x) && *x == *h
                        && *final(self).kind_spec() == ObjectKind::NativeObject(*final(x))
                } else {
                    r is None && *final(self) == *old(self)
                },
                _ => r is None && *final(self) == *old(self),
            },
    {
        match &mut self.kind {
            ObjectKind::NativeObject(h) => if h.type_tag == type_tag {
                Some(h)
            } else {
                None
            },
            _ => None,
        }
    }

    /// Creates the `Array` pairing: the array exotic table.
    pub fn array() -> (r: Self)
        ensures
            r.kind_spec() is Array,
            r.table_spec() == InternalObjectMethods::ArrayExotic,
            r.well_formed(),
    {
        Self { kind: ObjectKind::Array, internal_methods: InternalObjectMethods::ArrayExotic }
    }

    /// Creates the `ArrayIterator` pairing: the ordinary table.
    pub fn array_iterator(array_iterator: ArrayIterator) -> (r: Self)
        ensures
            r.kind_spec() matches ObjectKind::ArrayIterator(i) && i == array_iterator,
            r.table_spec() == InternalObjectMethods::Ordinary,
            r.well_formed(),
    {
        Self {
            kind: ObjectKind::ArrayIterator(array_iterator),
            internal_methods: InternalObjectMethods::Ordinary,
        }
    }

    /// Creates the `ArrayBuffer` pairing: the ordinary table.
    pub fn array_buffer(array_buffer: ArrayBuffer) -> (r: Self)
        ensures
            r.kind_spec() matches ObjectKind::ArrayBuffer(b) && b == array_buffer,
            r.table_spec() == InternalObjectMethods::Ordinary,
            r.well_formed(),
    {
        Self {
            kind: ObjectKind::ArrayBuffer(array_buffer),
            internal_methods: InternalObjectMethods::Ordinary,
        }
    }

    /// Creates the `Map` pairing: the ordinary table.
    pub fn map(map: OrderedMap) -> (r: Self)
        ensures
            r.kind_spec() matches ObjectKind::MapObject(m) && m == map,
            r.table_spec() == InternalObjectMethods::Ordinary,
            r.well_formed(),
    {
        Self { kind: ObjectKind::MapObject(map), internal_methods: InternalObjectMethods::Ordinary }
    }

    /// Creates the `MapIterator` pairing: the ordinary table.
    pub fn map_iterator(map_iterator: MapIterator) -> (r: Self)
        ensures
            r.kind_spec() matches ObjectKind::MapIterator(i) && i == map_iterator,
            r.table_spec() == InternalObjectMethods::Ordinary,
            r.well_formed(),
    {
        Self {
            kind: ObjectKind::MapIterator(map_iterator),
            internal_methods: InternalObjectMethods::Ordinary,
        }
    }

    /// Creates the `RegExp` pairing: the ordinary table.
    pub fn reg_exp(reg_exp: Box<RegExp>) -> (r: Self)
        ensures
            r.kind_spec() matches ObjectKind::RegExp(e) && e == reg_exp,
            r.table_spec() == InternalObjectMethods::Ordinary,
            r.well_formed(),
    {
        Self {
            kind: ObjectKind::RegExp(reg_exp),
            internal_methods: InternalObjectMethods::Ordinary,
        }
    }

    /// Creates the `RegExpStringIterator` pairing: the ordinary table.
    pub fn reg_exp_string_iterator(reg_exp_string_iterator: RegExpStringIterator) -> (r: Self)
        ensures
            r.kind_spec() matches ObjectKind::RegExpStringIterator(i)
                && i == reg_exp_string_iterator,
            r.table_spec() == InternalObjectMethods::Ordinary,
            r.well_formed(),
    {
        Self {
            kind: ObjectKind::RegExpStringIterator(reg_exp_string_iterator),
            internal_methods: InternalObjectMethods::Ordinary,
        }
    }

    /// Creates the `BigInt` pairing: the ordinary table.
    pub fn big_int(big_int: JsBigInt) -> (r: Self)
        ensures
            r.kind_spec() matches ObjectKind::BigInt(b) && b == big_int,
            r.table_spec() == InternalObjectMethods::Ordinary,
            r.well_formed(),
    {
        Self {
            kind: ObjectKind::BigInt(big_int),
            internal_methods: InternalObjectMethods::Ordinary,
        }
    }

    /// Creates the `Boolean` pairing: the ordinary table.
    pub fn boolean(boolean: bool) -> (r: Self)
        ensures
            r.kind_spec() matches ObjectKind::Boolean(b) && b == boolean,
            r.table_spec() == InternalObjectMethods::Ordinary,
            r.well_formed(),
    {
        Self {
            kind: ObjectKind::Boolean(boolean),
            internal_methods: InternalObjectMethods::Ordinary,
        }
    }

    /// Creates the `ForInIterator` pairing: the ordinary table.
    pub fn for_in_iterator(for_in_iterator: ForInIterator) -> (r: Self)
        ensures
            r.kind_spec() matches ObjectKind::ForInIterator(i) && i == for_in_iterator,
            r.table_spec() == InternalObjectMethods::Ordinary,
            r.well_formed(),
    {
        Self {
            kind: ObjectKind::ForInIterator(for_in_iterator),
            internal_methods: InternalObjectMethods::Ordinary,
        }
    }

    /// Creates the `Function` pairing.  The table follows the payload's
    /// constructibility flag: the constructor table when the function may
    /// be used with `new`, the plain function table otherwise.
    pub fn function(function: Function) -> (r: Self)
        ensures
            r.kind_spec() matches ObjectKind::Function(f) && f == function,
            r.table_spec() == if function.is_constructor_spec() {
                InternalObjectMethods::Constructor
            } else {
                InternalObjectMethods::Function
            },
            r.well_formed(),
    {
        Self {
            internal_methods: if function.is_constructor() {
                InternalObjectMethods::Constructor
            } else {
                InternalObjectMethods::Function
            },
            kind: ObjectKind::Function(function),
        }
    }

    /// Creates the `BoundFunction` pairing.  The table follows the
    /// `constructor` flag: the bound-constructor exotic table when the
    /// partial application is `new`-capable, the bound-function exotic
    /// table otherwise.
    pub fn bound_function(bound_function: BoundFunction, constructor: bool) -> (r: Self)
        ensures
            r.kind_spec() matches ObjectKind::BoundFunction(f) && f == bound_function,
            r.table_spec() == if constructor {
                InternalObjectMethods::BoundConstructorExotic
            } else {
                InternalObjectMethods::BoundFunctionExotic
            },
            r.well_formed(),
    {
        Self {
            kind: ObjectKind::BoundFunction(bound_function),
            internal_methods: if constructor {
                InternalObjectMethods::BoundConstructorExotic
            } else {
                InternalObjectMethods::BoundFunctionExotic
            },
        }
    }

    /// Creates the `Set` pairing: the ordinary table.
    pub fn set(set: OrderedSet) -> (r: Self)
        ensures
            r.kind_spec() matches ObjectKind::SetObject(s) && s == set,
            r.table_spec() == InternalObjectMethods::Ordinary,
            r.well_formed(),
    {
        Self { kind: ObjectKind::SetObject(set), internal_methods: InternalObjectMethods::Ordinary }
    }

    /// Creates the `SetIterator` pairing: the ordinary table.
    pub fn set_iterator(set_iterator: SetIterator) -> (r: Self)
        ensures
            r.kind_spec() matches ObjectKind::SetIterator(i) && i == set_iterator,
            r.table_spec() == InternalObjectMethods::Ordinary,
            r.well_formed(),
    {
        Self {
            kind: ObjectKind::SetIterator(set_iterator),
            internal_methods: InternalObjectMethods::Ordinary,
        }
    }

    /// Creates the `String` pairing: the string exotic table.
    pub fn string(string: JsString) -> (r: Self)
        ensures
            r.kind_spec() matches ObjectKind::String(s) && s == string,
            r.table_spec() == InternalObjectMethods::StringExotic,
            r.well_formed(),
    {
        Self {
            kind: ObjectKind::String(string),
            internal_methods: InternalObjectMethods::StringExotic,
        }
    }

    /// Creates the `StringIterator` pairing: the ordinary table.
    pub fn string_iterator(string_iterator: StringIterator) -> (r: Self)
        ensures
            r.kind_spec() matches ObjectKind::StringIterator(i) && i == string_iterator,
            r.table_spec() == InternalObjectMethods::Ordinary,
            r.well_formed(),
    {
        Self {
            kind: ObjectKind::StringIterator(string_iterator),
            internal_methods: InternalObjectMethods::Ordinary,
        }
    }

    /// Creates the `Number` pairing: the ordinary table.
    pub fn number(number: u64) -> (r: Self)
        ensures
            r.kind_spec() matches ObjectKind::Number(n) && n == number,
            r.table_spec() == InternalObjectMethods::Ordinary,
            r.well_formed(),
    {
        Self {
            kind: ObjectKind::Number(number),
            internal_methods: InternalObjectMethods::Ordinary,
        }
    }

    /// Creates the `Symbol` pairing: the ordinary table.
    pub fn symbol(symbol: JsSymbol) -> (r: Self)
        ensures
            r.kind_spec() matches ObjectKind::Symbol(s) && s == symbol,
            r.table_spec() == InternalObjectMethods::Ordinary,
            r.well_formed(),
    {
        Self {
            kind: ObjectKind::Symbol(symbol),
            internal_methods: InternalObjectMethods::Ordinary,
        }
    }

    /// Creates the `Error` pairing: the ordinary table.
    pub fn error() -> (r: Self)
        ensures
            r.kind_spec() is Error,
            r.table_spec() == InternalObjectMethods::Ordinary,
            r.well_formed(),
    {
        Self { kind: ObjectKind::Error, internal_methods: InternalObjectMethods::Ordinary }
    }

    /// Creates the `Ordinary` pairing: the ordinary table.
    pub fn ordinary() -> (r: Self)
        ensures
            r.kind_spec() is Ordinary,
            r.table_spec() == InternalObjectMethods::Ordinary,
            r.well_formed(),
    {
        Self { kind: ObjectKind::Ordinary, internal_methods: InternalObjectMethods::Ordinary }
    }

    /// Creates the `Date` pairing: the ordinary table.
    pub fn date(date: Date) -> (r: Self)
        ensures
            r.kind_spec() matches ObjectKind::Date(d) && d == date,
            r.table_spec() == InternalObjectMethods::Ordinary,
            r.well_formed(),
    {
        Self { kind: ObjectKind::Date(date), internal_methods: InternalObjectMethods::Ordinary }
    }

    /// Creates the `Global` pairing: the ordinary table.
    pub fn global() -> (r: Self)
        ensures
            r.kind_spec() is Global,
            r.table_spec() == InternalObjectMethods::Ordinary,
            r.well_formed(),
    {
        Self { kind: ObjectKind::Global, internal_methods: InternalObjectMethods::Ordinary }
    }

    /// Creates the `Arguments` pairing.  A mapped `arguments` object gets
    /// the arguments exotic table; an unmapped one always gets the
    /// ordinary table — the two must not be collapsed.
    pub fn arguments(arguments: Arguments) -> (r: Self)
        ensures
            r.kind_spec() matches ObjectKind::Arguments(a) && a == arguments,
            r.table_spec() == if arguments is Unmapped {
                InternalObjectMethods::Ordinary
            } else {
                InternalObjectMethods::ArgumentsExotic
            },
            r.well_formed(),
    {
        Self {
            internal_methods: if matches!(arguments, Arguments::Unmapped) {
                InternalObjectMethods::Ordinary
            } else {
                InternalObjectMethods::ArgumentsExotic
            },
            kind: ObjectKind::Arguments(arguments),
        }
    }

    /// Creates the `NativeObject` (host object) pairing: the ordinary
    /// table.
    pub fn native_object(native_object: HostObject) -> (r: Self)
        ensures
            r.kind_spec() matches ObjectKind::NativeObject(h) && h == native_object,
            r.table_spec() == InternalObjectMethods::Ordinary,
            r.well_formed(),
    {
        Self {
            kind: ObjectKind::NativeObject(native_object),
            internal_methods: InternalObjectMethods::Ordinary,
        }
    }

    /// Creates the `IntegerIndexed` (typed array) pairing: the
    /// integer-indexed exotic table.
    pub fn integer_indexed(integer_indexed: IntegerIndexed) -> (r: Self)
        ensures
            r.kind_spec() matches ObjectKind::IntegerIndexed(t) && t == integer_indexed,
            r.table_spec() == InternalObjectMethods::IntegerIndexedExotic,
            r.well_formed(),
    {
        Self {
            kind: ObjectKind::IntegerIndexed(integer_indexed),
            internal_methods: InternalObjectMethods::IntegerIndexedExotic,
        }
    }
}

} // verus!
