//! The object record: payload + bound operation table + property store +
//! prototype link + extensibility flag, with panic-free introspection.

use vstd::prelude::*;
use crate::data::{InternalObjectMethods, ObjectData, ObjectKind};
use crate::payload::{
    Arguments, ArrayBuffer, ArrayIterator, BoundFunction, Date, ForInIterator, Function,
    HostObject, IntegerIndexed, MapIterator, MappedArguments, OrderedMap, OrderedSet, RegExp,
    RegExpStringIterator, SetIterator, StringIterator,
};
use crate::property::{KeyModel, PropertyDescriptor, PropertyKey, PropertyMap};
use crate::value::{JsBigInt, JsObject, JsString, JsSymbol};

verus! {

/// An object's prototype link: another record, or none.
pub type JsPrototype = Option<JsObject>;

/// The uniform in-memory representation of every object value.
///
/// The payload variant and the bound operation table never change after
/// construction; the prototype may change subject to the extensibility
/// rule; the property store changes freely.
#[derive(Debug)]
pub struct Object {
    /// The kind of the object, paired with its operation table.
    data: ObjectData,
    /// The ordered key-to-descriptor store.
    properties: PropertyMap,
    /// The record this object delegates lookups to, if any.
    prototype: JsPrototype,
    /// Whether new properties (or a changed prototype) may still be
    /// added.  Once false it never becomes true again.
    extensible: bool,
}

impl Object {
    /// The kind/table pairing.
    pub closed spec fn data_spec(&self) -> ObjectData {
        self.data
    }

    /// The kind/table pairing.
    pub fn object_data(&self) -> (r: &ObjectData)
        ensures
            *r == self.data_spec(),
    {
        &self.data
    }

    /// The prototype link.
    pub closed spec fn prototype_spec(&self) -> JsPrototype {
        self.prototype
    }

    /// The extensibility flag.
    pub closed spec fn extensible_spec(&self) -> bool {
        self.extensible
    }

    /// The property store.
    pub closed spec fn properties_spec(&self) -> PropertyMap {
        self.properties
    }

    /// Well-formedness of the whole record: the payload/table pairing
    /// invariant and the property store's key order.
    pub open spec fn wf(&self) -> bool {
        &&& self.data_spec().well_formed()
        &&& self.properties_spec().wf()
    }

    /// Builds a record from a prototype and a payload-bearing pairing
    /// produced by one of the [`ObjectData`] factories.  The record
    /// starts extensible, with no own properties.
    pub fn from_proto_and_data(prototype: JsPrototype, data: ObjectData) -> (r: Object)
        requires
            data.well_formed(),
        ensures
            r.wf(),
            r.data_spec() == data,
            r.prototype_spec() == prototype,
            r.extensible_spec(),
            r.properties_spec().key_seq() == Seq::<KeyModel>::empty(),
            forall|k: KeyModel| r.properties_spec().spec_lookup(k) is None,
    {
        Object { data, properties: PropertyMap::new(), prototype, extensible: true }
    }

    /// The kind of the object.
    pub fn kind(&self) -> (r: &ObjectKind)
        ensures
            r == self.data_spec().kind_spec(),
    {
        self.data.kind()
    }

    /// Checks if it is an `Array` object.
    pub fn is_array(&self) -> (r: bool)
        ensures
            r == (*self.data_spec().kind_spec() is Array),
    {
        matches!(self.data.kind(), ObjectKind::Array)
    }

    /// The array marker, if this is an `Array` object.
    pub fn as_array(&self) -> (r: Option<()>)
        ensures
            r is Some <==> *self.data_spec().kind_spec() is Array,
    {
        match self.data.kind() {
            ObjectKind::Array => Some(()),
            _ => None,
        }
    }

    /// Checks if it is an `ArrayIterator` object.
    pub fn is_array_iterator(&self) -> (r: bool)
        ensures
            r == (*self.data_spec().kind_spec() is ArrayIterator),
    {
        matches!(self.data.kind(), ObjectKind::ArrayIterator(_))
    }

    /// The iteration state, if this is an `ArrayIterator` object.
    pub fn as_array_iterator(&self) -> (r: Option<&ArrayIterator>)
        ensures
            match *self.data_spec().kind_spec() {
                ObjectKind::ArrayIterator(ref i) => r matches Some(x) && x == i,
                _ => r is None,
            },
    {
        match self.data.kind() {
            ObjectKind::ArrayIterator(i) => Some(i),
            _ => None,
        }
    }

    /// Checks if it is an `ArrayBuffer` object.
    pub fn is_array_buffer(&self) -> (r: bool)
        ensures
            r == (*self.data_spec().kind_spec() is ArrayBuffer),
    {
        matches!(self.data.kind(), ObjectKind::ArrayBuffer(_))
    }

    /// The backing store, if this is an `ArrayBuffer` object.
    pub fn as_array_buffer(&self) -> (r: Option<&ArrayBuffer>)
        ensures
            match *self.data_spec().kind_spec() {
                ObjectKind::ArrayBuffer(ref b) => r matches Some(x) && x == b,
                _ => r is None,
            },
    {
        match self.data.kind() {
            ObjectKind::ArrayBuffer(b) => Some(b),
            _ => None,
        }
    }

    /// The iteration state, if this is a `ForInIterator` object.
    pub fn as_for_in_iterator(&self) -> (r: Option<&ForInIterator>)
        ensures
            match *self.data_spec().kind_spec() {
                ObjectKind::ForInIterator(ref i) => r matches Some(x) && x == i,
                _ => r is None,
            },
    {
        match self.data.kind() {
            ObjectKind::ForInIterator(i) => Some(i),
            _ => None,
        }
    }

    /// Checks if it is a `Map` object.
    pub fn is_map(&self) -> (r: bool)
        ensures
            r == (*self.data_spec().kind_spec() is MapObject),
    {
        matches!(self.data.kind(), ObjectKind::MapObject(_))
    }

    /// The entries, if this is a `Map` object.
    pub fn as_map_ref(&self) -> (r: Option<&OrderedMap>)
        ensures
            match *self.data_spec().kind_spec() {
                ObjectKind::MapObject(ref m) => r matches Some(x) && x == m,
                _ => r is None,
            },
    {
        match self.data.kind() {
            ObjectKind::MapObject(m) => Some(m),
            _ => None,
        }
    }

    /// Checks if it is a `MapIterator` object.
    pub fn is_map_iterator(&self) -> (r: bool)
        ensures
            r == (*self.data_spec().kind_spec() is MapIterator),
    {
        matches!(self.data.kind(), ObjectKind::MapIterator(_))
    }

    /// The iteration state, if this is a `MapIterator` object.
    pub fn as_map_iterator_ref(&self) -> (r: Option<&MapIterator>)
        ensures
            match *self.data_spec().kind_spec() {
                ObjectKind::MapIterator(ref i) => r matches Some(x) && x == i,
                _ => r is None,
            },
    {
        match self.data.kind() {
            ObjectKind::MapIterator(i) => Some(i),
            _ => None,
        }
    }

    /// Checks if it is a `Set` object.
    pub fn is_set(&self) -> (r: bool)
        ensures
            r == (*self.data_spec().kind_spec() is SetObject),
    {
        matches!(self.data.kind(), ObjectKind::SetObject(_))
    }

    /// The items, if this is a `Set` object.
    pub fn as_set_ref(&self) -> (r: Option<&OrderedSet>)
        ensures
            match *self.data_spec().kind_spec() {
                ObjectKind::SetObject(ref s) => r matches Some(x) && x == s,
                _ => r is None,
            },
    {
        match self.data.kind() {
            ObjectKind::SetObject(s) => Some(s),
            _ => None,
        }
    }

    /// Checks if it is a boxed `String` object.
    pub fn is_string(&self) -> (r: bool)
        ensures
            r == (*self.data_spec().kind_spec() is String),
    {
        matches!(self.data.kind(), ObjectKind::String(_))
    }

    /// The wrapped text, if this is a boxed `String` object.
    pub fn as_string(&self) -> (r: Option<JsString>)
        ensures
            match *self.data_spec().kind_spec() {
                ObjectKind::String(ref s) => r matches Some(x) && x@ == s@,
                _ => r is None,
            },
    {
        match self.data.kind() {
            ObjectKind::String(s) => Some(s.clone()),
            _ => None,
        }
    }

    /// Checks if it is a `Function` object.
    pub fn is_function(&self) -> (r: bool)
        ensures
            r == (*self.data_spec().kind_spec() is Function),
    {
        matches!(self.data.kind(), ObjectKind::Function(_))
    }

    /// The callable payload, if this is a `Function` object.
    pub fn as_function(&self) -> (r: Option<&Function>)
        ensures
            match *self.data_spec().kind_spec() {
                ObjectKind::Function(ref f) => r matches Some(x) && x == f,
                _ => r is None,
            },
    {
        match self.data.kind() {
            ObjectKind::Function(f) => Some(f),
            _ => None,
        }
    }

    /// The partial-application payload, if this is a `BoundFunction`
    /// object.
    pub fn as_bound_function(&self) -> (r: Option<&BoundFunction>)
        ensures
            match *self.data_spec().kind_spec() {
                ObjectKind::BoundFunction(ref f) => r matches Some(x) && x == f,
                _ => r is None,
            },
    {
        match self.data.kind() {
            ObjectKind::BoundFunction(f) => Some(f),
            _ => None,
        }
    }

    /// Checks if it is a boxed `Symbol` object.
    pub fn is_symbol(&self) -> (r: bool)
        ensures
            r == (*self.data_spec().kind_spec() is Symbol),
    {
        matches!(self.data.kind(), ObjectKind::Symbol(_))
    }

    /// The wrapped symbol, if this is a boxed `Symbol` object.
    pub fn as_symbol(&self) -> (r: Option<JsSymbol>)
        ensures
            match *self.data_spec().kind_spec() {
                ObjectKind::Symbol(ref s) => r matches Some(x) && x.view_spec() == s.view_spec(),
                _ => r is None,
            },
    {
        match self.data.kind() {
            ObjectKind::Symbol(s) => Some(s.duplicate()),
            _ => None,
        }
    }

    /// Checks if it is an `Error` object.
    pub fn is_error(&self) -> (r: bool)
        ensures
            r == (*self.data_spec().kind_spec() is Error),
    {
        matches!(self.data.kind(), ObjectKind::Error)
    }

    /// The error marker, if this is an `Error` object.
    pub fn as_error(&self) -> (r: Option<()>)
        ensures
            r is Some <==> *self.data_spec().kind_spec() is Error,
    {
        match self.data.kind() {
            ObjectKind::Error => Some(()),
            _ => None,
        }
    }

    /// Checks if it is a boxed `Boolean` object.
    pub fn is_boolean(&self) -> (r: bool)
        ensures
            r == (*self.data_spec().kind_spec() is Boolean),
    {
        matches!(self.data.kind(), ObjectKind::Boolean(_))
    }

    /// The wrapped flag, if this is a boxed `Boolean` object.
    pub fn as_boolean(&self) -> (r: Option<bool>)
        ensures
            match *self.data_spec().kind_spec() {
                ObjectKind::Boolean(b) => r == Some(b),
                _ => r is None,
            },
    {
        match self.data.kind() {
            ObjectKind::Boolean(b) => Some(*b),
            _ => None,
        }
    }

    /// Checks if it is a boxed `Number` object.
    pub fn is_number(&self) -> (r: bool)
        ensures
            r == (*self.data_spec().kind_spec() is Number),
    {
        matches!(self.data.kind(), ObjectKind::Number(_))
    }

    /// The wrapped numeric encoding, if this is a boxed `Number` object.
    pub fn as_number(&self) -> (r: Option<u64>)
        ensures
            match *self.data_spec().kind_spec() {
                ObjectKind::Number(n) => r == Some(n),
                _ => r is None,
            },
    {
        match self.data.kind() {
            ObjectKind::Number(n) => Some(*n),
            _ => None,
        }
    }

    /// Checks if it is a boxed `BigInt` object.
    pub fn is_bigint(&self) -> (r: bool)
        ensures
            r == (*self.data_spec().kind_spec() is BigInt),
    {
        matches!(self.data.kind(), ObjectKind::BigInt(_))
    }

    /// The wrapped big integer, if this is a boxed `BigInt` object.
    pub fn as_bigint(&self) -> (r: Option<&JsBigInt>)
        ensures
            match *self.data_spec().kind_spec() {
                ObjectKind::BigInt(ref b) => r matches Some(x) && x == b,
                _ => r is None,
            },
    {
        match self.data.kind() {
            ObjectKind::BigInt(b) => Some(b),
            _ => None,
        }
    }

    /// Checks if it is a `Date` object.
    pub fn is_date(&self) -> (r: bool)
        ensures
            r == (*self.data_spec().kind_spec() is Date),
    {
        matches!(self.data.kind(), ObjectKind::Date(_))
    }

    /// The instant, if this is a `Date` object.
    pub fn as_date(&self) -> (r: Option<&Date>)
        ensures
            match *self.data_spec().kind_spec() {
                ObjectKind::Date(ref d) => r matches Some(x) && x == d,
                _ => r is None,
            },
    {
        match self.data.kind() {
            ObjectKind::Date(d) => Some(d),
            _ => None,
        }
    }

    /// Checks if it is a `RegExp` object.
    pub fn is_regexp(&self) -> (r: bool)
        ensures
            r == (*self.data_spec().kind_spec() is RegExp),
    {
        matches!(self.data.kind(), ObjectKind::RegExp(_))
    }

    /// The regular expression, if this is a `RegExp` object.
    pub fn as_regexp(&self) -> (r: Option<&RegExp>)
        ensures
            match *self.data_spec().kind_spec() {
                ObjectKind::RegExp(ref e) => r matches Some(x) && x == &**e,
                _ => r is None,
            },
    {
        match self.data.kind() {
            ObjectKind::RegExp(e) => Some(&**e),
            _ => None,
        }
    }

    /// Checks if it is an integer-indexed (typed array) object.
    pub fn is_typed_array(&self) -> (r: bool)
        ensures
            r == (*self.data_spec().kind_spec() is IntegerIndexed),
    {
        matches!(self.data.kind(), ObjectKind::IntegerIndexed(_))
    }

    /// The integer-indexed payload, if this is a typed array.
    pub fn as_typed_array(&self) -> (r: Option<&IntegerIndexed>)
        ensures
            match *self.data_spec().kind_spec() {
                ObjectKind::IntegerIndexed(ref t) => r matches Some(x) && x == t,
                _ => r is None,
            },
    {
        match self.data.kind() {
            ObjectKind::IntegerIndexed(t) => Some(t),
            _ => None,
        }
    }

    /// Checks if it is an `Arguments` object, mapped or unmapped.
    pub fn is_arguments(&self) -> (r: bool)
        ensures
            r == (*self.data_spec().kind_spec() is Arguments),
    {
        matches!(self.data.kind(), ObjectKind::Arguments(_))
    }

    /// The aliasing state, if this is a mapped `Arguments` object.  An
    /// unmapped `Arguments` object has none.
    pub fn as_mapped_arguments(&self) -> (r: Option<&MappedArguments>)
        ensures
            match *self.data_spec().kind_spec() {
                ObjectKind::Arguments(Arguments::Mapped(ref m)) => r matches Some(x) && x == m,
                _ => r is None,
            },
    {
        match self.data.kind() {
            ObjectKind::Arguments(Arguments::Mapped(m)) => Some(m),
            _ => None,
        }
    }

    /// Checks if it is an ordinary object.
    pub fn is_ordinary(&self) -> (r: bool)
        ensures
            r == (*self.data_spec().kind_spec() is Ordinary),
    {
        matches!(self.data.kind(), ObjectKind::Ordinary)
    }

    /// Checks if it carries an externally supplied (host) payload.
    pub fn is_native_object(&self) -> (r: bool)
        ensures
            r == (*self.data_spec().kind_spec() is NativeObject),
    {
        matches!(self.data.kind(), ObjectKind::NativeObject(_))
    }

    /// The erased host payload, if this object carries one.
    pub fn as_native_object(&self) -> (r: Option<&HostObject>)
        ensures
            match *self.data_spec().kind_spec() {
                ObjectKind::NativeObject(ref h) => r matches Some(x) && x == h,
                _ => r is None,
            },
    {
        match self.data.kind() {
            ObjectKind::NativeObject(h) => Some(h),
            _ => None,
        }
    }

    /// Whether this object carries a host payload whose concrete type is
    /// the one registered under `type_tag`.  The comparison is exact: no
    /// coercion, no partial match.
    pub fn is(&self, type_tag: u64) -> (r: bool)
        ensures
            r == match *self.data_spec().kind_spec() {
                ObjectKind::NativeObject(ref h) => h.type_tag == type_tag,
                _ => false,
            },
    {
        match self.data.kind() {
            ObjectKind::NativeObject(h) => h.type_tag == type_tag,
            _ => false,
        }
    }

    /// The host payload, exactly when this object carries one registered
    /// under `type_tag`; an empty result otherwise, never a panic and
    /// never an unchecked cast.
    pub fn downcast_ref(&self, type_tag: u64) -> (r: Option<&HostObject>)
        ensures
            match *self.data_spec().kind_spec() {
                ObjectKind::NativeObject(ref h) => if h.type_tag == type_tag {
                    r matches Some(x) && x == h
                } else {
                    r is None
                },
                _ => r is None,
            },
    {
        match self.data.kind() {
            ObjectKind::NativeObject(h) => if h.type_tag == type_tag {
                Some(h)
            } else {
                None
            },
            _ => None,
        }
    }


    /// The backing store, if this is an `ArrayBuffer` object, for the evaluator to write through.  The kind and the bound table cannot change through the
    /// reference.
    pub fn as_array_buffer_mut(&mut self) -> (r: Option<&mut ArrayBuffer>)
        ensures
            final(self).prototype_spec() == old(self).prototype_spec(),
            final(self).extensible_spec() == old(self).extensible_spec(),
            final(self).properties_spec() == old(self).properties_spec(),
            final(self).data_spec().table_spec() == old(self).data_spec().table_spec(),
            old(self).wf() ==> final(self).wf(),
            match *old(self).data_spec().kind_spec() {
                ObjectKind::ArrayBuffer(ref p) => r matches Some(x) && *x == *p
                    && *final(self).data_spec().kind_spec() == ObjectKind::ArrayBuffer(*final(x)),
                _ => r is None && *final(self) == *old(self),
            },
    {
        self.data.as_array_buffer_mut()
    }
    /// The iteration state, if this is an `ArrayIterator` object, for the evaluator to step.  The kind and the bound table cannot change through the
    /// reference.
    pub fn as_array_iterator_mut(&mut self) -> (r: Option<&mut ArrayIterator>)
        ensures
            final(self).prototype_spec() == old(self).prototype_spec(),
            final(self).extensible_spec() == old(self).extensible_spec(),
            final(self).properties_spec() == old(self).properties_spec(),
            final(self).data_spec().table_spec() == old(self).data_spec().table_spec(),
            old(self).wf() ==> final(self).wf(),
            match *old(self).data_spec().kind_spec() {
                ObjectKind::ArrayIterator(ref p) => r matches Some(x) && *x == *p
                    && *final(self).data_spec().kind_spec() == ObjectKind::ArrayIterator(*final(x)),
                _ => r is None && *final(self) == *old(self),
            },
    {
        self.data.as_array_iterator_mut()
    }
    /// The iteration state, if this is a `StringIterator` object, for the evaluator to step.  The kind and the bound table cannot change through the
    /// reference.
    pub fn as_string_iterator_mut(&mut self) -> (r: Option<&mut StringIterator>)
        ensures
            final(self).prototype_spec() == old(self).prototype_spec(),
            final(self).extensible_spec() == old(self).extensible_spec(),
            final(self).properties_spec() == old(self).properties_spec(),
            final(self).data_spec().table_spec() == old(self).data_spec().table_spec(),
            old(self).wf() ==> final(self).wf(),
            match *old(self).data_spec().kind_spec() {
                ObjectKind::StringIterator(ref p) => r matches Some(x) && *x == *p
                    && *final(self).data_spec().kind_spec() == ObjectKind::StringIterator(*final(x)),
                _ => r is None && *final(self) == *old(self),
            },
    {
        self.data.as_string_iterator_mut()
    }
    /// The iteration state, if this is a `RegExpStringIterator` object, for the evaluator to step.  The kind and the bound table cannot change through the
    /// reference.
    pub fn as_regexp_string_iterator_mut(&mut self) -> (r: Option<&mut RegExpStringIterator>)
        ensures
            final(self).prototype_spec() == old(self).prototype_spec(),
            final(self).extensible_spec() == old(self).extensible_spec(),
            final(self).properties_spec() == old(self).properties_spec(),
            final(self).data_spec().table_spec() == old(self).data_spec().table_spec(),
            old(self).wf() ==> final(self).wf(),
            match *old(self).data_spec().kind_spec() {
                ObjectKind::RegExpStringIterator(ref p) => r matches Some(x) && *x == *p
                    && *final(self).data_spec().kind_spec() == ObjectKind::RegExpStringIterator(*final(x)),
                _ => r is None && *final(self) == *old(self),
            },
    {
        self.data.as_regexp_string_iterator_mut()
    }
    /// The iteration state, if this is a `ForInIterator` object, for the evaluator to step.  The kind and the bound table cannot change through the
    /// reference.
    pub fn as_for_in_iterator_mut(&mut self) -> (r: Option<&mut ForInIterator>)
        ensures
            final(self).prototype_spec() == old(self).prototype_spec(),
            final(self).extensible_spec() == old(self).extensible_spec(),
            final(self).properties_spec() == old(self).properties_spec(),
            final(self).data_spec().table_spec() == old(self).data_spec().table_spec(),
            old(self).wf() ==> final(self).wf(),
            match *old(self).data_spec().kind_spec() {
                ObjectKind::ForInIterator(ref p) => r matches Some(x) && *x == *p
                    && *final(self).data_spec().kind_spec() == ObjectKind::ForInIterator(*final(x)),
                _ => r is None && *final(self) == *old(self),
            },
    {
        self.data.as_for_in_iterator_mut()
    }
    /// The entries, if this is a `Map` object, for the evaluator to write.  The kind and the bound table cannot change through the
    /// reference.
    pub fn as_map_mut(&mut self) -> (r: Option<&mut OrderedMap>)
        ensures
            final(self).prototype_spec() == old(self).prototype_spec(),
            final(self).extensible_spec() == old(self).extensible_spec(),
            final(self).properties_spec() == old(self).properties_spec(),
            final(self).data_spec().table_spec() == old(self).data_spec().table_spec(),
            old(self).wf() ==> final(self).wf(),
            match *old(self).data_spec().kind_spec() {
                ObjectKind::MapObject(ref p) => r matches Some(x) && *x == *p
                    && *final(self).data_spec().kind_spec() == ObjectKind::MapObject(*final(x)),
                _ => r is None && *final(self) == *old(self),
            },
    {
        self.data.as_map_mut()
    }
    /// The iteration state, if this is a `MapIterator` object, for the evaluator to step.  The kind and the bound table cannot change through the
    /// reference.
    pub fn as_map_iterator_mut(&mut self) -> (r: Option<&mut MapIterator>)
        ensures
            final(self).prototype_spec() == old(self).prototype_spec(),
            final(self).extensible_spec() == old(self).extensible_spec(),
            final(self).properties_spec() == old(self).properties_spec(),
            final(self).data_spec().table_spec() == old(self).data_spec().table_spec(),
            old(self).wf() ==> final(self).wf(),
            match *old(self).data_spec().kind_spec() {
                ObjectKind::MapIterator(ref p) => r matches Some(x) && *x == *p
                    && *final(self).data_spec().kind_spec() == ObjectKind::MapIterator(*final(x)),
                _ => r is None && *final(self) == *old(self),
            },
    {
        self.data.as_map_iterator_mut()
    }
    /// The items, if this is a `Set` object, for the evaluator to write.  The kind and the bound table cannot change through the
    /// reference.
    pub fn as_set_mut(&mut self) -> (r: Option<&mut OrderedSet>)
        ensures
            final(self).prototype_spec() == old(self).prototype_spec(),
            final(self).extensible_spec() == old(self).extensible_spec(),
            final(self).properties_spec() == old(self).properties_spec(),
            final(self).data_spec().table_spec() == old(self).data_spec().table_spec(),
            old(self).wf() ==> final(self).wf(),
            match *old(self).data_spec().kind_spec() {
                ObjectKind::SetObject(ref p) => r matches Some(x) && *x == *p
                    && *final(self).data_spec().kind_spec() == ObjectKind::SetObject(*final(x)),
                _ => r is None && *final(self) == *old(self),
            },
    {
        self.data.as_set_mut()
    }
    /// The iteration state, if this is a `SetIterator` object, for the evaluator to step.  The kind and the bound table cannot change through the
    /// reference.
    pub fn as_set_iterator_mut(&mut self) -> (r: Option<&mut SetIterator>)
        ensures
            final(self).prototype_spec() == old(self).prototype_spec(),
            final(self).extensible_spec() == old(self).extensible_spec(),
            final(self).properties_spec() == old(self).properties_spec(),
            final(self).data_spec().table_spec() == old(self).data_spec().table_spec(),
            old(self).wf() ==> final(self).wf(),
            match *old(self).data_spec().kind_spec() {
                ObjectKind::SetIterator(ref p) => r matches Some(x) && *x == *p
                    && *final(self).data_spec().kind_spec() == ObjectKind::SetIterator(*final(x)),
                _ => r is None && *final(self) == *old(self),
            },
    {
        self.data.as_set_iterator_mut()
    }
    /// The integer-indexed payload, if this is a typed array, for the evaluator to write.  The kind and the bound table cannot change through the
    /// reference.
    pub fn as_typed_array_mut(&mut self) -> (r: Option<&mut IntegerIndexed>)
        ensures
            final(self).prototype_spec() == old(self).prototype_spec(),
            final(self).extensible_spec() == old(self).extensible_spec(),
            final(self).properties_spec() == old(self).properties_spec(),
            final(self).data_spec().table_spec() == old(self).data_spec().table_spec(),
            old(self).wf() ==> final(self).wf(),
            match *old(self).data_spec().kind_spec() {
                ObjectKind::IntegerIndexed(ref p) => r matches Some(x) && *x == *p
                    && *final(self).data_spec().kind_spec() == ObjectKind::IntegerIndexed(*final(x)),
                _ => r is None && *final(self) == *old(self),
            },
    {
        self.data.as_typed_array_mut()
    }
    /// The callable payload, if this is a `Function` object, for the
    /// evaluator to write.  The bound table cannot change through the
    /// reference, so a write that flips the constructibility flag — the
    /// one part of this payload the table was chosen by — would break
    /// the pairing invariant; a write that keeps the flag preserves it.
    pub fn as_function_mut(&mut self) -> (r: Option<&mut Function>)
        ensures
            final(self).prototype_spec() == old(self).prototype_spec(),
            final(self).extensible_spec() == old(self).extensible_spec(),
            final(self).properties_spec() == old(self).properties_spec(),
            final(self).data_spec().table_spec() == old(self).data_spec().table_spec(),
            match *old(self).data_spec().kind_spec() {
                ObjectKind::Function(ref p) => r matches Some(x) && *x == *p
                    && *final(self).data_spec().kind_spec() == ObjectKind::Function(*final(x))
                    && (old(self).wf() && final(x).is_constructor_spec()
                        == p.is_constructor_spec() ==> final(self).wf()),
                _ => r is None && *final(self) == *old(self),
            },
    {
        self.data.as_function_mut()
    }
    /// Mutable access to the host payload, exactly when this object
    /// carries one registered under `type_tag`; an empty result
    /// otherwise, never a panic and never an unchecked cast.  The kind
    /// and the bound table cannot change through the reference.
    pub fn downcast_mut(&mut self, type_tag: u64) -> (r: Option<&mut HostObject>)
        ensures
            final(self).prototype_spec() == old(self).prototype_spec(),
            final(self).extensible_spec() == old(self).extensible_spec(),
            final(self).properties_spec() == old(self).properties_spec(),
            final(self).data_spec().table_spec() == old(self).data_spec().table_spec(),
            old(self).wf() ==> final(self).wf(),
            match *old(self).data_spec().kind_spec() {
                ObjectKind::NativeObject(ref h) => if h.type_tag == type_tag {
                    r matches Some(x) && *x == *h
                        && *final(self).data_spec().kind_spec()
                        == ObjectKind::NativeObject(*final(x))
                } else {
                    r is None && *final(self) == *old(self)
                },
                _ => r is None && *final(self) == *old(self),
            },
    {
        self.data.downcast_mut(type_tag)
    }

    /// The prototype link of this object.
    pub fn prototype(&self) -> (r: &JsPrototype)
        ensures
            *r == self.prototype_spec(),
    {
        &self.prototype
    }

    /// Whether new properties or a new prototype may still be assigned.
    pub fn is_extensible(&self) -> (r: bool)
        ensures
            r == self.extensible_spec(),
    {
        self.extensible
    }

    /// Makes the object non-extensible.  Irreversible: no later call
    /// turns the flag back on.
    pub fn prevent_extensions(&mut self)
        ensures
            !final(self).extensible_spec(),
            final(self).data_spec() == old(self).data_spec(),
            final(self).prototype_spec() == old(self).prototype_spec(),
            final(self).properties_spec() == old(self).properties_spec(),
    {
        self.extensible = false;
    }

    /// Replaces the prototype link, subject to the extensibility rule.
    ///
    /// On an extensible object the replacement always succeeds and the
    /// new link is exactly `prototype`.  On a non-extensible object the
    /// call succeeds, as a no-op, only when `prototype` is
    /// reference-identical to the current link (both none, or both the
    /// same record); any other candidate fails and mutates nothing.
    pub fn set_prototype(&mut self, prototype: JsPrototype) -> (r: bool)
        ensures
            old(self).extensible_spec() ==> r && final(self).prototype_spec() == prototype,
            !old(self).extensible_spec() ==> final(self).prototype_spec() == old(
                self,
            ).prototype_spec() && r == (prototype == old(self).prototype_spec()),
            final(self).data_spec() == old(self).data_spec(),
            final(self).extensible_spec() == old(self).extensible_spec(),
            final(self).properties_spec() == old(self).properties_spec(),
    {
        if self.extensible {
            self.prototype = prototype;
            true
        } else {
            // A non-extensible object only accepts the prototype it
            // already observes.
            match (&self.prototype, &prototype) {
                (None, None) => true,
                (Some(a), Some(b)) => a.index == b.index,
                _ => false,
            }
        }
    }

    /// The property store.
    pub fn properties(&self) -> (r: &PropertyMap)
        ensures
            *r == self.properties_spec(),
    {
        &self.properties
    }

    /// Stores `property` under `key`, keeping own-key order, and hands
    /// back the descriptor the key mapped to before, if any.
    pub(crate) fn insert(&mut self, key: PropertyKey, property: PropertyDescriptor) -> (r:
        Option<PropertyDescriptor>)
        requires
            old(self).wf(),
        ensures
            final(self).wf(),
            r == old(self).properties_spec().spec_lookup(key@),
            final(self).properties_spec().spec_lookup(key@) == Some(property),
            forall|k2: KeyModel|
                k2 != key@ ==> final(self).properties_spec().spec_lookup(k2) == old(
                    self,
                ).properties_spec().spec_lookup(k2),
            final(self).data_spec() == old(self).data_spec(),
            final(self).prototype_spec() == old(self).prototype_spec(),
            final(self).extensible_spec() == old(self).extensible_spec(),
    {
        self.properties.insert(key, property)
    }

    /// Removes the property stored under `key` and hands back its
    /// descriptor, if any.  The contract-checked delete lives in the
    /// operation tables; this is the raw removal they delegate to.
    pub fn remove(&mut self, key: &PropertyKey) -> (r: Option<PropertyDescriptor>)
        requires
            old(self).wf(),
        ensures
            final(self).wf(),
            r == old(self).properties_spec().spec_lookup(key@),
            final(self).properties_spec().spec_lookup(key@) is None,
            forall|k2: KeyModel|
                k2 != key@ ==> final(self).properties_spec().spec_lookup(k2) == old(
                    self,
                ).properties_spec().spec_lookup(k2),
            final(self).data_spec() == old(self).data_spec(),
            final(self).prototype_spec() == old(self).prototype_spec(),
            final(self).extensible_spec() == old(self).extensible_spec(),
    {
        self.properties.remove(key)
    }

    /// Stores a property without consulting writability: always
    /// succeeds, always overwrites, and hands back the previous
    /// descriptor under the key, if any.  For bootstrap and internal
    /// algorithms that have already validated state elsewhere.
    pub fn insert_property(&mut self, key: PropertyKey, property: PropertyDescriptor) -> (r:
        Option<PropertyDescriptor>)
        requires
            old(self).wf(),
        ensures
            final(self).wf(),
            r == old(self).properties_spec().spec_lookup(key@),
            final(self).properties_spec().spec_lookup(key@) == Some(property),
            forall|k2: KeyModel|
                k2 != key@ ==> final(self).properties_spec().spec_lookup(k2) == old(
                    self,
                ).properties_spec().spec_lookup(k2),
            final(self).data_spec() == old(self).data_spec(),
            final(self).prototype_spec() == old(self).prototype_spec(),
            final(self).extensible_spec() == old(self).extensible_spec(),
    {
        self.insert(key, property)
    }
}

/// Every outgoing record reference of a record, in a fixed order: the
/// prototype link, then the payload's edges, then the property store's
/// (object-valued properties, getters, setters).
pub open spec fn record_refs(o: &Object) -> Seq<JsObject> {
    crate::property::opt_handle_refs(o.prototype_spec())
        + crate::data::kind_refs(o.data_spec().kind_spec()) + o.properties_spec().refs_spec()
}

impl Object {
    /// Enumerates every record this record refers to — the prototype
    /// link, the payload contents, and the property values — for the
    /// collector to follow.  The enumeration is deterministic and
    /// exhaustive: an omitted edge would let the collector reclaim a
    /// live record.
    pub fn trace_references(&self) -> (r: Vec<JsObject>)
        ensures
            r@ == record_refs(self),
    {
        let mut out: Vec<JsObject> = Vec::new();
        let ghost empty = out@;
        if let Some(p) = self.prototype {
            out.push(p);
        }
        proof {
            assert(out@ =~= empty + crate::property::opt_handle_refs(self.prototype_spec()));
        }
        self.data.kind().push_refs(&mut out);
        self.properties.push_refs(&mut out);
        proof {
            assert(out@ =~= record_refs(self));
        }
        out
    }
}

impl Default for Object {
    /// A fresh ordinary object: no prototype, no properties, extensible.
    fn default() -> (r: Self)
        ensures
            r.wf(),
            *r.data_spec().kind_spec() is Ordinary,
            r.data_spec().table_spec() == InternalObjectMethods::Ordinary,
            r.prototype_spec() is None,
            r.extensible_spec(),
            forall|k: KeyModel| r.properties_spec().spec_lookup(k) is None,
    {
        Object {
            data: ObjectData::ordinary(),
            properties: PropertyMap::new(),
            prototype: None,
            extensible: true,
        }
    }
}

} // verus!
