//! The arena that owns every object record.
//!
//! Records refer to one another through [`JsObject`] index handles, so
//! prototype chains and closure captures may form cycles freely; the
//! tracing collector walks the arena, not an ownership tree.  Handing out
//! `&`/`&mut` access through the context enforces the single-writer /
//! many-reader discipline each record needs.

use vstd::prelude::*;
use crate::data::ObjectData;
use crate::object::{JsPrototype, Object};
use crate::value::JsObject;

verus! {

/// The engine state this component needs: the object arena and the two
/// bootstrap prototypes every fresh object or function hangs off.
#[derive(Debug)]
pub struct Context {
    objects: Vec<Object>,
    object_proto: JsObject,
    function_proto: JsObject,
}

impl Context {
    /// Every record in the arena, by handle index.
    pub closed spec fn objects_spec(&self) -> Seq<Object> {
        self.objects@
    }

    /// The prototype fresh ordinary objects hang off.
    pub closed spec fn object_prototype_spec(&self) -> JsObject {
        self.object_proto
    }

    /// The prototype fresh function objects hang off.
    pub closed spec fn function_prototype_spec(&self) -> JsObject {
        self.function_proto
    }

    /// Whether a handle denotes a record of this arena.
    pub open spec fn valid(&self, o: JsObject) -> bool {
        o.index < self.objects_spec().len()
    }

    /// Well-formedness: every record is well-formed and the two
    /// bootstrap prototypes are records of the arena.
    pub open spec fn wf(&self) -> bool {
        &&& forall|i: int|
            0 <= i < self.objects_spec().len() ==> #[trigger] self.objects_spec()[i].wf()
        &&& self.valid(self.object_prototype_spec())
        &&& self.valid(self.function_prototype_spec())
    }

    /// A fresh context: an arena holding just the two bootstrap
    /// prototype records, both ordinary.
    pub fn new() -> (r: Context)
        ensures
            r.wf(),
            r.objects_spec().len() == 2,
            r.object_prototype_spec().index == 0,
            r.function_prototype_spec().index == 1,
    {
        let mut objects: Vec<Object> = Vec::new();
        objects.push(Object::from_proto_and_data(None, ObjectData::ordinary()));
        objects.push(
            Object::from_proto_and_data(
                Some(JsObject { index: 0 }),
                ObjectData::ordinary(),
            ),
        );
        Context {
            objects,
            object_proto: JsObject { index: 0 },
            function_proto: JsObject { index: 1 },
        }
    }

    /// How many records the arena holds.
    pub fn len(&self) -> (r: usize)
        ensures
            r == self.objects_spec().len(),
    {
        self.objects.len()
    }

    /// The prototype fresh ordinary objects hang off.
    pub fn object_prototype(&self) -> (r: JsObject)
        ensures
            r == self.object_prototype_spec(),
    {
        self.object_proto
    }

    /// The prototype fresh function objects hang off.
    pub fn function_prototype(&self) -> (r: JsObject)
        ensures
            r == self.function_prototype_spec(),
    {
        self.function_proto
    }

    /// Shared access to the record a handle denotes.
    pub fn get(&self, o: JsObject) -> (r: &Object)
        requires
            self.valid(o),
        ensures
            *r == self.objects_spec()[o.index as int],
    {
        &self.objects[o.index]
    }

    /// Moves a record into the arena and hands back its handle.  The
    /// handle is fresh: no earlier handle of this arena equals it.
    pub fn register(&mut self, record: Object) -> (r: JsObject)
        requires
            old(self).wf(),
            record.wf(),
        ensures
            final(self).wf(),
            r.index == old(self).objects_spec().len(),
            final(self).objects_spec() == old(self).objects_spec().push(record),
            final(self).object_prototype_spec() == old(self).object_prototype_spec(),
            final(self).function_prototype_spec() == old(self).function_prototype_spec(),
    {
        let r = JsObject { index: self.objects.len() };
        self.objects.push(record);
        r
    }

    /// Builds and registers a record from a prototype and a factory
    /// pairing; the record starts extensible with no own properties.
    pub fn from_proto_and_data(&mut self, prototype: JsPrototype, data: ObjectData) -> (r:
        JsObject)
        requires
            old(self).wf(),
            data.well_formed(),
        ensures
            final(self).wf(),
            r.index == old(self).objects_spec().len(),
            final(self).objects_spec().len() == old(self).objects_spec().len() + 1,
            forall|i: int|
                0 <= i < old(self).objects_spec().len() ==> final(self).objects_spec()[i] == old(
                    self,
                ).objects_spec()[i],
            ({
                let o = final(self).objects_spec().last();
                &&& o.data_spec() == data
                &&& o.prototype_spec() == prototype
                &&& o.extensible_spec()
                &&& forall|k: crate::property::KeyModel|
                    o.properties_spec().spec_lookup(k) is None
            }),
            final(self).object_prototype_spec() == old(self).object_prototype_spec(),
            final(self).function_prototype_spec() == old(self).function_prototype_spec(),
    {
        let record = Object::from_proto_and_data(prototype, data);
        self.register(record)
    }

    /// Builds and registers a fresh ordinary object hanging off the
    /// bootstrap object prototype.
    pub fn construct_object(&mut self) -> (r: JsObject)
        requires
            old(self).wf(),
        ensures
            final(self).wf(),
            r.index == old(self).objects_spec().len(),
            final(self).objects_spec().len() == old(self).objects_spec().len() + 1,
            forall|i: int|
                0 <= i < old(self).objects_spec().len() ==> final(self).objects_spec()[i] == old(
                    self,
                ).objects_spec()[i],
            ({
                let o = final(self).objects_spec().last();
                &&& *o.data_spec().kind_spec() is Ordinary
                &&& o.prototype_spec() == Some(old(self).object_prototype_spec())
                &&& o.extensible_spec()
                &&& forall|k: crate::property::KeyModel|
                    o.properties_spec().spec_lookup(k) is None
            }),
            final(self).object_prototype_spec() == old(self).object_prototype_spec(),
            final(self).function_prototype_spec() == old(self).function_prototype_spec(),
    {
        let proto = self.object_prototype();
        self.from_proto_and_data(Some(proto), ObjectData::ordinary())
    }
}

} // verus!
