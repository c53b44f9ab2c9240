//! Property keys, descriptors, and the ordered key-to-descriptor store.
//!
//! Keys are strings, non-negative integer indices, or symbols.  The store
//! keeps them in the language's own-key order: ascending integer indices
//! first, then string keys in insertion order, then symbol keys in
//! insertion order.

use vstd::prelude::*;
use crate::value::{JsObject, JsString, JsSymbol, JsValue};

verus! {

/// The mathematical identity of a property key: an index, the characters
/// of a string key, or a symbol's identity.  Two keys name the same
/// property exactly when their models are equal.
pub ghost enum KeyModel {
    Index(u32),
    Text(Seq<char>),
    Symbol(u64),
}

/// A property key: a non-negative integer index, a string, or a symbol.
#[derive(Debug, PartialEq)]
pub enum PropertyKey {
    Index(u32),
    String(JsString),
    Symbol(JsSymbol),
}

impl View for PropertyKey {
    type V = KeyModel;

    open spec fn view(&self) -> KeyModel {
        match *self {
            PropertyKey::Index(i) => KeyModel::Index(i),
            PropertyKey::String(ref s) => KeyModel::Text(s@),
            PropertyKey::Symbol(ref s) => KeyModel::Symbol(s.hash),
        }
    }
}

impl PropertyKey {
    /// Whether two keys name the same property: equal indices, equal
    /// string characters, or the same symbol identity.
    pub fn equals(&self, other: &PropertyKey) -> (r: bool)
        ensures
            r == (self@ == other@),
    {
        match (self, other) {
            (PropertyKey::Index(a), PropertyKey::Index(b)) => *a == *b,
            (PropertyKey::String(a), PropertyKey::String(b)) => (*a).eq(b),
            (PropertyKey::Symbol(a), PropertyKey::Symbol(b)) => a.hash == b.hash,
            _ => false,
        }
    }

    /// Copies the key; the copy names the same property.
    pub fn duplicate(&self) -> (r: PropertyKey)
        ensures
            r@ == self@,
    {
        match self {
            PropertyKey::Index(i) => PropertyKey::Index(*i),
            PropertyKey::String(s) => PropertyKey::String(s.clone()),
            PropertyKey::Symbol(s) => PropertyKey::Symbol(s.duplicate()),
        }
    }
}

/// The class of a key within the own-key order: indices come first, then
/// strings, then symbols.
pub open spec fn key_rank(k: KeyModel) -> int {
    match k {
        KeyModel::Index(_) => 0,
        KeyModel::Text(_) => 1,
        KeyModel::Symbol(_) => 2,
    }
}

/// Whether key `a` must be stored strictly before key `b`: a lower class
/// always comes first, and within the index class lower indices come
/// first.  Two strings, or two symbols, are unordered here: among
/// themselves they keep insertion order.
pub open spec fn key_before(a: KeyModel, b: KeyModel) -> bool {
    ||| key_rank(a) < key_rank(b)
    ||| (a matches KeyModel::Index(x) && b matches KeyModel::Index(y) && x < y)
}

/// An attribute triple for a data property.
#[derive(Clone, Copy, PartialEq, Eq, Structural, Debug)]
pub struct Attribute {
    pub writable: bool,
    pub enumerable: bool,
    pub configurable: bool,
}

impl Attribute {
    /// All three attributes set.
    pub fn all() -> (r: Attribute)
        ensures
            r.writable && r.enumerable && r.configurable,
    {
        Attribute { writable: true, enumerable: true, configurable: true }
    }

    /// Whether the property may be written.
    pub fn writable(&self) -> (r: bool)
        ensures
            r == self.writable,
    {
        self.writable
    }

    /// Whether the property shows up in enumeration.
    pub fn enumerable(&self) -> (r: bool)
        ensures
            r == self.enumerable,
    {
        self.enumerable
    }

    /// Whether the property may be reconfigured or deleted.
    pub fn configurable(&self) -> (r: bool)
        ensures
            r == self.configurable,
    {
        self.configurable
    }
}

/// A property descriptor: the parts a definition supplies.  Parts left
/// `None` are absent; a full data descriptor has `value` and the three
/// flags, a full accessor descriptor has `getter`/`setter` and the two
/// applicable flags.
#[derive(Debug, PartialEq)]
pub struct PropertyDescriptor {
    pub value: Option<JsValue>,
    pub writable: Option<bool>,
    pub enumerable: Option<bool>,
    pub configurable: Option<bool>,
    pub getter: Option<JsObject>,
    pub setter: Option<JsObject>,
}

impl PropertyDescriptor {
    /// A descriptor with every part absent, to be filled in.
    pub fn new() -> (r: PropertyDescriptor)
        ensures
            r == (PropertyDescriptor {
                value: None,
                writable: None,
                enumerable: None,
                configurable: None,
                getter: None,
                setter: None,
            }),
    {
        PropertyDescriptor {
            value: None,
            writable: None,
            enumerable: None,
            configurable: None,
            getter: None,
            setter: None,
        }
    }

    /// Sets the data value.
    pub fn value(self, value: JsValue) -> (r: PropertyDescriptor)
        ensures
            r == (PropertyDescriptor { value: Some(value), ..self }),
    {
        PropertyDescriptor { value: Some(value), ..self }
    }

    /// Sets the writable flag.
    pub fn writable(self, writable: bool) -> (r: PropertyDescriptor)
        ensures
            r == (PropertyDescriptor { writable: Some(writable), ..self }),
    {
        PropertyDescriptor { writable: Some(writable), ..self }
    }

    /// Sets the enumerable flag.
    pub fn enumerable(self, enumerable: bool) -> (r: PropertyDescriptor)
        ensures
            r == (PropertyDescriptor { enumerable: Some(enumerable), ..self }),
    {
        PropertyDescriptor { enumerable: Some(enumerable), ..self }
    }

    /// Sets the configurable flag.
    pub fn configurable(self, configurable: bool) -> (r: PropertyDescriptor)
        ensures
            r == (PropertyDescriptor { configurable: Some(configurable), ..self }),
    {
        PropertyDescriptor { configurable: Some(configurable), ..self }
    }

    /// Sets or clears the accessor's getter.
    pub fn maybe_get(self, get: Option<JsObject>) -> (r: PropertyDescriptor)
        ensures
            r == (PropertyDescriptor { getter: get, ..self }),
    {
        PropertyDescriptor { getter: get, ..self }
    }

    /// Sets or clears the accessor's setter.
    pub fn maybe_set(self, set_to: Option<JsObject>) -> (r: PropertyDescriptor)
        ensures
            r == (PropertyDescriptor { setter: set_to, ..self }),
    {
        PropertyDescriptor { setter: set_to, ..self }
    }
}

/// One stored property: its key and its descriptor.
type Entry = (PropertyKey, PropertyDescriptor);

/// The keys of a run of entries, in storage order.
pub open spec fn keys_of(s: Seq<Entry>) -> Seq<KeyModel> {
    s.map_values(|e: Entry| e.0@)
}

/// The index of the first key at or after position `i` equal to `k`, or
/// the length when no such key exists.
pub open spec fn spec_find_from(ks: Seq<KeyModel>, k: KeyModel, i: int) -> int
    decreases ks.len() - i when 0 <= i <= ks.len()
{
    if i >= ks.len() {
        ks.len() as int
    } else if ks[i] == k {
        i
    } else {
        spec_find_from(ks, k, i + 1)
    }
}

/// Properties of [`spec_find_from`]: the result is the first match at or
/// after `i`, or the length.
pub proof fn lemma_find_from(ks: Seq<KeyModel>, k: KeyModel, i: int)
    requires
        0 <= i <= ks.len(),
    ensures
        i <= spec_find_from(ks, k, i) <= ks.len(),
        spec_find_from(ks, k, i) < ks.len() ==> ks[spec_find_from(ks, k, i)] == k,
        forall|j: int| i <= j < spec_find_from(ks, k, i) ==> ks[j] != k,
    decreases ks.len() - i,
{
    if i < ks.len() && ks[i] != k {
        lemma_find_from(ks, k, i + 1);
    }
}

/// A position that is the first match (or the length, with no match at
/// all) is what [`spec_find_from`] computes.
pub proof fn lemma_find_is(ks: Seq<KeyModel>, k: KeyModel, i: int, f: int)
    requires
        0 <= i <= f <= ks.len(),
        forall|j: int| i <= j < f ==> ks[j] != k,
        f < ks.len() ==> ks[f] == k,
    ensures
        spec_find_from(ks, k, i) == f,
    decreases f - i,
{
    if i < f {
        lemma_find_is(ks, k, i + 1, f);
    }
}

/// The position where a new key `k` is stored: just before the first key
/// that must come strictly after it, or at the end.
pub open spec fn spec_insert_pos_from(ks: Seq<KeyModel>, k: KeyModel, i: int) -> int
    decreases ks.len() - i when 0 <= i <= ks.len()
{
    if i >= ks.len() {
        ks.len() as int
    } else if key_before(k, ks[i]) {
        i
    } else {
        spec_insert_pos_from(ks, k, i + 1)
    }
}

/// Properties of [`spec_insert_pos_from`]: the result is the first
/// position whose key must come after `k`, or the length.
pub proof fn lemma_insert_pos_from(ks: Seq<KeyModel>, k: KeyModel, i: int)
    requires
        0 <= i <= ks.len(),
    ensures
        i <= spec_insert_pos_from(ks, k, i) <= ks.len(),
        spec_insert_pos_from(ks, k, i) < ks.len() ==> key_before(
            k,
            ks[spec_insert_pos_from(ks, k, i)],
        ),
        forall|j: int| i <= j < spec_insert_pos_from(ks, k, i) ==> !key_before(k, ks[j]),
    decreases ks.len() - i,
{
    if i < ks.len() && !key_before(k, ks[i]) {
        lemma_insert_pos_from(ks, k, i + 1);
    }
}

/// The descriptor a run of entries stores under key `k`, or `None`.
pub open spec fn lookup_of(s: Seq<Entry>, k: KeyModel) -> Option<PropertyDescriptor> {
    let i = spec_find_from(keys_of(s), k, 0);
    if i < s.len() {
        Some(s[i].1)
    } else {
        None
    }
}

/// Well-formedness of a key run: one entry per key, and no key stored
/// after one it must strictly precede — so indices are ascending and the
/// three key classes sit in their blocks.
pub open spec fn keys_wf(ks: Seq<KeyModel>) -> bool {
    &&& forall|i: int, j: int| 0 <= i < j < ks.len() ==> ks[i] != ks[j]
    &&& forall|i: int, j: int| 0 <= i < j < ks.len() ==> !key_before(ks[j], ks[i])
}

/// The ordered key-to-descriptor store of one object.
///
/// Entries are kept in own-key order: ascending integer indices first,
/// then string keys in insertion order, then symbol keys in insertion
/// order, one entry per key.
#[derive(Debug, PartialEq)]
pub struct PropertyMap {
    entries: Vec<Entry>,
}

impl PropertyMap {
    /// The stored keys, in own-key order.
    pub closed spec fn key_seq(&self) -> Seq<KeyModel> {
        keys_of(self.entries@)
    }

    /// The descriptor stored under key `k`, or `None`.
    pub closed spec fn spec_lookup(&self, k: KeyModel) -> Option<PropertyDescriptor> {
        lookup_of(self.entries@, k)
    }

    /// Whether key `k` is stored.
    pub open spec fn spec_contains(&self, k: KeyModel) -> bool {
        self.spec_lookup(k) is Some
    }

    /// Well-formedness of the store.  Constructors establish it and every
    /// operation preserves it.
    pub closed spec fn wf(&self) -> bool {
        keys_wf(self.key_seq())
    }

    /// An empty store.
    pub fn new() -> (r: PropertyMap)
        ensures
            r.wf(),
            r.key_seq() == Seq::<KeyModel>::empty(),
            forall|k: KeyModel| r.spec_lookup(k) is None,
    {
        let r = PropertyMap { entries: Vec::new() };
        proof {
            assert(r.key_seq() =~= Seq::<KeyModel>::empty());
            assert forall|k: KeyModel| r.spec_lookup(k) is None by {
                lemma_find_from(keys_of(r.entries@), k, 0);
            }
        }
        r
    }

    /// The number of stored properties.
    pub fn len(&self) -> (r: usize)
        ensures
            r == self.key_seq().len(),
    {
        self.entries.len()
    }

    /// The first entry at or after `i` whose key equals `key`, or the
    /// length.
    fn find_from(&self, key: &PropertyKey, i: usize) -> (r: usize)
        requires
            i <= self.entries@.len(),
        ensures
            r == spec_find_from(self.key_seq(), key@, i as int),
        decreases self.entries@.len() - i,
    {
        if i == self.entries.len() {
            i
        } else if self.entries[i].0.equals(key) {
            i
        } else {
            self.find_from(key, i + 1)
        }
    }

    /// The position where the new key `key` belongs, keeping own-key
    /// order.
    fn insert_pos_from(&self, key: &PropertyKey, i: usize) -> (r: usize)
        requires
            i <= self.entries@.len(),
        ensures
            r == spec_insert_pos_from(self.key_seq(), key@, i as int),
        decreases self.entries@.len() - i,
    {
        if i == self.entries.len() {
            i
        } else if goes_before(key, &self.entries[i].0) {
            i
        } else {
            self.insert_pos_from(key, i + 1)
        }
    }

    /// Looks up the descriptor stored under `key`.
    pub fn get(&self, key: &PropertyKey) -> (r: Option<&PropertyDescriptor>)
        ensures
            match self.spec_lookup(key@) {
                Some(d) => r matches Some(rd) && *rd == d,
                None => r is None,
            },
    {
        let i = self.find_from(key, 0);
        proof {
            lemma_find_from(self.key_seq(), key@, 0);
        }
        if i < self.entries.len() {
            Some(&self.entries[i].1)
        } else {
            None
        }
    }

    /// Stores `property` under `key` and hands back what the key mapped
    /// to before, if anything.
    ///
    /// A key already present keeps its position and only the descriptor
    /// changes; a new key enters at its own-key-order position: after
    /// every key it does not strictly precede, before the first key it
    /// does.
    pub fn insert(&mut self, key: PropertyKey, property: PropertyDescriptor) -> (r: Option<
        PropertyDescriptor,
    >)
        requires
            old(self).wf(),
        ensures
            final(self).wf(),
            r == old(self).spec_lookup(key@),
            final(self).spec_lookup(key@) == Some(property),
            forall|k2: KeyModel|
                k2 != key@ ==> final(self).spec_lookup(k2) == old(self).spec_lookup(k2),
            old(self).spec_contains(key@) ==> final(self).key_seq() == old(self).key_seq(),
            !old(self).spec_contains(key@) ==> exists|p: int|
                {
                    &&& 0 <= p <= old(self).key_seq().len()
                    &&& (forall|j: int| 0 <= j < p ==> !key_before(key@, old(self).key_seq()[j]))
                    &&& (p < old(self).key_seq().len() ==> key_before(
                        key@,
                        old(self).key_seq()[p],
                    ))
                    &&& final(self).key_seq() == old(self).key_seq().insert(p, key@)
                },
    {
        let ghost s0 = self.entries@;
        proof {
            lemma_find_from(keys_of(s0), key@, 0);
        }
        let i = self.find_from(&key, 0);
        if i < self.entries.len() {
            let (_, old_descriptor) = self.entries.remove(i);
            self.entries.insert(i, (key, property));
            proof {
                lemma_replace_entry(s0, self.entries@, i as int);
            }
            Some(old_descriptor)
        } else {
            proof {
                lemma_insert_pos_from(keys_of(s0), key@, 0);
            }
            let p = self.insert_pos_from(&key, 0);
            self.entries.insert(p, (key, property));
            proof {
                lemma_insert_new_entry(s0, self.entries@, p as int);
                assert(final(self).key_seq() == old(self).key_seq().insert(
                    p as int,
                    key@,
                ));
            }
            None
        }
    }

    /// Removes the entry stored under `key`, handing back its
    /// descriptor; the remaining entries keep their relative order.
    pub fn remove(&mut self, key: &PropertyKey) -> (r: Option<PropertyDescriptor>)
        requires
            old(self).wf(),
        ensures
            final(self).wf(),
            r == old(self).spec_lookup(key@),
            final(self).spec_lookup(key@) is None,
            forall|k2: KeyModel|
                k2 != key@ ==> final(self).spec_lookup(k2) == old(self).spec_lookup(k2),
            !old(self).spec_contains(key@) ==> final(self).key_seq() == old(self).key_seq(),
            old(self).spec_contains(key@) ==> exists|i: int|
                {
                    &&& 0 <= i < old(self).key_seq().len()
                    &&& old(self).key_seq()[i] == key@
                    &&& final(self).key_seq() == old(self).key_seq().remove(i)
                },
    {
        let ghost s0 = self.entries@;
        proof {
            lemma_find_from(keys_of(s0), key@, 0);
        }
        let i = self.find_from(key, 0);
        if i < self.entries.len() {
            let (_, old_descriptor) = self.entries.remove(i);
            proof {
                lemma_remove_entry(s0, self.entries@, i as int);
            }
            Some(old_descriptor)
        } else {
            None
        }
    }

    /// The stored keys in own-key order.
    pub fn keys(&self) -> (r: Vec<PropertyKey>)
        ensures
            r@.map_values(|k: PropertyKey| k@) == self.key_seq(),
    {
        let mut out: Vec<PropertyKey> = Vec::new();
        let mut i: usize = 0;
        while i < self.entries.len()
            invariant
                i <= self.entries@.len(),
                out@.len() == i,
                forall|j: int| 0 <= j < i ==> out@[j]@ == self.key_seq()[j],
            decreases self.entries@.len() - i,
        {
            out.push(self.entries[i].0.duplicate());
            i = i + 1;
        }
        proof {
            assert(out@.map_values(|k: PropertyKey| k@) =~= self.key_seq());
        }
        out
    }
}

/// The outgoing record references of an optional handle: one edge or
/// none.
pub open spec fn opt_handle_refs(o: Option<JsObject>) -> Seq<JsObject> {
    match o {
        Some(h) => seq![h],
        None => Seq::empty(),
    }
}

/// The outgoing record references of a descriptor: its value's edge, if
/// the value is an object, then its getter and setter edges.
pub open spec fn descriptor_refs(d: &PropertyDescriptor) -> Seq<JsObject> {
    (match d.value {
        Some(ref v) => crate::value::value_refs(v),
        None => Seq::empty(),
    }) + opt_handle_refs(d.getter) + opt_handle_refs(d.setter)
}

/// The outgoing record references of the descriptors from position `i`
/// on, in storage order.
pub open spec fn entries_refs_from(s: Seq<Entry>, i: int) -> Seq<JsObject>
    decreases s.len() - i when 0 <= i <= s.len()
{
    if i >= s.len() {
        Seq::empty()
    } else {
        descriptor_refs(&s[i].1) + entries_refs_from(s, i + 1)
    }
}

/// Appends the references of one descriptor to a trace in progress.
fn push_descriptor_refs(out: &mut Vec<JsObject>, d: &PropertyDescriptor)
    ensures
        final(out)@ == old(out)@ + descriptor_refs(d),
{
    let ghost prior = out@;
    match &d.value {
        Some(v) => crate::value::push_value_refs(out, v),
        None => (),
    }
    if let Some(g) = d.getter {
        out.push(g);
    }
    if let Some(s) = d.setter {
        out.push(s);
    }
    proof {
        assert(out@ =~= prior + descriptor_refs(d));
    }
}

impl PropertyMap {
    /// The outgoing record references of every stored descriptor, in
    /// storage order: property values that are objects, getters and
    /// setters.
    pub closed spec fn refs_spec(&self) -> Seq<JsObject> {
        entries_refs_from(self.entries@, 0)
    }

    /// Appends every record reference the store holds to a trace in
    /// progress.
    pub fn push_refs(&self, out: &mut Vec<JsObject>)
        ensures
            final(out)@ == old(out)@ + self.refs_spec(),
    {
        self.push_refs_from(out, 0);
    }

    /// Appends the references of the descriptors from position `i` on.
    fn push_refs_from(&self, out: &mut Vec<JsObject>, i: usize)
        requires
            i <= self.entries@.len(),
        ensures
            final(out)@ == old(out)@ + entries_refs_from(self.entries@, i as int),
        decreases self.entries@.len() - i,
    {
        let ghost prior = out@;
        if i < self.entries.len() {
            push_descriptor_refs(out, &self.entries[i].1);
            self.push_refs_from(out, i + 1);
            proof {
                assert(out@ =~= prior + entries_refs_from(self.entries@, i as int));
            }
        } else {
            proof {
                assert(out@ =~= prior + entries_refs_from(self.entries@, i as int));
            }
        }
    }
}

/// Whether `a` must be stored strictly before `b` in own-key order.
fn goes_before(a: &PropertyKey, b: &PropertyKey) -> (r: bool)
    ensures
        r == key_before(a@, b@),
{
    match (a, b) {
        (PropertyKey::Index(x), PropertyKey::Index(y)) => x < y,
        (PropertyKey::Index(_), _) => true,
        (PropertyKey::String(_), PropertyKey::Symbol(_)) => true,
        _ => false,
    }
}

/// Replacing the descriptor at the position where a key already sits
/// keeps the key run, keeps well-formedness, and changes exactly that
/// key's association.
proof fn lemma_replace_entry(s0: Seq<Entry>, s1: Seq<Entry>, i: int)
    requires
        keys_wf(keys_of(s0)),
        0 <= i < s0.len(),
        s1.len() == s0.len(),
        s1[i].0@ == s0[i].0@,
        forall|j: int| 0 <= j < s0.len() && j != i ==> s1[j] == s0[j],
    ensures
        keys_of(s1) == keys_of(s0),
        keys_wf(keys_of(s1)),
        lookup_of(s1, s0[i].0@) == Some(s1[i].1),
        forall|k2: KeyModel| k2 != s0[i].0@ ==> lookup_of(s1, k2) == lookup_of(s0, k2),
{
    let k = s0[i].0@;
    assert(keys_of(s1) =~= keys_of(s0));
    assert forall|j: int| 0 <= j < i implies keys_of(s1)[j] != k by {
        assert(keys_of(s0)[i] == k);
    }
    lemma_find_is(keys_of(s1), k, 0, i);
    assert forall|k2: KeyModel| k2 != k implies lookup_of(s1, k2) == lookup_of(s0, k2) by {
        lemma_find_from(keys_of(s0), k2, 0);
        let f = spec_find_from(keys_of(s0), k2, 0);
        if f < s0.len() {
            assert(f != i);
            assert(s1[f].1 == s0[f].1);
        }
    }
}

/// Removing the one entry that holds a key keeps well-formedness, drops
/// exactly that key, and leaves every other association unchanged.
proof fn lemma_remove_entry(s0: Seq<Entry>, s1: Seq<Entry>, i: int)
    requires
        keys_wf(keys_of(s0)),
        0 <= i < s0.len(),
        s1 == s0.remove(i),
    ensures
        keys_of(s1) == keys_of(s0).remove(i),
        keys_wf(keys_of(s1)),
        lookup_of(s1, s0[i].0@) is None,
        forall|k2: KeyModel| k2 != s0[i].0@ ==> lookup_of(s1, k2) == lookup_of(s0, k2),
{
    let k = s0[i].0@;
    let ks0 = keys_of(s0);
    let ks1 = keys_of(s1);
    assert(ks1 =~= ks0.remove(i));
    assert forall|j: int| 0 <= j < ks1.len() implies ks1[j] != k by {
        if j < i {
            assert(ks0[j] != ks0[i]);
        } else {
            assert(ks0[j + 1] != ks0[i]);
        }
    }
    lemma_find_is(ks1, k, 0, ks1.len() as int);
    assert forall|k2: KeyModel| k2 != k implies lookup_of(s1, k2) == lookup_of(s0, k2) by {
        lemma_find_from(ks0, k2, 0);
        let f = spec_find_from(ks0, k2, 0);
        if f < ks0.len() {
            if f < i {
                lemma_find_is(ks1, k2, 0, f);
            } else {
                assert(f != i);
                assert forall|j: int| 0 <= j < f - 1 implies ks1[j] != k2 by {
                    if j < i {
                        assert(ks0[j] != k2);
                    } else {
                        assert(ks0[j + 1] != k2);
                    }
                }
                assert(ks1[f - 1] == ks0[f]);
                lemma_find_is(ks1, k2, 0, f - 1);
                assert(s1[f - 1] == s0[f]);
            }
        } else {
            assert forall|j: int| 0 <= j < ks1.len() implies ks1[j] != k2 by {
                if j < i {
                    assert(ks0[j] != k2);
                } else {
                    assert(ks0[j + 1] != k2);
                }
            }
            lemma_find_is(ks1, k2, 0, ks1.len() as int);
        }
    }
}

/// `key_before` is transitive.
proof fn lemma_before_trans(a: KeyModel, b: KeyModel, c: KeyModel)
    requires
        key_before(a, b),
        key_before(b, c),
    ensures
        key_before(a, c),
{
}

/// Inserting an absent key at its own-key-order position keeps
/// well-formedness, adds exactly that key, and leaves every other
/// association unchanged.
proof fn lemma_insert_new_entry(s0: Seq<Entry>, s1: Seq<Entry>, p: int)
    requires
        keys_wf(keys_of(s0)),
        0 <= p <= s0.len(),
        s1.len() == s0.len() + 1,
        s1 == s0.insert(p, s1[p]),
        spec_find_from(keys_of(s0), s1[p].0@, 0) == s0.len(),
        spec_insert_pos_from(keys_of(s0), s1[p].0@, 0) == p,
    ensures
        keys_of(s1) == keys_of(s0).insert(p, s1[p].0@),
        keys_wf(keys_of(s1)),
        lookup_of(s1, s1[p].0@) == Some(s1[p].1),
        forall|k2: KeyModel| k2 != s1[p].0@ ==> lookup_of(s1, k2) == lookup_of(s0, k2),
{
    let k = s1[p].0@;
    let ks0 = keys_of(s0);
    let ks1 = keys_of(s1);
    lemma_find_from(ks0, k, 0);
    lemma_insert_pos_from(ks0, k, 0);
    assert(ks1 =~= ks0.insert(p, k));
    // Uniqueness: k is absent from ks0, and the old keys keep their
    // pairwise distinctness across the shift.
    assert forall|i: int, j: int| 0 <= i < j < ks1.len() implies ks1[i] != ks1[j] by {
        if i != p && j != p {
            let i0 = if i < p { i } else { i - 1 };
            let j0 = if j < p { j } else { j - 1 };
            assert(ks1[i] == ks0[i0] && ks1[j] == ks0[j0]);
        }
    }
    // Order: nothing after position p comes strictly before k, and k
    // comes strictly before nothing at or before p.
    assert forall|i: int, j: int| 0 <= i < j < ks1.len() implies !key_before(ks1[j], ks1[i]) by {
        if i == p {
            // ks1[j] == ks0[j-1], j-1 >= p
            if key_before(ks1[j], k) {
                if p < ks0.len() {
                    if j - 1 == p {
                        assert(key_before(k, ks0[p]));
                    } else {
                        lemma_before_trans(ks0[j - 1], k, ks0[p]);
                    }
                }
            }
        } else if j == p {
            // ks1[i] == ks0[i], i < p: the scan passed it, so k is not
            // strictly before it.
        } else {
            let i0 = if i < p { i } else { i - 1 };
            let j0 = if j < p { j } else { j - 1 };
            assert(ks1[i] == ks0[i0] && ks1[j] == ks0[j0]);
        }
    }
    // Lookup of the new key: the prefix holds no k, because k is absent
    // from all of ks0.
    assert forall|j: int| 0 <= j < p implies ks1[j] != k by {
        assert(ks1[j] == ks0[j]);
    }
    lemma_find_is(ks1, k, 0, p);
    // Every other key keeps its association across the shift.
    assert forall|k2: KeyModel| k2 != k implies lookup_of(s1, k2) == lookup_of(s0, k2) by {
        lemma_find_from(ks0, k2, 0);
        let f = spec_find_from(ks0, k2, 0);
        if f < ks0.len() {
            if f < p {
                assert(ks1[f] == ks0[f]);
                lemma_find_is(ks1, k2, 0, f);
                assert(s1[f] == s0[f]);
            } else {
                assert forall|j: int| 0 <= j < f + 1 implies ks1[j] != k2 by {
                    if j < p {
                        assert(ks1[j] == ks0[j]);
                    } else if j == p {
                    } else {
                        assert(ks1[j] == ks0[j - 1]);
                    }
                }
                assert(ks1[f + 1] == ks0[f]);
                lemma_find_is(ks1, k2, 0, f + 1);
                assert(s1[f + 1] == s0[f]);
            }
        } else {
            assert forall|j: int| 0 <= j < ks1.len() implies ks1[j] != k2 by {
                if j < p {
                    assert(ks1[j] == ks0[j]);
                } else if j == p {
                } else {
                    assert(ks1[j] == ks0[j - 1]);
                }
            }
            lemma_find_is(ks1, k2, 0, ks1.len() as int);
        }
    }
}

} // verus!
