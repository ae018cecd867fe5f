//! The objects of the virtual machine that the NetConnection code creates,
//! reads and writes.
//!
//! An object has own properties (name, value, attributes), a prototype and a
//! native part. Reading a property looks for it on the object, then along its
//! prototype chain; at most `max_proto_depth()` objects are searched, and a
//! longer chain is an error of the virtual machine. An accessor property (one
//! whose value is its getter function) runs script code when it is read or
//! written; the methods hand that to the host (see `crate::task`). Writing an own
//! property that is read-only changes nothing; writing a name the object does
//! not have adds an own property with no attributes.
use vstd::prelude::*;
use crate::net_connection::{NetConnection, NetConnectionHandle};
use crate::value::{AvmValue, ObjectRef, Value};

verus! {

/// The attributes of a property.
#[derive(Clone, Copy, Debug, PartialEq, Eq, Structural)]
pub struct Attributes {
    pub dont_enum: bool,
    pub dont_delete: bool,
    pub read_only: bool,
}

impl Attributes {
    pub open spec fn spec_empty() -> Attributes {
        Attributes { dont_enum: false, dont_delete: false, read_only: false }
    }

    /// No attribute set.
    pub fn empty() -> (r: Attributes)
        ensures
            r == Attributes::spec_empty(),
    {
        Attributes { dont_enum: false, dont_delete: false, read_only: false }
    }

    /// `DONT_ENUM | DONT_DELETE`, the attributes of the NetConnection methods.
    pub fn dont_enum_dont_delete() -> (r: Attributes)
        ensures
            r == (Attributes { dont_enum: true, dont_delete: true, read_only: false }),
    {
        Attributes { dont_enum: true, dont_delete: true, read_only: false }
    }
}

/// The native functions that the NetConnection code installs.
#[derive(Clone, Copy, Debug, PartialEq, Eq, Structural)]
pub enum NativeMethod {
    Constructor,
    IsConnected,
    Protocol,
    Uri,
    AddHeader,
    Call,
    Close,
    Connect,
    GetService,
    RealCall,
    ServiceProxyResolve,
    ServiceProxyCall,
    ServiceProxyOnResult,
    ServiceProxyOnStatus,
}

/// The native part of an object.
#[derive(Debug)]
pub enum NativeObject {
    Plain,
    /// The object is a NetConnection, with its connection state.
    NetConnection(NetConnection),
    /// The object is a native function; `prototype` is the prototype (if any) that
    /// objects it constructs receive.
    Function { method: NativeMethod, prototype: Option<ObjectRef> },
    /// A primitive value wrapped into an object.
    Boxed(Value),
}

pub enum NativeView {
    Plain,
    /// A NetConnection, by the handle of its connection.
    NetConnection { handle: Option<NetConnectionHandle> },
    Function { method: NativeMethod, prototype: Option<ObjectRef> },
    Boxed(AvmValue),
}

impl View for NativeObject {
    type V = NativeView;

    open spec fn view(&self) -> NativeView {
        match self {
            NativeObject::Plain => NativeView::Plain,
            NativeObject::NetConnection(c) => NativeView::NetConnection { handle: c.spec_handle() },
            NativeObject::Function { method, prototype } => NativeView::Function {
                method: *method,
                prototype: *prototype,
            },
            NativeObject::Boxed(v) => NativeView::Boxed(v@),
        }
    }
}

/// A property of an object. An accessor property holds its getter function as
/// its value.
#[derive(Debug)]
pub struct Property {
    pub name: String,
    pub value: Value,
    pub attributes: Attributes,
    pub accessor: bool,
}

pub struct PropertyView {
    pub name: Seq<char>,
    pub value: AvmValue,
    pub attributes: Attributes,
    pub accessor: bool,
}

impl View for Property {
    type V = PropertyView;

    open spec fn view(&self) -> PropertyView {
        PropertyView {
            name: self.name@,
            value: self.value@,
            attributes: self.attributes,
            accessor: self.accessor,
        }
    }
}

/// An object of the heap.
#[derive(Debug)]
pub struct ObjectData {
    pub properties: Vec<Property>,
    pub proto: Option<ObjectRef>,
    pub native: NativeObject,
}

pub struct ObjectView {
    pub props: Seq<PropertyView>,
    pub proto: Option<ObjectRef>,
    pub native: NativeView,
}

impl View for ObjectData {
    type V = ObjectView;

    open spec fn view(&self) -> ObjectView {
        ObjectView {
            props: self.properties@.map_values(|p: Property| p@),
            proto: self.proto,
            native: self.native@,
        }
    }
}

/// The index of the property named `name`: the first one, where (against the
/// heap's own writes) several share it.
pub open spec fn find_prop(props: Seq<PropertyView>, name: Seq<char>) -> Option<int>
    decreases props.len(),
{
    if props.len() == 0 {
        None
    } else {
        match find_prop(props.drop_last(), name) {
            Some(i) => Some(i),
            None => if props.last().name == name {
                Some(props.len() - 1)
            } else {
                None
            },
        }
    }
}

/// What reading property `name` gives.
pub open spec fn get_prop(props: Seq<PropertyView>, name: Seq<char>) -> AvmValue {
    match find_prop(props, name) {
        Some(i) => if props[i].accessor {
            AvmValue::Undefined
        } else {
            props[i].value
        },
        None => AvmValue::Undefined,
    }
}

/// The properties after writing `value` to property `name`.
pub open spec fn set_prop(props: Seq<PropertyView>, name: Seq<char>, value: AvmValue) -> Seq<
    PropertyView,
> {
    match find_prop(props, name) {
        Some(i) => if props[i].attributes.read_only || props[i].accessor {
            props
        } else {
            props.update(
                i,
                PropertyView {
                    name: props[i].name,
                    value,
                    attributes: props[i].attributes,
                    accessor: props[i].accessor,
                },
            )
        },
        None => props.push(
            PropertyView { name, value, attributes: Attributes::spec_empty(), accessor: false },
        ),
    }
}

/// The properties after defining `p` (replacing a property of the same name,
/// attributes included).
pub open spec fn define_prop(props: Seq<PropertyView>, p: PropertyView) -> Seq<PropertyView> {
    match find_prop(props, p.name) {
        Some(i) => props.update(i, p),
        None => props.push(p),
    }
}

/// `find_prop` gives the first property of that name.
pub proof fn lemma_find_prop(props: Seq<PropertyView>, name: Seq<char>)
    ensures
        match find_prop(props, name) {
            Some(i) => {
                &&& 0 <= i < props.len()
                &&& props[i].name == name
                &&& forall|j: int| 0 <= j < i ==> #[trigger] props[j].name != name
            },
            None => forall|j: int| 0 <= j < props.len() ==> #[trigger] props[j].name != name,
        },
    decreases props.len(),
{
    if props.len() > 0 {
        lemma_find_prop(props.drop_last(), name);
        match find_prop(props.drop_last(), name) {
            Some(i) => {
                assert forall|j: int| 0 <= j < i implies #[trigger] props[j].name != name by {
                    assert(props[j] == props.drop_last()[j]);
                }
            },
            None => {
                assert forall|j: int| 0 <= j < props.len() - 1 implies #[trigger] props[j].name
                    != name by {
                    assert(props[j] == props.drop_last()[j]);
                }
            },
        }
    }
}

/// A property that is the first of its name is what `find_prop` finds.
pub proof fn lemma_find_prop_first(props: Seq<PropertyView>, name: Seq<char>, i: int)
    requires
        0 <= i < props.len(),
        props[i].name == name,
        forall|j: int| 0 <= j < i ==> #[trigger] props[j].name != name,
    ensures
        find_prop(props, name) == Some(i),
{
    lemma_find_prop(props, name);
    match find_prop(props, name) {
        Some(k) => {
            if k < i {
                assert(props[k].name != name);
            } else if k > i {
                assert(props[i].name != name);
            }
        },
        None => {
            assert(props[i].name != name);
        },
    }
}

impl ObjectData {
    /// A new object with no properties.
    pub fn new(proto: Option<ObjectRef>, native: NativeObject) -> (r: ObjectData)
        ensures
            r@ == (ObjectView { props: Seq::empty(), proto, native: native@ }),
    {
        let r = ObjectData { properties: Vec::new(), proto, native };
        assert(r@.props =~= Seq::<PropertyView>::empty());
        r
    }

    /// The index of the property named `name`.
    pub fn find_property(&self, name: &String) -> (r: Option<usize>)
        ensures
            match r {
                Some(i) => i < self@.props.len() && find_prop(self@.props, name@) == Some(i as int),
                None => find_prop(self@.props, name@) is None,
            },
    {
        let mut i: usize = 0;
        while i < self.properties.len()
            invariant
                i <= self.properties@.len(),
                forall|j: int| 0 <= j < i ==> #[trigger] self@.props[j].name != name@,
            decreases self.properties@.len() - i,
        {
            if self.properties[i].name == *name {
                proof {
                    lemma_find_prop_first(self@.props, name@, i as int);
                }
                return Some(i);
            }
            i = i + 1;
        }
        proof {
            lemma_find_prop(self@.props, name@);
            if let Some(k) = find_prop(self@.props, name@) {
                assert(self@.props[k].name != name@);
            }
        }
        None
    }

    /// Reads property `name`.
    pub fn get(&self, name: &String) -> (r: Value)
        ensures
            r@ == get_prop(self@.props, name@),
    {
        match self.find_property(name) {
            Some(i) => {
                if self.properties[i].accessor {
                    Value::Undefined
                } else {
                    self.properties[i].value.duplicate()
                }
            },
            None => Value::Undefined,
        }
    }

    /// Writes `value` to property `name`.
    pub fn set(&mut self, name: String, value: Value)
        ensures
            final(self)@ == (ObjectView {
                props: set_prop(old(self)@.props, name@, value@),
                ..old(self)@
            }),
    {
        match self.find_property(&name) {
            Some(i) => {
                if !self.properties[i].attributes.read_only && !self.properties[i].accessor {
                    let old_name = self.properties[i].name.clone();
                    let attributes = self.properties[i].attributes;
                    let accessor = self.properties[i].accessor;
                    self.properties.set(
                        i,
                        Property { name: old_name, value, attributes, accessor },
                    );
                    assert(self@.props =~= set_prop(old(self)@.props, name@, value@));
                }
            },
            None => {
                self.properties.push(
                    Property { name, value, attributes: Attributes::empty(), accessor: false },
                );
                assert(self@.props =~= set_prop(old(self)@.props, name@, value@));
            },
        }
    }

    /// Defines property `p`, replacing one of the same name.
    pub fn define(&mut self, p: Property)
        ensures
            final(self)@ == (ObjectView { props: define_prop(old(self)@.props, p@), ..old(self)@ }),
    {
        let ghost pv = p@;
        match self.find_property(&p.name) {
            Some(i) => {
                self.properties.set(i, p);
                assert(self@.props =~= define_prop(old(self)@.props, pv));
            },
            None => {
                self.properties.push(p);
                assert(self@.props =~= define_prop(old(self)@.props, pv));
            },
        }
    }
}

/// The objects of the virtual machine.
pub struct Heap {
    objects: Vec<ObjectData>,
}

/// The heap with property `name` of object `r` written; unchanged where `r`
/// names no object.
pub open spec fn heap_set(heap: Seq<ObjectView>, r: ObjectRef, name: Seq<char>, value: AvmValue) -> Seq<
    ObjectView,
> {
    if r.index < heap.len() {
        heap.update(
            r.index as int,
            ObjectView { props: set_prop(heap[r.index as int].props, name, value), ..heap[r.index as int] },
        )
    } else {
        heap
    }
}

/// What a search for a property along a prototype chain finds.
pub enum Lookup {
    /// The property, on the first object of the chain that has one of that name.
    Found(PropertyView),
    /// No object of the chain has it.
    Missing,
    /// The chain is longer than the virtual machine searches.
    TooDeep,
}

/// The number of objects that a property search visits at most.
pub open spec fn max_proto_depth() -> nat {
    255
}

/// Searches property `name` from object `r` along the prototype chain,
/// visiting at most `fuel` objects.
pub open spec fn lookup_from(heap: Seq<ObjectView>, r: ObjectRef, name: Seq<char>, fuel: nat) -> Lookup
    decreases fuel,
{
    if fuel == 0 {
        Lookup::TooDeep
    } else if r.index >= heap.len() {
        Lookup::Missing
    } else {
        match find_prop(heap[r.index as int].props, name) {
            Some(i) => Lookup::Found(heap[r.index as int].props[i]),
            None => match heap[r.index as int].proto {
                Some(p) => lookup_from(heap, p, name, (fuel - 1) as nat),
                None => Lookup::Missing,
            },
        }
    }
}

/// The search for property `name` of object `r`.
pub open spec fn heap_lookup(heap: Seq<ObjectView>, r: ObjectRef, name: Seq<char>) -> Lookup {
    lookup_from(heap, r, name, max_proto_depth())
}

/// Property `name` of object `r`, found along its prototype chain;
/// `undefined` where no object of the chain has it.
pub open spec fn heap_get(heap: Seq<ObjectView>, r: ObjectRef, name: Seq<char>) -> AvmValue {
    match heap_lookup(heap, r, name) {
        Lookup::Found(p) => if p.accessor {
            AvmValue::Undefined
        } else {
            p.value
        },
        _ => AvmValue::Undefined,
    }
}

/// The heap with property `p` defined on object `r`.
pub open spec fn heap_define(heap: Seq<ObjectView>, r: ObjectRef, p: PropertyView) -> Seq<ObjectView> {
    if r.index < heap.len() {
        heap.update(
            r.index as int,
            ObjectView { props: define_prop(heap[r.index as int].props, p), ..heap[r.index as int] },
        )
    } else {
        heap
    }
}

/// The heap with the native part of object `r` replaced.
pub open spec fn heap_set_native(heap: Seq<ObjectView>, r: ObjectRef, native: NativeView) -> Seq<
    ObjectView,
> {
    if r.index < heap.len() {
        heap.update(r.index as int, ObjectView { native, ..heap[r.index as int] })
    } else {
        heap
    }
}

impl View for Heap {
    type V = Seq<ObjectView>;

    closed spec fn view(&self) -> Seq<ObjectView> {
        self.objects@.map_values(|o: ObjectData| o@)
    }
}

impl Heap {
    /// An empty heap.
    pub fn new() -> (r: Heap)
        ensures
            r@.len() == 0,
    {
        let r = Heap { objects: Vec::new() };
        assert(r@ =~= Seq::<ObjectView>::empty());
        r
    }

    /// The number of objects.
    pub fn len(&self) -> (r: usize)
        ensures
            r == self@.len(),
    {
        self.objects.len()
    }

    /// Adds `object` and gives its reference.
    pub fn allocate(&mut self, object: ObjectData) -> (r: ObjectRef)
        ensures
            r.index == old(self)@.len(),
            final(self)@ == old(self)@.push(object@),
    {
        let r = ObjectRef { index: self.objects.len() };
        let ghost ov = object@;
        self.objects.push(object);
        assert(self@ =~= old(self)@.push(ov));
        r
    }

    /// The object `r` (none where `r` names no object).
    pub fn object(&self, r: ObjectRef) -> (o: Option<&ObjectData>)
        ensures
            match o {
                Some(o) => r.index < self@.len() && o@ == self@[r.index as int],
                None => r.index >= self@.len(),
            },
    {
        if r.index < self.objects.len() {
            Some(&self.objects[r.index])
        } else {
            None
        }
    }

    /// The property `name` of object `r` or of the first object of its
    /// prototype chain that has one; none where the search finds nothing or
    /// goes too deep.
    pub fn lookup(&self, r: ObjectRef, name: &String) -> (p: Option<&Property>)
        ensures
            match p {
                Some(p) => heap_lookup(self@, r, name@) == Lookup::Found(p@),
                None => !(heap_lookup(self@, r, name@) is Found),
            },
    {
        let mut cur = r;
        let mut fuel: u32 = 255;
        while fuel > 0
            invariant
                heap_lookup(self@, r, name@) == lookup_from(self@, cur, name@, fuel as nat),
            decreases fuel,
        {
            if cur.index >= self.objects.len() {
                return None;
            }
            let o = &self.objects[cur.index];
            assert(o@ == self@[cur.index as int]);
            match o.find_property(name) {
                Some(i) => {
                    return Some(&o.properties[i]);
                },
                None => match o.proto {
                    Some(next) => {
                        cur = next;
                        fuel = fuel - 1;
                    },
                    None => {
                        return None;
                    },
                },
            }
        }
        None
    }

    /// Whether the search for property `name` of `r` goes past the depth limit.
    pub fn lookup_too_deep(&self, r: ObjectRef, name: &String) -> (b: bool)
        ensures
            b == (heap_lookup(self@, r, name@) is TooDeep),
    {
        let mut cur = r;
        let mut fuel: u32 = 255;
        while fuel > 0
            invariant
                heap_lookup(self@, r, name@) == lookup_from(self@, cur, name@, fuel as nat),
            decreases fuel,
        {
            if cur.index >= self.objects.len() {
                return false;
            }
            let o = &self.objects[cur.index];
            assert(o@ == self@[cur.index as int]);
            match o.find_property(name) {
                Some(_) => {
                    return false;
                },
                None => match o.proto {
                    Some(next) => {
                        cur = next;
                        fuel = fuel - 1;
                    },
                    None => {
                        return false;
                    },
                },
            }
        }
        true
    }

    /// Reads property `name` of object `r`, along its prototype chain.
    pub fn get(&self, r: ObjectRef, name: &String) -> (v: Value)
        ensures
            v@ == heap_get(self@, r, name@),
    {
        match self.lookup(r, name) {
            Some(p) => {
                if p.accessor {
                    Value::Undefined
                } else {
                    p.value.duplicate()
                }
            },
            None => Value::Undefined,
        }
    }

    /// Writes `value` to property `name` of object `r`.
    pub fn set(&mut self, r: ObjectRef, name: String, value: Value)
        ensures
            final(self)@ == heap_set(old(self)@, r, name@, value@),
    {
        if r.index < self.objects.len() {
            let mut o = self.take_object(r.index);
            o.set(name, value);
            self.put_object(r.index, o);
            assert(self@ =~= heap_set(old(self)@, r, name@, value@));
        }
    }

    /// Defines property `p` on object `r`.
    pub fn define(&mut self, r: ObjectRef, p: Property)
        ensures
            final(self)@ == heap_define(old(self)@, r, p@),
    {
        if r.index < self.objects.len() {
            let mut o = self.take_object(r.index);
            o.define(p);
            self.put_object(r.index, o);
            assert(self@ =~= heap_define(old(self)@, r, p@));
        }
    }

    /// Replaces the native part of object `r`.
    pub fn set_native(&mut self, r: ObjectRef, native: NativeObject)
        ensures
            final(self)@ == heap_set_native(old(self)@, r, native@),
    {
        if r.index < self.objects.len() {
            let mut o = self.take_object(r.index);
            o.native = native;
            self.put_object(r.index, o);
            assert(self@ =~= heap_set_native(old(self)@, r, native@));
        }
    }

    fn take_object(&mut self, i: usize) -> (o: ObjectData)
        requires
            i < old(self)@.len(),
        ensures
            o@ == old(self)@[i as int],
            final(self)@ == old(self)@.update(i as int, ObjectData::empty_view()),
    {
        let mut o = ObjectData { properties: Vec::new(), proto: None, native: NativeObject::Plain };
        assert(o@.props =~= Seq::<PropertyView>::empty());
        std::mem::swap(&mut o, &mut self.objects[i]);
        assert(self@ =~= old(self)@.update(i as int, ObjectData::empty_view()));
        o
    }

    fn put_object(&mut self, i: usize, o: ObjectData)
        requires
            i < old(self)@.len(),
        ensures
            final(self)@ == old(self)@.update(i as int, o@),
    {
        let ghost ov = o@;
        self.objects.set(i, o);
        assert(self@ =~= old(self)@.update(i as int, ov));
    }
}

impl ObjectData {
    pub open spec fn empty_view() -> ObjectView {
        ObjectView { props: Seq::empty(), proto: None, native: NativeView::Plain }
    }
}

} // verus!
