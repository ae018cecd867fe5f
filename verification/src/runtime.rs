//! The part of the virtual machine that the NetConnection methods work on:
//! the heap, what the host reports of its connections, and the list of
//! effects that the methods ask the host to carry out.
//!
//! The methods do not talk to the network or run script code themselves. Each
//! one appends effects to `Runtime::effects`; the host performs them in order.
//! Where an effect runs script code (`Effect::CallMethod`) and that code
//! throws, the host stops there and the method's call ends with that error, as
//! the `?` after each such call does in the virtual machine.
use vstd::prelude::*;
use crate::heap::{
    heap_define, heap_get, heap_lookup, heap_set, Lookup, heap_set_native, Heap, NativeMethod, NativeObject,
    NativeView, ObjectData, ObjectView, Property, PropertyView,
};
use crate::net_connection::NetConnectionHandle;
use crate::value::{values_view, AvmValue, ObjectRef, Value};

verus! {

/// What the host reports of one of its connections.
#[derive(Debug)]
pub struct ConnectionInfo {
    pub handle: NetConnectionHandle,
    pub connected: bool,
    pub protocol: Option<String>,
    pub uri: Option<String>,
}

pub struct ConnectionInfoView {
    pub handle: NetConnectionHandle,
    pub connected: bool,
    pub protocol: Option<Seq<char>>,
    pub uri: Option<Seq<char>>,
}

pub open spec fn opt_string_view(s: Option<String>) -> Option<Seq<char>> {
    match s {
        Some(s) => Some(s@),
        None => None,
    }
}

impl View for ConnectionInfo {
    type V = ConnectionInfoView;

    open spec fn view(&self) -> ConnectionInfoView {
        ConnectionInfoView {
            handle: self.handle,
            connected: self.connected,
            protocol: opt_string_view(self.protocol),
            uri: opt_string_view(self.uri),
        }
    }
}

/// Why a method is called: from script code, or by the player itself.
#[derive(Clone, Copy, Debug, PartialEq, Eq, Structural)]
pub enum ExecutionReason {
    FunctionCall,
    Special,
}

/// Which callback of a responder a reply goes to.
#[derive(Clone, Copy, Debug, PartialEq, Eq, Structural)]
pub enum ResponderCallback {
    Result,
    Status,
}

/// Work that a method hands to the host.
#[derive(Debug)]
pub enum Effect {
    /// Add a header, sent with every later request of the connection.
    SetHeader { handle: NetConnectionHandle, name: String, must_understand: bool, value: Value },
    /// Send a remote call; the reply goes to `responder` where there is one.
    Send {
        handle: NetConnectionHandle,
        command: String,
        args: Vec<Value>,
        responder: Option<ObjectRef>,
    },
    /// Close the connection.
    Close { handle: NetConnectionHandle, is_explicit: bool },
    /// Open a local connection for the NetConnection object `target`.
    ConnectToLocal { target: ObjectRef },
    /// Open a Flash Remoting connection to `url` for the NetConnection object `target`.
    ConnectToFlashRemoting { target: ObjectRef, url: String },
    /// Report that the player does not implement this case.
    Stub { class_name: String, method: String, specifics: String },
    /// Call method `name` of object `target` with `args`.
    CallMethod { target: ObjectRef, name: String, args: Vec<Value>, reason: ExecutionReason },
    /// Trace that `call` (or `realcall`) was invoked with `method` (the first
    /// argument as a string, or `<error>`) and `args`; the host renders the
    /// arguments.
    TraceCall { realcall: bool, method: String, args: Vec<Value> },
    /// Trace that `connect` was called with `url` (or `<error>`).
    TraceConnect { url: String },
    /// Trace that `getService` was called.
    TraceGetService,
}

pub enum EffectView {
    SetHeader { handle: NetConnectionHandle, name: Seq<char>, must_understand: bool, value: AvmValue },
    Send {
        handle: NetConnectionHandle,
        command: Seq<char>,
        args: Seq<AvmValue>,
        responder: Option<ObjectRef>,
    },
    Close { handle: NetConnectionHandle, is_explicit: bool },
    ConnectToLocal { target: ObjectRef },
    ConnectToFlashRemoting { target: ObjectRef, url: Seq<char> },
    Stub { class_name: Seq<char>, method: Seq<char>, specifics: Seq<char> },
    CallMethod { target: ObjectRef, name: Seq<char>, args: Seq<AvmValue>, reason: ExecutionReason },
    TraceCall { realcall: bool, method: Seq<char>, args: Seq<AvmValue> },
    TraceConnect { url: Seq<char> },
    TraceGetService,
}

impl View for Effect {
    type V = EffectView;

    open spec fn view(&self) -> EffectView {
        match self {
            Effect::SetHeader { handle, name, must_understand, value } => EffectView::SetHeader {
                handle: *handle,
                name: name@,
                must_understand: *must_understand,
                value: value@,
            },
            Effect::Send { handle, command, args, responder } => EffectView::Send {
                handle: *handle,
                command: command@,
                args: values_view(args@),
                responder: *responder,
            },
            Effect::Close { handle, is_explicit } => EffectView::Close {
                handle: *handle,
                is_explicit: *is_explicit,
            },
            Effect::ConnectToLocal { target } => EffectView::ConnectToLocal { target: *target },
            Effect::ConnectToFlashRemoting { target, url } => EffectView::ConnectToFlashRemoting {
                target: *target,
                url: url@,
            },
            Effect::Stub { class_name, method, specifics } => EffectView::Stub {
                class_name: class_name@,
                method: method@,
                specifics: specifics@,
            },
            Effect::CallMethod { target, name, args, reason } => EffectView::CallMethod {
                target: *target,
                name: name@,
                args: values_view(args@),
                reason: *reason,
            },
            Effect::TraceCall { realcall, method, args } => EffectView::TraceCall {
                realcall: *realcall,
                method: method@,
                args: values_view(args@),
            },
            Effect::TraceConnect { url } => EffectView::TraceConnect { url: url@ },
            Effect::TraceGetService => EffectView::TraceGetService,
        }
    }
}

/// What reading a property gives.
#[derive(Debug)]
pub enum ReadOutcome {
    Value(Value),
    /// The property is an accessor with this getter; the host runs it.
    Getter(Value),
    /// The prototype chain is longer than the virtual machine searches.
    TooDeep,
}

pub enum ReadView {
    Value(AvmValue),
    Getter(AvmValue),
    TooDeep,
}

impl View for ReadOutcome {
    type V = ReadView;

    open spec fn view(&self) -> ReadView {
        match self {
            ReadOutcome::Value(v) => ReadView::Value(v@),
            ReadOutcome::Getter(g) => ReadView::Getter(g@),
            ReadOutcome::TooDeep => ReadView::TooDeep,
        }
    }
}

/// What writing a property did.
#[derive(Clone, Copy, Debug, PartialEq, Eq, Structural)]
pub enum WriteKind {
    Done,
    /// The property is an accessor; the host runs its setter.
    Setter,
    /// The prototype chain is longer than the virtual machine searches.
    TooDeep,
}

/// The state that the NetConnection methods read and change.
pub struct Runtime {
    pub heap: Heap,
    /// The connections that the host holds, as it reports them.
    pub connections: Vec<ConnectionInfo>,
    /// The SWF version of the movie that runs.
    pub swf_version: u8,
    /// Whether a root movie is loaded (callbacks are dropped without one).
    pub has_root_clip: bool,
    /// `Object.prototype`.
    pub object_proto: ObjectRef,
    /// `Function.prototype`.
    pub function_proto: ObjectRef,
    /// `Boolean.prototype`, `Number.prototype` and `String.prototype`: the
    /// prototypes of a boxed boolean, number and string.
    pub boolean_proto: ObjectRef,
    pub number_proto: ObjectRef,
    pub string_proto: ObjectRef,
    /// The effects asked for so far, oldest first.
    pub effects: Vec<Effect>,
}

pub struct RuntimeView {
    pub heap: Seq<ObjectView>,
    pub connections: Seq<ConnectionInfoView>,
    pub swf_version: u8,
    pub has_root_clip: bool,
    pub object_proto: ObjectRef,
    pub function_proto: ObjectRef,
    pub boolean_proto: ObjectRef,
    pub number_proto: ObjectRef,
    pub string_proto: ObjectRef,
    pub effects: Seq<EffectView>,
}

impl View for Runtime {
    type V = RuntimeView;

    open spec fn view(&self) -> RuntimeView {
        RuntimeView {
            heap: self.heap@,
            connections: self.connections@.map_values(|c: ConnectionInfo| c@),
            swf_version: self.swf_version,
            has_root_clip: self.has_root_clip,
            object_proto: self.object_proto,
            function_proto: self.function_proto,
            boolean_proto: self.boolean_proto,
            number_proto: self.number_proto,
            string_proto: self.string_proto,
            effects: self.effects@.map_values(|e: Effect| e@),
        }
    }
}

/// The index of the first connection with handle `h`.
pub open spec fn find_connection(cs: Seq<ConnectionInfoView>, h: NetConnectionHandle) -> Option<int>
    decreases cs.len(),
{
    if cs.len() == 0 {
        None
    } else {
        match find_connection(cs.drop_last(), h) {
            Some(i) => Some(i),
            None => if cs.last().handle == h {
                Some(cs.len() - 1)
            } else {
                None
            },
        }
    }
}

pub proof fn lemma_find_connection(cs: Seq<ConnectionInfoView>, h: NetConnectionHandle)
    ensures
        match find_connection(cs, h) {
            Some(i) => {
                &&& 0 <= i < cs.len()
                &&& cs[i].handle == h
                &&& forall|j: int| 0 <= j < i ==> #[trigger] cs[j].handle != h
            },
            None => forall|j: int| 0 <= j < cs.len() ==> #[trigger] cs[j].handle != h,
        },
    decreases cs.len(),
{
    if cs.len() > 0 {
        lemma_find_connection(cs.drop_last(), h);
        match find_connection(cs.drop_last(), h) {
            Some(i) => {
                assert forall|j: int| 0 <= j < i implies #[trigger] cs[j].handle != h by {
                    assert(cs[j] == cs.drop_last()[j]);
                }
            },
            None => {
                assert forall|j: int| 0 <= j < cs.len() - 1 implies #[trigger] cs[j].handle
                    != h by {
                    assert(cs[j] == cs.drop_last()[j]);
                }
            },
        }
    }
}

impl RuntimeView {
    /// What the host reports of the connection with handle `h`.
    pub open spec fn connection(self, h: NetConnectionHandle) -> Option<ConnectionInfoView> {
        match find_connection(self.connections, h) {
            Some(i) => Some(self.connections[i]),
            None => None,
        }
    }

    /// Whether connection `h` is open; an unknown handle is not.
    pub open spec fn is_connected(self, h: NetConnectionHandle) -> bool {
        match self.connection(h) {
            Some(c) => c.connected,
            None => false,
        }
    }

    /// The protocol of connection `h`, where the host reports one.
    pub open spec fn protocol_of(self, h: NetConnectionHandle) -> Option<Seq<char>> {
        match self.connection(h) {
            Some(c) => c.protocol,
            None => None,
        }
    }

    /// The URI of connection `h`, where the host reports one.
    pub open spec fn uri_of(self, h: NetConnectionHandle) -> Option<Seq<char>> {
        match self.connection(h) {
            Some(c) => c.uri,
            None => None,
        }
    }

    /// The NetConnection object that `v` is, if it is one.
    pub open spec fn cast(self, v: AvmValue) -> Option<ObjectRef> {
        match v {
            AvmValue::Object(r) => if r.index < self.heap.len()
                && self.heap[r.index as int].native is NetConnection {
                Some(r)
            } else {
                None
            },
            _ => None,
        }
    }

    /// The connection handle of NetConnection object `r`.
    pub open spec fn handle_of(self, r: ObjectRef) -> Option<NetConnectionHandle> {
        if r.index < self.heap.len() {
            match self.heap[r.index as int].native {
                NativeView::NetConnection { handle } => handle,
                _ => None,
            }
        } else {
            None
        }
    }

    /// Whether `v` is a NetConnection object whose connection is open.
    pub open spec fn net_connection_connected(self, this: ObjectRef) -> bool {
        match self.handle_of(this) {
            Some(h) => self.is_connected(h),
            None => false,
        }
    }

    pub open spec fn emit(self, e: EffectView) -> RuntimeView {
        RuntimeView { effects: self.effects.push(e), ..self }
    }

    pub open spec fn with_heap(self, heap: Seq<ObjectView>) -> RuntimeView {
        RuntimeView { heap, ..self }
    }

    /// Adds object `o`; gives the new state and the object's reference.
    pub open spec fn allocated(self, o: ObjectView) -> (RuntimeView, ObjectRef) {
        (self.with_heap(self.heap.push(o)), ObjectRef { index: self.heap.len() as usize })
    }

    /// A new object of class Object, with no properties.
    pub open spec fn new_object(self) -> (RuntimeView, ObjectRef) {
        self.allocated(
            ObjectView { props: Seq::empty(), proto: Some(self.object_proto), native: NativeView::Plain },
        )
    }

    /// A new native function object.
    pub open spec fn new_function(self, method: NativeMethod, fn_proto: ObjectRef, prototype: Option<ObjectRef>) -> (
        RuntimeView,
        ObjectRef,
    ) {
        self.allocated(
            ObjectView {
                props: Seq::empty(),
                proto: Some(fn_proto),
                native: NativeView::Function { method, prototype },
            },
        )
    }

    pub open spec fn set(self, r: ObjectRef, name: Seq<char>, v: AvmValue) -> RuntimeView {
        self.with_heap(heap_set(self.heap, r, name, v))
    }

    pub open spec fn get(self, r: ObjectRef, name: Seq<char>) -> AvmValue {
        heap_get(self.heap, r, name)
    }

    pub open spec fn define(self, r: ObjectRef, p: PropertyView) -> RuntimeView {
        self.with_heap(heap_define(self.heap, r, p))
    }

    pub open spec fn set_native(self, r: ObjectRef, n: NativeView) -> RuntimeView {
        self.with_heap(heap_set_native(self.heap, r, n))
    }

    /// What reading property `name` of `r` gives: a value, or the getter of
    /// an accessor the host has to run, or a chain past the depth limit.
    pub open spec fn read(self, r: ObjectRef, name: Seq<char>) -> ReadView {
        match heap_lookup(self.heap, r, name) {
            Lookup::Found(p) => if p.accessor {
                ReadView::Getter(p.value)
            } else {
                ReadView::Value(p.value)
            },
            Lookup::Missing => ReadView::Value(AvmValue::Undefined),
            Lookup::TooDeep => ReadView::TooDeep,
        }
    }

    /// Writing `v` to property `name` of `r`: a plain write, or an accessor
    /// whose setter the host has to run (nothing written), or a chain past the
    /// depth limit (nothing written).
    pub open spec fn write(self, r: ObjectRef, name: Seq<char>, v: AvmValue) -> (RuntimeView, WriteKind) {
        match heap_lookup(self.heap, r, name) {
            Lookup::Found(p) => if p.accessor {
                (self, WriteKind::Setter)
            } else {
                (self.set(r, name, v), WriteKind::Done)
            },
            Lookup::Missing => (self.set(r, name, v), WriteKind::Done),
            Lookup::TooDeep => (self, WriteKind::TooDeep),
        }
    }

    /// The string that `v` converts to, where no script code runs: all but
    /// objects (their `toString` is script code) and opaque values (numbers
    /// convert through floating point); the host converts those. `undefined`
    /// is the empty string in a movie of SWF version 6 or lower.
    pub open spec fn to_text(self, v: AvmValue) -> Option<Seq<char>> {
        match v {
            AvmValue::Undefined => if self.swf_version >= 7 {
                Some("undefined"@)
            } else {
                Some(Seq::empty())
            },
            AvmValue::Null => Some("null"@),
            AvmValue::Bool(b) => if b {
                Some("true"@)
            } else {
                Some("false"@)
            },
            AvmValue::String(s) => Some(s),
            AvmValue::Object(_) => None,
            AvmValue::Opaque(_) => None,
        }
    }

    /// The boolean that `v` converts to, where the library can tell: all but
    /// opaque values and, in a movie of SWF version 6 or lower, strings (both
    /// convert through a number; the host converts those).
    pub open spec fn to_flag(self, v: AvmValue) -> Option<bool> {
        match v {
            AvmValue::Undefined => Some(false),
            AvmValue::Null => Some(false),
            AvmValue::Bool(b) => Some(b),
            AvmValue::String(s) => if self.swf_version >= 7 {
                Some(s.len() > 0)
            } else {
                None
            },
            AvmValue::Object(_) => Some(true),
            AvmValue::Opaque(_) => None,
        }
    }

    /// The prototype of a new object wrapping `v`: `Boolean.prototype`,
    /// `String.prototype` or `Number.prototype` (an opaque value is a number)
    /// for a boolean, a string or a number; none for `undefined` and `null`.
    pub open spec fn box_proto(self, v: AvmValue) -> Option<ObjectRef> {
        match v {
            AvmValue::Bool(_) => Some(self.boolean_proto),
            AvmValue::String(_) => Some(self.string_proto),
            AvmValue::Opaque(_) => Some(self.number_proto),
            _ => None,
        }
    }

    /// The object that `v` converts to: `v` itself where it is an object,
    /// else a new object wrapping it.
    pub open spec fn to_object(self, v: AvmValue) -> (RuntimeView, ObjectRef) {
        match v {
            AvmValue::Object(r) => (self, r),
            _ => self.allocated(
                ObjectView { props: Seq::empty(), proto: self.box_proto(v), native: NativeView::Boxed(v) },
            ),
        }
    }
}

impl Runtime {
    /// Adds `e` to the effects.
    pub fn emit(&mut self, e: Effect)
        ensures
            final(self)@ == old(self)@.emit(e@),
    {
        let ghost ev = e@;
        self.effects.push(e);
        assert(self@.effects =~= old(self)@.effects.push(ev));
        assert(self@ =~= old(self)@.emit(ev));
    }

    /// A new object of class Object, with no properties.
    pub fn new_object(&mut self) -> (r: ObjectRef)
        ensures
            (final(self)@, r) == old(self)@.new_object(),
    {
        let o = ObjectData::new(Some(self.object_proto), NativeObject::Plain);
        let r = self.heap.allocate(o);
        assert(self@ =~= old(self)@.new_object().0);
        r
    }

    /// A new native function object, as `FunctionObject::native` makes it.
    pub fn new_native_function(&mut self, method: NativeMethod, fn_proto: ObjectRef, prototype: Option<ObjectRef>) -> (r:
        ObjectRef)
        ensures
            (final(self)@, r) == old(self)@.new_function(method, fn_proto, prototype),
    {
        let o = ObjectData::new(Some(fn_proto), NativeObject::Function { method, prototype });
        let r = self.heap.allocate(o);
        assert(self@ =~= old(self)@.new_function(method, fn_proto, prototype).0);
        r
    }

    /// Writes property `name` of object `r`.
    pub fn set_property(&mut self, r: ObjectRef, name: String, v: Value)
        ensures
            final(self)@ == old(self)@.set(r, name@, v@),
    {
        self.heap.set(r, name, v);
        assert(self@ =~= old(self)@.set(r, name@, v@));
    }

    /// Reads property `name` of object `r`.
    pub fn get_property(&self, r: ObjectRef, name: &String) -> (v: Value)
        ensures
            v@ == self@.get(r, name@),
    {
        self.heap.get(r, name)
    }

    /// Defines property `p` on object `r`.
    pub fn define_property(&mut self, r: ObjectRef, p: Property)
        ensures
            final(self)@ == old(self)@.define(r, p@),
    {
        let ghost pv = p@;
        self.heap.define(r, p);
        assert(self@ =~= old(self)@.define(r, pv));
    }

    /// Replaces the native part of object `r`.
    pub fn set_native(&mut self, r: ObjectRef, n: NativeObject)
        ensures
            final(self)@ == old(self)@.set_native(r, n@),
    {
        let ghost nv = n@;
        self.heap.set_native(r, n);
        assert(self@ =~= old(self)@.set_native(r, nv));
    }

    /// What the host reports of connection `h`.
    pub fn connection(&self, h: NetConnectionHandle) -> (r: Option<&ConnectionInfo>)
        ensures
            match r {
                Some(c) => self@.connection(h) == Some(c@),
                None => self@.connection(h) is None,
            },
    {
        let ghost cs = self@.connections;
        let mut i: usize = 0;
        while i < self.connections.len()
            invariant
                i <= self.connections@.len(),
                cs == self@.connections,
                forall|j: int| 0 <= j < i ==> #[trigger] cs[j].handle != h,
            decreases self.connections@.len() - i,
        {
            if self.connections[i].handle == h {
                proof {
                    lemma_find_connection(cs, h);
                    match find_connection(cs, h) {
                        Some(k) => {
                            if k < i {
                                assert(cs[k].handle != h);
                            } else if k > i {
                                assert(cs[i as int].handle == h);
                            }
                        },
                        None => {
                            assert(cs[i as int].handle == h);
                        },
                    }
                }
                return Some(&self.connections[i]);
            }
            i = i + 1;
        }
        proof {
            lemma_find_connection(cs, h);
            if let Some(k) = find_connection(cs, h) {
                assert(cs[k].handle != h);
            }
        }
        None
    }

    /// Whether connection `h` is open.
    pub fn connection_is_connected(&self, h: NetConnectionHandle) -> (r: bool)
        ensures
            r == self@.is_connected(h),
    {
        match self.connection(h) {
            Some(c) => c.connected,
            None => false,
        }
    }

    /// The protocol of connection `h`.
    pub fn connection_protocol(&self, h: NetConnectionHandle) -> (r: Option<String>)
        ensures
            opt_string_view(r) == self@.protocol_of(h),
    {
        match self.connection(h) {
            Some(c) => match &c.protocol {
                Some(p) => Some(p.clone()),
                None => None,
            },
            None => None,
        }
    }

    /// The URI of connection `h`.
    pub fn connection_uri(&self, h: NetConnectionHandle) -> (r: Option<String>)
        ensures
            opt_string_view(r) == self@.uri_of(h),
    {
        match self.connection(h) {
            Some(c) => match &c.uri {
                Some(u) => Some(u.clone()),
                None => None,
            },
            None => None,
        }
    }

    /// The NetConnection object that `v` is, if it is one.
    pub fn cast(&self, v: &Value) -> (r: Option<ObjectRef>)
        ensures
            r == self@.cast(v@),
    {
        match v {
            Value::Object(r) => match self.heap.object(*r) {
                Some(o) => match &o.native {
                    NativeObject::NetConnection(_) => Some(*r),
                    _ => None,
                },
                None => None,
            },
            _ => None,
        }
    }

    /// The connection handle of NetConnection object `r`.
    pub fn handle_of(&self, r: ObjectRef) -> (h: Option<NetConnectionHandle>)
        ensures
            h == self@.handle_of(r),
    {
        match self.heap.object(r) {
            Some(o) => match &o.native {
                NativeObject::NetConnection(c) => c.handle(),
                _ => None,
            },
            None => None,
        }
    }

    /// Replaces the connection handle of NetConnection object `r` and gives
    /// the previous one; changes nothing where `r` is not a NetConnection.
    pub fn replace_handle(&mut self, r: ObjectRef, h: Option<NetConnectionHandle>) -> (previous:
        Option<NetConnectionHandle>)
        ensures
            previous == old(self)@.handle_of(r),
            old(self)@.cast(AvmValue::Object(r)) is Some ==> final(self)@ == old(self)@.set_native(
                r,
                NativeView::NetConnection { handle: h },
            ),
            old(self)@.cast(AvmValue::Object(r)) is None ==> final(self)@ == old(self)@,
    {
        let current = match self.heap.object(r) {
            Some(o) => match &o.native {
                NativeObject::NetConnection(c) => Some(*c),
                _ => None,
            },
            None => None,
        };
        match current {
            Some(c) => {
                let mut c = c;
                let previous = c.set_handle(h);
                self.set_native(r, NativeObject::NetConnection(c));
                previous
            },
            None => None,
        }
    }

    /// The string that `v` converts to, where no script code runs.
    pub fn to_text(&self, v: &Value) -> (s: Option<String>)
        ensures
            opt_string_view(s) == self@.to_text(v@),
    {
        match v {
            Value::Undefined => if self.swf_version >= 7 {
                Some(String::from_str("undefined"))
            } else {
                Some(String::new())
            },
            Value::Null => Some(String::from_str("null")),
            Value::Bool(b) => if *b {
                Some(String::from_str("true"))
            } else {
                Some(String::from_str("false"))
            },
            Value::String(s) => Some(s.clone()),
            Value::Object(_) => None,
            Value::Opaque(_) => None,
        }
    }

    /// The boolean that `v` converts to, where the library can tell.
    pub fn to_flag(&self, v: &Value) -> (b: Option<bool>)
        ensures
            b == self@.to_flag(v@),
    {
        match v {
            Value::Undefined | Value::Null => Some(false),
            Value::Bool(b) => Some(*b),
            Value::String(s) => if self.swf_version >= 7 {
                Some(!s.as_str().is_empty())
            } else {
                None
            },
            Value::Object(_) => Some(true),
            Value::Opaque(_) => None,
        }
    }

    /// Reads property `name` of `r`, or says why the host has to.
    pub fn read_property(&self, r: ObjectRef, name: &String) -> (o: ReadOutcome)
        ensures
            o@ == self@.read(r, name@),
    {
        match self.heap.lookup(r, name) {
            Some(p) => if p.accessor {
                ReadOutcome::Getter(p.value.duplicate())
            } else {
                ReadOutcome::Value(p.value.duplicate())
            },
            None => {
                if self.heap.lookup_too_deep(r, name) {
                    ReadOutcome::TooDeep
                } else {
                    ReadOutcome::Value(Value::Undefined)
                }
            },
        }
    }

    /// Writes `v` to property `name` of `r` where that is a plain write.
    pub fn write_property(&mut self, r: ObjectRef, name: String, v: Value) -> (k: WriteKind)
        ensures
            (final(self)@, k) == old(self)@.write(r, name@, v@),
    {
        match self.heap.lookup(r, &name) {
            Some(p) => if p.accessor {
                return WriteKind::Setter;
            },
            None => if self.heap.lookup_too_deep(r, &name) {
                return WriteKind::TooDeep;
            },
        }
        self.set_property(r, name, v);
        WriteKind::Done
    }

    /// The object that `v` converts to.
    pub fn coerce_to_object(&mut self, v: Value) -> (r: ObjectRef)
        ensures
            (final(self)@, r) == old(self)@.to_object(v@),
    {
        match v {
            Value::Object(r) => r,
            _ => {
                let ghost vv = v@;
                let proto = match &v {
                    Value::Bool(_) => Some(self.boolean_proto),
                    Value::String(_) => Some(self.string_proto),
                    Value::Opaque(_) => Some(self.number_proto),
                    _ => None,
                };
                let o = ObjectData::new(proto, NativeObject::Boxed(v));
                let r = self.heap.allocate(o);
                assert(self@ =~= old(self)@.to_object(vv).0);
                r
            },
        }
    }
}

} // verus!
