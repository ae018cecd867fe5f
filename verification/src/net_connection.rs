//! The NetConnection class: its native state and its methods.
//!
//! Each method of the class is a function of the runtime (`Runtime`), the
//! object it is called on (`this`) and its arguments. Its contract gives the
//! new runtime and its result through a spec function of the same name with
//! `_spec` appended. The methods that may need script code run as tasks (see
//! `crate::task`): they end with a value, or with the error that ended them,
//! or stop to ask the host for work.
use vstd::prelude::*;
use crate::heap::{Attributes, NativeMethod, NativeObject, NativeView, ObjectData, ObjectView, Property, PropertyView};
use crate::runtime::{Effect, EffectView, ExecutionReason, ResponderCallback, Runtime, RuntimeView};
use crate::task::{run, run_spec, Action, ActionView, Task, TaskKind, TaskView};
use crate::value::{all_values, values_view, AvmValue, ObjectRef, Value};

verus! {

/// The host's handle of an open connection.
#[derive(Clone, Copy, Debug, PartialEq, Eq, Structural)]
pub struct NetConnectionHandle {
    pub id: u64,
}

/// The native state of a NetConnection object: the handle of the connection
/// it stands for, if any.
#[derive(Clone, Copy, Debug, PartialEq, Eq, Structural)]
pub struct NetConnection {
    handle: Option<NetConnectionHandle>,
}

impl NetConnection {
    pub closed spec fn spec_handle(self) -> Option<NetConnectionHandle> {
        self.handle
    }

    /// A NetConnection with no connection, as the class constructor makes it.
    pub fn new() -> (r: NetConnection)
        ensures
            r.spec_handle() is None,
    {
        NetConnection { handle: None }
    }

    /// The handle of the connection.
    pub fn handle(&self) -> (r: Option<NetConnectionHandle>)
        ensures
            r == self.spec_handle(),
    {
        self.handle
    }

    /// Replaces the handle of this value and gives the previous one.
    ///
    /// A `NetConnection` here is a plain value: this changes this value only,
    /// not the native state of an object of the heap nor other copies of it.
    /// The handle of a NetConnection object changes through
    /// `Runtime::replace_handle`, which all readers of the object see.
    pub fn set_handle(&mut self, handle: Option<NetConnectionHandle>) -> (r: Option<NetConnectionHandle>)
        ensures
            r == old(self).spec_handle(),
            final(self).spec_handle() == handle,
    {
        let previous = self.handle;
        self.handle = handle;
        previous
    }
}

/// Whether `prefix` begins `s`.
pub fn starts_with(s: &String, prefix: &str) -> (r: bool)
    ensures
        r == prefix@.is_prefix_of(s@),
{
    let n = prefix.unicode_len();
    let m = s.as_str().unicode_len();
    if n > m {
        return false;
    }
    let mut i: usize = 0;
    while i < n
        invariant
            n == prefix@.len(),
            m == s@.len(),
            n <= m,
            i <= n,
            forall|j: int| 0 <= j < i ==> prefix@[j] == s@[j],
        decreases n - i,
    {
        if prefix.get_char(i) != s.as_str().get_char(i) {
            return false;
        }
        i = i + 1;
    }
    assert(prefix@ =~= s@.subrange(0, n as int));
    true
}

// ---------------------------------------------------------------------------
// The class constructor and the conversion of values.

/// `new NetConnection()`: `this` becomes a NetConnection with no connection.
pub open spec fn constructor_spec(rt: RuntimeView, this: ObjectRef) -> (RuntimeView, AvmValue) {
    (rt.set_native(this, NativeView::NetConnection { handle: None }), AvmValue::Undefined)
}

pub fn constructor(rt: &mut Runtime, this: ObjectRef, _args: &Vec<Value>) -> (r: Value)
    ensures
        (final(rt)@, r@) == constructor_spec(old(rt)@, this),
{
    rt.set_native(this, NativeObject::NetConnection(NetConnection::new()));
    Value::Undefined
}

impl NetConnection {
    /// The NetConnection object that `value` is, if it is one.
    pub fn cast(rt: &Runtime, value: &Value) -> (r: Option<ObjectRef>)
        ensures
            r == rt@.cast(value@),
    {
        rt.cast(value)
    }
}

// ---------------------------------------------------------------------------
// The properties isConnected, protocol and uri.

/// `isConnected`: whether the connection is open; `undefined` where `this` is
/// not a NetConnection.
pub open spec fn is_connected_spec(rt: RuntimeView, this: ObjectRef) -> AvmValue {
    match rt.cast(AvmValue::Object(this)) {
        Some(r) => AvmValue::Bool(rt.net_connection_connected(r)),
        None => AvmValue::Undefined,
    }
}

pub fn is_connected(rt: &Runtime, this: ObjectRef, _args: &Vec<Value>) -> (r: Value)
    ensures
        r@ == is_connected_spec(rt@, this),
{
    if let Some(net_connection) = NetConnection::cast(rt, &Value::Object(this)) {
        let connected = match rt.handle_of(net_connection) {
            Some(handle) => rt.connection_is_connected(handle),
            None => false,
        };
        return Value::Bool(connected);
    }
    Value::Undefined
}

/// `protocol`: the protocol of the connection, where there is one.
pub open spec fn protocol_spec(rt: RuntimeView, this: ObjectRef) -> AvmValue {
    match rt.cast(AvmValue::Object(this)) {
        Some(r) => match rt.handle_of(r) {
            Some(h) => match rt.protocol_of(h) {
                Some(p) => AvmValue::String(p),
                None => AvmValue::Undefined,
            },
            None => AvmValue::Undefined,
        },
        None => AvmValue::Undefined,
    }
}

pub fn protocol(rt: &Runtime, this: ObjectRef, _args: &Vec<Value>) -> (r: Value)
    ensures
        r@ == protocol_spec(rt@, this),
{
    if let Some(net_connection) = NetConnection::cast(rt, &Value::Object(this)) {
        let found = match rt.handle_of(net_connection) {
            Some(handle) => rt.connection_protocol(handle),
            None => None,
        };
        return match found {
            Some(p) => Value::String(p),
            None => Value::Undefined,
        };
    }
    Value::Undefined
}

/// `uri`: the URI of the connection, where there is one.
pub open spec fn uri_spec(rt: RuntimeView, this: ObjectRef) -> AvmValue {
    match rt.cast(AvmValue::Object(this)) {
        Some(r) => match rt.handle_of(r) {
            Some(h) => match rt.uri_of(h) {
                Some(u) => AvmValue::String(u),
                None => AvmValue::Undefined,
            },
            None => AvmValue::Undefined,
        },
        None => AvmValue::Undefined,
    }
}

pub fn uri(rt: &Runtime, this: ObjectRef, _args: &Vec<Value>) -> (r: Value)
    ensures
        r@ == uri_spec(rt@, this),
{
    if let Some(net_connection) = NetConnection::cast(rt, &Value::Object(this)) {
        let found = match rt.handle_of(net_connection) {
            Some(handle) => rt.connection_uri(handle),
            None => None,
        };
        return match found {
            Some(u) => Value::String(u),
            None => Value::Undefined,
        };
    }
    Value::Undefined
}

// ---------------------------------------------------------------------------
// addHeader, call, realcall, close, connect, getService.
//
// These methods convert values to strings and booleans, and `getService`
// writes properties; where that is script code, the method stops and asks the
// host (see `crate::task`). Each contract gives the state and the action of a
// run of the method's task from its start.

/// `addHeader(name, mustUnderstand = true, value = null)`: where `this` is a
/// NetConnection, converts the name and the flag; where it has a connection,
/// the header goes to the host.
pub open spec fn add_header_spec(rt: RuntimeView, this: ObjectRef, args: Seq<AvmValue>) -> (
    RuntimeView,
    ActionView,
) {
    run_spec(rt, TaskView::start(TaskKind::AddHeader, this, args))
}

pub fn add_header(rt: &mut Runtime, this: ObjectRef, args: &Vec<Value>) -> (a: Action)
    ensures
        (final(rt)@, a@) == add_header_spec(old(rt)@, this, values_view(args@)),
{
    run(rt, Task::start(TaskKind::AddHeader, this, all_values(args)))
}

/// What `call` needs: where `this` is a NetConnection, at least two arguments
/// (the virtual machine panics on fewer).
pub open spec fn call_ready(rt: RuntimeView, this: ObjectRef, args: Seq<AvmValue>) -> bool {
    rt.cast(AvmValue::Object(this)) is Some ==> args.len() >= 2
}

/// `call(command, responder, ...args)`: a trace line with the command, then,
/// where `this` is a NetConnection, the command converted to a string and,
/// where it has a connection, the remote call to the host with the arguments
/// from the third on and the responder turned into an object.
pub open spec fn call_spec(rt: RuntimeView, this: ObjectRef, args: Seq<AvmValue>) -> (
    RuntimeView,
    ActionView,
) {
    run_spec(rt, TaskView::start(TaskKind::Call, this, args))
}

pub fn call(rt: &mut Runtime, this: ObjectRef, args: &Vec<Value>) -> (a: Action)
    requires
        call_ready(old(rt)@, this, values_view(args@)),
    ensures
        (final(rt)@, a@) == call_spec(old(rt)@, this, values_view(args@)),
{
    run(rt, Task::start(TaskKind::Call, this, all_values(args)))
}

/// `realcall`: its own trace line, then `call`.
pub open spec fn realcall_spec(rt: RuntimeView, this: ObjectRef, args: Seq<AvmValue>) -> (
    RuntimeView,
    ActionView,
) {
    run_spec(rt, TaskView::start(TaskKind::RealCall, this, args))
}

pub fn realcall(rt: &mut Runtime, this: ObjectRef, args: &Vec<Value>) -> (a: Action)
    requires
        call_ready(old(rt)@, this, values_view(args@)),
    ensures
        (final(rt)@, a@) == realcall_spec(old(rt)@, this, values_view(args@)),
{
    run(rt, Task::start(TaskKind::RealCall, this, all_values(args)))
}

/// `close()`: the NetConnection drops its handle; where it had one, the host
/// closes that connection.
pub open spec fn close_spec(rt: RuntimeView, this: ObjectRef) -> (RuntimeView, AvmValue) {
    match rt.cast(AvmValue::Object(this)) {
        None => (rt, AvmValue::Undefined),
        Some(r) => {
            let rt1 = rt.set_native(r, NativeView::NetConnection { handle: None });
            match rt.handle_of(r) {
                Some(h) => (rt1.emit(EffectView::Close { handle: h, is_explicit: true }), AvmValue::Undefined),
                None => (rt1, AvmValue::Undefined),
            }
        },
    }
}

pub fn close(rt: &mut Runtime, this: ObjectRef, _args: &Vec<Value>) -> (r: Value)
    ensures
        (final(rt)@, r@) == close_spec(old(rt)@, this),
{
    if let Some(net_connection) = NetConnection::cast(rt, &Value::Object(this)) {
        if let Some(previous_handle) = rt.replace_handle(net_connection, None) {
            rt.emit(Effect::Close { handle: previous_handle, is_explicit: true });
        }
    }
    Value::Undefined
}

/// Whether `url` is one of Flash Remoting: it starts with `http://` or `https://`.
pub open spec fn is_remoting_url(url: Seq<char>) -> bool {
    "http://"@.is_prefix_of(url) || "https://"@.is_prefix_of(url)
}

/// `connect(url)`: a trace line with the URL; then no URL (or `null` or
/// `undefined`) opens a local connection; a URL converted to a string that
/// starts with `http://` or `https://` opens a Flash Remoting connection;
/// anything else is not implemented.
pub open spec fn connect_spec(rt: RuntimeView, this: ObjectRef, args: Seq<AvmValue>) -> (
    RuntimeView,
    ActionView,
) {
    run_spec(rt, TaskView::start(TaskKind::Connect, this, args))
}

pub fn connect(rt: &mut Runtime, this: ObjectRef, args: &Vec<Value>) -> (a: Action)
    ensures
        (final(rt)@, a@) == connect_spec(old(rt)@, this, values_view(args@)),
{
    run(rt, Task::start(TaskKind::Connect, this, all_values(args)))
}

/// `getService(name, client)`: a trace line; where `this` is a NetConnection
/// whose connection is open, the name converted to a string and a new
/// service proxy; `undefined` otherwise.
pub open spec fn get_service_spec(rt: RuntimeView, this: ObjectRef, args: Seq<AvmValue>) -> (
    RuntimeView,
    ActionView,
) {
    run_spec(rt, TaskView::start(TaskKind::GetService, this, args))
}

pub fn get_service(rt: &mut Runtime, this: ObjectRef, args: &Vec<Value>) -> (a: Action)
    ensures
        (final(rt)@, a@) == get_service_spec(old(rt)@, this, values_view(args@)),
{
    run(rt, Task::start(TaskKind::GetService, this, all_values(args)))
}


// ---------------------------------------------------------------------------
// Events the player sends to a NetConnection.

/// A status event with `code`: without a root movie nothing happens; else a
/// new event object gets `code` and `level` ("status"), and
/// `this.onStatus(event)` is called.
pub open spec fn on_status_event_spec(rt: RuntimeView, this: ObjectRef, code: Seq<char>) -> (
    RuntimeView,
    ActionView,
) {
    run_spec(rt, TaskView::status_event(this, code))
}

/// The state after an empty status event: `this.onStatus()` is called where
/// there is a root movie.
pub open spec fn on_empty_status_event_spec(rt: RuntimeView, this: ObjectRef) -> RuntimeView {
    if !rt.has_root_clip {
        rt
    } else {
        rt.emit(
            EffectView::CallMethod {
                target: this,
                name: "onStatus"@,
                args: Seq::empty(),
                reason: ExecutionReason::Special,
            },
        )
    }
}

/// The name of the responder method that a reply of kind `callback` goes to.
pub open spec fn callback_method_name(callback: ResponderCallback) -> Seq<char> {
    match callback {
        ResponderCallback::Result => "onResult"@,
        ResponderCallback::Status => "onStatus"@,
    }
}

/// The state after a reply `message` to `responder`: where there is a root
/// movie, `responder.onResult(message)` or `responder.onStatus(message)`.
pub open spec fn send_callback_spec(
    rt: RuntimeView,
    responder: ObjectRef,
    callback: ResponderCallback,
    message: AvmValue,
) -> RuntimeView {
    if !rt.has_root_clip {
        rt
    } else {
        rt.emit(
            EffectView::CallMethod {
                target: responder,
                name: callback_method_name(callback),
                args: seq![message],
                reason: ExecutionReason::Special,
            },
        )
    }
}

impl NetConnection {
    /// Sends a status event with `code` to `this`.
    pub fn on_status_event(rt: &mut Runtime, this: ObjectRef, code: &str) -> (a: Action)
        ensures
            (final(rt)@, a@) == on_status_event_spec(old(rt)@, this, code@),
    {
        run(rt, Task::status_event(this, String::from_str(code)))
    }

    /// Sends a status event with no argument to `this`.
    pub fn on_empty_status_event(rt: &mut Runtime, this: ObjectRef)
        ensures
            final(rt)@ == on_empty_status_event_spec(old(rt)@, this),
    {
        if !rt.has_root_clip {
            return;
        }
        let args: Vec<Value> = Vec::new();
        assert(values_view(args@) =~= Seq::<AvmValue>::empty());
        rt.emit(
            Effect::CallMethod {
                target: this,
                name: String::from_str("onStatus"),
                args,
                reason: ExecutionReason::Special,
            },
        );
    }

    /// Hands the reply `message` (already turned into a value of the virtual
    /// machine) to `responder`.
    pub fn send_callback(rt: &mut Runtime, responder: ObjectRef, callback: ResponderCallback, message: Value)
        ensures
            final(rt)@ == send_callback_spec(old(rt)@, responder, callback, message@),
    {
        if !rt.has_root_clip {
            return;
        }
        let method_name = match callback {
            ResponderCallback::Result => String::from_str("onResult"),
            ResponderCallback::Status => String::from_str("onStatus"),
        };
        let mut args: Vec<Value> = Vec::new();
        let ghost mv = message@;
        args.push(message);
        assert(values_view(args@) =~= seq![mv]);
        rt.emit(
            Effect::CallMethod {
                target: responder,
                name: method_name,
                args,
                reason: ExecutionReason::Special,
            },
        );
    }
}

// ---------------------------------------------------------------------------
// The prototype and the class.

/// The kind of a declared member: a property read through a getter, or a method.
#[derive(Clone, Copy, Debug, PartialEq, Eq, Structural)]
pub enum DeclarationKind {
    Property { getter: NativeMethod },
    Method { method: NativeMethod },
}

impl DeclarationKind {
    pub open spec fn native(self) -> NativeMethod {
        match self {
            DeclarationKind::Property { getter } => getter,
            DeclarationKind::Method { method } => method,
        }
    }

    /// The native function of the member.
    pub fn native_method(&self) -> (m: NativeMethod)
        ensures
            m == self.native(),
    {
        match self {
            DeclarationKind::Property { getter } => *getter,
            DeclarationKind::Method { method } => *method,
        }
    }

    /// Whether the member is a property read through a getter.
    pub fn is_property(&self) -> (r: bool)
        ensures
            r == (*self is Property),
    {
        match self {
            DeclarationKind::Property { .. } => true,
            DeclarationKind::Method { .. } => false,
        }
    }
}

/// A member that the prototype declares.
#[derive(Debug)]
pub struct Declaration {
    pub name: String,
    pub kind: DeclarationKind,
    pub attributes: Attributes,
}

pub struct DeclarationView {
    pub name: Seq<char>,
    pub kind: DeclarationKind,
    pub attributes: Attributes,
}

impl View for Declaration {
    type V = DeclarationView;

    open spec fn view(&self) -> DeclarationView {
        DeclarationView { name: self.name@, kind: self.kind, attributes: self.attributes }
    }
}

pub open spec fn method_attributes() -> Attributes {
    Attributes { dont_enum: true, dont_delete: true, read_only: false }
}

/// The members of `NetConnection.prototype`.
pub open spec fn spec_proto_declarations() -> Seq<DeclarationView> {
    seq![
        DeclarationView { name: "isConnected"@, kind: DeclarationKind::Property { getter: NativeMethod::IsConnected }, attributes: Attributes::spec_empty() },
        DeclarationView { name: "protocol"@, kind: DeclarationKind::Property { getter: NativeMethod::Protocol }, attributes: Attributes::spec_empty() },
        DeclarationView { name: "uri"@, kind: DeclarationKind::Property { getter: NativeMethod::Uri }, attributes: Attributes::spec_empty() },
        DeclarationView { name: "addHeader"@, kind: DeclarationKind::Method { method: NativeMethod::AddHeader }, attributes: method_attributes() },
        DeclarationView { name: "call"@, kind: DeclarationKind::Method { method: NativeMethod::Call }, attributes: method_attributes() },
        DeclarationView { name: "close"@, kind: DeclarationKind::Method { method: NativeMethod::Close }, attributes: method_attributes() },
        DeclarationView { name: "connect"@, kind: DeclarationKind::Method { method: NativeMethod::Connect }, attributes: method_attributes() },
        DeclarationView { name: "getService"@, kind: DeclarationKind::Method { method: NativeMethod::GetService }, attributes: method_attributes() },
        DeclarationView { name: "realcall"@, kind: DeclarationKind::Method { method: NativeMethod::RealCall }, attributes: method_attributes() },
    ]
}

fn declaration(name: &str, kind: DeclarationKind, attributes: Attributes) -> (d: Declaration)
    ensures
        d@ == (DeclarationView { name: name@, kind, attributes }),
{
    Declaration { name: String::from_str(name), kind, attributes }
}

/// The members of `NetConnection.prototype`, in the order they are defined.
pub fn proto_declarations() -> (r: Vec<Declaration>)
    ensures
        r@.map_values(|d: Declaration| d@) == spec_proto_declarations(),
{
    let mut r: Vec<Declaration> = Vec::new();
    r.push(declaration("isConnected", DeclarationKind::Property { getter: NativeMethod::IsConnected }, Attributes::empty()));
    r.push(declaration("protocol", DeclarationKind::Property { getter: NativeMethod::Protocol }, Attributes::empty()));
    r.push(declaration("uri", DeclarationKind::Property { getter: NativeMethod::Uri }, Attributes::empty()));
    r.push(declaration("addHeader", DeclarationKind::Method { method: NativeMethod::AddHeader }, Attributes::dont_enum_dont_delete()));
    r.push(declaration("call", DeclarationKind::Method { method: NativeMethod::Call }, Attributes::dont_enum_dont_delete()));
    r.push(declaration("close", DeclarationKind::Method { method: NativeMethod::Close }, Attributes::dont_enum_dont_delete()));
    r.push(declaration("connect", DeclarationKind::Method { method: NativeMethod::Connect }, Attributes::dont_enum_dont_delete()));
    r.push(declaration("getService", DeclarationKind::Method { method: NativeMethod::GetService }, Attributes::dont_enum_dont_delete()));
    r.push(declaration("realcall", DeclarationKind::Method { method: NativeMethod::RealCall }, Attributes::dont_enum_dont_delete()));
    assert(r@.map_values(|d: Declaration| d@) =~= spec_proto_declarations());
    r
}

/// The state after defining member `d` on `object`: a native function for it,
/// stored as a method, or as the getter of an accessor property.
pub open spec fn define_declaration(rt: RuntimeView, object: ObjectRef, d: DeclarationView, fn_proto: ObjectRef) -> RuntimeView {
    let (rt1, f) = rt.new_function(d.kind.native(), fn_proto, None);
    rt1.define(
        object,
        PropertyView {
            name: d.name,
            value: AvmValue::Object(f),
            attributes: d.attributes,
            accessor: d.kind is Property,
        },
    )
}

/// The state after defining the members `decls` on `object`, in order.
pub open spec fn define_declarations(
    rt: RuntimeView,
    object: ObjectRef,
    decls: Seq<DeclarationView>,
    fn_proto: ObjectRef,
) -> RuntimeView
    decreases decls.len(),
{
    if decls.len() == 0 {
        rt
    } else {
        define_declaration(
            define_declarations(rt, object, decls.drop_last(), fn_proto),
            object,
            decls.last(),
            fn_proto,
        )
    }
}

/// `NetConnection.prototype`: a new object with prototype `proto` and the
/// declared members.
pub open spec fn create_proto_spec(rt: RuntimeView, proto: ObjectRef, fn_proto: ObjectRef) -> (
    RuntimeView,
    ObjectRef,
) {
    let (rt1, object) = rt.allocated(
        ObjectView { props: Seq::empty(), proto: Some(proto), native: NativeView::Plain },
    );
    (define_declarations(rt1, object, spec_proto_declarations(), fn_proto), object)
}

pub fn create_proto(rt: &mut Runtime, proto: ObjectRef, fn_proto: ObjectRef) -> (object: ObjectRef)
    ensures
        (final(rt)@, object) == create_proto_spec(old(rt)@, proto, fn_proto),
{
    let object = rt.heap.allocate(ObjectData::new(Some(proto), NativeObject::Plain));
    let ghost rt1 = rt@;
    assert(rt1 =~= old(rt)@.allocated(
        ObjectView { props: Seq::empty(), proto: Some(proto), native: NativeView::Plain },
    ).0);
    let decls = proto_declarations();
    let ghost dv = decls@.map_values(|d: Declaration| d@);
    let mut i: usize = 0;
    while i < decls.len()
        invariant
            i <= decls@.len(),
            dv == decls@.map_values(|d: Declaration| d@),
            dv == spec_proto_declarations(),
            rt@ == define_declarations(rt1, object, dv.take(i as int), fn_proto),
        decreases decls@.len() - i,
    {
        let d = &decls[i];
        let f = rt.new_native_function(d.kind.native_method(), fn_proto, None);
        let accessor = d.kind.is_property();
        rt.define_property(
            object,
            Property { name: d.name.clone(), value: Value::Object(f), attributes: d.attributes, accessor },
        );
        assert(dv.take(i + 1).drop_last() =~= dv.take(i as int));
        i = i + 1;
    }
    assert(dv.take(decls@.len() as int) =~= dv);
    object
}

/// The class `NetConnection`: a native function whose objects get
/// `netconnection_proto` as prototype.
pub open spec fn create_class_spec(rt: RuntimeView, netconnection_proto: ObjectRef, fn_proto: ObjectRef) -> (
    RuntimeView,
    ObjectRef,
) {
    rt.new_function(NativeMethod::Constructor, fn_proto, Some(netconnection_proto))
}

pub fn create_class(rt: &mut Runtime, netconnection_proto: ObjectRef, fn_proto: ObjectRef) -> (class:
    ObjectRef)
    ensures
        (final(rt)@, class) == create_class_spec(old(rt)@, netconnection_proto, fn_proto),
{
    rt.new_native_function(NativeMethod::Constructor, fn_proto, Some(netconnection_proto))
}

} // verus!
