use netconnection::heap::{Attributes, Heap, NativeMethod, NativeObject, ObjectData, Property};
use netconnection::net_connection::{
    add_header, call, close, connect, constructor, create_class, create_proto, get_service,
    is_connected, proto_declarations, protocol, realcall, starts_with, uri, NetConnection,
    NetConnectionHandle,
};
use netconnection::runtime::{ConnectionInfo, Effect, ExecutionReason, ResponderCallback, Runtime};
use netconnection::service_proxy::{
    create_net_service_proxy, net_service_proxy_call, net_service_proxy_on_result,
    net_service_proxy_on_status, net_service_proxy_resolve,
};
use netconnection::task::{resume, Action, HostAnswer, HostRequest, NativeError, Task};
use netconnection::value::{ObjectRef, Value};

fn runtime() -> Runtime {
    let mut heap = Heap::new();
    let object_proto = heap.allocate(ObjectData::new(None, NativeObject::Plain));
    let function_proto = heap.allocate(ObjectData::new(Some(object_proto), NativeObject::Plain));
    let boolean_proto = heap.allocate(ObjectData::new(Some(object_proto), NativeObject::Plain));
    let number_proto = heap.allocate(ObjectData::new(Some(object_proto), NativeObject::Plain));
    let string_proto = heap.allocate(ObjectData::new(Some(object_proto), NativeObject::Plain));
    Runtime {
        heap,
        connections: Vec::new(),
        swf_version: 10,
        has_root_clip: true,
        object_proto,
        function_proto,
        boolean_proto,
        number_proto,
        string_proto,
        effects: Vec::new(),
    }
}

fn s(text: &str) -> Value {
    Value::String(text.to_string())
}

fn string_of(v: &Value) -> Option<String> {
    match v {
        Value::String(s) => Some(s.clone()),
        _ => None,
    }
}

/// The value a method returned; panics where it did not return one.
fn done(a: Action) -> Value {
    match a {
        Action::Return(v) => v,
        other => panic!("unexpected {:?}", other),
    }
}

/// The request and the task of a method that stopped for the host.
fn asked(a: Action) -> (HostRequest, Task) {
    match a {
        Action::Ask(r, t) => (r, t),
        other => panic!("unexpected {:?}", other),
    }
}

/// The effects but the trace lines.
fn work(rt: &Runtime) -> Vec<&Effect> {
    rt.effects
        .iter()
        .filter(|e| !matches!(e, Effect::TraceCall { .. } | Effect::TraceConnect { .. } | Effect::TraceGetService))
        .collect()
}

/// A NetConnection object, connected through handle 7 when `connected`.
fn net_connection(rt: &mut Runtime, connected: bool) -> ObjectRef {
    let this = rt.new_object();
    constructor(rt, this, &Vec::new());
    if connected {
        let handle = NetConnectionHandle { id: 7 };
        rt.replace_handle(this, Some(handle));
        rt.connections.push(ConnectionInfo {
            handle,
            connected: true,
            protocol: Some("http".to_string()),
            uri: Some("http://example.com/gateway".to_string()),
        });
    }
    this
}

/// Makes `name` of `object` an accessor property with a getter function.
fn accessor(rt: &mut Runtime, object: ObjectRef, name: &str) -> Value {
    let function_proto = rt.function_proto;
    let getter = Value::Object(rt.new_native_function(NativeMethod::Uri, function_proto, None));
    rt.define_property(
        object,
        Property { name: name.to_string(), value: getter.duplicate(), attributes: Attributes::empty(), accessor: true },
    );
    getter
}

#[test]
fn new_connection_is_not_connected() {
    let mut rt = runtime();
    let this = net_connection(&mut rt, false);
    assert!(matches!(is_connected(&rt, this, &Vec::new()), Value::Bool(false)));
    assert!(matches!(protocol(&rt, this, &Vec::new()), Value::Undefined));
    assert!(matches!(uri(&rt, this, &Vec::new()), Value::Undefined));
    assert_eq!(rt.handle_of(this), None);
}

#[test]
fn connected_properties_come_from_the_host() {
    let mut rt = runtime();
    let this = net_connection(&mut rt, true);
    assert!(matches!(is_connected(&rt, this, &Vec::new()), Value::Bool(true)));
    assert_eq!(string_of(&protocol(&rt, this, &Vec::new())).as_deref(), Some("http"));
    assert_eq!(
        string_of(&uri(&rt, this, &Vec::new())).as_deref(),
        Some("http://example.com/gateway")
    );
}

#[test]
fn unknown_handle_is_not_connected() {
    let mut rt = runtime();
    let this = net_connection(&mut rt, false);
    rt.replace_handle(this, Some(NetConnectionHandle { id: 99 }));
    assert!(matches!(is_connected(&rt, this, &Vec::new()), Value::Bool(false)));
    assert!(matches!(protocol(&rt, this, &Vec::new()), Value::Undefined));
}

#[test]
fn methods_ignore_other_objects() {
    let mut rt = runtime();
    let plain = rt.new_object();
    assert!(matches!(is_connected(&rt, plain, &Vec::new()), Value::Undefined));
    assert!(matches!(done(call(&mut rt, plain, &vec![s("m")])), Value::Undefined));
    assert!(matches!(close(&mut rt, plain, &Vec::new()), Value::Undefined));
    assert!(matches!(done(add_header(&mut rt, plain, &Vec::new())), Value::Undefined));
    assert!(matches!(done(get_service(&mut rt, plain, &Vec::new())), Value::Undefined));
    assert!(work(&rt).is_empty());
    assert_eq!(rt.effects.len(), 2);
    assert!(matches!(&rt.effects[0], Effect::TraceCall { realcall: false, method, .. } if method == "m"));
    assert!(matches!(rt.effects[1], Effect::TraceGetService));
    assert_eq!(NetConnection::cast(&rt, &Value::Object(plain)), None);
    assert_eq!(NetConnection::cast(&rt, &Value::Null), None);
}

#[test]
fn set_handle_gives_the_previous_handle() {
    let mut c = NetConnection::new();
    let h = NetConnectionHandle { id: 3 };
    assert_eq!(c.set_handle(Some(h)), None);
    assert_eq!(c.handle(), Some(h));
    assert_eq!(c.set_handle(None), Some(h));
    assert_eq!(c.handle(), None);
}

#[test]
fn add_header_defaults() {
    let mut rt = runtime();
    let this = net_connection(&mut rt, true);
    assert!(matches!(done(add_header(&mut rt, this, &Vec::new())), Value::Undefined));
    match &rt.effects[0] {
        Effect::SetHeader { handle, name, must_understand, value } => {
            assert_eq!(handle.id, 7);
            assert_eq!(name, "undefined");
            assert!(*must_understand);
            assert!(matches!(value, Value::Null));
        }
        other => panic!("unexpected {:?}", other),
    }
    done(add_header(&mut rt, this, &vec![s("Credentials"), Value::Bool(false), s("secret")]));
    match &rt.effects[1] {
        Effect::SetHeader { name, must_understand, value, .. } => {
            assert_eq!(name, "Credentials");
            assert!(!*must_understand);
            assert_eq!(string_of(value).as_deref(), Some("secret"));
        }
        other => panic!("unexpected {:?}", other),
    }
    // A string flag in an SWF 7 movie is true where it is not empty.
    done(add_header(&mut rt, this, &vec![s("h"), s("")]));
    assert!(matches!(&rt.effects[2], Effect::SetHeader { must_understand: false, .. }));
}

#[test]
fn add_header_without_connection_sends_nothing() {
    let mut rt = runtime();
    let this = net_connection(&mut rt, false);
    done(add_header(&mut rt, this, &vec![s("h")]));
    assert!(rt.effects.is_empty());
}

#[test]
fn add_header_converts_an_object_name_through_the_host() {
    let mut rt = runtime();
    let this = net_connection(&mut rt, true);
    let name = rt.new_object();
    let (request, task) = asked(add_header(&mut rt, this, &vec![Value::Object(name), Value::Opaque(3)]));
    assert!(matches!(request, HostRequest::ToString { value: Value::Object(r) } if r == name));
    // The flag is a number: the host converts it too.
    let (request, task) = asked(resume(&mut rt, task, HostAnswer::Returned(s("Auth"))));
    assert!(matches!(request, HostRequest::ToBool { value: Value::Opaque(3) }));
    assert!(rt.effects.is_empty());
    done(resume(&mut rt, task, HostAnswer::Returned(Value::Bool(false))));
    assert!(matches!(&rt.effects[0], Effect::SetHeader { name, must_understand: false, .. } if name == "Auth"));
}

#[test]
fn add_header_name_error_adds_no_header() {
    let mut rt = runtime();
    let this = net_connection(&mut rt, true);
    let name = rt.new_object();
    let (_, task) = asked(add_header(&mut rt, this, &vec![Value::Object(name)]));
    let a = resume(&mut rt, task, HostAnswer::Threw(9));
    assert!(matches!(a, Action::Fail(NativeError::Thrown(9))));
    assert!(rt.effects.is_empty());
}

#[test]
fn call_sends_the_remaining_arguments() {
    let mut rt = runtime();
    let this = net_connection(&mut rt, true);
    let responder = rt.new_object();
    let args = vec![s("math.add"), Value::Object(responder), Value::Opaque(1), Value::Opaque(2)];
    assert!(matches!(done(call(&mut rt, this, &args)), Value::Undefined));
    assert_eq!(rt.effects.len(), 2);
    match &rt.effects[0] {
        Effect::TraceCall { realcall, method, args } => {
            assert!(!*realcall);
            assert_eq!(method, "math.add");
            assert_eq!(args.len(), 4);
        }
        other => panic!("unexpected {:?}", other),
    }
    match &rt.effects[1] {
        Effect::Send { handle, command, args, responder: r } => {
            assert_eq!(handle.id, 7);
            assert_eq!(command, "math.add");
            assert_eq!(args.len(), 2);
            assert!(matches!(args[0], Value::Opaque(1)));
            assert!(matches!(args[1], Value::Opaque(2)));
            assert_eq!(*r, Some(responder));
        }
        other => panic!("unexpected {:?}", other),
    }
}

#[test]
fn call_boxes_a_primitive_responder() {
    let mut rt = runtime();
    let this = net_connection(&mut rt, true);
    let before = rt.heap.len();
    done(realcall(&mut rt, this, &vec![s("m"), Value::Null]));
    assert_eq!(rt.heap.len(), before + 1);
    assert!(matches!(&rt.effects[0], Effect::TraceCall { realcall: true, .. }));
    assert!(matches!(&rt.effects[1], Effect::TraceCall { realcall: false, .. }));
    match &rt.effects[2] {
        Effect::Send { args, responder, .. } => {
            assert!(args.is_empty());
            assert_eq!(*responder, Some(ObjectRef { index: before }));
        }
        other => panic!("unexpected {:?}", other),
    }
    let boxed = rt.heap.object(ObjectRef { index: before }).unwrap();
    assert!(matches!(boxed.native, NativeObject::Boxed(Value::Null)));
    assert_eq!(boxed.proto, None);
    // A string responder gets `String.prototype`.
    done(call(&mut rt, this, &vec![s("m"), s("r")]));
    let boxed = rt.heap.object(ObjectRef { index: before + 1 }).unwrap();
    assert_eq!(boxed.proto, Some(rt.string_proto));
}

#[test]
fn call_without_connection_sends_nothing() {
    let mut rt = runtime();
    let this = net_connection(&mut rt, false);
    done(call(&mut rt, this, &vec![s("m"), Value::Null, Value::Opaque(1)]));
    assert!(work(&rt).is_empty());
    assert_eq!(rt.handle_of(this), None);
}

#[test]
fn call_with_an_object_command_asks_the_host() {
    let mut rt = runtime();
    let this = net_connection(&mut rt, true);
    let command = rt.new_object();
    let args = vec![Value::Object(command), Value::Null];
    let (request, task) = asked(call(&mut rt, this, &args));
    assert!(matches!(request, HostRequest::ToString { value: Value::Object(r) } if r == command));
    assert!(rt.effects.is_empty());
    // The trace line's conversion, then the command's.
    let (request, task) = asked(resume(&mut rt, task, HostAnswer::Returned(s("svc.op"))));
    assert!(matches!(request, HostRequest::ToString { .. }));
    assert!(matches!(&rt.effects[0], Effect::TraceCall { method, .. } if method == "svc.op"));
    done(resume(&mut rt, task, HostAnswer::Returned(s("svc.op"))));
    assert!(matches!(&rt.effects[1], Effect::Send { command, .. } if command == "svc.op"));
    assert_eq!(rt.handle_of(this), Some(NetConnectionHandle { id: 7 }));
}

#[test]
fn call_command_error_sends_nothing() {
    let mut rt = runtime();
    let this = net_connection(&mut rt, true);
    let command = rt.new_object();
    let (_, task) = asked(call(&mut rt, this, &vec![Value::Object(command), Value::Null]));
    // A failed conversion for the trace line reads `<error>`.
    let (_, task) = asked(resume(&mut rt, task, HostAnswer::Threw(1)));
    assert!(matches!(&rt.effects[0], Effect::TraceCall { method, .. } if method == "<error>"));
    let a = resume(&mut rt, task, HostAnswer::Threw(2));
    assert!(matches!(a, Action::Fail(NativeError::Thrown(2))));
    assert!(work(&rt).is_empty());
    assert_eq!(rt.handle_of(this), Some(NetConnectionHandle { id: 7 }));
}

#[test]
fn close_closes_once() {
    let mut rt = runtime();
    let this = net_connection(&mut rt, true);
    close(&mut rt, this, &Vec::new());
    assert_eq!(rt.effects.len(), 1);
    assert!(matches!(rt.effects[0], Effect::Close { handle: NetConnectionHandle { id: 7 }, is_explicit: true }));
    assert!(matches!(is_connected(&rt, this, &Vec::new()), Value::Bool(false)));
    close(&mut rt, this, &Vec::new());
    assert_eq!(rt.effects.len(), 1);
}

#[test]
fn connect_without_url_is_local() {
    let mut rt = runtime();
    let this = net_connection(&mut rt, false);
    done(connect(&mut rt, this, &Vec::new()));
    done(connect(&mut rt, this, &vec![Value::Null]));
    done(connect(&mut rt, this, &vec![Value::Undefined]));
    let w = work(&rt);
    assert_eq!(w.len(), 3);
    for e in w {
        assert!(matches!(e, Effect::ConnectToLocal { target } if *target == this));
    }
    // No trace line without an argument; `null` and `undefined` are traced.
    assert_eq!(rt.effects.len(), 5);
    assert!(matches!(&rt.effects[1], Effect::TraceConnect { url } if url == "null"));
    assert!(matches!(&rt.effects[3], Effect::TraceConnect { url } if url == "undefined"));
}

#[test]
fn connect_with_http_url_is_flash_remoting() {
    let mut rt = runtime();
    let this = net_connection(&mut rt, false);
    done(connect(&mut rt, this, &vec![s("http://example.com/gateway")]));
    done(connect(&mut rt, this, &vec![s("https://example.com/gateway")]));
    let w = work(&rt);
    match w[0] {
        Effect::ConnectToFlashRemoting { target, url } => {
            assert_eq!(*target, this);
            assert_eq!(url, "http://example.com/gateway");
        }
        other => panic!("unexpected {:?}", other),
    }
    assert!(matches!(w[1], Effect::ConnectToFlashRemoting { url, .. } if url == "https://example.com/gateway"));
}

#[test]
fn connect_with_other_url_is_a_stub() {
    let mut rt = runtime();
    let this = net_connection(&mut rt, false);
    done(connect(&mut rt, this, &vec![s("rtmp://example.com/app")]));
    done(connect(&mut rt, this, &vec![s("HTTP://example.com")]));
    done(connect(&mut rt, this, &vec![Value::Bool(true)]));
    let w = work(&rt);
    assert_eq!(w.len(), 3);
    for e in w {
        match e {
            Effect::Stub { class_name, method, specifics } => {
                assert_eq!(class_name, "NetConnection");
                assert_eq!(method, "connect");
                assert_eq!(specifics, "with non-null, non-http command");
            }
            other => panic!("unexpected {:?}", other),
        }
    }
}

#[test]
fn connect_with_an_object_url_asks_the_host() {
    let mut rt = runtime();
    let this = net_connection(&mut rt, false);
    let url = rt.new_object();
    let (_, task) = asked(connect(&mut rt, this, &vec![Value::Object(url)]));
    let (_, task) = asked(resume(&mut rt, task, HostAnswer::Returned(s("https://h/gw"))));
    done(resume(&mut rt, task, HostAnswer::Returned(s("https://h/gw"))));
    assert!(matches!(work(&rt)[0], Effect::ConnectToFlashRemoting { url, .. } if url == "https://h/gw"));
}

#[test]
fn connect_url_error_makes_no_connection() {
    let mut rt = runtime();
    let this = net_connection(&mut rt, false);
    let url = rt.new_object();
    let (_, task) = asked(connect(&mut rt, this, &vec![Value::Object(url)]));
    let (_, task) = asked(resume(&mut rt, task, HostAnswer::Returned(s("x"))));
    assert!(matches!(resume(&mut rt, task, HostAnswer::Threw(4)), Action::Fail(NativeError::Thrown(4))));
    assert!(work(&rt).is_empty());
}

#[test]
fn prefix_check() {
    assert!(starts_with(&"http://a".to_string(), "http://"));
    assert!(!starts_with(&"http:/".to_string(), "http://"));
    assert!(starts_with(&"".to_string(), ""));
    assert!(!starts_with(&"https://".to_string(), "http://"));
}

#[test]
fn get_service_needs_a_connection() {
    let mut rt = runtime();
    let this = net_connection(&mut rt, false);
    assert!(matches!(done(get_service(&mut rt, this, &vec![s("svc")])), Value::Undefined));
    assert_eq!(rt.effects.len(), 1);
    assert!(matches!(rt.effects[0], Effect::TraceGetService));
}

#[test]
fn get_service_makes_a_proxy() {
    let mut rt = runtime();
    let this = net_connection(&mut rt, true);
    let client = rt.new_object();
    let proxy = match done(get_service(&mut rt, this, &vec![s("svc"), Value::Object(client)])) {
        Value::Object(p) => p,
        other => panic!("unexpected {:?}", other),
    };
    assert!(matches!(rt.get_property(proxy, &"nc".to_string()), Value::Object(r) if r == this));
    assert_eq!(string_of(&rt.get_property(proxy, &"serviceName".to_string())).as_deref(), Some("svc"));
    assert!(matches!(rt.get_property(proxy, &"client".to_string()), Value::Object(r) if r == client));
    match rt.get_property(proxy, &"__resolve".to_string()) {
        Value::Object(f) => {
            let o = rt.heap.object(f).unwrap();
            assert!(matches!(o.native, NativeObject::Function { method: NativeMethod::ServiceProxyResolve, .. }));
        }
        other => panic!("unexpected {:?}", other),
    }
}

#[test]
fn proxy_creation_runs_a_setter_on_the_prototype() {
    let mut rt = runtime();
    let this = net_connection(&mut rt, true);
    let object_proto = rt.object_proto;
    accessor(&mut rt, object_proto, "serviceName");
    let (request, task) = asked(create_net_service_proxy(&mut rt, this, "svc".to_string(), Value::Undefined));
    assert!(matches!(request, HostRequest::RunSetter { name, value: Value::String(v), .. } if name == "serviceName" && v == "svc"));
    // The setter threw: the proxy is not finished.
    assert!(matches!(resume(&mut rt, task, HostAnswer::Threw(5)), Action::Fail(NativeError::Thrown(5))));
}

#[test]
fn proxy_call_goes_to_the_net_connection() {
    let mut rt = runtime();
    let this = net_connection(&mut rt, true);
    let proxy = match done(create_net_service_proxy(&mut rt, this, "svc".to_string(), Value::Undefined)) {
        Value::Object(p) => p,
        other => panic!("unexpected {:?}", other),
    };
    let f = done(net_service_proxy_resolve(&mut rt, proxy, &vec![s("echo")]));
    assert!(matches!(f, Value::Object(_)));
    assert_eq!(string_of(&rt.get_property(proxy, &"__currentMethod".to_string())).as_deref(), Some("echo"));
    let before = rt.heap.len();
    assert!(matches!(net_service_proxy_call(&mut rt, proxy, &vec![Value::Opaque(5)]), Action::ResultOfLastCall));
    assert_eq!(rt.heap.len(), before);
    assert_eq!(rt.effects.len(), 1);
    match rt.effects.last().unwrap() {
        Effect::CallMethod { target, name, args, reason } => {
            assert_eq!(*target, this);
            assert_eq!(name, "call");
            assert_eq!(*reason, ExecutionReason::FunctionCall);
            assert_eq!(args.len(), 3);
            assert_eq!(string_of(&args[0]).as_deref(), Some("svc.echo"));
            assert!(matches!(args[1], Value::Null));
            assert!(matches!(args[2], Value::Opaque(5)));
        }
        other => panic!("unexpected {:?}", other),
    }
}

#[test]
fn proxy_resolve_converts_an_object_name() {
    let mut rt = runtime();
    let this = net_connection(&mut rt, true);
    let proxy = match done(create_net_service_proxy(&mut rt, this, "svc".to_string(), Value::Null)) {
        Value::Object(p) => p,
        other => panic!("unexpected {:?}", other),
    };
    let name = rt.new_object();
    let (_, task) = asked(net_service_proxy_resolve(&mut rt, proxy, &vec![Value::Object(name)]));
    assert!(matches!(done(resume(&mut rt, task, HostAnswer::Returned(s("op")))), Value::Object(_)));
    assert_eq!(string_of(&rt.get_property(proxy, &"__currentMethod".to_string())).as_deref(), Some("op"));
    let (_, task) = asked(net_service_proxy_resolve(&mut rt, proxy, &vec![Value::Object(name)]));
    assert!(matches!(resume(&mut rt, task, HostAnswer::Threw(3)), Action::Fail(NativeError::Thrown(3))));
    assert_eq!(string_of(&rt.get_property(proxy, &"__currentMethod".to_string())).as_deref(), Some("op"));
}

#[test]
fn proxy_call_with_client_makes_a_responder_that_forwards() {
    let mut rt = runtime();
    let this = net_connection(&mut rt, true);
    let client = rt.new_object();
    let proxy = match done(create_net_service_proxy(&mut rt, this, "svc".to_string(), Value::Object(client))) {
        Value::Object(p) => p,
        other => panic!("unexpected {:?}", other),
    };
    done(net_service_proxy_resolve(&mut rt, proxy, &vec![s("echo")]));
    assert!(matches!(net_service_proxy_call(&mut rt, proxy, &Vec::new()), Action::ResultOfLastCall));
    let responder = match rt.effects.last().unwrap() {
        Effect::CallMethod { args, .. } => match args[1] {
            Value::Object(r) => r,
            ref other => panic!("unexpected {:?}", other),
        },
        other => panic!("unexpected {:?}", other),
    };
    assert_eq!(string_of(&rt.get_property(responder, &"methodName".to_string())).as_deref(), Some("echo"));
    done(net_service_proxy_on_result(&mut rt, responder, &vec![Value::Opaque(42)]));
    match rt.effects.last().unwrap() {
        Effect::CallMethod { target, name, args, .. } => {
            assert_eq!(*target, client);
            assert_eq!(name, "echo_Result");
            assert!(matches!(args[0], Value::Opaque(42)));
        }
        other => panic!("unexpected {:?}", other),
    }
    done(net_service_proxy_on_status(&mut rt, responder, &Vec::new()));
    assert!(matches!(rt.effects.last().unwrap(), Effect::CallMethod { name, .. } if name == "echo_Status"));
}

#[test]
fn responder_without_client_does_nothing() {
    let mut rt = runtime();
    let responder = rt.new_object();
    rt.set_property(responder, "methodName".to_string(), s("m"));
    done(net_service_proxy_on_result(&mut rt, responder, &Vec::new()));
    assert!(rt.effects.is_empty());
}

#[test]
fn responder_getter_error_ends_the_callback() {
    let mut rt = runtime();
    let responder = rt.new_object();
    let getter = accessor(&mut rt, responder, "client");
    let (request, task) = asked(net_service_proxy_on_status(&mut rt, responder, &Vec::new()));
    match request {
        HostRequest::RunGetter { object, getter: g } => {
            assert_eq!(object, responder);
            assert!(matches!((g, getter), (Value::Object(a), Value::Object(b)) if a == b));
        }
        other => panic!("unexpected {:?}", other),
    }
    assert!(matches!(resume(&mut rt, task, HostAnswer::Threw(8)), Action::Fail(NativeError::Thrown(8))));
    assert!(rt.effects.is_empty());
}

#[test]
fn proxy_call_reads_through_a_getter() {
    let mut rt = runtime();
    let this = net_connection(&mut rt, true);
    let base = rt.new_object();
    accessor(&mut rt, base, "__currentMethod");
    let proxy2 = rt.heap.allocate(ObjectData::new(Some(base), NativeObject::Plain));
    rt.set_property(proxy2, "nc".to_string(), Value::Object(this));
    rt.set_property(proxy2, "serviceName".to_string(), s("svc"));
    let (request, task) = asked(net_service_proxy_call(&mut rt, proxy2, &Vec::new()));
    assert!(matches!(request, HostRequest::RunGetter { object, .. } if object == proxy2));
    // The getter gives a number: the host converts it next.
    let (request, task) = asked(resume(&mut rt, task, HostAnswer::Returned(Value::Opaque(7))));
    assert!(matches!(request, HostRequest::ToString { value: Value::Opaque(7) }));
    assert!(matches!(resume(&mut rt, task, HostAnswer::Returned(s("7"))), Action::ResultOfLastCall));
    assert!(matches!(rt.effects.last().unwrap(), Effect::CallMethod { args, .. } if string_of(&args[0]).as_deref() == Some("svc.7")));
}

#[test]
fn too_deep_a_chain_is_an_error() {
    let mut rt = runtime();
    let mut o = rt.new_object();
    for _ in 0..300 {
        o = rt.heap.allocate(ObjectData::new(Some(o), NativeObject::Plain));
    }
    let a = net_service_proxy_call(&mut rt, o, &Vec::new());
    assert!(matches!(a, Action::Fail(NativeError::PrototypeRecursionLimit)));
    assert!(rt.effects.is_empty());
}

#[test]
fn missing_method_name_is_undefined() {
    let mut rt = runtime();
    let this = net_connection(&mut rt, true);
    let proxy = match done(create_net_service_proxy(&mut rt, this, "svc".to_string(), Value::Null)) {
        Value::Object(p) => p,
        other => panic!("unexpected {:?}", other),
    };
    done(net_service_proxy_resolve(&mut rt, proxy, &Vec::new()));
    net_service_proxy_call(&mut rt, proxy, &Vec::new());
    match rt.effects.last().unwrap() {
        Effect::CallMethod { args, .. } => {
            assert_eq!(string_of(&args[0]).as_deref(), Some("svc.undefined"));
        }
        other => panic!("unexpected {:?}", other),
    }
}

#[test]
fn status_event_builds_an_event_object() {
    let mut rt = runtime();
    let this = net_connection(&mut rt, true);
    done(NetConnection::on_status_event(&mut rt, this, "NetConnection.Connect.Success"));
    match rt.effects.last().unwrap() {
        Effect::CallMethod { target, name, args, reason } => {
            assert_eq!(*target, this);
            assert_eq!(name, "onStatus");
            assert_eq!(*reason, ExecutionReason::Special);
            let event = match args[0] {
                Value::Object(e) => e,
                ref other => panic!("unexpected {:?}", other),
            };
            assert_eq!(
                string_of(&rt.get_property(event, &"code".to_string())).as_deref(),
                Some("NetConnection.Connect.Success")
            );
            assert_eq!(string_of(&rt.get_property(event, &"level".to_string())).as_deref(), Some("status"));
        }
        other => panic!("unexpected {:?}", other),
    }
    NetConnection::on_empty_status_event(&mut rt, this);
    assert!(matches!(rt.effects.last().unwrap(), Effect::CallMethod { args, .. } if args.is_empty()));
}

#[test]
fn status_event_setter_error_skips_on_status() {
    let mut rt = runtime();
    let this = net_connection(&mut rt, true);
    let object_proto = rt.object_proto;
    accessor(&mut rt, object_proto, "level");
    let (request, task) = asked(NetConnection::on_status_event(&mut rt, this, "NetConnection.Connect.Closed"));
    assert!(matches!(request, HostRequest::RunSetter { name, .. } if name == "level"));
    assert!(matches!(resume(&mut rt, task, HostAnswer::Threw(6)), Action::Fail(NativeError::Thrown(6))));
    assert!(rt.effects.is_empty());
}

#[test]
fn undefined_is_empty_before_swf_7() {
    let mut rt = runtime();
    assert_eq!(rt.to_text(&Value::Undefined).as_deref(), Some("undefined"));
    rt.swf_version = 6;
    assert_eq!(rt.to_text(&Value::Undefined).as_deref(), Some(""));
    let this = net_connection(&mut rt, true);
    done(add_header(&mut rt, this, &Vec::new()));
    assert!(matches!(&rt.effects[0], Effect::SetHeader { name, .. } if name.is_empty()));
}

#[test]
fn string_conversion() {
    let rt = runtime();
    assert_eq!(rt.to_text(&Value::Bool(true)).as_deref(), Some("true"));
    assert_eq!(rt.to_text(&Value::Bool(false)).as_deref(), Some("false"));
    assert_eq!(rt.to_text(&Value::Null).as_deref(), Some("null"));
    assert_eq!(rt.to_text(&s("abc")).as_deref(), Some("abc"));
    assert_eq!(rt.to_text(&Value::Opaque(1)), None);
    assert_eq!(rt.to_flag(&Value::Opaque(1)), None);
    assert_eq!(rt.to_flag(&s("x")), Some(true));
}

#[test]
fn events_without_root_movie_are_dropped() {
    let mut rt = runtime();
    rt.has_root_clip = false;
    let this = net_connection(&mut rt, true);
    done(NetConnection::on_status_event(&mut rt, this, "x"));
    NetConnection::on_empty_status_event(&mut rt, this);
    NetConnection::send_callback(&mut rt, this, ResponderCallback::Result, Value::Null);
    assert!(rt.effects.is_empty());
}

#[test]
fn send_callback_picks_the_method() {
    let mut rt = runtime();
    let responder = rt.new_object();
    NetConnection::send_callback(&mut rt, responder, ResponderCallback::Result, Value::Opaque(1));
    NetConnection::send_callback(&mut rt, responder, ResponderCallback::Status, s("err"));
    assert!(matches!(&rt.effects[0], Effect::CallMethod { name, .. } if name == "onResult"));
    assert!(matches!(&rt.effects[1], Effect::CallMethod { name, .. } if name == "onStatus"));
}

#[test]
fn prototype_declares_the_members() {
    let mut rt = runtime();
    let object_proto = rt.object_proto;
    let function_proto = rt.function_proto;
    let proto = create_proto(&mut rt, object_proto, function_proto);
    let o = rt.heap.object(proto).unwrap();
    assert_eq!(o.proto, Some(object_proto));
    let names: Vec<&str> = o.properties.iter().map(|p| p.name.as_str()).collect();
    assert_eq!(
        names,
        vec!["isConnected", "protocol", "uri", "addHeader", "call", "close", "connect", "getService", "realcall"]
    );
    assert!(o.properties[0].accessor);
    assert!(!o.properties[4].accessor);
    assert!(o.properties[4].attributes.dont_enum && o.properties[4].attributes.dont_delete);
    assert_eq!(proto_declarations().len(), 9);
    let class = create_class(&mut rt, proto, function_proto);
    let c = rt.heap.object(class).unwrap();
    assert!(matches!(c.native, NativeObject::Function { method: NativeMethod::Constructor, prototype: Some(p) } if p == proto));
}

#[test]
fn reads_follow_the_prototype_chain() {
    let mut rt = runtime();
    let object_proto = rt.object_proto;
    rt.set_property(object_proto, "shared".to_string(), s("from the prototype"));
    let o = rt.new_object();
    assert_eq!(
        string_of(&rt.get_property(o, &"shared".to_string())).as_deref(),
        Some("from the prototype")
    );
    rt.set_property(o, "shared".to_string(), s("own"));
    assert_eq!(string_of(&rt.get_property(o, &"shared".to_string())).as_deref(), Some("own"));
    assert_eq!(
        string_of(&rt.get_property(object_proto, &"shared".to_string())).as_deref(),
        Some("from the prototype")
    );
    assert!(matches!(rt.get_property(o, &"missing".to_string()), Value::Undefined));
}

