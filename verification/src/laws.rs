//! Properties of the NetConnection class that span several of its methods.
use vstd::prelude::*;
use crate::heap::{
    lemma_find_prop, lemma_find_prop_first, lookup_from, Attributes, NativeMethod, NativeView, ObjectView, PropertyView,
};
use crate::net_connection::{
    add_header_spec, call_spec, close_spec, connect_spec, constructor_spec, get_service_spec,
    is_connected_spec, is_remoting_url, on_empty_status_event_spec, on_status_event_spec, protocol_spec,
    realcall_spec, send_callback_spec, uri_spec, create_class_spec, create_proto_spec, define_declarations, spec_proto_declarations,
    DeclarationView, NetConnectionHandle,
};
use crate::runtime::{find_connection, lemma_find_connection, EffectView, ExecutionReason, ReadView, ResponderCallback, RuntimeView, WriteKind};
use crate::service_proxy::{
    create_net_service_proxy_spec, net_service_proxy_call_spec, net_service_proxy_on_result_spec,
    net_service_proxy_on_status_spec, net_service_proxy_resolve_spec,
};
use crate::task::{
    apply_answer, measure, proxy_call_args, resume_spec, run_spec, step_spec, ActionView, AnswerView, NativeError,
    Pending, RequestView, StepView, TaskKind, TaskView,
};
use crate::value::{arg_or, is_nullish, values_after, AvmValue, ObjectRef};

verus! {

/// `rt1` keeps what `rt` holds: the effects asked for, in order, and the
/// native part of each object.
spec fn keeps(rt: RuntimeView, rt1: RuntimeView) -> bool {
    &&& rt.effects.len() <= rt1.effects.len()
    &&& forall|i: int| 0 <= i < rt.effects.len() ==> #[trigger] rt1.effects[i] == rt.effects[i]
    &&& rt.heap.len() <= rt1.heap.len()
    &&& forall|i: int| 0 <= i < rt.heap.len() ==> #[trigger] rt1.heap[i].native == rt.heap[i].native
}

/// One step of a task keeps what the runtime holds.
#[verifier::rlimit(50)]
proof fn lemma_step_keeps(rt: RuntimeView, t: TaskView)
    ensures
        keeps(rt, step_spec(rt, t).0),
{
}

/// Running a task keeps what the runtime holds.
proof fn lemma_run_keeps(rt: RuntimeView, t: TaskView)
    ensures
        keeps(rt, run_spec(rt, t).0),
    decreases measure(t),
{
    lemma_step_keeps(rt, t);
    let (rt1, s) = step_spec(rt, t);
    if let StepView::Next(t2) = s {
        if measure(t2) < measure(t) {
            lemma_run_keeps(rt1, t2);
        }
    }
}

/// Continuing a task keeps what the runtime holds.
proof fn lemma_resume_keeps(rt: RuntimeView, t: TaskView, a: AnswerView)
    ensures
        keeps(rt, resume_spec(rt, t, a).0),
{
    match apply_answer(t, a) {
        StepView::Stop(_) => {},
        StepView::Next(t2) => lemma_run_keeps(rt, t2),
    }
}

proof fn lemma_keeps_prefix(rt: RuntimeView, rt1: RuntimeView)
    requires
        keeps(rt, rt1),
    ensures
        rt.effects.is_prefix_of(rt1.effects),
        forall|r: ObjectRef| #[trigger] rt1.handle_of(r) == rt.handle_of(r) || r.index >= rt.heap.len(),
        forall|r: ObjectRef| r.index < rt.heap.len() ==> #[trigger] rt1.cast(AvmValue::Object(r)) == rt.cast(
            AvmValue::Object(r),
        ),
{
    assert(rt1.effects.subrange(0, rt.effects.len() as int) =~= rt.effects);
    assert forall|r: ObjectRef| #[trigger] rt1.handle_of(r) == rt.handle_of(r) || r.index >= rt.heap.len() by {
        if r.index < rt.heap.len() {
            assert(rt1.heap[r.index as int].native == rt.heap[r.index as int].native);
        }
    }
    assert forall|r: ObjectRef| r.index < rt.heap.len() implies #[trigger] rt1.cast(AvmValue::Object(r))
        == rt.cast(AvmValue::Object(r)) by {
        assert(rt1.heap[r.index as int].native == rt.heap[r.index as int].native);
    }
}

/// Every method only adds effects: running or continuing its task keeps the
/// effects asked for before, in order.
pub proof fn law_effects_only_grow(rt: RuntimeView, t: TaskView, a: AnswerView)
    ensures
        rt.effects.is_prefix_of(run_spec(rt, t).0.effects),
        rt.effects.is_prefix_of(resume_spec(rt, t, a).0.effects),
{
    lemma_run_keeps(rt, t);
    lemma_keeps_prefix(rt, run_spec(rt, t).0);
    lemma_resume_keeps(rt, t, a);
    lemma_keeps_prefix(rt, resume_spec(rt, t, a).0);
}

/// No method changes the connection handle of a NetConnection, nor makes an
/// object a NetConnection or stops it being one: running or continuing a
/// task keeps both for every object there was before.
pub proof fn law_handles_unchanged(rt: RuntimeView, t: TaskView, a: AnswerView, r: ObjectRef)
    requires
        r.index < rt.heap.len(),
    ensures
        run_spec(rt, t).0.handle_of(r) == rt.handle_of(r),
        run_spec(rt, t).0.cast(AvmValue::Object(r)) == rt.cast(AvmValue::Object(r)),
        resume_spec(rt, t, a).0.handle_of(r) == rt.handle_of(r),
        resume_spec(rt, t, a).0.cast(AvmValue::Object(r)) == rt.cast(AvmValue::Object(r)),
{
    lemma_run_keeps(rt, t);
    lemma_keeps_prefix(rt, run_spec(rt, t).0);
    lemma_resume_keeps(rt, t, a);
    lemma_keeps_prefix(rt, resume_spec(rt, t, a).0);
}

/// An error from the host's work ends the method with that error, and nothing
/// after it happens; only a failed conversion for a trace line goes on, with
/// the text `<error>`.
pub proof fn law_error_ends_method(rt: RuntimeView, t: TaskView, e: u64)
    ensures
        t.pending != Pending::TraceText ==> resume_spec(rt, t, AnswerView::Threw(e)) == (
            rt,
            ActionView::Fail(NativeError::Thrown(e)),
        ),
        t.pending == Pending::TraceText ==> resume_spec(rt, t, AnswerView::Threw(e)) == run_spec(
            rt,
            t.with_reg(t.dest as int, AvmValue::String("<error>"@)).at(t.stage),
        ),
{
}

/// What `call` does once its command reads `command`: the trace line, then,
/// where `this` has a connection, the remote call with the arguments from the
/// third on and the responder turned into an object.
pub open spec fn call_outcome(rt: RuntimeView, this: ObjectRef, args: Seq<AvmValue>, command: Seq<char>) -> (
    RuntimeView,
    ActionView,
) {
    let rt1 = rt.emit(EffectView::TraceCall { realcall: false, method: command, args });
    match rt1.handle_of(this) {
        Some(h) => {
            let (rt2, responder) = rt1.to_object(args[1]);
            (
                rt2.emit(
                    EffectView::Send {
                        handle: h,
                        command,
                        args: values_after(args, 2),
                        responder: Some(responder),
                    },
                ),
                ActionView::Return(AvmValue::Undefined),
            )
        },
        None => (rt1, ActionView::Return(AvmValue::Undefined)),
    }
}

/// `call` on a NetConnection with a command that needs no script code to
/// convert: one trace line, then exactly one send where there is a
/// connection and none where there is not.
pub proof fn law_call_sends(rt: RuntimeView, this: ObjectRef, args: Seq<AvmValue>, command: Seq<char>)
    requires
        rt.cast(AvmValue::Object(this)) is Some,
        args.len() >= 2,
        rt.to_text(args[0]) == Some(command),
    ensures
        call_spec(rt, this, args) == call_outcome(rt, this, args, command),
{
    reveal_with_fuel(run_spec, 5);
}

/// `call` with a command that the host converts (an object or a number):
/// the method asks for the conversion for the trace line, then for the
/// command; with the command's string it sends as above; if that conversion
/// throws, the method ends with the error and nothing is sent.
pub proof fn law_call_converted_command(
    rt: RuntimeView,
    this: ObjectRef,
    args: Seq<AvmValue>,
    command: Seq<char>,
    e: u64,
)
    requires
        rt.cast(AvmValue::Object(this)) is Some,
        args.len() >= 2,
        rt.to_text(args[0]) is None,
    ensures
        ({
            let (rt0, a0) = call_spec(rt, this, args);
            &&& rt0 == rt
            &&& a0 matches ActionView::Ask(r0, t0)
            &&& r0 == RequestView::ToString { value: args[0] }
            &&& {
                let (rt1, a1) = resume_spec(rt, t0, AnswerView::Returned(AvmValue::String(command)));
                &&& rt1 == rt.emit(EffectView::TraceCall { realcall: false, method: command, args })
                &&& a1 matches ActionView::Ask(r1, t1)
                &&& r1 == RequestView::ToString { value: args[0] }
                &&& resume_spec(rt1, t1, AnswerView::Returned(AvmValue::String(command)))
                    == call_outcome(rt, this, args, command)
                &&& resume_spec(rt1, t1, AnswerView::Threw(e)) == (
                    rt1,
                    ActionView::Fail(NativeError::Thrown(e)),
                )
            }
        }),
{
    reveal_with_fuel(run_spec, 5);
}

/// `realcall` is its own trace line, then `call`.
pub proof fn law_realcall(rt: RuntimeView, this: ObjectRef, args: Seq<AvmValue>, command: Seq<char>)
    requires
        rt.cast(AvmValue::Object(this)) is Some,
        args.len() >= 2,
        rt.to_text(args[0]) == Some(command),
    ensures
        realcall_spec(rt, this, args) == call_outcome(
            rt.emit(EffectView::TraceCall { realcall: true, method: command, args }),
            this,
            args,
            command,
        ),
{
    reveal_with_fuel(run_spec, 7);
}

/// What `connect` does once its URL reads `url`.
pub open spec fn connect_outcome(rt: RuntimeView, this: ObjectRef, url: Seq<char>) -> RuntimeView {
    if is_remoting_url(url) {
        rt.emit(EffectView::ConnectToFlashRemoting { target: this, url })
    } else {
        rt.emit(
            EffectView::Stub {
                class_name: "NetConnection"@,
                method: "connect"@,
                specifics: "with non-null, non-http command"@,
            },
        )
    }
}

/// `connect` opens a local connection exactly when the URL is missing,
/// `null` or `undefined`; a URL that reads as an `http://` or `https://`
/// address opens Flash Remoting to it; any other URL is reported as not
/// implemented. A URL is traced first, where there is one.
pub proof fn law_connect(rt: RuntimeView, this: ObjectRef, args: Seq<AvmValue>, url: Seq<char>)
    ensures
        args.len() == 0 ==> connect_spec(rt, this, args) == (
            rt.emit(EffectView::ConnectToLocal { target: this }),
            ActionView::Return(AvmValue::Undefined),
        ),
        args.len() > 0 && is_nullish(args[0]) ==> connect_spec(rt, this, args) == (
            rt.emit(EffectView::TraceConnect { url: rt.to_text(args[0])->0 }).emit(
                EffectView::ConnectToLocal { target: this },
            ),
            ActionView::Return(AvmValue::Undefined),
        ),
        args.len() > 0 && !is_nullish(args[0]) && rt.to_text(args[0]) == Some(url) ==> connect_spec(
            rt,
            this,
            args,
        ) == (
            connect_outcome(rt.emit(EffectView::TraceConnect { url }), this, url),
            ActionView::Return(AvmValue::Undefined),
        ),
{
    reveal_with_fuel(run_spec, 5);
}

/// `connect` with a URL that the host converts: it asks for the trace line's
/// conversion, then for the URL's; with the URL's string it connects as
/// above; if that conversion throws, the method ends with the error and no
/// connection is made.
pub proof fn law_connect_converted_url(rt: RuntimeView, this: ObjectRef, args: Seq<AvmValue>, url: Seq<char>, e: u64)
    requires
        args.len() > 0,
        rt.to_text(args[0]) is None,
    ensures
        ({
            let (rt0, a0) = connect_spec(rt, this, args);
            &&& rt0 == rt
            &&& a0 matches ActionView::Ask(r0, t0)
            &&& r0 == RequestView::ToString { value: args[0] }
            &&& {
                let (rt1, a1) = resume_spec(rt, t0, AnswerView::Returned(AvmValue::String(url)));
                &&& rt1 == rt.emit(EffectView::TraceConnect { url })
                &&& a1 matches ActionView::Ask(r1, t1)
                &&& r1 == RequestView::ToString { value: args[0] }
                &&& resume_spec(rt1, t1, AnswerView::Returned(AvmValue::String(url))) == (
                    connect_outcome(rt1, this, url),
                    ActionView::Return(AvmValue::Undefined),
                )
                &&& resume_spec(rt1, t1, AnswerView::Threw(e)) == (
                    rt1,
                    ActionView::Fail(NativeError::Thrown(e)),
                )
            }
        }),
{
    reveal_with_fuel(run_spec, 5);
}

/// `addHeader` on a NetConnection with a name and a flag that need no script
/// code to convert: where there is a connection, exactly one header with the
/// converted name, the flag (true by default) and the value (null by
/// default); nothing where there is none.
pub proof fn law_add_header(
    rt: RuntimeView,
    this: ObjectRef,
    args: Seq<AvmValue>,
    name: Seq<char>,
    must_understand: bool,
)
    requires
        rt.cast(AvmValue::Object(this)) is Some,
        rt.to_text(arg_or(args, 0, AvmValue::Undefined)) == Some(name),
        rt.to_flag(arg_or(args, 1, AvmValue::Bool(true))) == Some(must_understand),
    ensures
        add_header_spec(rt, this, args) == (
            match rt.handle_of(this) {
                Some(h) => rt.emit(
                    EffectView::SetHeader {
                        handle: h,
                        name,
                        must_understand,
                        value: arg_or(args, 2, AvmValue::Null),
                    },
                ),
                None => rt,
            },
            ActionView::Return(AvmValue::Undefined),
        ),
{
    reveal_with_fuel(run_spec, 4);
}

/// `addHeader` whose name the host converts: if that conversion throws, the
/// method ends with the error and no header is added.
pub proof fn law_add_header_name_error(rt: RuntimeView, this: ObjectRef, args: Seq<AvmValue>, e: u64)
    requires
        rt.cast(AvmValue::Object(this)) is Some,
        rt.to_text(arg_or(args, 0, AvmValue::Undefined)) is None,
    ensures
        ({
            let (rt0, a0) = add_header_spec(rt, this, args);
            &&& rt0 == rt
            &&& a0 matches ActionView::Ask(r0, t0)
            &&& r0 == RequestView::ToString { value: arg_or(args, 0, AvmValue::Undefined) }
            &&& resume_spec(rt, t0, AnswerView::Threw(e)) == (rt, ActionView::Fail(NativeError::Thrown(e)))
        }),
{
    reveal_with_fuel(run_spec, 2);
}

/// A NetConnection fresh from the constructor has no connection: it is not
/// connected, and has neither protocol nor URI.
pub proof fn law_new_connection_is_not_connected(rt: RuntimeView, this: ObjectRef)
    requires
        this.index < rt.heap.len(),
    ensures
        ({
            let rt1 = constructor_spec(rt, this).0;
            &&& is_connected_spec(rt1, this) == AvmValue::Bool(false)
            &&& protocol_spec(rt1, this) == AvmValue::Undefined
            &&& uri_spec(rt1, this) == AvmValue::Undefined
        }),
{
}

/// After `close`, a NetConnection is not connected and has neither protocol
/// nor URI; closing it again changes nothing.
pub proof fn law_close(rt: RuntimeView, this: ObjectRef)
    requires
        rt.cast(AvmValue::Object(this)) is Some,
    ensures
        ({
            let rt1 = close_spec(rt, this).0;
            &&& is_connected_spec(rt1, this) == AvmValue::Bool(false)
            &&& protocol_spec(rt1, this) == AvmValue::Undefined
            &&& uri_spec(rt1, this) == AvmValue::Undefined
            &&& close_spec(rt1, this).0 == rt1
        }),
{
    let rt1 = close_spec(rt, this).0;
    let rt2 = close_spec(rt1, this).0;
    assert(rt2.heap =~= rt1.heap);
    assert(rt2 == rt1);
}

/// Called on an object that is not a NetConnection, `addHeader`, `close`,
/// the getters and `getService` (but for its trace line) change nothing and
/// give `undefined`.
pub proof fn law_not_a_net_connection(rt: RuntimeView, this: ObjectRef, args: Seq<AvmValue>)
    requires
        rt.cast(AvmValue::Object(this)) is None,
    ensures
        is_connected_spec(rt, this) == AvmValue::Undefined,
        protocol_spec(rt, this) == AvmValue::Undefined,
        uri_spec(rt, this) == AvmValue::Undefined,
        add_header_spec(rt, this, args) == (rt, ActionView::Return(AvmValue::Undefined)),
        close_spec(rt, this) == (rt, AvmValue::Undefined),
        get_service_spec(rt, this, args) == (
            rt.emit(EffectView::TraceGetService),
            ActionView::Return(AvmValue::Undefined),
        ),
{
    reveal_with_fuel(run_spec, 2);
}

/// A property with no attributes, as a write of a new name makes it.
pub open spec fn plain(name: Seq<char>, value: AvmValue) -> PropertyView {
    PropertyView { name, value, attributes: Attributes::spec_empty(), accessor: false }
}

/// Writing a name that the object does not have itself: where the write is
/// plain, the name is added at the end.
proof fn lemma_write_new(rt: RuntimeView, r: ObjectRef, name: Seq<char>, v: AvmValue)
    requires
        r.index < rt.heap.len(),
        forall|j: int|
            0 <= j < rt.heap[r.index as int].props.len() ==> #[trigger] rt.heap[r.index as int].props[j].name
                != name,
        rt.write(r, name, v).1 == WriteKind::Done,
    ensures
        ({
            let rt1 = rt.write(r, name, v).0;
            &&& rt1.heap.len() == rt.heap.len()
            &&& rt1.heap[r.index as int].props == rt.heap[r.index as int].props.push(plain(name, v))
            &&& rt1.heap[r.index as int].proto == rt.heap[r.index as int].proto
            &&& forall|i: int| 0 <= i < rt.heap.len() && i != r.index ==> #[trigger] rt1.heap[i] == rt.heap[i]
            &&& rt1 == rt.with_heap(rt1.heap)
        }),
{
    lemma_find_prop(rt.heap[r.index as int].props, name);
}

/// Reading a name that the object has itself, as a plain property, gives its
/// value.
proof fn lemma_read_own(rt: RuntimeView, r: ObjectRef, name: Seq<char>, i: int)
    requires
        r.index < rt.heap.len(),
        0 <= i < rt.heap[r.index as int].props.len(),
        rt.heap[r.index as int].props[i].name == name,
        !rt.heap[r.index as int].props[i].accessor,
        forall|j: int| 0 <= j < i ==> #[trigger] rt.heap[r.index as int].props[j].name != name,
    ensures
        rt.read(r, name) == ReadView::Value(rt.heap[r.index as int].props[i].value),
{
    lemma_find_prop_first(rt.heap[r.index as int].props, name, i);
    reveal_with_fuel(lookup_from, 2);
}

proof fn lemma_names()
    ensures
        "nc"@ != "serviceName"@,
        "nc"@ != "client"@,
        "nc"@ != "__resolve"@,
        "nc"@ != "__currentMethod"@,
        "serviceName"@ != "client"@,
        "serviceName"@ != "__resolve"@,
        "serviceName"@ != "__currentMethod"@,
        "client"@ != "__resolve"@,
        "client"@ != "__currentMethod"@,
        "__resolve"@ != "__currentMethod"@,
        "client"@ != "methodName"@,
        "client"@ != "onResult"@,
        "client"@ != "onStatus"@,
        "methodName"@ != "onResult"@,
        "methodName"@ != "onStatus"@,
        "onResult"@ != "onStatus"@,
{
    reveal_strlit("nc");
    reveal_strlit("serviceName");
    reveal_strlit("client");
    reveal_strlit("__resolve");
    reveal_strlit("__currentMethod");
    reveal_strlit("methodName");
    reveal_strlit("onResult");
    reveal_strlit("onStatus");
    assert("nc"@.len() == 2 && "client"@.len() == 6 && "serviceName"@.len() == 11);
    assert("__resolve"@.len() == 9 && "__currentMethod"@.len() == 15);
    assert("methodName"@.len() == 10 && "onResult"@.len() == 8 && "onStatus"@.len() == 8);
    assert("onResult"@[2] != "onStatus"@[2]);
}

/// A service proxy whose building ends with a value is a new object whose own
/// properties are `nc`, `serviceName`, `client` and `__resolve` (a new
/// function), in that order, each a plain data property; nothing else
/// changes but the two new objects.
pub proof fn law_proxy_holds_its_parts(rt: RuntimeView, nc: ObjectRef, service: Seq<char>, client: AvmValue)
    requires
        rt.heap.len() + 2 < usize::MAX,
        create_net_service_proxy_spec(rt, nc, service, client).1 is Return,
    ensures
        ({
            let (rt1, a) = create_net_service_proxy_spec(rt, nc, service, client);
            let p = ObjectRef { index: rt.heap.len() as usize };
            let f = ObjectRef { index: (rt.heap.len() + 1) as usize };
            &&& a == ActionView::Return(AvmValue::Object(p))
            &&& rt1.heap.len() == rt.heap.len() + 2
            &&& rt1.heap[p.index as int].props == seq![
                plain("nc"@, AvmValue::Object(nc)),
                plain("serviceName"@, AvmValue::String(service)),
                plain("client"@, client),
                plain("__resolve"@, AvmValue::Object(f)),
            ]
            &&& rt1 == rt.with_heap(rt1.heap)
        }),
{
    lemma_names();
    let t0 = TaskView::build_proxy(nc, service, client);
    let (rt_a, p) = rt.new_object();
    let i = p.index as int;
    let t1 = t0.with_obj(p).at(1);
    assert(run_spec(rt, t0) == run_spec(rt_a, t1));
    assert(rt_a.heap[i].props =~= Seq::<PropertyView>::empty());
    let (rt_b, k1) = rt_a.write(p, "nc"@, AvmValue::Object(nc));
    if k1 != WriteKind::Done {
        assert(run_spec(rt_a, t1).1 !is Return);
    }
    lemma_write_new(rt_a, p, "nc"@, AvmValue::Object(nc));
    let t2 = t1.at(2);
    assert(run_spec(rt_a, t1) == run_spec(rt_b, t2));
    let (rt_c, k2) = rt_b.write(p, "serviceName"@, AvmValue::String(service));
    if k2 != WriteKind::Done {
        assert(run_spec(rt_b, t2).1 !is Return);
    }
    lemma_write_new(rt_b, p, "serviceName"@, AvmValue::String(service));
    let t3 = t2.at(3);
    assert(run_spec(rt_b, t2) == run_spec(rt_c, t3));
    let (rt_d, k3) = rt_c.write(p, "client"@, client);
    if k3 != WriteKind::Done {
        assert(run_spec(rt_c, t3).1 !is Return);
    }
    lemma_write_new(rt_c, p, "client"@, client);
    let t4 = t3.at(4);
    assert(run_spec(rt_c, t3) == run_spec(rt_d, t4));
    let (rt_e, f) = rt_d.new_function(
        NativeMethod::ServiceProxyResolve,
        rt_d.function_proto,
        Some(rt_d.object_proto),
    );
    let t5 = t4.with_reg(3, AvmValue::Object(f)).at(5);
    assert(run_spec(rt_d, t4) == run_spec(rt_e, t5));
    assert(rt_e.heap[i] == rt_d.heap[i]);
    let (rt_f, k4) = rt_e.write(p, "__resolve"@, AvmValue::Object(f));
    if k4 != WriteKind::Done {
        assert(run_spec(rt_e, t5).1 !is Return);
    }
    lemma_write_new(rt_e, p, "__resolve"@, AvmValue::Object(f));
    let t6 = t5.at(6);
    assert(run_spec(rt_e, t5) == run_spec(rt_f, t6));
    assert(run_spec(rt_f, t6) == (rt_f, ActionView::Return(AvmValue::Object(p))));
    assert(rt_f.heap[i].props =~= seq![
        plain("nc"@, AvmValue::Object(nc)),
        plain("serviceName"@, AvmValue::String(service)),
        plain("client"@, client),
        plain("__resolve"@, AvmValue::Object(f)),
    ]);
}

/// A `__resolve` of a name that reads as `name`, on an object that does not
/// have `__currentMethod` itself, where it ends with a value: it adds
/// `__currentMethod` with `name` as the object's last own property, and
/// gives a new function.
pub proof fn law_resolve_records_the_name(rt: RuntimeView, p: ObjectRef, method: AvmValue, name: Seq<char>)
    requires
        p.index < rt.heap.len(),
        rt.heap.len() + 1 < usize::MAX,
        forall|j: int|
            0 <= j < rt.heap[p.index as int].props.len() ==> #[trigger] rt.heap[p.index as int].props[j].name
                != "__currentMethod"@,
        rt.to_text(method) == Some(name),
        net_service_proxy_resolve_spec(rt, p, seq![method]).1 is Return,
    ensures
        ({
            let (rt1, a) = net_service_proxy_resolve_spec(rt, p, seq![method]);
            &&& a == ActionView::Return(AvmValue::Object(ObjectRef { index: rt.heap.len() as usize }))
            &&& rt1.heap.len() == rt.heap.len() + 1
            &&& rt1.heap[p.index as int].props == rt.heap[p.index as int].props.push(
                plain("__currentMethod"@, AvmValue::String(name)),
            )
            &&& rt1 == rt.with_heap(rt1.heap)
        }),
{
    let t0 = TaskView::start(TaskKind::Resolve, p, seq![method]);
    let t1 = t0.with_reg(0, AvmValue::String(name)).at(1);
    assert(run_spec(rt, t0) == run_spec(rt, t1));
    let (rt_a, k) = rt.write(p, "__currentMethod"@, AvmValue::String(name));
    if k != WriteKind::Done {
        assert(run_spec(rt, t1).1 !is Return);
    }
    lemma_write_new(rt, p, "__currentMethod"@, AvmValue::String(name));
    let t2 = t1.at(2);
    assert(run_spec(rt, t1) == run_spec(rt_a, t2));
    assert(rt_a.heap.len() == rt.heap.len());
}

/// The reads of a proxy call on a proxy whose own properties are those that
/// building it and resolving `method` leave.
proof fn lemma_proxy_reads(
    rt: RuntimeView,
    p: ObjectRef,
    nc: ObjectRef,
    service: Seq<char>,
    client: AvmValue,
    f: ObjectRef,
    method: Seq<char>,
    args: Seq<AvmValue>,
)
    requires
        p.index < rt.heap.len(),
        rt.heap[p.index as int].props == seq![
            plain("nc"@, AvmValue::Object(nc)),
            plain("serviceName"@, AvmValue::String(service)),
            plain("client"@, client),
            plain("__resolve"@, AvmValue::Object(f)),
            plain("__currentMethod"@, AvmValue::String(method)),
        ],
    ensures
        ({
            let t7 = TaskView::start(TaskKind::ProxyCall, p, args).with_reg(0, AvmValue::Object(nc)).with_obj(
                nc,
            ).with_reg(1, AvmValue::String(service)).with_reg(2, AvmValue::String(method)).with_reg(
                3,
                client,
            ).at(7);
            net_service_proxy_call_spec(rt, p, args) == run_spec(rt, t7)
        }),
{
    lemma_names();
    let props = rt.heap[p.index as int].props;
    lemma_read_own(rt, p, "nc"@, 0);
    lemma_read_own(rt, p, "serviceName"@, 1);
    lemma_read_own(rt, p, "__currentMethod"@, 4);
    lemma_read_own(rt, p, "client"@, 2);
    let t0 = TaskView::start(TaskKind::ProxyCall, p, args);
    let t1 = t0.with_reg(0, AvmValue::Object(nc)).at(1);
    assert(run_spec(rt, t0) == run_spec(rt, t1));
    let t2 = t1.with_obj(nc).at(2);
    assert(run_spec(rt, t1) == run_spec(rt, t2));
    let t3 = t2.with_reg(1, AvmValue::String(service)).at(3);
    assert(run_spec(rt, t2) == run_spec(rt, t3));
    let t4 = t3.with_reg(1, AvmValue::String(service)).at(4);
    assert(run_spec(rt, t3) == run_spec(rt, t4));
    let t5 = t4.with_reg(2, AvmValue::String(method)).at(5);
    assert(run_spec(rt, t4) == run_spec(rt, t5));
    let t6 = t5.with_reg(2, AvmValue::String(method)).at(6);
    assert(run_spec(rt, t5) == run_spec(rt, t6));
    let t7 = t6.with_reg(3, client).at(7);
    assert(run_spec(rt, t6) == run_spec(rt, t7));
    let t7b = TaskView::start(TaskKind::ProxyCall, p, args).with_reg(0, AvmValue::Object(nc)).with_obj(
        nc,
    ).with_reg(1, AvmValue::String(service)).with_reg(2, AvmValue::String(method)).with_reg(3, client).at(7);
    assert(t7.regs =~= t7b.regs);
    assert(t7 == t7b);
}

/// The task of a proxy call after its reads: `nc` in `obj`, the service name
/// and method in registers 1 and 2, the client in register 3.
spec fn proxy_call_after_reads(
    p: ObjectRef,
    nc: ObjectRef,
    service: Seq<char>,
    method: Seq<char>,
    client: AvmValue,
    args: Seq<AvmValue>,
) -> TaskView {
    TaskView::start(TaskKind::ProxyCall, p, args).with_reg(0, AvmValue::Object(nc)).with_obj(nc).with_reg(
        1,
        AvmValue::String(service),
    ).with_reg(2, AvmValue::String(method)).with_reg(3, client).at(7)
}

/// The call of `nc.call` that a proxy call makes.
pub open spec fn proxy_call_effect(
    nc: ObjectRef,
    service: Seq<char>,
    method: Seq<char>,
    responder: AvmValue,
    args: Seq<AvmValue>,
) -> EffectView {
    EffectView::CallMethod {
        target: nc,
        name: "call"@,
        args: seq![AvmValue::String(service + "."@ + method), responder] + args,
        reason: ExecutionReason::FunctionCall,
    }
}

/// The end of a proxy call: no responder where there is no client; else a
/// new responder holding the client, the method name and the two callbacks
/// (where its writes are plain); then the call of `nc.call`.
proof fn lemma_proxy_call_end(
    rt: RuntimeView,
    p: ObjectRef,
    nc: ObjectRef,
    service: Seq<char>,
    method: Seq<char>,
    client: AvmValue,
    args: Seq<AvmValue>,
)
    requires
        rt.heap.len() + 3 < usize::MAX,
    ensures
        ({
            let (rt1, a) = run_spec(rt, proxy_call_after_reads(p, nc, service, method, client, args));
            &&& is_nullish(client) ==> (rt1, a) == (
                rt.emit(proxy_call_effect(nc, service, method, AvmValue::Null, args)),
                ActionView::ResultOfLastCall,
            )
            &&& (!is_nullish(client) && responder_writes_plain(rt, client, method)) ==> a
                == ActionView::ResultOfLastCall
            &&& (!is_nullish(client) && a == ActionView::ResultOfLastCall) ==> {
                let r = ObjectRef { index: rt.heap.len() as usize };
                &&& rt1.heap.len() == rt.heap.len() + 3
                &&& rt1.heap[r.index as int].props == seq![
                    plain("client"@, client),
                    plain("methodName"@, AvmValue::String(method)),
                    plain("onResult"@, AvmValue::Object(ObjectRef { index: (rt.heap.len() + 1) as usize })),
                    plain("onStatus"@, AvmValue::Object(ObjectRef { index: (rt.heap.len() + 2) as usize })),
                ]
                &&& rt1.heap[r.index as int].proto == Some(rt.object_proto)
                &&& forall|i: int| 0 <= i < rt.heap.len() ==> #[trigger] rt1.heap[i] == rt.heap[i]
                &&& rt1 == rt.with_heap(rt1.heap).emit(
                    proxy_call_effect(nc, service, method, AvmValue::Object(r), args),
                )
            }
        }),
{
    lemma_names();
    let t7 = proxy_call_after_reads(p, nc, service, method, client, args);
    if is_nullish(client) {
        let t14 = t7.at(14);
        assert(run_spec(rt, t7) == run_spec(rt, t14));
        assert(proxy_call_args(t14) =~= seq![
            AvmValue::String(service + "."@ + method),
            AvmValue::Null,
        ] + args);
    } else if run_spec(rt, t7).1 == ActionView::ResultOfLastCall || responder_writes_plain(rt, client, method) {
        let (rt_a, r) = rt.new_object();
        let i = r.index as int;
        let t8 = t7.with_obj2(r).at(8);
        assert(run_spec(rt, t7) == run_spec(rt_a, t8));
        assert(rt_a.heap[i].props =~= Seq::<PropertyView>::empty());
        let (rt_b, k1) = rt_a.write(r, "client"@, client);
        if k1 != WriteKind::Done {
            assert(run_spec(rt_a, t8).1 != ActionView::ResultOfLastCall);
        }
        lemma_write_new(rt_a, r, "client"@, client);
        let t9 = t8.at(9);
        assert(run_spec(rt_a, t8) == run_spec(rt_b, t9));
        let (rt_c, k2) = rt_b.write(r, "methodName"@, AvmValue::String(method));
        if k2 != WriteKind::Done {
            assert(run_spec(rt_b, t9).1 != ActionView::ResultOfLastCall);
        }
        lemma_write_new(rt_b, r, "methodName"@, AvmValue::String(method));
        let t10 = t9.at(10);
        assert(run_spec(rt_b, t9) == run_spec(rt_c, t10));
        let (rt_d, f1) = rt_c.new_function(
            NativeMethod::ServiceProxyOnResult,
            rt_c.function_proto,
            Some(rt_c.object_proto),
        );
        let t11 = t10.with_reg(4, AvmValue::Object(f1)).at(11);
        assert(run_spec(rt_c, t10) == run_spec(rt_d, t11));
        assert(rt_d.heap[i] == rt_c.heap[i]);
        let (rt_e, k3) = rt_d.write(r, "onResult"@, AvmValue::Object(f1));
        if k3 != WriteKind::Done {
            assert(run_spec(rt_d, t11).1 != ActionView::ResultOfLastCall);
        }
        lemma_write_new(rt_d, r, "onResult"@, AvmValue::Object(f1));
        let t12 = t11.at(12);
        assert(run_spec(rt_d, t11) == run_spec(rt_e, t12));
        let (rt_f, f2) = rt_e.new_function(
            NativeMethod::ServiceProxyOnStatus,
            rt_e.function_proto,
            Some(rt_e.object_proto),
        );
        let t13 = t12.with_reg(5, AvmValue::Object(f2)).at(13);
        assert(run_spec(rt_e, t12) == run_spec(rt_f, t13));
        assert(rt_f.heap[i] == rt_e.heap[i]);
        let (rt_g, k4) = rt_f.write(r, "onStatus"@, AvmValue::Object(f2));
        if k4 != WriteKind::Done {
            assert(run_spec(rt_f, t13).1 != ActionView::ResultOfLastCall);
        }
        lemma_write_new(rt_f, r, "onStatus"@, AvmValue::Object(f2));
        let t14 = t13.at(14);
        assert(run_spec(rt_f, t13) == run_spec(rt_g, t14));
        assert(proxy_call_args(t14) =~= seq![
            AvmValue::String(service + "."@ + method),
            AvmValue::Object(r),
        ] + args);
        assert(rt_g.heap[i].props =~= seq![
            plain("client"@, client),
            plain("methodName"@, AvmValue::String(method)),
            plain("onResult"@, AvmValue::Object(f1)),
            plain("onStatus"@, AvmValue::Object(f2)),
        ]);
    }
}

/// A call through a service proxy: once the proxy for NetConnection `nc`,
/// service `service` and `client` is made and `__resolve(method)` has
/// recorded the method's string `name`, calling the proxy calls
/// `nc.call(service + "." + name, responder, ...args)` and gives what that
/// call gives. Without a client (`undefined` or `null`) the responder is
/// `null` and nothing else happens; with one, the call either stops for the
/// host or fails having called nothing (a write on the new responder met a
/// setter or a chain past the depth limit), or it is the one effect added,
/// with the new responder.
pub proof fn law_service_proxy_call(
    rt: RuntimeView,
    nc: ObjectRef,
    service: Seq<char>,
    client: AvmValue,
    method: AvmValue,
    name: Seq<char>,
    args: Seq<AvmValue>,
)
    requires
        rt.heap.len() + 8 < usize::MAX,
        rt.to_text(method) == Some(name),
        create_net_service_proxy_spec(rt, nc, service, client).1 is Return,
        net_service_proxy_resolve_spec(
            create_net_service_proxy_spec(rt, nc, service, client).0,
            ObjectRef { index: rt.heap.len() as usize },
            seq![method],
        ).1 is Return,
    ensures
        ({
            let p = ObjectRef { index: rt.heap.len() as usize };
            let (rt1, a1) = create_net_service_proxy_spec(rt, nc, service, client);
            let (rt2, a2) = net_service_proxy_resolve_spec(rt1, p, seq![method]);
            let (rt3, a3) = net_service_proxy_call_spec(rt2, p, args);
            &&& a1 == ActionView::Return(AvmValue::Object(p))
            &&& is_nullish(client) ==> (rt3, a3) == (
                rt2.emit(proxy_call_effect(nc, service, name, AvmValue::Null, args)),
                ActionView::ResultOfLastCall,
            )
            &&& !is_nullish(client) ==> (a3 == ActionView::ResultOfLastCall || ((a3 is Ask || a3 is Fail)
                && rt3.effects == rt2.effects))
            &&& (!is_nullish(client) && responder_writes_plain(rt2, client, name)) ==> a3
                == ActionView::ResultOfLastCall
            &&& (!is_nullish(client) && a3 == ActionView::ResultOfLastCall) ==> rt3.effects == rt2.effects.push(
                proxy_call_effect(nc, service, name, AvmValue::Object(ObjectRef { index: rt2.heap.len() as usize }), args),
            )
        }),
{
    let p = ObjectRef { index: rt.heap.len() as usize };
    lemma_names();
    law_proxy_holds_its_parts(rt, nc, service, client);
    let (rt1, a1) = create_net_service_proxy_spec(rt, nc, service, client);
    let f = ObjectRef { index: (rt.heap.len() + 1) as usize };
    assert forall|j: int| 0 <= j < rt1.heap[p.index as int].props.len() implies #[trigger] rt1.heap[p.index as int].props[j].name
        != "__currentMethod"@ by {
    }
    law_resolve_records_the_name(rt1, p, method, name);
    let (rt2, a2) = net_service_proxy_resolve_spec(rt1, p, seq![method]);
    assert(rt2.heap[p.index as int].props =~= seq![
        plain("nc"@, AvmValue::Object(nc)),
        plain("serviceName"@, AvmValue::String(service)),
        plain("client"@, client),
        plain("__resolve"@, AvmValue::Object(f)),
        plain("__currentMethod"@, AvmValue::String(name)),
    ]);
    lemma_proxy_reads(rt2, p, nc, service, client, f, name, args);
    lemma_proxy_call_end(rt2, p, nc, service, name, client, args);
    law_proxy_call_forwards_arguments(rt2, p, args, TaskView::start(TaskKind::ProxyCall, p, args), AnswerView::Threw(0));
}

/// The responder of a proxy call forwards: with a client, its `onResult`
/// calls `client[method + "_Result"]` and its `onStatus` calls
/// `client[method + "_Status"]`, with the arguments it receives, and give
/// `undefined`.
pub proof fn law_responder_forwards(
    rt: RuntimeView,
    r: ObjectRef,
    client: AvmValue,
    method: Seq<char>,
    f1: ObjectRef,
    f2: ObjectRef,
    replies: Seq<AvmValue>,
)
    requires
        r.index < rt.heap.len(),
        rt.heap[r.index as int].props == seq![
            plain("client"@, client),
            plain("methodName"@, AvmValue::String(method)),
            plain("onResult"@, AvmValue::Object(f1)),
            plain("onStatus"@, AvmValue::Object(f2)),
        ],
    ensures
        ({
            let (rt1, c) = rt.to_object(client);
            let forward = |suffix: Seq<char>|
                EffectView::CallMethod {
                    target: c,
                    name: method + suffix,
                    args: replies,
                    reason: ExecutionReason::FunctionCall,
                };
            &&& !is_nullish(client) ==> net_service_proxy_on_result_spec(rt, r, replies) == (
                rt1.emit(forward("_Result"@)),
                ActionView::Return(AvmValue::Undefined),
            )
            &&& !is_nullish(client) ==> net_service_proxy_on_status_spec(rt, r, replies) == (
                rt1.emit(forward("_Status"@)),
                ActionView::Return(AvmValue::Undefined),
            )
            &&& is_nullish(client) ==> net_service_proxy_on_result_spec(rt, r, replies) == (
                rt,
                ActionView::Return(AvmValue::Undefined),
            )
            &&& is_nullish(client) ==> net_service_proxy_on_status_spec(rt, r, replies) == (
                rt,
                ActionView::Return(AvmValue::Undefined),
            )
        }),
{
    lemma_names();
    lemma_read_own(rt, r, "client"@, 0);
    lemma_read_own(rt, r, "methodName"@, 1);
    reveal_with_fuel(run_spec, 5);
}

/// The responder that a proxy call with a client makes forwards to that
/// client: after the call, the responder's `onResult` and `onStatus` call
/// `client[name + "_Result"]` and `client[name + "_Status"]`.
pub proof fn law_service_proxy_responder(
    rt: RuntimeView,
    nc: ObjectRef,
    service: Seq<char>,
    client: AvmValue,
    method: AvmValue,
    name: Seq<char>,
    args: Seq<AvmValue>,
    replies: Seq<AvmValue>,
)
    requires
        rt.heap.len() + 8 < usize::MAX,
        rt.to_text(method) == Some(name),
        !is_nullish(client),
        create_net_service_proxy_spec(rt, nc, service, client).1 is Return,
        net_service_proxy_resolve_spec(
            create_net_service_proxy_spec(rt, nc, service, client).0,
            ObjectRef { index: rt.heap.len() as usize },
            seq![method],
        ).1 is Return,
        net_service_proxy_call_spec(
            net_service_proxy_resolve_spec(
                create_net_service_proxy_spec(rt, nc, service, client).0,
                ObjectRef { index: rt.heap.len() as usize },
                seq![method],
            ).0,
            ObjectRef { index: rt.heap.len() as usize },
            args,
        ).1 == ActionView::ResultOfLastCall,
    ensures
        ({
            let p = ObjectRef { index: rt.heap.len() as usize };
            let rt2 = net_service_proxy_resolve_spec(
                create_net_service_proxy_spec(rt, nc, service, client).0,
                p,
                seq![method],
            ).0;
            let rt3 = net_service_proxy_call_spec(rt2, p, args).0;
            let r = ObjectRef { index: rt2.heap.len() as usize };
            let (rt4, c) = rt3.to_object(client);
            &&& net_service_proxy_on_result_spec(rt3, r, replies) == (
                rt4.emit(
                    EffectView::CallMethod {
                        target: c,
                        name: name + "_Result"@,
                        args: replies,
                        reason: ExecutionReason::FunctionCall,
                    },
                ),
                ActionView::Return(AvmValue::Undefined),
            )
            &&& net_service_proxy_on_status_spec(rt3, r, replies) == (
                rt4.emit(
                    EffectView::CallMethod {
                        target: c,
                        name: name + "_Status"@,
                        args: replies,
                        reason: ExecutionReason::FunctionCall,
                    },
                ),
                ActionView::Return(AvmValue::Undefined),
            )
        }),
{
    let p = ObjectRef { index: rt.heap.len() as usize };
    lemma_names();
    law_proxy_holds_its_parts(rt, nc, service, client);
    let (rt1, a1) = create_net_service_proxy_spec(rt, nc, service, client);
    let f = ObjectRef { index: (rt.heap.len() + 1) as usize };
    assert forall|j: int| 0 <= j < rt1.heap[p.index as int].props.len() implies #[trigger] rt1.heap[p.index as int].props[j].name
        != "__currentMethod"@ by {
    }
    law_resolve_records_the_name(rt1, p, method, name);
    let (rt2, a2) = net_service_proxy_resolve_spec(rt1, p, seq![method]);
    assert(rt2.heap[p.index as int].props =~= seq![
        plain("nc"@, AvmValue::Object(nc)),
        plain("serviceName"@, AvmValue::String(service)),
        plain("client"@, client),
        plain("__resolve"@, AvmValue::Object(f)),
        plain("__currentMethod"@, AvmValue::String(name)),
    ]);
    lemma_proxy_reads(rt2, p, nc, service, client, f, name, args);
    lemma_proxy_call_end(rt2, p, nc, service, name, client, args);
    let rt3 = net_service_proxy_call_spec(rt2, p, args).0;
    let r = ObjectRef { index: rt2.heap.len() as usize };
    law_responder_forwards(
        rt3,
        r,
        client,
        name,
        ObjectRef { index: (rt2.heap.len() + 1) as usize },
        ObjectRef { index: (rt2.heap.len() + 2) as usize },
        replies,
    );
}

/// `getService` on a connected NetConnection with a name that needs no
/// script code to convert is its trace line, then building the proxy for
/// that name and the client; on one that is not connected, only the trace
/// line, and `undefined`.
pub proof fn law_get_service(rt: RuntimeView, this: ObjectRef, args: Seq<AvmValue>, service: Seq<char>)
    requires
        rt.cast(AvmValue::Object(this)) is Some,
    ensures
        !rt.net_connection_connected(this) ==> get_service_spec(rt, this, args) == (
            rt.emit(EffectView::TraceGetService),
            ActionView::Return(AvmValue::Undefined),
        ),
        rt.net_connection_connected(this) && rt.to_text(arg_or(args, 0, AvmValue::Undefined)) == Some(service)
            ==> get_service_spec(rt, this, args) == create_net_service_proxy_spec(
            rt.emit(EffectView::TraceGetService),
            this,
            service,
            arg_or(args, 1, AvmValue::Undefined),
        ),
{
    reveal_with_fuel(run_spec, 3);
}

/// `__resolve` with a name that the host converts: it asks for the
/// conversion; with the string `name` it leaves the state and gives the
/// result (but for a request to the host) that `name` itself would; if the conversion throws, it ends with the error and
/// `__currentMethod` is not written.
pub proof fn law_resolve_converted(rt: RuntimeView, p: ObjectRef, method: AvmValue, name: Seq<char>, e: u64)
    requires
        rt.to_text(method) is None,
    ensures
        ({
            let (rt0, a0) = net_service_proxy_resolve_spec(rt, p, seq![method]);
            &&& rt0 == rt
            &&& a0 matches ActionView::Ask(r0, t0)
            &&& r0 == RequestView::ToString { value: method }
            &&& resume_spec(rt, t0, AnswerView::Returned(AvmValue::String(name))).0 == net_service_proxy_resolve_spec(
                rt,
                p,
                seq![AvmValue::String(name)],
            ).0
            &&& !(net_service_proxy_resolve_spec(rt, p, seq![AvmValue::String(name)]).1 is Ask) ==> resume_spec(
                rt,
                t0,
                AnswerView::Returned(AvmValue::String(name)),
            ).1 == net_service_proxy_resolve_spec(rt, p, seq![AvmValue::String(name)]).1
            &&& resume_spec(rt, t0, AnswerView::Threw(e)) == (rt, ActionView::Fail(NativeError::Thrown(e)))
        }),
{
    let t0 = TaskView::start(TaskKind::Resolve, p, seq![method]);
    let u0 = TaskView::start(TaskKind::Resolve, p, seq![AvmValue::String(name)]);
    let t1 = t0.with_reg(0, AvmValue::String(name)).at(1);
    let u1 = u0.with_reg(0, AvmValue::String(name)).at(1);
    assert(run_spec(rt, u0) == run_spec(rt, u1));
    reveal_with_fuel(run_spec, 3);
    assert(run_spec(rt, t1).0 == run_spec(rt, u1).0);
    assert(!(run_spec(rt, u1).1 is Ask) ==> run_spec(rt, t1).1 == run_spec(rt, u1).1);
}

/// A status event: without a root movie nothing happens. With one, a new
/// event object gets `code`, then `level`; where both writes are plain,
/// `this.onStatus(event)` is called; where a write meets a prototype chain
/// past the depth limit, the event ends with that error and `onStatus` is
/// not called; where it meets a setter, the host runs it, and if that throws
/// the event ends with the error and `onStatus` is not called.
pub proof fn law_status_event(rt: RuntimeView, this: ObjectRef, code: Seq<char>, e: u64)
    ensures
        !rt.has_root_clip ==> on_status_event_spec(rt, this, code) == (rt, ActionView::Return(AvmValue::Undefined)),
        rt.has_root_clip ==> ({
            let (rt1, event) = rt.new_object();
            let (rt2, k1) = rt1.write(event, "code"@, AvmValue::String(code));
            let (rt3, k2) = rt2.write(event, "level"@, AvmValue::String("status"@));
            let (rt4, a) = on_status_event_spec(rt, this, code);
            &&& (k1 == WriteKind::Done && k2 == WriteKind::Done) ==> (rt4, a) == (
                rt3.emit(
                    EffectView::CallMethod {
                        target: this,
                        name: "onStatus"@,
                        args: seq![AvmValue::Object(event)],
                        reason: ExecutionReason::Special,
                    },
                ),
                ActionView::Return(AvmValue::Undefined),
            )
            &&& k1 == WriteKind::TooDeep ==> (rt4, a) == (
                rt2,
                ActionView::Fail(NativeError::PrototypeRecursionLimit),
            )
            &&& k1 == WriteKind::Setter ==> {
                &&& rt4 == rt2
                &&& a matches ActionView::Ask(r, t)
                &&& r == RequestView::RunSetter {
                    object: event,
                    name: "code"@,
                    value: AvmValue::String(code),
                }
                &&& resume_spec(rt4, t, AnswerView::Threw(e)) == (rt4, ActionView::Fail(NativeError::Thrown(e)))
            }
        }),
{
    reveal_with_fuel(run_spec, 4);
}

/// A reply delivered to a responder with a root movie loaded is exactly one
/// call, on that responder, of `onResult` for a result and `onStatus` for a
/// status, whose one argument is the reply; nothing else changes. Without a
/// root movie nothing happens.
pub proof fn law_send_callback(rt: RuntimeView, responder: ObjectRef, callback: ResponderCallback, message: AvmValue)
    ensures
        !rt.has_root_clip ==> send_callback_spec(rt, responder, callback, message) == rt,
        rt.has_root_clip ==> ({
            let rt1 = send_callback_spec(rt, responder, callback, message);
            &&& rt1.heap == rt.heap
            &&& rt1.connections == rt.connections
            &&& rt1.effects.len() == rt.effects.len() + 1
            &&& rt1.effects.drop_last() == rt.effects
            &&& rt1.effects.last() == EffectView::CallMethod {
                target: responder,
                name: if callback == ResponderCallback::Result {
                    "onResult"@
                } else {
                    "onStatus"@
                },
                args: seq![message],
                reason: ExecutionReason::Special,
            }
        }),
{
    if rt.has_root_clip {
        assert(send_callback_spec(rt, responder, callback, message).effects.drop_last() =~= rt.effects);
    }
}

/// An empty status event with a root movie loaded is exactly one call, on
/// the NetConnection itself, of `onStatus` with no argument; nothing else
/// changes. Without a root movie nothing happens.
pub proof fn law_empty_status_event(rt: RuntimeView, this: ObjectRef)
    ensures
        !rt.has_root_clip ==> on_empty_status_event_spec(rt, this) == rt,
        rt.has_root_clip ==> ({
            let rt1 = on_empty_status_event_spec(rt, this);
            &&& rt1.heap == rt.heap
            &&& rt1.connections == rt.connections
            &&& rt1.effects.len() == rt.effects.len() + 1
            &&& rt1.effects.drop_last() == rt.effects
            &&& rt1.effects.last() == EffectView::CallMethod {
                target: this,
                name: "onStatus"@,
                args: Seq::empty(),
                reason: ExecutionReason::Special,
            }
        }),
{
    if rt.has_root_clip {
        assert(on_empty_status_event_spec(rt, this).effects.drop_last() =~= rt.effects);
    }
}

/// `isConnected`, `protocol` and `uri` of a NetConnection with handle `h`
/// read what the host reports of the first connection with that handle:
/// its connected flag, its protocol and its URI (`undefined` where it has
/// none). Where the host reports no connection with that handle, the
/// NetConnection is not connected and has neither protocol nor URI.
pub proof fn law_connection_properties(rt: RuntimeView, this: ObjectRef, h: NetConnectionHandle, i: int)
    requires
        rt.cast(AvmValue::Object(this)) is Some,
        rt.handle_of(this) == Some(h),
    ensures
        (forall|j: int| 0 <= j < rt.connections.len() ==> #[trigger] rt.connections[j].handle != h) ==> {
            &&& is_connected_spec(rt, this) == AvmValue::Bool(false)
            &&& protocol_spec(rt, this) == AvmValue::Undefined
            &&& uri_spec(rt, this) == AvmValue::Undefined
        },
        (0 <= i < rt.connections.len() && rt.connections[i].handle == h && forall|j: int|
            0 <= j < i ==> #[trigger] rt.connections[j].handle != h) ==> {
            &&& is_connected_spec(rt, this) == AvmValue::Bool(rt.connections[i].connected)
            &&& protocol_spec(rt, this) == match rt.connections[i].protocol {
                Some(p) => AvmValue::String(p),
                None => AvmValue::Undefined,
            }
            &&& uri_spec(rt, this) == match rt.connections[i].uri {
                Some(u) => AvmValue::String(u),
                None => AvmValue::Undefined,
            }
        },
{
    lemma_find_connection(rt.connections, h);
    match find_connection(rt.connections, h) {
        Some(k) => {
            if 0 <= i < rt.connections.len() && rt.connections[i].handle == h && forall|j: int|
                0 <= j < i ==> #[trigger] rt.connections[j].handle != h {
                if k < i {
                    assert(rt.connections[k].handle != h);
                } else if k > i {
                    assert(rt.connections[i].handle != h);
                }
            }
            assert(rt.connections[k].handle == h);
        },
        None => {},
    }
}

/// Defining members with distinct names on an object without properties:
/// each becomes the object's next own property, bound to a new native
/// function, in order.
proof fn lemma_define_declarations(
    rt: RuntimeView,
    object: ObjectRef,
    decls: Seq<DeclarationView>,
    fn_proto: ObjectRef,
)
    requires
        object.index < rt.heap.len(),
        rt.heap[object.index as int].props.len() == 0,
        rt.heap.len() + decls.len() < usize::MAX,
        forall|i: int, j: int| 0 <= i < j < decls.len() ==> #[trigger] decls[i].name != #[trigger] decls[j].name,
    ensures
        ({
            let r = define_declarations(rt, object, decls, fn_proto);
            &&& r.heap.len() == rt.heap.len() + decls.len()
            &&& r.heap[object.index as int].props.len() == decls.len()
            &&& r.heap[object.index as int].proto == rt.heap[object.index as int].proto
            &&& forall|i: int|
                0 <= i < decls.len() ==> #[trigger] r.heap[object.index as int].props[i] == (PropertyView {
                    name: decls[i].name,
                    value: AvmValue::Object(ObjectRef { index: (rt.heap.len() + i) as usize }),
                    attributes: decls[i].attributes,
                    accessor: decls[i].kind is Property,
                })
            &&& forall|i: int|
                0 <= i < decls.len() ==> #[trigger] r.heap[rt.heap.len() + i].native == (NativeView::Function {
                    method: decls[i].kind.native(),
                    prototype: None,
                })
        }),
    decreases decls.len(),
{
    if decls.len() > 0 {
        let init = decls.drop_last();
        assert forall|i: int, j: int| 0 <= i < j < init.len() implies #[trigger] init[i].name != #[trigger] init[j].name by {
            assert(init[i] == decls[i] && init[j] == decls[j]);
        }
        lemma_define_declarations(rt, object, init, fn_proto);
        let r0 = define_declarations(rt, object, init, fn_proto);
        let d = decls.last();
        let n = init.len() as int;
        let (r1, f) = r0.new_function(d.kind.native(), fn_proto, None);
        let props = r1.heap[object.index as int].props;
        assert(props == r0.heap[object.index as int].props);
        assert forall|j: int| 0 <= j < props.len() implies #[trigger] props[j].name != d.name by {
            assert(props[j] == r0.heap[object.index as int].props[j]);
            assert(init[j] == decls[j]);
            assert(decls[j].name != decls[n].name);
        }
        lemma_find_prop(props, d.name);
        let r = define_declarations(rt, object, decls, fn_proto);
        assert forall|i: int| 0 <= i < decls.len() implies #[trigger] r.heap[object.index as int].props[i] == (PropertyView {
            name: decls[i].name,
            value: AvmValue::Object(ObjectRef { index: (rt.heap.len() + i) as usize }),
            attributes: decls[i].attributes,
            accessor: decls[i].kind is Property,
        }) by {
            if i < n {
                assert(init[i] == decls[i]);
                assert(r0.heap[object.index as int].props[i] == (PropertyView {
                    name: init[i].name,
                    value: AvmValue::Object(ObjectRef { index: (rt.heap.len() + i) as usize }),
                    attributes: init[i].attributes,
                    accessor: init[i].kind is Property,
                }));
            }
        }
        assert forall|i: int| 0 <= i < decls.len() implies #[trigger] r.heap[rt.heap.len() + i].native == (NativeView::Function {
            method: decls[i].kind.native(),
            prototype: None,
        }) by {
            if i < n {
                assert(init[i] == decls[i]);
                assert(r0.heap[rt.heap.len() + i].native == (NativeView::Function {
                    method: init[i].kind.native(),
                    prototype: None,
                }));
            }
        }
    }
}

/// The native function that the prototype member named `name` runs.
pub open spec fn native_named(name: Seq<char>) -> NativeMethod {
    if name == "isConnected"@ {
        NativeMethod::IsConnected
    } else if name == "protocol"@ {
        NativeMethod::Protocol
    } else if name == "uri"@ {
        NativeMethod::Uri
    } else if name == "addHeader"@ {
        NativeMethod::AddHeader
    } else if name == "call"@ {
        NativeMethod::Call
    } else if name == "close"@ {
        NativeMethod::Close
    } else if name == "connect"@ {
        NativeMethod::Connect
    } else if name == "getService"@ {
        NativeMethod::GetService
    } else {
        NativeMethod::RealCall
    }
}

/// Whether the prototype member named `name` is a property read through its
/// getter (the others are methods).
pub open spec fn is_property_name(name: Seq<char>) -> bool {
    name == "isConnected"@ || name == "protocol"@ || name == "uri"@
}

proof fn lemma_member_names()
    ensures
        forall|i: int, j: int|
            0 <= i < j < spec_proto_declarations().len() ==> #[trigger] spec_proto_declarations()[i].name
                != #[trigger] spec_proto_declarations()[j].name,
        forall|i: int|
            0 <= i < spec_proto_declarations().len() ==> native_named(#[trigger] spec_proto_declarations()[i].name)
                == spec_proto_declarations()[i].kind.native() && is_property_name(spec_proto_declarations()[i].name)
                == (spec_proto_declarations()[i].kind is Property),
{
    reveal_strlit("isConnected");
    reveal_strlit("protocol");
    reveal_strlit("uri");
    reveal_strlit("addHeader");
    reveal_strlit("call");
    reveal_strlit("close");
    reveal_strlit("connect");
    reveal_strlit("getService");
    reveal_strlit("realcall");
    assert("isConnected"@.len() == 11 && "protocol"@.len() == 8 && "uri"@.len() == 3);
    assert("addHeader"@.len() == 9 && "call"@.len() == 4 && "close"@.len() == 5);
    assert("connect"@.len() == 7 && "getService"@.len() == 10 && "realcall"@.len() == 8);
    assert("protocol"@[0] != "realcall"@[0]);
}

/// `NetConnection.prototype` holds, in this order, `isConnected`,
/// `protocol`, `uri`, `addHeader`, `call`, `close`, `connect`, `getService`
/// and `realcall`, each bound to a new function that runs the native
/// function of the same name: the first three as properties read through
/// that getter, the others as methods that scripts cannot enumerate or
/// delete.
pub proof fn law_proto_binds_natives(rt: RuntimeView, proto: ObjectRef, fn_proto: ObjectRef)
    requires
        rt.heap.len() + 10 < usize::MAX,
    ensures
        ({
            let (rt1, object) = create_proto_spec(rt, proto, fn_proto);
            let props = rt1.heap[object.index as int].props;
            &&& rt1.heap[object.index as int].proto == Some(proto)
            &&& props.map_values(|p: PropertyView| p.name) == seq![
                "isConnected"@,
                "protocol"@,
                "uri"@,
                "addHeader"@,
                "call"@,
                "close"@,
                "connect"@,
                "getService"@,
                "realcall"@,
            ]
            &&& forall|i: int| 0 <= i < props.len() ==> {
                &&& (#[trigger] props[i]).value matches AvmValue::Object(f) && rt1.heap[f.index as int].native
                    == (NativeView::Function { method: native_named(props[i].name), prototype: None })
                &&& props[i].accessor == is_property_name(props[i].name)
                &&& props[i].attributes == if props[i].accessor {
                    Attributes::spec_empty()
                } else {
                    Attributes { dont_enum: true, dont_delete: true, read_only: false }
                }
            }
        }),
{
    lemma_member_names();
    let decls = spec_proto_declarations();
    let (rt1, object) = rt.allocated(
        ObjectView { props: Seq::empty(), proto: Some(proto), native: NativeView::Plain },
    );
    lemma_define_declarations(rt1, object, decls, fn_proto);
    let (rt2, o) = create_proto_spec(rt, proto, fn_proto);
    let props = rt2.heap[o.index as int].props;
    assert forall|i: int| 0 <= i < props.len() implies {
        &&& (#[trigger] props[i]).value matches AvmValue::Object(f) && rt2.heap[f.index as int].native
            == (NativeView::Function { method: native_named(props[i].name), prototype: None })
        &&& props[i].accessor == is_property_name(props[i].name)
        &&& props[i].attributes == if props[i].accessor {
            Attributes::spec_empty()
        } else {
            Attributes { dont_enum: true, dont_delete: true, read_only: false }
        }
    } by {
        assert(native_named(decls[i].name) == decls[i].kind.native());
        assert(rt2.heap[rt1.heap.len() + i].native == (NativeView::Function {
            method: decls[i].kind.native(),
            prototype: None,
        }));
    }
    assert(props.map_values(|p: PropertyView| p.name) =~= seq![
        "isConnected"@,
        "protocol"@,
        "uri"@,
        "addHeader"@,
        "call"@,
        "close"@,
        "connect"@,
        "getService"@,
        "realcall"@,
    ]);
}

/// `e` is a call of `call` whose arguments are a string (the remote
/// method's name), the responder (`null` or an object) and then exactly
/// `args`.
pub open spec fn is_call_forwarding(e: EffectView, args: Seq<AvmValue>) -> bool {
    &&& e matches EffectView::CallMethod { name, args: a, reason, .. }
    &&& name == "call"@
    &&& reason == ExecutionReason::FunctionCall
    &&& a.len() == args.len() + 2
    &&& a[0] is String
    &&& (a[1] is Null || a[1] is Object)
    &&& a.skip(2) == args
}

/// How a proxy call with arguments `args`, from state `rt`, can end: it
/// stops to ask the host or fails, having called nothing; or it has made
/// exactly one call of `call` that forwards all of `args`, and gives that
/// call's result.
pub open spec fn proxy_call_ends(rt: RuntimeView, args: Seq<AvmValue>, out: (RuntimeView, ActionView)) -> bool {
    ||| (out.1 is Ask || out.1 is Fail) && out.0.effects == rt.effects
    ||| {
        &&& out.1 == ActionView::ResultOfLastCall
        &&& out.0.effects.len() == rt.effects.len() + 1
        &&& out.0.effects.drop_last() == rt.effects
        &&& is_call_forwarding(out.0.effects.last(), args)
    }
}

proof fn lemma_proxy_task(rt: RuntimeView, t: TaskView)
    requires
        t.kind == TaskKind::ProxyCall,
    ensures
        proxy_call_ends(rt, t.args, run_spec(rt, t)),
    decreases measure(t),
{
    let (rt1, s) = step_spec(rt, t);
    match s {
        StepView::Next(t2) => {
            assert(t2.kind == TaskKind::ProxyCall && t2.args == t.args);
            assert(measure(t2) < measure(t));
            assert(rt1.effects == rt.effects);
            lemma_proxy_task(rt1, t2);
        },
        StepView::Stop(a) => {
            if t.stage >= 14 {
                let e = rt1.effects.last();
                assert(proxy_call_args(t).skip(2) =~= t.args);
                assert(rt1.effects.drop_last() =~= rt.effects);
            }
        },
    }
}

/// Every call through a proxy, from its start or continued after the host's
/// work, ends in one of two ways: it stops or fails having called nothing;
/// or it makes exactly one call of `nc.call` with the remote method's name,
/// the responder (or `null`) and then all of the proxy call's arguments, in
/// order, and gives what that call gives. It never returns a value of its
/// own.
pub proof fn law_proxy_call_forwards_arguments(
    rt: RuntimeView,
    p: ObjectRef,
    args: Seq<AvmValue>,
    t: TaskView,
    answer: AnswerView,
)
    ensures
        proxy_call_ends(rt, args, net_service_proxy_call_spec(rt, p, args)),
        t.kind == TaskKind::ProxyCall ==> proxy_call_ends(rt, t.args, resume_spec(rt, t, answer)),
{
    lemma_proxy_task(rt, TaskView::start(TaskKind::ProxyCall, p, args));
    if t.kind == TaskKind::ProxyCall {
        if let StepView::Next(t2) = apply_answer(t, answer) {
            lemma_proxy_task(rt, t2);
        }
    }
}

/// `close` on a NetConnection with a connection asks the host to close that
/// connection, explicitly, and nothing else; on one without a connection it
/// asks for nothing. Either way the NetConnection keeps its properties and
/// stays a NetConnection, and `close` gives `undefined`.
pub proof fn law_close_effects(rt: RuntimeView, this: ObjectRef)
    requires
        rt.cast(AvmValue::Object(this)) is Some,
    ensures
        ({
            let (rt1, r) = close_spec(rt, this);
            &&& r == AvmValue::Undefined
            &&& rt1.cast(AvmValue::Object(this)) is Some
            &&& rt1.heap[this.index as int].props == rt.heap[this.index as int].props
            &&& rt1.handle_of(this) is None
            &&& match rt.handle_of(this) {
                Some(h) => rt1.effects == rt.effects.push(EffectView::Close { handle: h, is_explicit: true }),
                None => rt1.effects == rt.effects,
            }
        }),
{
}

/// The constructor makes `this` a NetConnection without a connection and
/// keeps its properties; it asks the host for nothing.
pub proof fn law_constructor(rt: RuntimeView, this: ObjectRef)
    requires
        this.index < rt.heap.len(),
    ensures
        ({
            let (rt1, r) = constructor_spec(rt, this);
            &&& r == AvmValue::Undefined
            &&& rt1.cast(AvmValue::Object(this)) == Some(this)
            &&& rt1.handle_of(this) is None
            &&& rt1.heap[this.index as int].props == rt.heap[this.index as int].props
            &&& rt1.heap.len() == rt.heap.len()
            &&& rt1.effects == rt.effects
        }),
{
}

/// The class `NetConnection` is a new function object that runs the native
/// constructor and whose objects get `netconnection_proto` as prototype.
pub proof fn law_create_class(rt: RuntimeView, netconnection_proto: ObjectRef, fn_proto: ObjectRef)
    requires
        rt.heap.len() < usize::MAX,
    ensures
        ({
            let (rt1, class) = create_class_spec(rt, netconnection_proto, fn_proto);
            &&& class.index == rt.heap.len()
            &&& rt1.heap.len() == rt.heap.len() + 1
            &&& rt1.heap[class.index as int].native == (NativeView::Function {
                method: NativeMethod::Constructor,
                prototype: Some(netconnection_proto),
            })
            &&& rt1.heap[class.index as int].proto == Some(fn_proto)
            &&& rt1.effects == rt.effects
        }),
{
}

/// The conversions the library makes itself, for every value: a boolean
/// reads `true` or `false`, a string itself, `null` as `null`, `undefined`
/// as `undefined` (empty before SWF 7); objects and numbers go to the host.
/// As a boolean, `undefined` and `null` are false, an object true, a string
/// true where it is not empty (from SWF 7; the host converts it before).
pub proof fn law_conversions(rt: RuntimeView, v: AvmValue)
    requires
        rt.heap.len() < usize::MAX,
    ensures
        rt.to_text(v) == match v {
            AvmValue::Bool(b) => Some(if b { "true"@ } else { "false"@ }),
            AvmValue::String(s) => Some(s),
            AvmValue::Null => Some("null"@),
            AvmValue::Undefined => Some(if rt.swf_version >= 7 { "undefined"@ } else { Seq::empty() }),
            _ => None,
        },
        rt.to_flag(v) == match v {
            AvmValue::Bool(b) => Some(b),
            AvmValue::Undefined => Some(false),
            AvmValue::Null => Some(false),
            AvmValue::Object(_) => Some(true),
            AvmValue::String(s) => if rt.swf_version >= 7 { Some(s.len() > 0) } else { None },
            AvmValue::Opaque(_) => None,
        },
        v is Object ==> rt.to_object(v) == (rt, v->Object_0),
        !(v is Object) ==> ({
            let (rt1, o) = rt.to_object(v);
            &&& o.index == rt.heap.len()
            &&& rt1.heap == rt.heap.push(ObjectView {
                props: Seq::empty(),
                proto: match v {
                    AvmValue::Bool(_) => Some(rt.boolean_proto),
                    AvmValue::String(_) => Some(rt.string_proto),
                    AvmValue::Opaque(_) => Some(rt.number_proto),
                    _ => None,
                },
                native: NativeView::Boxed(v),
            })
            &&& rt1.effects == rt.effects
        }),
{
}

/// The state after building a proxy with plain writes, and whether each of
/// its four writes was plain.
pub open spec fn build_with_plain_writes(rt: RuntimeView, nc: ObjectRef, service: Seq<char>, client: AvmValue) -> (
    RuntimeView,
    bool,
) {
    let (rt_a, p) = rt.new_object();
    let (rt_b, k1) = rt_a.write(p, "nc"@, AvmValue::Object(nc));
    let (rt_c, k2) = rt_b.write(p, "serviceName"@, AvmValue::String(service));
    let (rt_d, k3) = rt_c.write(p, "client"@, client);
    let (rt_e, f) = rt_d.new_function(NativeMethod::ServiceProxyResolve, rt_d.function_proto, Some(rt_d.object_proto));
    let (rt_f, k4) = rt_e.write(p, "__resolve"@, AvmValue::Object(f));
    (rt_f, k1 == WriteKind::Done && k2 == WriteKind::Done && k3 == WriteKind::Done && k4 == WriteKind::Done)
}

/// Building a proxy whose four writes (`nc`, `serviceName`, `client`,
/// `__resolve`, on the new object) are plain always ends with the new
/// object. Where the first write meets a chain past the depth limit it
/// fails with that error; where it meets a setter, the host runs it.
pub proof fn law_build_proxy_succeeds(rt: RuntimeView, nc: ObjectRef, service: Seq<char>, client: AvmValue)
    ensures
        build_with_plain_writes(rt, nc, service, client).1 ==> create_net_service_proxy_spec(rt, nc, service, client)
            == (
            build_with_plain_writes(rt, nc, service, client).0,
            ActionView::Return(AvmValue::Object(ObjectRef { index: rt.heap.len() as usize })),
        ),
        ({
            let (rt_a, p) = rt.new_object();
            let k1 = rt_a.write(p, "nc"@, AvmValue::Object(nc)).1;
            &&& k1 == WriteKind::TooDeep ==> create_net_service_proxy_spec(rt, nc, service, client) == (
                rt_a,
                ActionView::Fail(NativeError::PrototypeRecursionLimit),
            )
            &&& k1 == WriteKind::Setter ==> (create_net_service_proxy_spec(rt, nc, service, client).1 matches ActionView::Ask(r, _)
                && r == (RequestView::RunSetter { object: p, name: "nc"@, value: AvmValue::Object(nc) }))
        }),
{
    reveal_with_fuel(run_spec, 8);
}

/// `__resolve` of a name that reads as `name` without script code, whose
/// write of `__currentMethod` is plain, always records it and gives a new
/// function that makes the proxy call.
pub proof fn law_resolve_succeeds(rt: RuntimeView, p: ObjectRef, method: AvmValue, name: Seq<char>)
    requires
        rt.to_text(method) == Some(name),
        rt.write(p, "__currentMethod"@, AvmValue::String(name)).1 == WriteKind::Done,
    ensures
        ({
            let rt1 = rt.write(p, "__currentMethod"@, AvmValue::String(name)).0;
            let (rt2, f) = rt1.new_function(NativeMethod::ServiceProxyCall, rt1.function_proto, Some(rt1.object_proto));
            net_service_proxy_resolve_spec(rt, p, seq![method]) == (rt2, ActionView::Return(AvmValue::Object(f)))
        }),
{
    reveal_with_fuel(run_spec, 4);
}

/// Whether the four writes of a new responder (`client`, `methodName`,
/// `onResult`, `onStatus`) are plain.
pub open spec fn responder_writes_plain(rt: RuntimeView, client: AvmValue, method: Seq<char>) -> bool {
    let (rt_a, r) = rt.new_object();
    let (rt_b, k1) = rt_a.write(r, "client"@, client);
    let (rt_c, k2) = rt_b.write(r, "methodName"@, AvmValue::String(method));
    let (rt_d, f1) = rt_c.new_function(NativeMethod::ServiceProxyOnResult, rt_c.function_proto, Some(rt_c.object_proto));
    let (rt_e, k3) = rt_d.write(r, "onResult"@, AvmValue::Object(f1));
    let (rt_f, f2) = rt_e.new_function(NativeMethod::ServiceProxyOnStatus, rt_e.function_proto, Some(rt_e.object_proto));
    let (rt_g, k4) = rt_f.write(r, "onStatus"@, AvmValue::Object(f2));
    k1 == WriteKind::Done && k2 == WriteKind::Done && k3 == WriteKind::Done && k4 == WriteKind::Done
}

} // verus!
