//! The service proxy that `NetConnection.getService` returns.
//!
//! A proxy holds the NetConnection (`nc`), the service name (`serviceName`)
//! and the client (`client`). Reading any other name of the proxy runs its
//! `__resolve`, which records the name as `__currentMethod` and gives a
//! function; calling that function calls `nc.call("service.method",
//! responder, ...args)`. Where there is a client, the responder forwards a
//! result to `client["method_Result"]` and a status to
//! `client["method_Status"]`.
use vstd::prelude::*;
use crate::runtime::{Runtime, RuntimeView};
use crate::task::{run, run_spec, Action, ActionView, Task, TaskKind, TaskView};
use crate::value::{all_values, values_view, AvmValue, ObjectRef, Value};

verus! {

// Each of these runs as a task (see `crate::task`): it ends with a value or
// with the error that ended it, or stops to ask the host for work.

/// A new service proxy for `net_connection`, service `service_name` and
/// `client`: a new object whose `nc`, `serviceName`, `client` and
/// `__resolve` are written in that order.
pub open spec fn create_net_service_proxy_spec(
    rt: RuntimeView,
    net_connection: ObjectRef,
    service_name: Seq<char>,
    client: AvmValue,
) -> (RuntimeView, ActionView) {
    run_spec(rt, TaskView::build_proxy(net_connection, service_name, client))
}

pub fn create_net_service_proxy(
    rt: &mut Runtime,
    net_connection: ObjectRef,
    service_name: String,
    client: Value,
) -> (a: Action)
    ensures
        (final(rt)@, a@) == create_net_service_proxy_spec(
            old(rt)@,
            net_connection,
            service_name@,
            client@,
        ),
{
    run(rt, Task::build_proxy(net_connection, service_name, client))
}

/// `__resolve(name)`: records `name`, converted to a string, as
/// `__currentMethod` and gives the function that calls it.
pub open spec fn net_service_proxy_resolve_spec(rt: RuntimeView, this: ObjectRef, args: Seq<AvmValue>) -> (
    RuntimeView,
    ActionView,
) {
    run_spec(rt, TaskView::start(TaskKind::Resolve, this, args))
}

pub fn net_service_proxy_resolve(rt: &mut Runtime, this: ObjectRef, args: &Vec<Value>) -> (a: Action)
    ensures
        (final(rt)@, a@) == net_service_proxy_resolve_spec(old(rt)@, this, values_view(args@)),
{
    run(rt, Task::start(TaskKind::Resolve, this, all_values(args)))
}

/// A call through the proxy: reads `nc` (turned into an object),
/// `serviceName` and `__currentMethod` (converted to strings) and `client`;
/// where there is a client, makes a responder holding it, the method name and
/// the two callbacks; then calls `nc.call(serviceName + "." + method,
/// responder or null, ...args)`, whose result is the method's result.
pub open spec fn net_service_proxy_call_spec(rt: RuntimeView, this: ObjectRef, args: Seq<AvmValue>) -> (
    RuntimeView,
    ActionView,
) {
    run_spec(rt, TaskView::start(TaskKind::ProxyCall, this, args))
}

pub fn net_service_proxy_call(rt: &mut Runtime, this: ObjectRef, args: &Vec<Value>) -> (a: Action)
    ensures
        (final(rt)@, a@) == net_service_proxy_call_spec(old(rt)@, this, values_view(args@)),
{
    run(rt, Task::start(TaskKind::ProxyCall, this, all_values(args)))
}

/// `onResult` of a responder: reads `client` and `methodName` (converted to a
/// string); where there is a client, calls `client[methodName +
/// "_Result"](...args)`.
pub open spec fn net_service_proxy_on_result_spec(rt: RuntimeView, this: ObjectRef, args: Seq<AvmValue>) -> (
    RuntimeView,
    ActionView,
) {
    run_spec(rt, TaskView::start(TaskKind::OnResult, this, args))
}

pub fn net_service_proxy_on_result(rt: &mut Runtime, this: ObjectRef, args: &Vec<Value>) -> (a: Action)
    ensures
        (final(rt)@, a@) == net_service_proxy_on_result_spec(old(rt)@, this, values_view(args@)),
{
    run(rt, Task::start(TaskKind::OnResult, this, all_values(args)))
}

/// `onStatus` of a responder: the same with `"_Status"`.
pub open spec fn net_service_proxy_on_status_spec(rt: RuntimeView, this: ObjectRef, args: Seq<AvmValue>) -> (
    RuntimeView,
    ActionView,
) {
    run_spec(rt, TaskView::start(TaskKind::OnStatus, this, args))
}

pub fn net_service_proxy_on_status(rt: &mut Runtime, this: ObjectRef, args: &Vec<Value>) -> (a: Action)
    ensures
        (final(rt)@, a@) == net_service_proxy_on_status_spec(old(rt)@, this, values_view(args@)),
{
    run(rt, Task::start(TaskKind::OnStatus, this, all_values(args)))
}


} // verus!
