//! The methods whose work the host takes part in, written as tasks that run
//! in steps.
//!
//! Converting an object (or a number) to a string, reading or writing an
//! accessor property, and converting a number to a boolean run script code or
//! floating point, which is the host's work. A method runs until it needs such
//! work; it then stops with `Action::Ask`, handing the host the request and the
//! task to continue. The host carries out the request (the heap may change
//! meanwhile) and continues the task with `resume`, giving the value or the
//! error that came back. An error ends the method with that error and nothing
//! after it happens. A prototype chain longer than the virtual machine searches
//! ends the method with `NativeError::PrototypeRecursionLimit`.
use vstd::prelude::*;
use crate::heap::NativeMethod;
use crate::net_connection::{is_remoting_url, starts_with};
use crate::runtime::{Effect, EffectView, ExecutionReason, ReadOutcome, ReadView, Runtime, RuntimeView, WriteKind};
use crate::value::{arg_or, arg_or_default, extend_values, is_nullish, values_after, values_from, values_view, AvmValue, ObjectRef, Value};

verus! {

/// Which method a task runs.
#[derive(Clone, Copy, Debug, PartialEq, Eq, Structural)]
pub enum TaskKind {
    Call,
    RealCall,
    AddHeader,
    Connect,
    GetService,
    BuildProxy,
    Resolve,
    ProxyCall,
    OnResult,
    OnStatus,
    StatusEvent,
}

/// What a stopped task waits for.
#[derive(Clone, Copy, Debug, PartialEq, Eq, Structural)]
pub enum Pending {
    Nothing,
    /// A string conversion whose error ends the method.
    Text,
    /// A string conversion for a trace line; an error reads as `<error>`.
    TraceText,
    /// A boolean conversion.
    Flag,
    /// A getter's result.
    Read,
    /// A setter's completion.
    Write,
}

/// An error that ends a method.
#[derive(Clone, Copy, Debug, PartialEq, Eq, Structural)]
pub enum NativeError {
    /// Script code that the host ran threw; the host's token for what it threw.
    Thrown(u64),
    /// A prototype chain is longer than the virtual machine searches.
    PrototypeRecursionLimit,
}

/// Work the host has to do for a task.
#[derive(Debug)]
pub enum HostRequest {
    /// Convert `value` (an object or a number) to a string; the answer is the string.
    ToString { value: Value },
    /// Convert `value` to a boolean; the answer is the boolean.
    ToBool { value: Value },
    /// Run `getter` with `this` being `object`; the answer is what it returns.
    RunGetter { object: ObjectRef, getter: Value },
    /// Write `value` to the accessor property `name` of `object` (run its setter, if any).
    RunSetter { object: ObjectRef, name: String, value: Value },
}

pub enum RequestView {
    ToString { value: AvmValue },
    ToBool { value: AvmValue },
    RunGetter { object: ObjectRef, getter: AvmValue },
    RunSetter { object: ObjectRef, name: Seq<char>, value: AvmValue },
}

impl View for HostRequest {
    type V = RequestView;

    open spec fn view(&self) -> RequestView {
        match self {
            HostRequest::ToString { value } => RequestView::ToString { value: value@ },
            HostRequest::ToBool { value } => RequestView::ToBool { value: value@ },
            HostRequest::RunGetter { object, getter } => RequestView::RunGetter { object: *object, getter: getter@ },
            HostRequest::RunSetter { object, name, value } => RequestView::RunSetter {
                object: *object,
                name: name@,
                value: value@,
            },
        }
    }
}

/// What came back from the host's work.
#[derive(Debug)]
pub enum HostAnswer {
    Returned(Value),
    Threw(u64),
}

pub enum AnswerView {
    Returned(AvmValue),
    Threw(u64),
}

impl View for HostAnswer {
    type V = AnswerView;

    open spec fn view(&self) -> AnswerView {
        match self {
            HostAnswer::Returned(v) => AnswerView::Returned(v@),
            HostAnswer::Threw(e) => AnswerView::Threw(*e),
        }
    }
}

/// A method under way: where it stands and what it holds.
#[derive(Debug)]
pub struct Task {
    kind: TaskKind,
    stage: u8,
    this: ObjectRef,
    args: Vec<Value>,
    regs: Vec<Value>,
    obj: ObjectRef,
    obj2: ObjectRef,
    dest: usize,
    pending: Pending,
}

pub struct TaskView {
    pub kind: TaskKind,
    pub stage: u8,
    pub this: ObjectRef,
    pub args: Seq<AvmValue>,
    pub regs: Seq<AvmValue>,
    pub obj: ObjectRef,
    pub obj2: ObjectRef,
    pub dest: usize,
    pub pending: Pending,
}

impl View for Task {
    type V = TaskView;

    closed spec fn view(&self) -> TaskView {
        TaskView {
            kind: self.kind,
            stage: self.stage,
            this: self.this,
            args: values_view(self.args@),
            regs: values_view(self.regs@),
            obj: self.obj,
            obj2: self.obj2,
            dest: self.dest,
            pending: self.pending,
        }
    }
}

/// How a method call ends, or that it waits for the host.
#[derive(Debug)]
pub enum Action {
    /// The method returns this value.
    Return(Value),
    /// The method ends with this error.
    Fail(NativeError),
    /// The method returns what the last effect (a method call) returns.
    ResultOfLastCall,
    /// The host has to do this work, then continue the task.
    Ask(HostRequest, Task),
}

pub enum ActionView {
    Return(AvmValue),
    Fail(NativeError),
    ResultOfLastCall,
    Ask(RequestView, TaskView),
}

impl View for Action {
    type V = ActionView;

    open spec fn view(&self) -> ActionView {
        match self {
            Action::Return(v) => ActionView::Return(v@),
            Action::Fail(e) => ActionView::Fail(*e),
            Action::ResultOfLastCall => ActionView::ResultOfLastCall,
            Action::Ask(r, t) => ActionView::Ask(r@, t@),
        }
    }
}

/// One step of a task: it goes on, or it stops.
pub enum Step {
    Next(Task),
    Stop(Action),
}

pub enum StepView {
    Next(TaskView),
    Stop(ActionView),
}

impl View for Step {
    type V = StepView;

    open spec fn view(&self) -> StepView {
        match self {
            Step::Next(t) => StepView::Next(t@),
            Step::Stop(a) => StepView::Stop(a@),
        }
    }
}

/// The text of a value that holds a string (empty otherwise).
pub open spec fn text_of(v: AvmValue) -> Seq<char> {
    match v {
        AvmValue::String(s) => s,
        _ => Seq::empty(),
    }
}

/// The boolean of a value that holds one (false otherwise).
pub open spec fn flag_of(v: AvmValue) -> bool {
    match v {
        AvmValue::Bool(b) => b,
        _ => false,
    }
}

fn text_of_value(v: &Value) -> (s: String)
    ensures
        s@ == text_of(v@),
{
    match v {
        Value::String(s) => s.clone(),
        _ => String::new(),
    }
}

fn flag_of_value(v: &Value) -> (b: bool)
    ensures
        b == flag_of(v@),
{
    match v {
        Value::Bool(b) => *b,
        _ => false,
    }
}

pub open spec fn undefined_regs() -> Seq<AvmValue> {
    seq![AvmValue::Undefined, AvmValue::Undefined, AvmValue::Undefined, AvmValue::Undefined, AvmValue::Undefined, AvmValue::Undefined]
}

impl TaskView {
    /// A task that starts method `kind` on `this` with `args`.
    pub open spec fn start(kind: TaskKind, this: ObjectRef, args: Seq<AvmValue>) -> TaskView {
        TaskView {
            kind,
            stage: 0,
            this,
            args,
            regs: undefined_regs(),
            obj: this,
            obj2: this,
            dest: 0,
            pending: Pending::Nothing,
        }
    }

    pub open spec fn reg(self, i: int) -> AvmValue {
        if 0 <= i < self.regs.len() {
            self.regs[i]
        } else {
            AvmValue::Undefined
        }
    }

    pub open spec fn with_reg(self, i: int, v: AvmValue) -> TaskView {
        TaskView {
            regs: if 0 <= i < self.regs.len() {
                self.regs.update(i, v)
            } else {
                self.regs
            },
            ..self
        }
    }

    pub open spec fn with_obj(self, o: ObjectRef) -> TaskView {
        TaskView { obj: o, ..self }
    }

    pub open spec fn with_obj2(self, o: ObjectRef) -> TaskView {
        TaskView { obj2: o, ..self }
    }

    pub open spec fn at(self, stage: u8) -> TaskView {
        TaskView { stage, pending: Pending::Nothing, ..self }
    }

    pub open spec fn switch(self, kind: TaskKind) -> TaskView {
        TaskView { kind, stage: 0, pending: Pending::Nothing, ..self }
    }

    pub open spec fn awaiting(self, stage: u8, dest: usize, pending: Pending) -> TaskView {
        TaskView { stage, dest, pending, ..self }
    }

    /// The task that builds a service proxy for NetConnection `nc`.
    pub open spec fn build_proxy(nc: ObjectRef, service: Seq<char>, client: AvmValue) -> TaskView {
        TaskView::start(TaskKind::BuildProxy, nc, Seq::empty()).with_reg(0, AvmValue::Object(nc)).with_reg(
            1,
            AvmValue::String(service),
        ).with_reg(2, client)
    }

    /// The task that sends a status event with `code` to `this`.
    pub open spec fn status_event(this: ObjectRef, code: Seq<char>) -> TaskView {
        TaskView::start(TaskKind::StatusEvent, this, Seq::empty()).with_reg(0, AvmValue::String(code))
    }

    /// Argument `i`, `undefined` where there is none.
    pub open spec fn arg(self, i: int) -> AvmValue {
        arg_or(self.args, i, AvmValue::Undefined)
    }
}

impl Task {
    /// A task that starts method `kind` on `this` with `args`.
    pub fn start(kind: TaskKind, this: ObjectRef, args: Vec<Value>) -> (t: Task)
        ensures
            t@ == TaskView::start(kind, this, values_view(args@)),
    {
        let mut regs: Vec<Value> = Vec::new();
        regs.push(Value::Undefined);
        regs.push(Value::Undefined);
        regs.push(Value::Undefined);
        regs.push(Value::Undefined);
        regs.push(Value::Undefined);
        regs.push(Value::Undefined);
        assert(values_view(regs@) =~= undefined_regs());
        Task { kind, stage: 0, this, args, regs, obj: this, obj2: this, dest: 0, pending: Pending::Nothing }
    }

    /// The task that builds a service proxy for NetConnection `nc`.
    pub fn build_proxy(nc: ObjectRef, service: String, client: Value) -> (t: Task)
        ensures
            t@ == TaskView::build_proxy(nc, service@, client@),
    {
        let empty: Vec<Value> = Vec::new();
        assert(values_view(empty@) =~= Seq::<AvmValue>::empty());
        let t = Task::start(TaskKind::BuildProxy, nc, empty);
        t.with_reg(0, Value::Object(nc)).with_reg(1, Value::String(service)).with_reg(2, client)
    }

    /// The task that sends a status event with `code` to `this`.
    pub fn status_event(this: ObjectRef, code: String) -> (t: Task)
        ensures
            t@ == TaskView::status_event(this, code@),
    {
        let empty: Vec<Value> = Vec::new();
        assert(values_view(empty@) =~= Seq::<AvmValue>::empty());
        let t = Task::start(TaskKind::StatusEvent, this, empty);
        t.with_reg(0, Value::String(code))
    }

    fn reg(&self, i: usize) -> (v: Value)
        ensures
            v@ == self@.reg(i as int),
    {
        if i < self.regs.len() {
            self.regs[i].duplicate()
        } else {
            Value::Undefined
        }
    }

    fn arg(&self, i: usize) -> (v: Value)
        ensures
            v@ == self@.arg(i as int),
    {
        arg_or_default(&self.args, i, Value::Undefined)
    }

    fn with_reg(self, i: usize, v: Value) -> (t: Task)
        ensures
            t@ == self@.with_reg(i as int, v@),
    {
        let mut t = self;
        if i < t.regs.len() {
            let ghost vv = v@;
            let ghost before = t.regs@;
            t.regs.set(i, v);
            assert(values_view(t.regs@) =~= values_view(before).update(i as int, vv));
        }
        t
    }

    fn with_obj(self, o: ObjectRef) -> (t: Task)
        ensures
            t@ == self@.with_obj(o),
    {
        let mut t = self;
        t.obj = o;
        t
    }

    fn with_obj2(self, o: ObjectRef) -> (t: Task)
        ensures
            t@ == self@.with_obj2(o),
    {
        let mut t = self;
        t.obj2 = o;
        t
    }

    fn at(self, stage: u8) -> (t: Task)
        ensures
            t@ == self@.at(stage),
    {
        let mut t = self;
        t.stage = stage;
        t.pending = Pending::Nothing;
        t
    }

    fn switch(self, kind: TaskKind) -> (t: Task)
        ensures
            t@ == self@.switch(kind),
    {
        let mut t = self;
        t.kind = kind;
        t.stage = 0;
        t.pending = Pending::Nothing;
        t
    }

    fn awaiting(self, stage: u8, dest: usize, pending: Pending) -> (t: Task)
        ensures
            t@ == self@.awaiting(stage, dest, pending),
    {
        let mut t = self;
        t.stage = stage;
        t.dest = dest;
        t.pending = pending;
        t
    }
}

// ---------------------------------------------------------------------------
// The steps that may need the host.

/// Reads property `name` of `obj` into register `dest`.
pub open spec fn read_step(rt: RuntimeView, t: TaskView, obj: ObjectRef, name: Seq<char>, dest: usize, next: u8) -> StepView {
    match rt.read(obj, name) {
        ReadView::Value(v) => StepView::Next(t.with_reg(dest as int, v).at(next)),
        ReadView::Getter(g) => StepView::Stop(
            ActionView::Ask(RequestView::RunGetter { object: obj, getter: g }, t.awaiting(next, dest, Pending::Read)),
        ),
        ReadView::TooDeep => StepView::Stop(ActionView::Fail(NativeError::PrototypeRecursionLimit)),
    }
}

/// Converts `v` to a string into register `dest`.
pub open spec fn text_step(rt: RuntimeView, t: TaskView, v: AvmValue, dest: usize, next: u8, pending: Pending) -> StepView {
    match rt.to_text(v) {
        Some(s) => StepView::Next(t.with_reg(dest as int, AvmValue::String(s)).at(next)),
        None => StepView::Stop(
            ActionView::Ask(RequestView::ToString { value: v }, t.awaiting(next, dest, pending)),
        ),
    }
}

/// Converts `v` to a boolean into register `dest`.
pub open spec fn flag_step(rt: RuntimeView, t: TaskView, v: AvmValue, dest: usize, next: u8) -> StepView {
    match rt.to_flag(v) {
        Some(b) => StepView::Next(t.with_reg(dest as int, AvmValue::Bool(b)).at(next)),
        None => StepView::Stop(
            ActionView::Ask(RequestView::ToBool { value: v }, t.awaiting(next, dest, Pending::Flag)),
        ),
    }
}

/// Writes `v` to property `name` of `obj`.
pub open spec fn write_step(rt: RuntimeView, t: TaskView, obj: ObjectRef, name: Seq<char>, v: AvmValue, next: u8) -> (
    RuntimeView,
    StepView,
) {
    let (rt1, k) = rt.write(obj, name, v);
    (
        rt1,
        match k {
            WriteKind::Done => StepView::Next(t.at(next)),
            WriteKind::Setter => StepView::Stop(
                ActionView::Ask(
                    RequestView::RunSetter { object: obj, name, value: v },
                    t.awaiting(next, 0, Pending::Write),
                ),
            ),
            WriteKind::TooDeep => StepView::Stop(ActionView::Fail(NativeError::PrototypeRecursionLimit)),
        },
    )
}

fn do_read(rt: &Runtime, t: Task, obj: ObjectRef, name: String, dest: usize, next: u8) -> (s: Step)
    ensures
        s@ == read_step(rt@, t@, obj, name@, dest, next),
{
    match rt.read_property(obj, &name) {
        ReadOutcome::Value(v) => Step::Next(t.with_reg(dest, v).at(next)),
        ReadOutcome::Getter(g) => Step::Stop(
            Action::Ask(HostRequest::RunGetter { object: obj, getter: g }, t.awaiting(next, dest, Pending::Read)),
        ),
        ReadOutcome::TooDeep => Step::Stop(Action::Fail(NativeError::PrototypeRecursionLimit)),
    }
}

fn do_text(rt: &Runtime, t: Task, v: Value, dest: usize, next: u8, pending: Pending) -> (s: Step)
    ensures
        s@ == text_step(rt@, t@, v@, dest, next, pending),
{
    match rt.to_text(&v) {
        Some(s) => Step::Next(t.with_reg(dest, Value::String(s)).at(next)),
        None => Step::Stop(Action::Ask(HostRequest::ToString { value: v }, t.awaiting(next, dest, pending))),
    }
}

fn do_flag(rt: &Runtime, t: Task, v: Value, dest: usize, next: u8) -> (s: Step)
    ensures
        s@ == flag_step(rt@, t@, v@, dest, next),
{
    match rt.to_flag(&v) {
        Some(b) => Step::Next(t.with_reg(dest, Value::Bool(b)).at(next)),
        None => Step::Stop(Action::Ask(HostRequest::ToBool { value: v }, t.awaiting(next, dest, Pending::Flag))),
    }
}

fn do_write(rt: &mut Runtime, t: Task, obj: ObjectRef, name: String, v: Value, next: u8) -> (s: Step)
    ensures
        (final(rt)@, s@) == write_step(old(rt)@, t@, obj, name@, v@, next),
{
    let name2 = name.clone();
    let v2 = v.duplicate();
    match rt.write_property(obj, name, v) {
        WriteKind::Done => Step::Next(t.at(next)),
        WriteKind::Setter => Step::Stop(
            Action::Ask(HostRequest::RunSetter { object: obj, name: name2, value: v2 }, t.awaiting(next, 0, Pending::Write)),
        ),
        WriteKind::TooDeep => Step::Stop(Action::Fail(NativeError::PrototypeRecursionLimit)),
    }
}

// ---------------------------------------------------------------------------
// The methods, step by step.

/// `call`: trace line, command, send.
pub open spec fn call_step(rt: RuntimeView, t: TaskView) -> (RuntimeView, StepView) {
    if t.stage == 0 {
        if t.args.len() > 0 {
            (rt, text_step(rt, t, t.args[0], 0, 1, Pending::TraceText))
        } else {
            (rt, StepView::Next(t.at(2)))
        }
    } else if t.stage == 1 {
        (
            rt.emit(EffectView::TraceCall { realcall: false, method: text_of(t.reg(0)), args: t.args }),
            StepView::Next(t.at(2)),
        )
    } else if t.stage == 2 {
        match rt.cast(AvmValue::Object(t.this)) {
            None => (rt, StepView::Stop(ActionView::Return(AvmValue::Undefined))),
            Some(_) => (rt, text_step(rt, t, t.arg(0), 1, 3, Pending::Text)),
        }
    } else if t.stage == 3 {
        match rt.handle_of(t.this) {
            Some(h) => if t.args.len() > 1 {
                let (rt1, responder) = rt.to_object(t.args[1]);
                (
                    rt1.emit(
                        EffectView::Send {
                            handle: h,
                            command: text_of(t.reg(1)),
                            args: values_after(t.args, 2),
                            responder: Some(responder),
                        },
                    ),
                    StepView::Stop(ActionView::Return(AvmValue::Undefined)),
                )
            } else {
                (
                    rt.emit(
                        EffectView::Send {
                            handle: h,
                            command: text_of(t.reg(1)),
                            args: values_after(t.args, 2),
                            responder: None,
                        },
                    ),
                    StepView::Stop(ActionView::Return(AvmValue::Undefined)),
                )
            },
            None => (rt, StepView::Stop(ActionView::Return(AvmValue::Undefined))),
        }
    } else {
        (rt, StepView::Stop(ActionView::Return(AvmValue::Undefined)))
    }
}

fn do_call_step(rt: &mut Runtime, t: Task) -> (s: Step)
    requires
        t@.kind == TaskKind::Call,
    ensures
        (final(rt)@, s@) == call_step(old(rt)@, t@),
{
    if t.stage == 0 {
        if t.args.len() > 0 {
            let v = t.args[0].duplicate();
            do_text(rt, t, v, 0, 1, Pending::TraceText)
        } else {
            Step::Next(t.at(2))
        }
    } else if t.stage == 1 {
        let method = text_of_value(&t.reg(0));
        let args = values_from(&t.args, 0);
        assert(values_after(t@.args, 0) =~= t@.args);
        rt.emit(Effect::TraceCall { realcall: false, method, args });
        Step::Next(t.at(2))
    } else if t.stage == 2 {
        match rt.cast(&Value::Object(t.this)) {
            None => Step::Stop(Action::Return(Value::Undefined)),
            Some(_) => {
                let v = t.arg(0);
                do_text(rt, t, v, 1, 3, Pending::Text)
            },
        }
    } else if t.stage == 3 {
        match rt.handle_of(t.this) {
            Some(h) => {
                let command = text_of_value(&t.reg(1));
                let arguments = values_from(&t.args, 2);
                if t.args.len() > 1 {
                    let responder = rt.coerce_to_object(t.args[1].duplicate());
                    rt.emit(Effect::Send { handle: h, command, args: arguments, responder: Some(responder) });
                } else {
                    rt.emit(Effect::Send { handle: h, command, args: arguments, responder: None });
                }
                Step::Stop(Action::Return(Value::Undefined))
            },
            None => Step::Stop(Action::Return(Value::Undefined)),
        }
    } else {
        Step::Stop(Action::Return(Value::Undefined))
    }
}

/// `realcall`: its own trace line, then `call`.
pub open spec fn realcall_step(rt: RuntimeView, t: TaskView) -> (RuntimeView, StepView) {
    if t.stage == 0 {
        if t.args.len() > 0 {
            (rt, text_step(rt, t, t.args[0], 0, 1, Pending::TraceText))
        } else {
            (rt, StepView::Next(t.switch(TaskKind::Call)))
        }
    } else if t.stage == 1 {
        (
            rt.emit(EffectView::TraceCall { realcall: true, method: text_of(t.reg(0)), args: t.args }),
            StepView::Next(t.switch(TaskKind::Call)),
        )
    } else {
        (rt, StepView::Stop(ActionView::Return(AvmValue::Undefined)))
    }
}

fn do_realcall_step(rt: &mut Runtime, t: Task) -> (s: Step)
    ensures
        (final(rt)@, s@) == realcall_step(old(rt)@, t@),
{
    if t.stage == 0 {
        if t.args.len() > 0 {
            let v = t.args[0].duplicate();
            do_text(rt, t, v, 0, 1, Pending::TraceText)
        } else {
            Step::Next(t.switch(TaskKind::Call))
        }
    } else if t.stage == 1 {
        let method = text_of_value(&t.reg(0));
        let args = values_from(&t.args, 0);
        assert(values_after(t@.args, 0) =~= t@.args);
        rt.emit(Effect::TraceCall { realcall: true, method, args });
        Step::Next(t.switch(TaskKind::Call))
    } else {
        Step::Stop(Action::Return(Value::Undefined))
    }
}

/// `addHeader`: name, flag, header.
pub open spec fn add_header_step(rt: RuntimeView, t: TaskView) -> (RuntimeView, StepView) {
    if t.stage == 0 {
        match rt.cast(AvmValue::Object(t.this)) {
            None => (rt, StepView::Stop(ActionView::Return(AvmValue::Undefined))),
            Some(_) => (rt, text_step(rt, t, t.arg(0), 0, 1, Pending::Text)),
        }
    } else if t.stage == 1 {
        (rt, flag_step(rt, t, arg_or(t.args, 1, AvmValue::Bool(true)), 1, 2))
    } else if t.stage == 2 {
        match rt.handle_of(t.this) {
            Some(h) => (
                rt.emit(
                    EffectView::SetHeader {
                        handle: h,
                        name: text_of(t.reg(0)),
                        must_understand: flag_of(t.reg(1)),
                        value: arg_or(t.args, 2, AvmValue::Null),
                    },
                ),
                StepView::Stop(ActionView::Return(AvmValue::Undefined)),
            ),
            None => (rt, StepView::Stop(ActionView::Return(AvmValue::Undefined))),
        }
    } else {
        (rt, StepView::Stop(ActionView::Return(AvmValue::Undefined)))
    }
}

fn do_add_header_step(rt: &mut Runtime, t: Task) -> (s: Step)
    ensures
        (final(rt)@, s@) == add_header_step(old(rt)@, t@),
{
    if t.stage == 0 {
        match rt.cast(&Value::Object(t.this)) {
            None => Step::Stop(Action::Return(Value::Undefined)),
            Some(_) => {
                let v = t.arg(0);
                do_text(rt, t, v, 0, 1, Pending::Text)
            },
        }
    } else if t.stage == 1 {
        let v = arg_or_default(&t.args, 1, Value::Bool(true));
        do_flag(rt, t, v, 1, 2)
    } else if t.stage == 2 {
        match rt.handle_of(t.this) {
            Some(h) => {
                let name = text_of_value(&t.reg(0));
                let must_understand = flag_of_value(&t.reg(1));
                let value = arg_or_default(&t.args, 2, Value::Null);
                rt.emit(Effect::SetHeader { handle: h, name, must_understand, value });
                Step::Stop(Action::Return(Value::Undefined))
            },
            None => Step::Stop(Action::Return(Value::Undefined)),
        }
    } else {
        Step::Stop(Action::Return(Value::Undefined))
    }
}

/// `connect`: trace line, then a local connection, a Flash Remoting
/// connection or the not-implemented report.
pub open spec fn connect_step(rt: RuntimeView, t: TaskView) -> (RuntimeView, StepView) {
    if t.stage == 0 {
        if t.args.len() > 0 {
            (rt, text_step(rt, t, t.args[0], 0, 1, Pending::TraceText))
        } else {
            (rt, StepView::Next(t.at(2)))
        }
    } else if t.stage == 1 {
        (rt.emit(EffectView::TraceConnect { url: text_of(t.reg(0)) }), StepView::Next(t.at(2)))
    } else if t.stage == 2 {
        if is_nullish(t.arg(0)) {
            (
                rt.emit(EffectView::ConnectToLocal { target: t.this }),
                StepView::Stop(ActionView::Return(AvmValue::Undefined)),
            )
        } else {
            (rt, text_step(rt, t, t.arg(0), 1, 3, Pending::Text))
        }
    } else if t.stage == 3 {
        let url = text_of(t.reg(1));
        if is_remoting_url(url) {
            (
                rt.emit(EffectView::ConnectToFlashRemoting { target: t.this, url }),
                StepView::Stop(ActionView::Return(AvmValue::Undefined)),
            )
        } else {
            (
                rt.emit(
                    EffectView::Stub {
                        class_name: "NetConnection"@,
                        method: "connect"@,
                        specifics: "with non-null, non-http command"@,
                    },
                ),
                StepView::Stop(ActionView::Return(AvmValue::Undefined)),
            )
        }
    } else {
        (rt, StepView::Stop(ActionView::Return(AvmValue::Undefined)))
    }
}

fn do_connect_step(rt: &mut Runtime, t: Task) -> (s: Step)
    ensures
        (final(rt)@, s@) == connect_step(old(rt)@, t@),
{
    if t.stage == 0 {
        if t.args.len() > 0 {
            let v = t.args[0].duplicate();
            do_text(rt, t, v, 0, 1, Pending::TraceText)
        } else {
            Step::Next(t.at(2))
        }
    } else if t.stage == 1 {
        let url = text_of_value(&t.reg(0));
        rt.emit(Effect::TraceConnect { url });
        Step::Next(t.at(2))
    } else if t.stage == 2 {
        if t.arg(0).is_nullish() {
            rt.emit(Effect::ConnectToLocal { target: t.this });
            Step::Stop(Action::Return(Value::Undefined))
        } else {
            let v = t.arg(0);
            do_text(rt, t, v, 1, 3, Pending::Text)
        }
    } else if t.stage == 3 {
        let url = text_of_value(&t.reg(1));
        if starts_with(&url, "http://") || starts_with(&url, "https://") {
            rt.emit(Effect::ConnectToFlashRemoting { target: t.this, url });
        } else {
            rt.emit(
                Effect::Stub {
                    class_name: String::from_str("NetConnection"),
                    method: String::from_str("connect"),
                    specifics: String::from_str("with non-null, non-http command"),
                },
            );
        }
        Step::Stop(Action::Return(Value::Undefined))
    } else {
        Step::Stop(Action::Return(Value::Undefined))
    }
}

/// `getService`: trace line, connection check, service name, then the proxy.
pub open spec fn get_service_step(rt: RuntimeView, t: TaskView) -> (RuntimeView, StepView) {
    if t.stage == 0 {
        let rt1 = rt.emit(EffectView::TraceGetService);
        match rt1.cast(AvmValue::Object(t.this)) {
            None => (rt1, StepView::Stop(ActionView::Return(AvmValue::Undefined))),
            Some(r) => if !rt1.net_connection_connected(r) {
                (rt1, StepView::Stop(ActionView::Return(AvmValue::Undefined)))
            } else {
                (rt1, text_step(rt1, t, t.arg(0), 0, 1, Pending::Text))
            },
        }
    } else if t.stage == 1 {
        (rt, StepView::Next(TaskView::build_proxy(t.this, text_of(t.reg(0)), t.arg(1))))
    } else {
        (rt, StepView::Stop(ActionView::Return(AvmValue::Undefined)))
    }
}

fn do_get_service_step(rt: &mut Runtime, t: Task) -> (s: Step)
    ensures
        (final(rt)@, s@) == get_service_step(old(rt)@, t@),
{
    if t.stage == 0 {
        rt.emit(Effect::TraceGetService);
        match rt.cast(&Value::Object(t.this)) {
            None => Step::Stop(Action::Return(Value::Undefined)),
            Some(r) => {
                let connected = match rt.handle_of(r) {
                    Some(h) => rt.connection_is_connected(h),
                    None => false,
                };
                if !connected {
                    Step::Stop(Action::Return(Value::Undefined))
                } else {
                    let v = t.arg(0);
                    do_text(rt, t, v, 0, 1, Pending::Text)
                }
            },
        }
    } else if t.stage == 1 {
        let service = text_of_value(&t.reg(0));
        let client = t.arg(1);
        Step::Next(Task::build_proxy(t.this, service, client))
    } else {
        Step::Stop(Action::Return(Value::Undefined))
    }
}

/// Building a service proxy from `nc` (register 0), the service name
/// (register 1) and the client (register 2).
pub open spec fn build_proxy_step(rt: RuntimeView, t: TaskView) -> (RuntimeView, StepView) {
    if t.stage == 0 {
        let (rt1, p) = rt.new_object();
        (rt1, StepView::Next(t.with_obj(p).at(1)))
    } else if t.stage == 1 {
        write_step(rt, t, t.obj, "nc"@, t.reg(0), 2)
    } else if t.stage == 2 {
        write_step(rt, t, t.obj, "serviceName"@, t.reg(1), 3)
    } else if t.stage == 3 {
        write_step(rt, t, t.obj, "client"@, t.reg(2), 4)
    } else if t.stage == 4 {
        let (rt1, f) = rt.new_function(
            NativeMethod::ServiceProxyResolve,
            rt.function_proto,
            Some(rt.object_proto),
        );
        (rt1, StepView::Next(t.with_reg(3, AvmValue::Object(f)).at(5)))
    } else if t.stage == 5 {
        write_step(rt, t, t.obj, "__resolve"@, t.reg(3), 6)
    } else {
        (rt, StepView::Stop(ActionView::Return(AvmValue::Object(t.obj))))
    }
}

fn do_build_proxy_step(rt: &mut Runtime, t: Task) -> (s: Step)
    ensures
        (final(rt)@, s@) == build_proxy_step(old(rt)@, t@),
{
    if t.stage == 0 {
        let p = rt.new_object();
        Step::Next(t.with_obj(p).at(1))
    } else if t.stage == 1 {
        let (o, v) = (t.obj, t.reg(0));
        do_write(rt, t, o, String::from_str("nc"), v, 2)
    } else if t.stage == 2 {
        let (o, v) = (t.obj, t.reg(1));
        do_write(rt, t, o, String::from_str("serviceName"), v, 3)
    } else if t.stage == 3 {
        let (o, v) = (t.obj, t.reg(2));
        do_write(rt, t, o, String::from_str("client"), v, 4)
    } else if t.stage == 4 {
        let function_proto = rt.function_proto;
        let object_proto = rt.object_proto;
        let f = rt.new_native_function(NativeMethod::ServiceProxyResolve, function_proto, Some(object_proto));
        Step::Next(t.with_reg(3, Value::Object(f)).at(5))
    } else if t.stage == 5 {
        let (o, v) = (t.obj, t.reg(3));
        do_write(rt, t, o, String::from_str("__resolve"), v, 6)
    } else {
        Step::Stop(Action::Return(Value::Object(t.obj)))
    }
}

/// `__resolve(name)`: records the name and gives the calling function.
pub open spec fn resolve_step(rt: RuntimeView, t: TaskView) -> (RuntimeView, StepView) {
    if t.stage == 0 {
        (rt, text_step(rt, t, t.arg(0), 0, 1, Pending::Text))
    } else if t.stage == 1 {
        write_step(rt, t, t.this, "__currentMethod"@, t.reg(0), 2)
    } else {
        let (rt1, f) = rt.new_function(
            NativeMethod::ServiceProxyCall,
            rt.function_proto,
            Some(rt.object_proto),
        );
        (rt1, StepView::Stop(ActionView::Return(AvmValue::Object(f))))
    }
}

fn do_resolve_step(rt: &mut Runtime, t: Task) -> (s: Step)
    ensures
        (final(rt)@, s@) == resolve_step(old(rt)@, t@),
{
    if t.stage == 0 {
        let v = t.arg(0);
        do_text(rt, t, v, 0, 1, Pending::Text)
    } else if t.stage == 1 {
        let (o, v) = (t.this, t.reg(0));
        do_write(rt, t, o, String::from_str("__currentMethod"), v, 2)
    } else {
        let function_proto = rt.function_proto;
        let object_proto = rt.object_proto;
        let f = rt.new_native_function(NativeMethod::ServiceProxyCall, function_proto, Some(object_proto));
        Step::Stop(Action::Return(Value::Object(f)))
    }
}

/// The arguments of the call that a proxy call makes.
pub open spec fn proxy_call_args(t: TaskView) -> Seq<AvmValue> {
    seq![
        AvmValue::String(text_of(t.reg(1)) + "."@ + text_of(t.reg(2))),
        if is_nullish(t.reg(3)) {
            AvmValue::Null
        } else {
            AvmValue::Object(t.obj2)
        },
    ] + t.args
}

/// A call through a proxy: reads `nc`, `serviceName`, `__currentMethod` and
/// `client`, makes the responder where there is a client, then calls
/// `nc.call`.
pub open spec fn proxy_call_step(rt: RuntimeView, t: TaskView) -> (RuntimeView, StepView) {
    if t.stage == 0 {
        (rt, read_step(rt, t, t.this, "nc"@, 0, 1))
    } else if t.stage == 1 {
        let (rt1, nc) = rt.to_object(t.reg(0));
        (rt1, StepView::Next(t.with_obj(nc).at(2)))
    } else if t.stage == 2 {
        (rt, read_step(rt, t, t.this, "serviceName"@, 1, 3))
    } else if t.stage == 3 {
        (rt, text_step(rt, t, t.reg(1), 1, 4, Pending::Text))
    } else if t.stage == 4 {
        (rt, read_step(rt, t, t.this, "__currentMethod"@, 2, 5))
    } else if t.stage == 5 {
        (rt, text_step(rt, t, t.reg(2), 2, 6, Pending::Text))
    } else if t.stage == 6 {
        (rt, read_step(rt, t, t.this, "client"@, 3, 7))
    } else if t.stage == 7 {
        if is_nullish(t.reg(3)) {
            (rt, StepView::Next(t.at(14)))
        } else {
            let (rt1, r) = rt.new_object();
            (rt1, StepView::Next(t.with_obj2(r).at(8)))
        }
    } else if t.stage == 8 {
        write_step(rt, t, t.obj2, "client"@, t.reg(3), 9)
    } else if t.stage == 9 {
        write_step(rt, t, t.obj2, "methodName"@, t.reg(2), 10)
    } else if t.stage == 10 {
        let (rt1, f) = rt.new_function(
            NativeMethod::ServiceProxyOnResult,
            rt.function_proto,
            Some(rt.object_proto),
        );
        (rt1, StepView::Next(t.with_reg(4, AvmValue::Object(f)).at(11)))
    } else if t.stage == 11 {
        write_step(rt, t, t.obj2, "onResult"@, t.reg(4), 12)
    } else if t.stage == 12 {
        let (rt1, f) = rt.new_function(
            NativeMethod::ServiceProxyOnStatus,
            rt.function_proto,
            Some(rt.object_proto),
        );
        (rt1, StepView::Next(t.with_reg(5, AvmValue::Object(f)).at(13)))
    } else if t.stage == 13 {
        write_step(rt, t, t.obj2, "onStatus"@, t.reg(5), 14)
    } else {
        (
            rt.emit(
                EffectView::CallMethod {
                    target: t.obj,
                    name: "call"@,
                    args: proxy_call_args(t),
                    reason: ExecutionReason::FunctionCall,
                },
            ),
            StepView::Stop(ActionView::ResultOfLastCall),
        )
    }
}

fn do_proxy_call_step(rt: &mut Runtime, t: Task) -> (s: Step)
    ensures
        (final(rt)@, s@) == proxy_call_step(old(rt)@, t@),
{
    if t.stage == 0 {
        let o = t.this;
        do_read(rt, t, o, String::from_str("nc"), 0, 1)
    } else if t.stage == 1 {
        let nc = rt.coerce_to_object(t.reg(0));
        Step::Next(t.with_obj(nc).at(2))
    } else if t.stage == 2 {
        let o = t.this;
        do_read(rt, t, o, String::from_str("serviceName"), 1, 3)
    } else if t.stage == 3 {
        let v = t.reg(1);
        do_text(rt, t, v, 1, 4, Pending::Text)
    } else if t.stage == 4 {
        let o = t.this;
        do_read(rt, t, o, String::from_str("__currentMethod"), 2, 5)
    } else if t.stage == 5 {
        let v = t.reg(2);
        do_text(rt, t, v, 2, 6, Pending::Text)
    } else if t.stage == 6 {
        let o = t.this;
        do_read(rt, t, o, String::from_str("client"), 3, 7)
    } else if t.stage == 7 {
        if t.reg(3).is_nullish() {
            Step::Next(t.at(14))
        } else {
            let r = rt.new_object();
            Step::Next(t.with_obj2(r).at(8))
        }
    } else if t.stage == 8 {
        let (o, v) = (t.obj2, t.reg(3));
        do_write(rt, t, o, String::from_str("client"), v, 9)
    } else if t.stage == 9 {
        let (o, v) = (t.obj2, t.reg(2));
        do_write(rt, t, o, String::from_str("methodName"), v, 10)
    } else if t.stage == 10 {
        let function_proto = rt.function_proto;
        let object_proto = rt.object_proto;
        let f = rt.new_native_function(NativeMethod::ServiceProxyOnResult, function_proto, Some(object_proto));
        Step::Next(t.with_reg(4, Value::Object(f)).at(11))
    } else if t.stage == 11 {
        let (o, v) = (t.obj2, t.reg(4));
        do_write(rt, t, o, String::from_str("onResult"), v, 12)
    } else if t.stage == 12 {
        let function_proto = rt.function_proto;
        let object_proto = rt.object_proto;
        let f = rt.new_native_function(NativeMethod::ServiceProxyOnStatus, function_proto, Some(object_proto));
        Step::Next(t.with_reg(5, Value::Object(f)).at(13))
    } else if t.stage == 13 {
        let (o, v) = (t.obj2, t.reg(5));
        do_write(rt, t, o, String::from_str("onStatus"), v, 14)
    } else {
        let service = text_of_value(&t.reg(1));
        let method = text_of_value(&t.reg(2));
        let full = service.concat(".").concat(method.as_str());
        let responder = if t.reg(3).is_nullish() {
            Value::Null
        } else {
            Value::Object(t.obj2)
        };
        let ghost head = seq![AvmValue::String(full@), responder@];
        let mut call_args: Vec<Value> = Vec::new();
        call_args.push(Value::String(full));
        call_args.push(responder);
        assert(values_view(call_args@) =~= head);
        extend_values(&mut call_args, &t.args);
        assert(values_view(call_args@) =~= proxy_call_args(t@));
        rt.emit(
            Effect::CallMethod {
                target: t.obj,
                name: String::from_str("call"),
                args: call_args,
                reason: ExecutionReason::FunctionCall,
            },
        );
        Step::Stop(Action::ResultOfLastCall)
    }
}

/// The name a responder callback forwards to: `_Result` or `_Status` appended.
pub open spec fn callback_suffix(kind: TaskKind) -> Seq<char> {
    if kind == TaskKind::OnResult {
        "_Result"@
    } else {
        "_Status"@
    }
}

/// A responder callback: reads `client` and `methodName`; where there is a
/// client, calls `client[methodName + suffix](...args)`.
pub open spec fn callback_step(rt: RuntimeView, t: TaskView) -> (RuntimeView, StepView) {
    if t.stage == 0 {
        (rt, read_step(rt, t, t.this, "client"@, 0, 1))
    } else if t.stage == 1 {
        (rt, read_step(rt, t, t.this, "methodName"@, 1, 2))
    } else if t.stage == 2 {
        (rt, text_step(rt, t, t.reg(1), 1, 3, Pending::Text))
    } else if !is_nullish(t.reg(0)) {
        let (rt1, client) = rt.to_object(t.reg(0));
        (
            rt1.emit(
                EffectView::CallMethod {
                    target: client,
                    name: text_of(t.reg(1)) + callback_suffix(t.kind),
                    args: t.args,
                    reason: ExecutionReason::FunctionCall,
                },
            ),
            StepView::Stop(ActionView::Return(AvmValue::Undefined)),
        )
    } else {
        (rt, StepView::Stop(ActionView::Return(AvmValue::Undefined)))
    }
}

fn do_callback_step(rt: &mut Runtime, t: Task) -> (s: Step)
    ensures
        (final(rt)@, s@) == callback_step(old(rt)@, t@),
{
    if t.stage == 0 {
        let o = t.this;
        do_read(rt, t, o, String::from_str("client"), 0, 1)
    } else if t.stage == 1 {
        let o = t.this;
        do_read(rt, t, o, String::from_str("methodName"), 1, 2)
    } else if t.stage == 2 {
        let v = t.reg(1);
        do_text(rt, t, v, 1, 3, Pending::Text)
    } else if !t.reg(0).is_nullish() {
        let client = rt.coerce_to_object(t.reg(0));
        let method = text_of_value(&t.reg(1));
        let name = if t.kind == TaskKind::OnResult {
            method.concat("_Result")
        } else {
            method.concat("_Status")
        };
        let args = values_from(&t.args, 0);
        assert(values_after(t@.args, 0) =~= t@.args);
        rt.emit(Effect::CallMethod { target: client, name, args, reason: ExecutionReason::FunctionCall });
        Step::Stop(Action::Return(Value::Undefined))
    } else {
        Step::Stop(Action::Return(Value::Undefined))
    }
}

/// A status event with code (register 0): the event object, its `code` and
/// `level`, then `this.onStatus(event)`; nothing without a root movie.
pub open spec fn status_event_step(rt: RuntimeView, t: TaskView) -> (RuntimeView, StepView) {
    if t.stage == 0 {
        if !rt.has_root_clip {
            (rt, StepView::Stop(ActionView::Return(AvmValue::Undefined)))
        } else {
            let (rt1, e) = rt.new_object();
            (rt1, StepView::Next(t.with_obj(e).at(1)))
        }
    } else if t.stage == 1 {
        write_step(rt, t, t.obj, "code"@, t.reg(0), 2)
    } else if t.stage == 2 {
        write_step(rt, t, t.obj, "level"@, AvmValue::String("status"@), 3)
    } else {
        (
            rt.emit(
                EffectView::CallMethod {
                    target: t.this,
                    name: "onStatus"@,
                    args: seq![AvmValue::Object(t.obj)],
                    reason: ExecutionReason::Special,
                },
            ),
            StepView::Stop(ActionView::Return(AvmValue::Undefined)),
        )
    }
}

fn do_status_event_step(rt: &mut Runtime, t: Task) -> (s: Step)
    ensures
        (final(rt)@, s@) == status_event_step(old(rt)@, t@),
{
    if t.stage == 0 {
        if !rt.has_root_clip {
            Step::Stop(Action::Return(Value::Undefined))
        } else {
            let e = rt.new_object();
            Step::Next(t.with_obj(e).at(1))
        }
    } else if t.stage == 1 {
        let (o, v) = (t.obj, t.reg(0));
        do_write(rt, t, o, String::from_str("code"), v, 2)
    } else if t.stage == 2 {
        let o = t.obj;
        do_write(rt, t, o, String::from_str("level"), Value::String(String::from_str("status")), 3)
    } else {
        let mut args: Vec<Value> = Vec::new();
        args.push(Value::Object(t.obj));
        assert(values_view(args@) =~= seq![AvmValue::Object(t@.obj)]);
        rt.emit(
            Effect::CallMethod {
                target: t.this,
                name: String::from_str("onStatus"),
                args,
                reason: ExecutionReason::Special,
            },
        );
        Step::Stop(Action::Return(Value::Undefined))
    }
}

// ---------------------------------------------------------------------------
// Running and continuing tasks.

/// One step of any task.
pub open spec fn step_spec(rt: RuntimeView, t: TaskView) -> (RuntimeView, StepView) {
    match t.kind {
        TaskKind::Call => call_step(rt, t),
        TaskKind::RealCall => realcall_step(rt, t),
        TaskKind::AddHeader => add_header_step(rt, t),
        TaskKind::Connect => connect_step(rt, t),
        TaskKind::GetService => get_service_step(rt, t),
        TaskKind::BuildProxy => build_proxy_step(rt, t),
        TaskKind::Resolve => resolve_step(rt, t),
        TaskKind::ProxyCall => proxy_call_step(rt, t),
        TaskKind::OnResult => callback_step(rt, t),
        TaskKind::OnStatus => callback_step(rt, t),
        TaskKind::StatusEvent => status_event_step(rt, t),
    }
}

fn do_step(rt: &mut Runtime, t: Task) -> (s: Step)
    ensures
        (final(rt)@, s@) == step_spec(old(rt)@, t@),
{
    match t.kind {
        TaskKind::Call => do_call_step(rt, t),
        TaskKind::RealCall => do_realcall_step(rt, t),
        TaskKind::AddHeader => do_add_header_step(rt, t),
        TaskKind::Connect => do_connect_step(rt, t),
        TaskKind::GetService => do_get_service_step(rt, t),
        TaskKind::BuildProxy => do_build_proxy_step(rt, t),
        TaskKind::Resolve => do_resolve_step(rt, t),
        TaskKind::ProxyCall => do_proxy_call_step(rt, t),
        TaskKind::OnResult => do_callback_step(rt, t),
        TaskKind::OnStatus => do_callback_step(rt, t),
        TaskKind::StatusEvent => do_status_event_step(rt, t),
    }
}

/// Tasks that hand over to another task rank above it.
pub open spec fn rank(kind: TaskKind) -> nat {
    match kind {
        TaskKind::RealCall => 2,
        TaskKind::GetService => 2,
        _ => 1,
    }
}

/// What a step decreases.
pub open spec fn measure(t: TaskView) -> nat {
    rank(t.kind) * 256 + (255 - t.stage) as nat
}

fn measure_of(t: &Task) -> (m: u64)
    ensures
        m == measure(t@),
{
    let r: u64 = match t.kind {
        TaskKind::RealCall => 2,
        TaskKind::GetService => 2,
        _ => 1,
    };
    r * 256 + (255 - t.stage as u64)
}

/// Runs task `t` until it ends or needs the host.
pub open spec fn run_spec(rt: RuntimeView, t: TaskView) -> (RuntimeView, ActionView)
    decreases measure(t),
{
    let (rt1, s) = step_spec(rt, t);
    match s {
        StepView::Stop(a) => (rt1, a),
        StepView::Next(t2) => if measure(t2) < measure(t) {
            run_spec(rt1, t2)
        } else {
            (rt1, ActionView::Return(AvmValue::Undefined))
        },
    }
}

/// Runs task `t` until it ends or needs the host.
pub fn run(rt: &mut Runtime, task: Task) -> (a: Action)
    ensures
        (final(rt)@, a@) == run_spec(old(rt)@, task@),
{
    let mut t = task;
    loop
        invariant
            run_spec(rt@, t@) == run_spec(old(rt)@, task@),
        decreases measure(t@),
    {
        let m = measure_of(&t);
        let ghost rt0 = rt@;
        let ghost t0 = t@;
        let s = do_step(rt, t);
        match s {
            Step::Stop(a) => {
                assert(run_spec(rt0, t0) == (rt@, a@));
                return a;
            },
            Step::Next(t2) => {
                if measure_of(&t2) < m {
                    t = t2;
                } else {
                    return Action::Return(Value::Undefined);
                }
            },
        }
    }
}

/// The task after the host's answer: an error ends it (but for a trace line,
/// which reads `<error>`); a value goes to the register the task named.
pub open spec fn apply_answer(t: TaskView, a: AnswerView) -> StepView {
    match a {
        AnswerView::Threw(e) => if t.pending == Pending::TraceText {
            StepView::Next(t.with_reg(t.dest as int, AvmValue::String("<error>"@)).at(t.stage))
        } else {
            StepView::Stop(ActionView::Fail(NativeError::Thrown(e)))
        },
        AnswerView::Returned(v) => if t.pending == Pending::Write || t.pending == Pending::Nothing {
            StepView::Next(t.at(t.stage))
        } else {
            StepView::Next(t.with_reg(t.dest as int, v).at(t.stage))
        },
    }
}

/// Continuing task `t` with the host's answer `a`.
pub open spec fn resume_spec(rt: RuntimeView, t: TaskView, a: AnswerView) -> (RuntimeView, ActionView) {
    match apply_answer(t, a) {
        StepView::Stop(x) => (rt, x),
        StepView::Next(t2) => run_spec(rt, t2),
    }
}

/// Whether `a` is an answer of the kind task `t` waits for: a string for a
/// string conversion, a boolean for a boolean conversion.
pub open spec fn answer_fits(t: TaskView, a: AnswerView) -> bool {
    match a {
        AnswerView::Returned(v) => {
            &&& (t.pending == Pending::Text || t.pending == Pending::TraceText) ==> v is String
            &&& t.pending == Pending::Flag ==> v is Bool
        },
        AnswerView::Threw(_) => true,
    }
}

/// What continuing `call` or `realcall` needs: at least two arguments where
/// `this` is a NetConnection (the virtual machine panics on fewer).
pub open spec fn call_task_ready(rt: RuntimeView, t: TaskView) -> bool {
    (t.kind == TaskKind::Call || t.kind == TaskKind::RealCall) ==> (rt.cast(AvmValue::Object(t.this)) is Some
        ==> t.args.len() >= 2)
}

/// Continues task `task` with the host's `answer` to its request.
pub fn resume(rt: &mut Runtime, task: Task, answer: HostAnswer) -> (a: Action)
    requires
        answer_fits(task@, answer@),
        call_task_ready(old(rt)@, task@),
    ensures
        (final(rt)@, a@) == resume_spec(old(rt)@, task@, answer@),
{
    let pending = task.pending;
    let dest = task.dest;
    let stage = task.stage;
    match answer {
        HostAnswer::Threw(e) => {
            if pending == Pending::TraceText {
                let t = task.with_reg(dest, Value::String(String::from_str("<error>"))).at(stage);
                run(rt, t)
            } else {
                Action::Fail(NativeError::Thrown(e))
            }
        },
        HostAnswer::Returned(v) => {
            if pending == Pending::Write || pending == Pending::Nothing {
                run(rt, task.at(stage))
            } else {
                run(rt, task.with_reg(dest, v).at(stage))
            }
        },
    }
}

} // verus!
