//! The runtime meaning of the generated artifacts: commands as data, the
//! dispatcher's application of a command to an implementation, the single-use
//! reply slot, and the proxy's end-to-end call path.  The generated call
//! contract — each command consumed exactly once, each reply written and
//! read at most once — is stated and proved here.

use crate::model::InputData;
use crate::model::ReceiverStyle;
use crate::model::spec_can_call;
use crate::returnval::FailedToSendReturnValue;
use crate::returnval::RecvFailed;
use crate::value::Value;
use crate::value::ValueV;
use crate::value::duplicate_values;
use crate::value::to_owned_value;
use vstd::prelude::*;

verus! {

/// One observed invocation: which method, with which argument values.
#[derive(Debug, PartialEq, Eq)]
pub struct CallRecord {
    pub method: usize,
    pub args: Vec<Value>,
}

/// Mathematical shape of an observed invocation.
pub struct CallRecordV {
    pub method: int,
    pub args: Seq<ValueV>,
}

impl View for CallRecord {
    type V = CallRecordV;

    open spec fn view(&self) -> CallRecordV {
        CallRecordV { method: self.method as int, args: self.args.deep_view() }
    }
}

impl DeepView for CallRecord {
    type V = CallRecordV;

    open spec fn deep_view(&self) -> CallRecordV {
        self.view()
    }
}

/// A recording implementation of an interface: it logs every call it
/// observes, and answers method `i` with its `i`-th configured return
/// value.
#[derive(Debug)]
pub struct SimImpl {
    pub rets: Vec<Value>,
    pub calls: Vec<CallRecord>,
}

/// Mathematical shape of a recording implementation.
pub struct SimImplV {
    pub rets: Seq<ValueV>,
    pub calls: Seq<CallRecordV>,
}

impl View for SimImpl {
    type V = SimImplV;

    open spec fn view(&self) -> SimImplV {
        SimImplV { rets: self.rets.deep_view(), calls: self.calls.deep_view() }
    }
}

/// An implementation is compatible with an interface when it configures one
/// answer per method.
pub open spec fn impl_compatible(d: InputData, imp: SimImplV) -> bool {
    imp.rets.len() == d.methods@.len()
}

/// One call captured as data: the method it invokes and the argument values
/// the command stores.
#[derive(Debug)]
pub struct Command {
    pub method: usize,
    pub args: Vec<Value>,
}

/// The deferred runtime failure of a convention-mismatched dispatcher arm,
/// as a value the embedding may treat as fatal.
#[derive(Debug)]
pub enum DispatchError {
    ConventionMismatch { method: String, convention: ReceiverStyle },
}

/// Mathematical shape of a dispatch error.
pub enum DispatchErrorV {
    ConventionMismatch { method: Seq<char>, convention: ReceiverStyle },
}

impl View for DispatchError {
    type V = DispatchErrorV;

    open spec fn view(&self) -> DispatchErrorV {
        match self {
            DispatchError::ConventionMismatch { method, convention } =>
                DispatchErrorV::ConventionMismatch { method: method@, convention: *convention },
        }
    }
}

/// The direct invocation of method `method` with `args` on a recording
/// implementation: the call is logged, and the configured answer returned
/// when the method has a return type.
pub open spec fn spec_direct_call(imp: SimImplV, method: int, args: Seq<ValueV>, has_ret: bool) -> (
    SimImplV,
    Option<ValueV>,
) {
    (
        SimImplV { calls: imp.calls.push(CallRecordV { method, args }), ..imp },
        if has_ret {
            Some(imp.rets[method])
        } else {
            None
        },
    )
}

/// The dispatcher's application of a command at convention `level`: a
/// method the level cannot invoke is a deferred runtime failure that leaves
/// the implementation untouched; otherwise the effect is exactly the direct
/// call's.
pub open spec fn spec_apply_command(
    d: InputData,
    imp: SimImplV,
    level: ReceiverStyle,
    method: int,
    args: Seq<ValueV>,
) -> (SimImplV, Result<Option<ValueV>, DispatchErrorV>) {
    if !spec_can_call(level, d.methods@[method].receiver_style) {
        (
            imp,
            Err(
                DispatchErrorV::ConventionMismatch {
                    method: d.methods@[method].name@,
                    convention: level,
                },
            ),
        )
    } else {
        let (imp2, rep) = spec_direct_call(imp, method, args, d.methods@[method].ret is Some);
        (imp2, Ok(rep))
    }
}

/// Round trip: for a method the dispatcher's convention can invoke,
/// applying a command with given argument shapes changes the implementation
/// exactly as the direct call with those arguments does, and hands back the
/// same reply.
pub proof fn lemma_round_trip(
    d: InputData,
    imp: SimImplV,
    level: ReceiverStyle,
    method: int,
    args: Seq<ValueV>,
)
    requires
        0 <= method < d.methods@.len(),
        spec_can_call(level, d.methods@[method].receiver_style),
    ensures
        ({
            let (di, drep) = spec_direct_call(imp, method, args, d.methods@[method].ret is Some);
            spec_apply_command(d, imp, level, method, args) == (
                di,
                Ok::<Option<ValueV>, DispatchErrorV>(drep),
            )
        }),
{
}

/// Invokes a method directly on a recording implementation.
pub fn call_direct(d: &InputData, imp: &mut SimImpl, method: usize, args: Vec<Value>) -> (r: Option<
    Value,
>)
    requires
        impl_compatible(*d, old(imp)@),
        method < d.methods@.len(),
    ensures
        ({
            let (si, srep) = spec_direct_call(
                old(imp)@,
                method as int,
                args.deep_view(),
                d.methods@[method as int].ret is Some,
            );
            &&& final(imp)@ == si
            &&& (match r {
                Some(v) => srep == Some(v@),
                None => srep is None,
            })
        }),
{
    let reply = match &d.methods[method].ret {
        Some(_rt) => Some(imp.rets[method].duplicate()),
        None => None,
    };
    let ghost pre = imp@;
    imp.calls.push(CallRecord { method, args });
    proof {
        assert(imp.calls.deep_view() =~= pre.calls.push(
            CallRecordV { method: method as int, args: args.deep_view() },
        ));
    }
    reply
}

/// Builds the command a proxy sends for one method call: the arguments are
/// stored in order, each ownership-converted argument as its owned form.
/// The stored shapes are exactly the given arguments' shapes.
pub fn proxy_build_command(d: &InputData, method: usize, args: &Vec<Value>) -> (r: Command)
    requires
        method < d.methods@.len(),
        args@.len() == d.methods@[method as int].args@.len(),
    ensures
        r.method == method,
        r.args.deep_view() == args.deep_view(),
        r.args@.len() == args@.len(),
{
    let m = &d.methods[method];
    let n = args.len();
    let mut stored: Vec<Value> = Vec::new();
    let mut i: usize = 0;
    while i < n
        invariant
            n == args@.len(),
            n == m.args@.len(),
            0 <= i <= n,
            stored@.len() == i,
            forall|j: int| 0 <= j < i ==> stored@[j].deep_view() == args@[j].deep_view(),
        decreases n - i,
    {
        if m.args[i].to_owned {
            stored.push(to_owned_value(&args[i]));
        } else {
            stored.push(args[i].duplicate());
        }
        i += 1;
    }
    proof {
        assert(stored.deep_view() =~= args.deep_view());
    }
    Command { method, args: stored }
}

/// Applies one command to a recording implementation at the dispatcher's
/// convention: consumed exactly once, with the effect `spec_apply_command`
/// gives it.
pub fn apply_command(d: &InputData, imp: &mut SimImpl, level: ReceiverStyle, cmd: Command) -> (r:
    Result<Option<Value>, DispatchError>)
    requires
        impl_compatible(*d, old(imp)@),
        cmd.method < d.methods@.len(),
    ensures
        ({
            let (si, srep) = spec_apply_command(
                *d,
                old(imp)@,
                level,
                cmd.method as int,
                cmd.args.deep_view(),
            );
            &&& final(imp)@ == si
            &&& (match r {
                Ok(Some(v)) => srep == Ok::<Option<ValueV>, DispatchErrorV>(Some(v@)),
                Ok(None) => srep == Ok::<Option<ValueV>, DispatchErrorV>(None),
                Err(e) => srep == Err::<Option<ValueV>, DispatchErrorV>(e@),
            })
        }),
{
    let m = &d.methods[cmd.method];
    if !level.can_call(m.receiver_style) {
        return Err(
            DispatchError::ConventionMismatch { method: m.name.clone(), convention: level },
        );
    }
    let r = call_direct(d, imp, cmd.method, cmd.args);
    Ok(r)
}

/// The state of a single-use reply slot: the semantic model of the one-shot
/// channel pair linking a dispatcher's reply to a proxy's receive.
#[derive(Debug)]
pub enum ReplySlot {
    Empty,
    Full(Value),
    Taken,
    SenderDropped,
    ReceiverDropped,
}

/// Mathematical shape of a reply slot.
pub enum ReplySlotV {
    Empty,
    Full(ValueV),
    Taken,
    SenderDropped,
    ReceiverDropped,
}

impl View for ReplySlot {
    type V = ReplySlotV;

    open spec fn view(&self) -> ReplySlotV {
        match self {
            ReplySlot::Empty => ReplySlotV::Empty,
            ReplySlot::Full(v) => ReplySlotV::Full(v@),
            ReplySlot::Taken => ReplySlotV::Taken,
            ReplySlot::SenderDropped => ReplySlotV::SenderDropped,
            ReplySlot::ReceiverDropped => ReplySlotV::ReceiverDropped,
        }
    }
}

/// Sending into a slot: delivers into an empty slot, fails when the
/// receiver is gone.
pub open spec fn spec_slot_send(s: ReplySlotV, v: ValueV) -> (
    ReplySlotV,
    Result<(), FailedToSendReturnValue>,
) {
    match s {
        ReplySlotV::Empty => (ReplySlotV::Full(v), Ok(())),
        _ => (s, Err(FailedToSendReturnValue)),
    }
}

/// Receiving from a slot: takes the delivered value out exactly once, fails
/// when the sender vanished without sending, and never yields a value
/// again once the slot was read.
pub open spec fn spec_slot_recv(s: ReplySlotV) -> (ReplySlotV, Result<ValueV, RecvFailed>) {
    match s {
        ReplySlotV::Full(v) => (ReplySlotV::Taken, Ok(v)),
        _ => (s, Err(RecvFailed)),
    }
}

/// A fresh, linked reply slot.
pub fn slot_new() -> (r: ReplySlot)
    ensures
        r is Empty,
{
    ReplySlot::Empty
}

/// The dispatcher's side: writes the reply into the slot.  The write
/// happens at most once — a slot that is no longer empty rejects it.
pub fn slot_send(slot: &mut ReplySlot, v: Value) -> (r: Result<(), FailedToSendReturnValue>)
    ensures
        (final(slot)@, r) == spec_slot_send(old(slot)@, v@),
{
    match slot {
        ReplySlot::Empty => {
            *slot = ReplySlot::Full(v);
            Ok(())
        },
        _ => Err(FailedToSendReturnValue),
    }
}

/// The proxy's side: reads the reply out of the slot, once.
pub fn slot_recv(slot: &mut ReplySlot) -> (r: Result<Value, RecvFailed>)
    ensures
        (final(slot)@, match r {
            Ok(v) => Ok::<ValueV, RecvFailed>(v@),
            Err(e) => Err::<ValueV, RecvFailed>(e),
        }) == spec_slot_recv(old(slot)@),
{
    let mut current = ReplySlot::Taken;
    core::mem::swap(slot, &mut current);
    match current {
        ReplySlot::Full(v) => Ok(v),
        other => {
            *slot = other;
            Err(RecvFailed)
        },
    }
}

/// Models the dispatcher dying before it replies: the sender endpoint is
/// dropped and a waiting receive fails.
pub fn slot_drop_sender(slot: &mut ReplySlot)
    ensures
        old(slot)@ is Empty ==> final(slot)@ is SenderDropped,
        !(old(slot)@ is Empty) ==> final(slot)@ == old(slot)@,
{
    match slot {
        ReplySlot::Empty => {
            *slot = ReplySlot::SenderDropped;
        },
        _ => {},
    }
}

/// At-most-once reply: after the dispatcher writes a reply into a fresh
/// slot, the paired receive yields exactly that value, exactly once — the
/// slot is then exhausted, and a second receive cannot yield a value.
pub proof fn lemma_at_most_once_reply(v: ValueV)
    ensures
        ({
            let (s1, sr) = spec_slot_send(ReplySlotV::Empty, v);
            let (s2, rr) = spec_slot_recv(s1);
            &&& sr is Ok
            &&& rr == Ok::<ValueV, RecvFailed>(v)
            &&& s2 is Taken
            &&& !(spec_slot_recv(s2).1 is Ok)
        }),
{
}

/// The reply a proxy call hands back to its caller.
#[derive(Debug)]
pub enum ProxyReply {
    NoReturn,
    Returned(Value),
}

/// The proxy's whole call path over a synchronous dispatch function: build
/// the command, apply it to the implementation, and — when the method
/// returns a value — route the reply through a fresh single-use slot.
pub fn proxy_call(
    d: &InputData,
    imp: &mut SimImpl,
    level: ReceiverStyle,
    method: usize,
    args: &Vec<Value>,
) -> (r: Result<ProxyReply, DispatchError>)
    requires
        impl_compatible(*d, old(imp)@),
        method < d.methods@.len(),
        args@.len() == d.methods@[method as int].args@.len(),
    ensures
        !spec_can_call(level, d.methods@[method as int].receiver_style) ==> final(imp)@ == old(
            imp,
        )@ && r is Err,
        spec_can_call(level, d.methods@[method as int].receiver_style) ==> {
            &&& final(imp)@.rets == old(imp)@.rets
            &&& final(imp)@.calls == old(imp)@.calls.push(
                CallRecordV { method: method as int, args: args.deep_view() },
            )
            &&& (match r {
                Ok(ProxyReply::Returned(v)) => d.methods@[method as int].ret is Some && v@ == old(
                    imp,
                )@.rets[method as int],
                Ok(ProxyReply::NoReturn) => d.methods@[method as int].ret is None,
                Err(_e) => false,
            })
        },
{
    let cmd = proxy_build_command(d, method, args);
    let reply = match apply_command(d, imp, level, cmd) {
        Ok(rep) => rep,
        Err(e) => {
            return Err(e);
        },
    };
    match reply {
        Some(v) => {
            let mut slot = slot_new();
            let sent = slot_send(&mut slot, v);
            proof {
                assert(sent is Ok);
            }
            match slot_recv(&mut slot) {
                Ok(got) => Ok(ProxyReply::Returned(got)),
                Err(_e) => {
                    proof {
                        assert(false);
                    }
                    Err(
                        DispatchError::ConventionMismatch {
                            method: String::new(),
                            convention: level,
                        },
                    )
                },
            }
        },
        None => Ok(ProxyReply::NoReturn),
    }
}

} // verus!
