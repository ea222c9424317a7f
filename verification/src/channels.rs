//! Real single-use reply channels behind trusted wrappers, and dispatchers
//! that route a method's return value through them.  Three interchangeable
//! back-ends serve the channel-class contract: a bounded rendezvous channel,
//! a multi-producer bounded channel, and a one-shot channel.

use crate::model::InputData;
use crate::model::ReceiverStyle;
use crate::model::spec_can_call;
use crate::returnval::FailedToSendReturnValue;
use crate::returnval::RecvFailed;
use crate::semantics::CallRecordV;
use crate::semantics::Command;
use crate::semantics::DispatchError;
use crate::semantics::SimImpl;
use crate::semantics::apply_command;
use crate::semantics::impl_compatible;
use crate::value::Value;
use vstd::prelude::*;

verus! {

#[verifier::external_type_specification]
#[verifier::external_body]
#[verifier::reject_recursive_types(T)]
pub struct ExFlumeSender<T>(flume::Sender<T>);

#[verifier::external_type_specification]
#[verifier::external_body]
#[verifier::reject_recursive_types(T)]
pub struct ExFlumeReceiver<T>(flume::Receiver<T>);

#[verifier::external_type_specification]
#[verifier::external_body]
#[verifier::reject_recursive_types(T)]
pub struct ExCrossbeamSender<T>(crossbeam_channel::Sender<T>);

#[verifier::external_type_specification]
#[verifier::external_body]
#[verifier::reject_recursive_types(T)]
pub struct ExCrossbeamReceiver<T>(crossbeam_channel::Receiver<T>);

#[verifier::external_type_specification]
#[verifier::external_body]
#[verifier::reject_recursive_types(T)]
pub struct ExTokioOneshotSender<T>(tokio::sync::oneshot::Sender<T>);

#[verifier::external_type_specification]
#[verifier::external_body]
#[verifier::reject_recursive_types(T)]
pub struct ExTokioOneshotReceiver<T>(tokio::sync::oneshot::Receiver<T>);

#[verifier::external_type_specification]
#[verifier::external_body]
pub struct ExTokioOneshotRecvError(tokio::sync::oneshot::error::RecvError);

/// Relies on `flume::bounded` with capacity one: creates a linked
/// sender/receiver pair for one reply.
#[verifier::external_body]
pub fn flume_create() -> (flume::Sender<Value>, flume::Receiver<Value>) {
    flume::bounded(1)
}

/// Relies on `flume::Sender::send`: delivers the value into the channel,
/// failing when every receiver was dropped.
#[verifier::external_body]
pub fn flume_send(tx: &flume::Sender<Value>, v: Value) -> Result<(), FailedToSendReturnValue> {
    match tx.send(v) {
        Ok(()) => Ok(()),
        Err(_dropped) => Err(FailedToSendReturnValue),
    }
}

/// Relies on `flume::Receiver::recv`: blocks until a value arrives, failing
/// when every sender was dropped without sending one.
#[verifier::external_body]
pub fn flume_recv(rx: &flume::Receiver<Value>) -> Result<Value, RecvFailed> {
    match rx.recv() {
        Ok(v) => Ok(v),
        Err(_disconnected) => Err(RecvFailed),
    }
}

/// Relies on `crossbeam_channel::bounded` with capacity one: creates a
/// linked sender/receiver pair for one reply.
#[verifier::external_body]
pub fn crossbeam_create() -> (crossbeam_channel::Sender<Value>, crossbeam_channel::Receiver<Value>) {
    crossbeam_channel::bounded(1)
}

/// Relies on `crossbeam_channel::Sender::send`: delivers the value into the
/// channel, failing when every receiver was dropped.
#[verifier::external_body]
pub fn crossbeam_send(tx: &crossbeam_channel::Sender<Value>, v: Value) -> Result<
    (),
    FailedToSendReturnValue,
> {
    match tx.send(v) {
        Ok(()) => Ok(()),
        Err(_dropped) => Err(FailedToSendReturnValue),
    }
}

/// Relies on `crossbeam_channel::Receiver::recv`: blocks until a value
/// arrives, failing when every sender was dropped without sending one.
#[verifier::external_body]
pub fn crossbeam_recv(rx: &crossbeam_channel::Receiver<Value>) -> Result<Value, RecvFailed> {
    match rx.recv() {
        Ok(v) => Ok(v),
        Err(_disconnected) => Err(RecvFailed),
    }
}

/// Relies on `tokio::sync::oneshot::channel`: creates a linked one-shot
/// sender/receiver pair.
#[verifier::external_body]
pub fn tokio_oneshot_create() -> (
    tokio::sync::oneshot::Sender<Value>,
    tokio::sync::oneshot::Receiver<Value>,
) {
    tokio::sync::oneshot::channel()
}

/// Relies on `tokio::sync::oneshot::Sender::send`: consumes the sender and
/// delivers the value, failing when the receiver was dropped.
#[verifier::external_body]
pub fn tokio_oneshot_send(tx: tokio::sync::oneshot::Sender<Value>, v: Value) -> Result<
    (),
    FailedToSendReturnValue,
> {
    match tx.send(v) {
        Ok(()) => Ok(()),
        Err(_undelivered) => Err(FailedToSendReturnValue),
    }
}

/// Relies on `tokio::sync::oneshot::Receiver::blocking_recv`: consumes the
/// receiver and blocks until the value arrives, failing when the sender was
/// dropped without sending.  Must be called outside an asynchronous
/// runtime, where that call would panic.
#[verifier::external_body]
pub fn tokio_oneshot_recv(rx: tokio::sync::oneshot::Receiver<Value>) -> Result<Value, RecvFailed> {
    match rx.blocking_recv() {
        Ok(v) => Ok(v),
        Err(_closed) => Err(RecvFailed),
    }
}

/// How a channel-routed dispatch fails: a convention-mismatched arm was
/// exercised, or the reply could not be delivered.
#[derive(Debug)]
pub enum DispatchFailure {
    Mismatch(DispatchError),
    SendFailed(FailedToSendReturnValue),
}

/// Applies one command at the dispatcher's convention and sends the
/// method's return value, when it has one, into the given reply sender.
/// Whatever the channel did, the implementation observes exactly the calls
/// that `spec_apply_command` dictates.
pub fn dispatch_flume(
    d: &InputData,
    imp: &mut SimImpl,
    level: ReceiverStyle,
    cmd: Command,
    tx: &flume::Sender<Value>,
) -> (r: Result<(), DispatchFailure>)
    requires
        impl_compatible(*d, old(imp)@),
        cmd.method < d.methods@.len(),
    ensures
        !spec_can_call(level, d.methods@[cmd.method as int].receiver_style) ==> final(imp)@ == old(
            imp,
        )@ && (r matches Err(DispatchFailure::Mismatch(_))),
        spec_can_call(level, d.methods@[cmd.method as int].receiver_style) ==> {
            &&& final(imp)@.rets == old(imp)@.rets
            &&& final(imp)@.calls == old(imp)@.calls.push(
                CallRecordV { method: cmd.method as int, args: cmd.args.deep_view() },
            )
            &&& (d.methods@[cmd.method as int].ret is None ==> r is Ok)
            &&& (r is Ok || r matches Err(DispatchFailure::SendFailed(_)))
        },
{
    match apply_command(d, imp, level, cmd) {
        Err(e) => Err(DispatchFailure::Mismatch(e)),
        Ok(None) => Ok(()),
        Ok(Some(v)) => match flume_send(tx, v) {
            Ok(()) => Ok(()),
            Err(e) => Err(DispatchFailure::SendFailed(e)),
        },
    }
}

/// Applies one command and routes the reply through a multi-producer
/// bounded channel's sender.
pub fn dispatch_crossbeam(
    d: &InputData,
    imp: &mut SimImpl,
    level: ReceiverStyle,
    cmd: Command,
    tx: &crossbeam_channel::Sender<Value>,
) -> (r: Result<(), DispatchFailure>)
    requires
        impl_compatible(*d, old(imp)@),
        cmd.method < d.methods@.len(),
    ensures
        !spec_can_call(level, d.methods@[cmd.method as int].receiver_style) ==> final(imp)@ == old(
            imp,
        )@ && (r matches Err(DispatchFailure::Mismatch(_))),
        spec_can_call(level, d.methods@[cmd.method as int].receiver_style) ==> {
            &&& final(imp)@.rets == old(imp)@.rets
            &&& final(imp)@.calls == old(imp)@.calls.push(
                CallRecordV { method: cmd.method as int, args: cmd.args.deep_view() },
            )
            &&& (d.methods@[cmd.method as int].ret is None ==> r is Ok)
            &&& (r is Ok || r matches Err(DispatchFailure::SendFailed(_)))
        },
{
    match apply_command(d, imp, level, cmd) {
        Err(e) => Err(DispatchFailure::Mismatch(e)),
        Ok(None) => Ok(()),
        Ok(Some(v)) => match crossbeam_send(tx, v) {
            Ok(()) => Ok(()),
            Err(e) => Err(DispatchFailure::SendFailed(e)),
        },
    }
}

/// Applies one command and routes the reply through a one-shot channel's
/// sender, consuming it.
pub fn dispatch_tokio_oneshot(
    d: &InputData,
    imp: &mut SimImpl,
    level: ReceiverStyle,
    cmd: Command,
    tx: tokio::sync::oneshot::Sender<Value>,
) -> (r: Result<(), DispatchFailure>)
    requires
        impl_compatible(*d, old(imp)@),
        cmd.method < d.methods@.len(),
    ensures
        !spec_can_call(level, d.methods@[cmd.method as int].receiver_style) ==> final(imp)@ == old(
            imp,
        )@ && (r matches Err(DispatchFailure::Mismatch(_))),
        spec_can_call(level, d.methods@[cmd.method as int].receiver_style) ==> {
            &&& final(imp)@.rets == old(imp)@.rets
            &&& final(imp)@.calls == old(imp)@.calls.push(
                CallRecordV { method: cmd.method as int, args: cmd.args.deep_view() },
            )
            &&& (d.methods@[cmd.method as int].ret is None ==> r is Ok)
            &&& (r is Ok || r matches Err(DispatchFailure::SendFailed(_)))
        },
{
    match apply_command(d, imp, level, cmd) {
        Err(e) => Err(DispatchFailure::Mismatch(e)),
        Ok(None) => Ok(()),
        Ok(Some(v)) => match tokio_oneshot_send(tx, v) {
            Ok(()) => Ok(()),
            Err(e) => Err(DispatchFailure::SendFailed(e)),
        },
    }
}

} // verus!
