//! Transformation engine for message-passing adapters around an interface.
//!
//! Given a structured description of an interface (an ordered set of methods,
//! each with a receiver convention, typed arguments and an optional return
//! type) and a configuration, the library derives a family of artifacts: a
//! command enum that captures any one call as data, dispatcher functions that
//! apply a command to an implementation, a fallible mirror trait, proxy types
//! that turn method calls into dispatched commands, and adapter impls that let
//! a proxy stand in for the original interface.  A small semantic layer gives
//! the generated artifacts their runtime meaning, so that the central laws
//! (round trips, reply delivery, convention gating) are stated and proved.

pub mod strutil;
pub mod names;
pub mod tokens;
pub mod model;
pub mod parse_args;
pub mod raw;
pub mod analyze;
pub mod generate;
pub mod expand;
pub mod value;
pub mod returnval;
pub mod semantics;
pub mod channels;
pub mod render;

pub use model::AccessMode;
pub use model::Argument;
pub use model::CallFnParams;
pub use model::GenProxyParams;
pub use model::InputData;
pub use model::Method;
pub use model::Params;
pub use model::ReceiverStyle;
pub use model::TyExpr;
pub use returnval::FailedToSendReturnValue;
pub use returnval::RecvFailed;
pub use value::Value;
