//! Verified core of a bridge between native code and a Java virtual machine:
//! the value model, member signatures, the value codec, the call-table
//! layout, and the decisions taken between two operations of the runtime.
//!
//! The library never calls the runtime. Where an operation of the runtime
//! is needed, it hands out a [`protocol::Request`], and goes on from the
//! [`protocol::Reply`] that its caller brings back.

pub mod call;
pub mod codec;
pub mod dispatch;
pub mod error;
pub mod ffi;
pub mod naming;
pub mod options;
pub mod protocol;
pub mod signature;
pub mod table;
pub mod translate;
pub mod value;

pub use crate::call::Member;
pub use crate::dispatch::{Dispatch, Outcome};
pub use crate::error::{Error, ExceptionInfo};
pub use crate::naming::Naming;
pub use crate::options::{latest_jvm_version, Classpath, JavaVMInitArgs, Options, Probe, Version};
pub use crate::protocol::{Reply, Request, Turn};
pub use crate::signature::function_signature;
pub use crate::translate::Translation;
pub use crate::value::{Class, Object, Type, Value};
