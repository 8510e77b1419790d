//! Errors: what can go wrong when the runtime is created, when a member is
//! looked up, and when code of the runtime throws.

use vstd::prelude::*;
use crate::ffi::JNIError;

verus! {

/// Information taken from an exception that the runtime threw.
#[derive(Debug, Clone, PartialEq, Eq)]
pub struct ExceptionInfo {
    name: String,
    message: String,
    stack_trace: String,
}

/// What an [`ExceptionInfo`] holds, as text.
pub struct ExceptionInfoView {
    pub name: Seq<char>,
    pub message: Seq<char>,
    pub stack_trace: Seq<char>,
}

impl View for ExceptionInfo {
    type V = ExceptionInfoView;

    closed spec fn view(&self) -> ExceptionInfoView {
        ExceptionInfoView {
            name: self.name@,
            message: self.message@,
            stack_trace: self.stack_trace@,
        }
    }
}

impl ExceptionInfo {
    /// Puts together what was taken from an exception: the name of its
    /// class, its message and its stack trace.
    pub fn new(name: String, message: String, stack_trace: String) -> (info: ExceptionInfo)
        ensures
            info@ == (ExceptionInfoView {
                name: name@,
                message: message@,
                stack_trace: stack_trace@,
            }),
    {
        ExceptionInfo { name, message, stack_trace }
    }

    /// Returns the class name of the exception.
    pub fn name<'a>(&'a self) -> (name: &'a str)
        ensures
            name@ == self@.name,
    {
        self.name.as_str()
    }

    /// Returns the detailed error message associated with the exception.
    pub fn message<'a>(&'a self) -> (message: &'a str)
        ensures
            message@ == self@.message,
    {
        self.message.as_str()
    }

    /// Returns the exception's stack trace as text.
    pub fn stack_trace<'a>(&'a self) -> (stack_trace: &'a str)
        ensures
            stack_trace@ == self@.stack_trace,
    {
        self.stack_trace.as_str()
    }
}

/// An error returned by the bridge.
#[derive(Debug, Clone, PartialEq, Eq)]
pub enum Error {
    /// The runtime does not support the version asked for.
    UnsupportedVersion,
    /// The runtime could not get the memory it needs.
    OutOfMemory,
    /// Another status of the runtime's entry points.
    FFIError(JNIError),
    /// The class, method or field was not found: nothing has the name, or
    /// what has it has another signature. Holds the exception that the
    /// lookup raised, if it raised one.
    NotFound(Option<ExceptionInfo>),
    /// Code of the runtime threw an exception.
    Exception(ExceptionInfo),
}

/// What an [`Error`] holds, with text as sequences of characters.
pub enum ErrorView {
    UnsupportedVersion,
    OutOfMemory,
    FFIError(JNIError),
    NotFound(Option<ExceptionInfoView>),
    Exception(ExceptionInfoView),
}

impl View for Error {
    type V = ErrorView;

    open spec fn view(&self) -> ErrorView {
        match self {
            Error::UnsupportedVersion => ErrorView::UnsupportedVersion,
            Error::OutOfMemory => ErrorView::OutOfMemory,
            Error::FFIError(code) => ErrorView::FFIError(*code),
            Error::NotFound(None) => ErrorView::NotFound(None),
            Error::NotFound(Some(info)) => ErrorView::NotFound(Some(info@)),
            Error::Exception(info) => ErrorView::Exception(info@),
        }
    }
}

impl ErrorView {
    /// The error for a status of the runtime's entry points: the two that
    /// have a variant of their own, and the status itself for the others.
    pub open spec fn spec_from_ffi(code: JNIError) -> ErrorView {
        match code {
            JNIError::JNI_EVERSION => ErrorView::UnsupportedVersion,
            JNIError::JNI_ENOMEM => ErrorView::OutOfMemory,
            _ => ErrorView::FFIError(code),
        }
    }

    /// A short description of the error: the exception's own message where
    /// the error holds an exception, and a fixed text otherwise.
    pub open spec fn spec_description(self) -> Seq<char> {
        match self {
            ErrorView::UnsupportedVersion => "Unsupported JVM version"@,
            ErrorView::OutOfMemory => "Out of memory"@,
            ErrorView::Exception(info) => info.message,
            ErrorView::NotFound(Some(info)) => info.message,
            ErrorView::NotFound(None) => "Class, method, or field not found"@,
            ErrorView::FFIError(JNIError::JNI_OK) => "Success?"@,
            ErrorView::FFIError(JNIError::JNI_ERR) => "Unknown error"@,
            ErrorView::FFIError(JNIError::JNI_EDETACHED) => "Thread detached from JVM"@,
            ErrorView::FFIError(JNIError::JNI_EVERSION) => "Unsupported JVM version"@,
            ErrorView::FFIError(JNIError::JNI_ENOMEM) => "Out of memory"@,
            ErrorView::FFIError(JNIError::JNI_EEXIST) => "JVM has already been created"@,
            ErrorView::FFIError(JNIError::JNI_EINVAL) => "Invalid arguments to JNI function"@,
        }
    }
}

impl Error {
    /// Creates the error for a status that an entry point of the runtime
    /// returned.
    pub fn from_ffi(code: JNIError) -> (error: Error)
        ensures
            error@ == ErrorView::spec_from_ffi(code),
    {
        match code {
            JNIError::JNI_EVERSION => Error::UnsupportedVersion,
            JNIError::JNI_ENOMEM => Error::OutOfMemory,
            _ => Error::FFIError(code),
        }
    }

    /// What creating the runtime came to: success for the status
    /// `JNI_OK`, and the error for the status otherwise.
    pub fn from_status(status: JNIError) -> (result: Result<(), Error>)
        ensures
            result is Ok <==> status is JNI_OK,
            result is Err ==> result->Err_0@ == ErrorView::spec_from_ffi(status),
    {
        match status {
            JNIError::JNI_OK => Ok(()),
            _ => Err(Error::from_ffi(status)),
        }
    }

    /// Creates the error for a member that was not found, from the
    /// exception that the lookup raised, if it raised one.
    pub fn not_found(raised: Option<ExceptionInfo>) -> (error: Error)
        ensures
            error@ == ErrorView::NotFound(
                match raised {
                    Some(info) => Some(info@),
                    None => None,
                },
            ),
    {
        Error::NotFound(raised)
    }

    /// A short description of the error.
    pub fn description<'a>(&'a self) -> (text: &'a str)
        ensures
            text@ == self@.spec_description(),
    {
        match self {
            Error::UnsupportedVersion => "Unsupported JVM version",
            Error::OutOfMemory => "Out of memory",
            Error::Exception(info) => info.message(),
            Error::NotFound(Some(info)) => info.message(),
            Error::NotFound(None) => "Class, method, or field not found",
            Error::FFIError(code) => match code {
                JNIError::JNI_OK => "Success?",
                JNIError::JNI_ERR => "Unknown error",
                JNIError::JNI_EDETACHED => "Thread detached from JVM",
                JNIError::JNI_EVERSION => "Unsupported JVM version",
                JNIError::JNI_ENOMEM => "Out of memory",
                JNIError::JNI_EEXIST => "JVM has already been created",
                JNIError::JNI_EINVAL => "Invalid arguments to JNI function",
            },
        }
    }
}

} // verus!
