//! What the library knows of the native binding layer: the classes it
//! resolves by name, the handle of the native instance, and the replies that
//! a dispatch hands back.
use vstd::prelude::*;
use crate::error::ZoomSDKError;

verus! {

/// A native class that the binding layer resolves by name at run time.
#[derive(Debug, Clone, Copy, PartialEq, Eq, Structural)]
pub enum NativeClass {
    /// The SDK class, whose shared instance is the native handle.
    VideoSdk,
    /// The class of initialization parameters.
    InitParams,
    /// The class of a session-join context.
    SessionContext,
}

impl NativeClass {
    pub open spec fn spec_name(self) -> Seq<char> {
        match self {
            NativeClass::VideoSdk => "ZMVideoSDK"@,
            NativeClass::InitParams => "ZMVideoSDKInitParams"@,
            NativeClass::SessionContext => "ZMVideoSDKSessionContext"@,
        }
    }

    /// The code of the error reported when this class cannot be resolved.
    pub open spec fn spec_not_found_code(self) -> i32 {
        match self {
            NativeClass::VideoSdk => -1i32,
            NativeClass::InitParams => -2i32,
            NativeClass::SessionContext => -4i32,
        }
    }

    /// The name under which the framework exports the class.
    pub fn name(&self) -> (r: &'static str)
        ensures
            r@ == self.spec_name(),
    {
        match self {
            NativeClass::VideoSdk => "ZMVideoSDK",
            NativeClass::InitParams => "ZMVideoSDKInitParams",
            NativeClass::SessionContext => "ZMVideoSDKSessionContext",
        }
    }

    pub fn not_found_code(&self) -> (r: i32)
        ensures
            r == self.spec_not_found_code(),
    {
        match self {
            NativeClass::VideoSdk => -1i32,
            NativeClass::InitParams => -2i32,
            NativeClass::SessionContext => -4i32,
        }
    }
}

/// A failure of the binding layer itself, before any result code exists.
#[derive(Debug, Clone, Copy, PartialEq, Eq, Structural)]
pub enum BindingError {
    /// The framework does not export the class.
    ClassNotFound(NativeClass),
    /// The creation message sent to the class (its shared instance, or a new
    /// object) answered with a null object.
    NullObject(NativeClass),
}

/// Code of a creation message that answered with a null object.
pub const NULL_OBJECT: i32 = -6;

pub open spec fn class_not_found_error(class: NativeClass) -> (i32, Seq<char>) {
    (class.spec_not_found_code(), class.spec_name() + " class not found"@)
}

pub open spec fn null_object_error(class: NativeClass) -> (i32, Seq<char>) {
    (NULL_OBJECT, class.spec_name() + " returned a null object"@)
}

impl ZoomSDKError {
    /// A native class could not be resolved.
    pub fn class_not_found(class: NativeClass) -> (e: Self)
        ensures
            e@ == class_not_found_error(class),
    {
        let mut message = String::from_str(class.name());
        message.append(" class not found");
        ZoomSDKError { code: class.not_found_code(), message }
    }

    /// A creation message sent to a native class answered with a null object.
    pub fn null_object(class: NativeClass) -> (e: Self)
        ensures
            e@ == null_object_error(class),
    {
        let mut message = String::from_str(class.name());
        message.append(" returned a null object");
        ZoomSDKError { code: NULL_OBJECT, message }
    }

    /// The error that a failure of the binding layer is reported as.
    pub fn from_binding(err: BindingError) -> (e: Self)
        ensures
            e@ == binding_error(err),
    {
        match err {
            BindingError::ClassNotFound(class) => ZoomSDKError::class_not_found(class),
            BindingError::NullObject(class) => ZoomSDKError::null_object(class),
        }
    }
}

pub open spec fn binding_error(err: BindingError) -> (i32, Seq<char>) {
    match err {
        BindingError::ClassNotFound(class) => class_not_found_error(class),
        BindingError::NullObject(class) => null_object_error(class),
    }
}

/// An opaque reference to the native SDK's shared instance, kept as the
/// address that the binding layer gave for it.
#[derive(Debug, Clone, Copy, PartialEq, Eq, Structural)]
pub struct NativeHandle {
    pub address: usize,
}

impl NativeHandle {
    pub fn new(address: usize) -> (h: Self)
        ensures
            h.address == address,
    {
        NativeHandle { address }
    }

    pub fn address(&self) -> (r: usize)
        ensures
            r == self.address,
    {
        self.address
    }

    /// Whether the handle is the null object.
    pub fn is_null(&self) -> (r: bool)
        ensures
            r == (self.address == 0),
    {
        self.address == 0
    }
}

/// What native initialization answered: the shared instance it ran on and
/// the result code of the initialize message.
#[derive(Debug, Clone, Copy, PartialEq, Eq, Structural)]
pub struct InitReply {
    pub sdk: NativeHandle,
    pub code: i32,
}

} // verus!
