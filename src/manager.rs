//! The lifecycle manager: the single authority over the SDK's state and the
//! handle of its native instance.
//!
//! Each operation is a step of a state machine. Where an operation needs the
//! native layer, the manager first says whether the call may be made and on
//! which instance (`session_instance`, `leave_request`, `cleanup`); the caller
//! dispatches it and hands the native reply to the completing method
//! (`initialize`, `join_session`, `leave_session`), which interprets it and
//! updates the state. All of it takes `&mut self` or `&self`, so a caller
//! that shares the manager must hold it under one exclusive lock for the
//! whole of an operation, the native call included.
use vstd::prelude::*;
use crate::binding::{binding_error, null_object_error, BindingError, InitReply, NativeClass, NativeHandle};
use crate::error::{
    initialization_failed_error, join_failed_error, leave_failed_error, not_initialized_error,
    outcome, ZoomSDKError,
};

verus! {

/// The SDK's lifecycle state.
#[derive(Debug, Clone, Copy, PartialEq, Eq, Structural)]
pub enum LifecycleState {
    Uninitialized,
    Initialized,
    InSession,
}

/// The abstract state of a manager: its lifecycle state and the native
/// instance it holds.
pub struct ManagerModel {
    pub state: LifecycleState,
    pub sdk: Option<NativeHandle>,
}

impl ManagerModel {
    /// A handle is held exactly when the SDK is initialized.
    pub open spec fn wf(self) -> bool {
        self.sdk is Some <==> self.state != LifecycleState::Uninitialized
    }

    pub open spec fn initial() -> ManagerModel {
        ManagerModel { state: LifecycleState::Uninitialized, sdk: None }
    }
}

/// The state after `initialize` receives `reply`: the new instance is held on
/// a zero code from a non-null instance, and nothing changes otherwise.
pub open spec fn after_initialize(m: ManagerModel, reply: Result<InitReply, BindingError>) -> ManagerModel {
    match reply {
        Ok(r) => if r.sdk.address != 0 && r.code == 0 {
            ManagerModel { state: LifecycleState::Initialized, sdk: Some(r.sdk) }
        } else {
            m
        },
        Err(_) => m,
    }
}

pub open spec fn initialize_outcome(reply: Result<InitReply, BindingError>) -> Result<(), (i32, Seq<char>)> {
    match reply {
        Ok(r) => if r.sdk.address == 0 {
            Err(null_object_error(NativeClass::VideoSdk))
        } else if r.code == 0 {
            Ok(())
        } else {
            Err(initialization_failed_error(r.code))
        },
        Err(e) => Err(binding_error(e)),
    }
}

/// Whether a session call may reach the native layer, and on which instance.
pub open spec fn session_gate(m: ManagerModel) -> Result<NativeHandle, (i32, Seq<char>)> {
    if m.state == LifecycleState::Uninitialized {
        Err(not_initialized_error())
    } else {
        Ok(m.sdk->0)
    }
}

/// The abstract value of a gate's answer.
pub open spec fn gate_view(r: Result<NativeHandle, ZoomSDKError>) -> Result<NativeHandle, (i32, Seq<char>)> {
    match r {
        Ok(h) => Ok(h),
        Err(e) => Err(e@),
    }
}

/// The state after `join_session` receives `reply`.
pub open spec fn after_join(m: ManagerModel, reply: Result<i32, BindingError>) -> ManagerModel {
    if m.state != LifecycleState::Uninitialized && reply == Ok::<i32, BindingError>(0i32) {
        ManagerModel { state: LifecycleState::InSession, ..m }
    } else {
        m
    }
}

pub open spec fn join_outcome(m: ManagerModel, reply: Result<i32, BindingError>) -> Result<(), (i32, Seq<char>)> {
    if m.state == LifecycleState::Uninitialized {
        Err(not_initialized_error())
    } else {
        match reply {
            Ok(code) => if code == 0 {
                Ok(())
            } else {
                Err(join_failed_error(code))
            },
            Err(e) => Err(binding_error(e)),
        }
    }
}

/// The state after `leave_session` receives the native result `code`.
pub open spec fn after_leave(m: ManagerModel, code: i32) -> ManagerModel {
    if m.state != LifecycleState::Uninitialized && code == 0 {
        ManagerModel { state: LifecycleState::Initialized, ..m }
    } else {
        m
    }
}

pub open spec fn leave_outcome(m: ManagerModel, code: i32) -> Result<(), (i32, Seq<char>)> {
    if m.state == LifecycleState::Uninitialized {
        Err(not_initialized_error())
    } else if code == 0 {
        Ok(())
    } else {
        Err(leave_failed_error(code))
    }
}

/// The state after `cleanup`: always back to the start.
pub open spec fn after_cleanup(m: ManagerModel) -> ManagerModel {
    ManagerModel::initial()
}

/// The native leave: ending the session for every participant.
pub const END_SESSION_FOR_ALL: bool = true;

/// A native leave that the manager allows: the instance to send it to, and
/// whether the session ends for everyone.
#[derive(Debug, Clone, Copy, PartialEq, Eq, Structural)]
pub struct LeaveRequest {
    pub sdk: NativeHandle,
    pub end_for_all: bool,
}

/// Owner of the SDK's lifecycle state and of the native instance's validity.
#[derive(Debug)]
pub struct ZoomSDKManager {
    sdk_instance: Option<NativeHandle>,
    state: LifecycleState,
}

impl View for ZoomSDKManager {
    type V = ManagerModel;

    closed spec fn view(&self) -> ManagerModel {
        ManagerModel { state: self.state, sdk: self.sdk_instance }
    }
}

impl ZoomSDKManager {
    pub open spec fn wf(&self) -> bool {
        self@.wf()
    }

    /// A manager with no native instance, uninitialized.
    pub fn new() -> (m: Self)
        ensures
            m@ == ManagerModel::initial(),
            m.wf(),
    {
        ZoomSDKManager { sdk_instance: None, state: LifecycleState::Uninitialized }
    }

    pub fn state(&self) -> (s: LifecycleState)
        ensures
            s == self@.state,
    {
        self.state
    }

    pub fn is_initialized(&self) -> (r: bool)
        ensures
            r == (self@.state != LifecycleState::Uninitialized),
    {
        match self.state {
            LifecycleState::Uninitialized => false,
            _ => true,
        }
    }

    /// The native instance held, if any.
    pub fn sdk_instance(&self) -> (r: Option<NativeHandle>)
        ensures
            r == self@.sdk,
    {
        self.sdk_instance
    }

    /// Completes initialization with the reply of the native layer, which
    /// resolved the SDK class, took its shared instance, created and filled
    /// the initialization parameters and sent the initialize message. A null
    /// shared instance is a failure, whatever the code. On a zero code from a
    /// non-null instance the instance is held and the SDK is initialized; on
    /// any failure nothing changes.
    pub fn initialize(&mut self, reply: Result<InitReply, BindingError>) -> (r: Result<(), ZoomSDKError>)
        requires
            old(self).wf(),
        ensures
            final(self)@ == after_initialize(old(self)@, reply),
            outcome(r) == initialize_outcome(reply),
            final(self).wf(),
    {
        match reply {
            Ok(native) => {
                if native.sdk.is_null() {
                    Err(ZoomSDKError::null_object(NativeClass::VideoSdk))
                } else if native.code == 0 {
                    self.sdk_instance = Some(native.sdk);
                    self.state = LifecycleState::Initialized;
                    Ok(())
                } else {
                    Err(ZoomSDKError::initialization_failed(native.code))
                }
            },
            Err(e) => Err(ZoomSDKError::from_binding(e)),
        }
    }

    /// The instance that a session call is sent to: refused, before any
    /// native call, while the SDK is not initialized.
    pub fn session_instance(&self) -> (r: Result<NativeHandle, ZoomSDKError>)
        requires
            self.wf(),
        ensures
            gate_view(r) == session_gate(self@),
    {
        if !self.is_initialized() {
            return Err(ZoomSDKError::not_initialized());
        }
        match self.sdk_instance {
            Some(sdk) => Ok(sdk),
            None => Err(ZoomSDKError::instance_unavailable()),
        }
    }

    /// Completes a join with the reply of the native layer, which created a
    /// join context on the instance of `session_instance`, set its
    /// properties and sent the join message. A zero code puts the SDK in a
    /// session; a join while uninitialized fails whatever the reply.
    pub fn join_session(&mut self, reply: Result<i32, BindingError>) -> (r: Result<(), ZoomSDKError>)
        requires
            old(self).wf(),
        ensures
            final(self)@ == after_join(old(self)@, reply),
            outcome(r) == join_outcome(old(self)@, reply),
            final(self).wf(),
    {
        if let Err(e) = self.session_instance() {
            return Err(e);
        }
        match reply {
            Ok(code) => {
                if code == 0 {
                    self.state = LifecycleState::InSession;
                    Ok(())
                } else {
                    Err(ZoomSDKError::join_failed(code))
                }
            },
            Err(e) => Err(ZoomSDKError::from_binding(e)),
        }
    }

    /// The native leave that may be sent now: to the held instance, ending
    /// the session for everyone.
    pub fn leave_request(&self) -> (r: Result<LeaveRequest, ZoomSDKError>)
        requires
            self.wf(),
        ensures
            gate_view(
                match r {
                    Ok(q) => Ok(q.sdk),
                    Err(e) => Err(e),
                },
            ) == session_gate(self@),
            r matches Ok(q) ==> q.end_for_all == END_SESSION_FOR_ALL,
    {
        match self.session_instance() {
            Ok(sdk) => Ok(LeaveRequest { sdk, end_for_all: END_SESSION_FOR_ALL }),
            Err(e) => Err(e),
        }
    }

    /// Completes a leave with the native result `code`. A zero code ends
    /// the session and keeps the SDK initialized.
    pub fn leave_session(&mut self, code: i32) -> (r: Result<(), ZoomSDKError>)
        requires
            old(self).wf(),
        ensures
            final(self)@ == after_leave(old(self)@, code),
            outcome(r) == leave_outcome(old(self)@, code),
            final(self).wf(),
    {
        if let Err(e) = self.session_instance() {
            return Err(e);
        }
        if code == 0 {
            self.state = LifecycleState::Initialized;
            Ok(())
        } else {
            Err(ZoomSDKError::leave_failed(code))
        }
    }

    /// Releases the native instance and returns to uninitialized. Returns the
    /// instance that the native cleanup message is to be sent to: the one held
    /// while initialized, none otherwise. It cannot fail.
    pub fn cleanup(&mut self) -> (released: Option<NativeHandle>)
        requires
            old(self).wf(),
        ensures
            released == old(self)@.sdk,
            final(self)@ == after_cleanup(old(self)@),
            final(self).wf(),
    {
        let released = if self.is_initialized() {
            self.sdk_instance
        } else {
            None
        };
        self.state = LifecycleState::Uninitialized;
        self.sdk_instance = None;
        released
    }
}

} // verus!
