//! Properties of the lifecycle that hold over every run of operations.
use vstd::prelude::*;
use crate::binding::{BindingError, InitReply};
use crate::error::not_initialized_error;
use crate::manager::{
    after_cleanup, after_initialize, after_join, after_leave, join_outcome, leave_outcome,
    session_gate, LifecycleState, ManagerModel,
};

verus! {

/// One lifecycle operation, with the native reply it was completed with.
pub enum Operation {
    Initialize(Result<InitReply, BindingError>),
    JoinSession(Result<i32, BindingError>),
    LeaveSession(i32),
    Cleanup,
}

/// The state after one operation.
pub open spec fn step(m: ManagerModel, op: Operation) -> ManagerModel {
    match op {
        Operation::Initialize(reply) => after_initialize(m, reply),
        Operation::JoinSession(reply) => after_join(m, reply),
        Operation::LeaveSession(code) => after_leave(m, code),
        Operation::Cleanup => after_cleanup(m),
    }
}

/// The state after a run of operations, in order.
pub open spec fn run(m: ManagerModel, ops: Seq<Operation>) -> ManagerModel
    decreases ops.len(),
{
    if ops.len() == 0 {
        m
    } else {
        run(step(m, ops[0]), ops.drop_first())
    }
}

/// After any run of operations from a fresh manager, and at every point of
/// it, the state is one of the three lifecycle states and a native instance
/// is held exactly when the SDK is initialized.
pub proof fn lemma_lifecycle_always_well_formed(ops: Seq<Operation>, i: int)
    requires
        0 <= i <= ops.len(),
    ensures
        run(ManagerModel::initial(), ops.take(i)).wf(),
        ({
            let s = run(ManagerModel::initial(), ops.take(i)).state;
            s == LifecycleState::Uninitialized || s == LifecycleState::Initialized || s
                == LifecycleState::InSession
        }),
{
    lemma_run_preserves_wf(ManagerModel::initial(), ops.take(i));
}

proof fn lemma_run_preserves_wf(m: ManagerModel, ops: Seq<Operation>)
    requires
        m.wf(),
    ensures
        run(m, ops).wf(),
    decreases ops.len(),
{
    if ops.len() > 0 {
        lemma_run_preserves_wf(step(m, ops[0]), ops.drop_first());
    }
}

/// While uninitialized, a join or a leave fails as not initialized, whatever
/// the native layer would have answered, no instance is handed out for a
/// native call, and the state does not change.
pub proof fn lemma_uninitialized_rejects_session_calls(
    m: ManagerModel,
    join_reply: Result<i32, BindingError>,
    leave_code: i32,
)
    requires
        m.wf(),
        m.state == LifecycleState::Uninitialized,
    ensures
        session_gate(m) == Err::<crate::binding::NativeHandle, (i32, Seq<char>)>(
            not_initialized_error(),
        ),
        join_outcome(m, join_reply) == Err::<(), (i32, Seq<char>)>(not_initialized_error()),
        after_join(m, join_reply) == m,
        leave_outcome(m, leave_code) == Err::<(), (i32, Seq<char>)>(not_initialized_error()),
        after_leave(m, leave_code) == m,
{
}

/// Initialization followed by cleanup, with or without a join between them,
/// leaves the manager uninitialized and holding no instance.
pub proof fn lemma_initialize_then_cleanup(
    m: ManagerModel,
    reply: Result<InitReply, BindingError>,
    join_reply: Result<i32, BindingError>,
)
    requires
        m.wf(),
    ensures
        after_cleanup(after_initialize(m, reply)) == ManagerModel::initial(),
        after_cleanup(after_join(after_initialize(m, reply), join_reply))
            == ManagerModel::initial(),
        after_cleanup(after_initialize(m, reply)).sdk is None,
{
}

/// Cleanup twice in a row leaves the manager uninitialized both times, and
/// the second one has no instance to release.
pub proof fn lemma_cleanup_idempotent(m: ManagerModel)
    requires
        m.wf(),
    ensures
        after_cleanup(m).state == LifecycleState::Uninitialized,
        after_cleanup(after_cleanup(m)) == after_cleanup(m),
        after_cleanup(m).sdk is None,
{
}

} // verus!
