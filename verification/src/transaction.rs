use vstd::prelude::*;

verus! {

/// What a caller asks of the transaction manager.
#[derive(Debug, Clone, Copy, PartialEq, Eq, Structural)]
pub enum TransactionRequest {
    /// Begin a transaction.
    Begin,
    /// Commit the open transaction.
    Commit,
    /// Roll the open transaction back.
    Rollback,
    /// Roll the open transaction back on drop, ignoring failures.
    StartRollback,
}

/// A call the caller makes on the ODBC connection on the manager's behalf.
#[derive(Debug, Clone, Copy, PartialEq, Eq, Structural)]
pub enum TransactionCall {
    /// Turn autocommit off.
    DisableAutocommit,
    /// Commit.
    Commit,
    /// Roll back.
    Rollback,
    /// Turn autocommit back on.
    EnableAutocommit,
}

/// Why a request failed.
#[derive(Debug, Clone, Copy, PartialEq, Eq, Structural)]
pub enum TransactionFailure {
    /// A transaction is already open: savepoints are not supported.
    AlreadyInTransaction,
    /// Autocommit could not be turned off while beginning.
    DisableAutocommit,
    /// The commit failed.
    Commit,
    /// Autocommit could not be restored after the commit.
    RestoreAfterCommit,
    /// The rollback failed.
    Rollback,
    /// Autocommit could not be restored after the rollback.
    RestoreAfterRollback,
}

/// What the caller does next.
#[derive(Debug, Clone, Copy, PartialEq, Eq, Structural)]
pub enum TransactionStep {
    /// Make the call and report whether it succeeded.
    Call(TransactionCall),
    /// The request is finished and succeeded.
    Succeeded,
    /// The request is finished and failed.
    Failed(TransactionFailure),
}

/// Where the manager is within a request.
#[derive(Debug, Clone, Copy, PartialEq, Eq, Structural)]
pub enum TransactionStage {
    Idle,
    Beginning,
    Committing,
    RestoringAfterCommit,
    RollingBack,
    RestoringAfterRollback,
    StartRollingBack,
    StartRestoring,
}

/// The state of the transaction manager of one connection.
pub struct TransactionState {
    pub depth: usize,
    pub stage: TransactionStage,
}

/// What a request does from an idle manager at `depth`: the stage it enters, the depth, and
/// the first step.
pub open spec fn on_request(depth: usize, request: TransactionRequest) -> (TransactionStage, usize, TransactionStep) {
    match request {
        TransactionRequest::Begin => if depth > 0 {
            (TransactionStage::Idle, depth, TransactionStep::Failed(TransactionFailure::AlreadyInTransaction))
        } else {
            (TransactionStage::Beginning, depth, TransactionStep::Call(TransactionCall::DisableAutocommit))
        },
        TransactionRequest::Commit => if depth == 0 {
            (TransactionStage::Idle, depth, TransactionStep::Succeeded)
        } else {
            (TransactionStage::Committing, depth, TransactionStep::Call(TransactionCall::Commit))
        },
        TransactionRequest::Rollback => if depth == 0 {
            (TransactionStage::Idle, depth, TransactionStep::Succeeded)
        } else {
            (TransactionStage::RollingBack, depth, TransactionStep::Call(TransactionCall::Rollback))
        },
        TransactionRequest::StartRollback => if depth == 0 {
            (TransactionStage::Idle, depth, TransactionStep::Succeeded)
        } else {
            (TransactionStage::StartRollingBack, depth, TransactionStep::Call(TransactionCall::Rollback))
        },
    }
}

/// What the outcome of a call does: the next stage, the depth, and the next step.
pub open spec fn on_outcome(stage: TransactionStage, depth: usize, succeeded: bool) -> (TransactionStage, usize, TransactionStep) {
    match stage {
        TransactionStage::Beginning => if succeeded {
            (TransactionStage::Idle, 1, TransactionStep::Succeeded)
        } else {
            (TransactionStage::Idle, depth, TransactionStep::Failed(TransactionFailure::DisableAutocommit))
        },
        TransactionStage::Committing => if succeeded {
            (TransactionStage::RestoringAfterCommit, depth, TransactionStep::Call(TransactionCall::EnableAutocommit))
        } else {
            (TransactionStage::Idle, depth, TransactionStep::Failed(TransactionFailure::Commit))
        },
        TransactionStage::RestoringAfterCommit => if succeeded {
            (TransactionStage::Idle, 0, TransactionStep::Succeeded)
        } else {
            (TransactionStage::Idle, depth, TransactionStep::Failed(TransactionFailure::RestoreAfterCommit))
        },
        TransactionStage::RollingBack => if succeeded {
            (TransactionStage::RestoringAfterRollback, depth, TransactionStep::Call(TransactionCall::EnableAutocommit))
        } else {
            (TransactionStage::Idle, depth, TransactionStep::Failed(TransactionFailure::Rollback))
        },
        TransactionStage::RestoringAfterRollback => if succeeded {
            (TransactionStage::Idle, 0, TransactionStep::Succeeded)
        } else {
            (TransactionStage::Idle, depth, TransactionStep::Failed(TransactionFailure::RestoreAfterRollback))
        },
        TransactionStage::StartRollingBack => if succeeded {
            (TransactionStage::StartRestoring, depth, TransactionStep::Call(TransactionCall::EnableAutocommit))
        } else {
            (TransactionStage::Idle, depth, TransactionStep::Succeeded)
        },
        TransactionStage::StartRestoring => (TransactionStage::Idle, 0, TransactionStep::Succeeded),
        TransactionStage::Idle => (TransactionStage::Idle, depth, TransactionStep::Succeeded),
    }
}

/// Transaction manager of an ODBC connection: it decides the ODBC calls that begin, commit
/// and roll back a transaction, and tracks the transaction depth (0 or 1).
pub struct OdbcTransactionManager {
    depth: usize,
    stage: TransactionStage,
}

impl View for OdbcTransactionManager {
    type V = TransactionState;

    closed spec fn view(&self) -> TransactionState {
        TransactionState { depth: self.depth, stage: self.stage }
    }
}

impl OdbcTransactionManager {
    /// The manager is between requests.
    pub open spec fn idle(&self) -> bool {
        self@.stage == TransactionStage::Idle
    }

    /// A manager of a connection in autocommit mode.
    pub fn new() -> (r: Self)
        ensures
            r@.depth == 0,
            r.idle(),
    {
        OdbcTransactionManager { depth: 0, stage: TransactionStage::Idle }
    }

    /// Whether the manager is between requests, ready for the next one.
    pub fn is_idle(&self) -> (r: bool)
        ensures
            r == self.idle(),
    {
        match self.stage {
            TransactionStage::Idle => true,
            _ => false,
        }
    }

    /// The transaction depth: 1 while a transaction is open, else 0.
    pub fn transaction_depth(&self) -> (r: usize)
        ensures
            r == self@.depth,
    {
        self.depth
    }

    /// Starts a request; the manager must be idle.
    pub fn request(&mut self, request: TransactionRequest) -> (r: TransactionStep)
        requires
            old(self).idle(),
        ensures
            (final(self)@.stage, final(self)@.depth, r) == on_request(old(self)@.depth, request),
    {
        match request {
            TransactionRequest::Begin => if self.depth > 0 {
                TransactionStep::Failed(TransactionFailure::AlreadyInTransaction)
            } else {
                self.stage = TransactionStage::Beginning;
                TransactionStep::Call(TransactionCall::DisableAutocommit)
            },
            TransactionRequest::Commit => if self.depth == 0 {
                TransactionStep::Succeeded
            } else {
                self.stage = TransactionStage::Committing;
                TransactionStep::Call(TransactionCall::Commit)
            },
            TransactionRequest::Rollback => if self.depth == 0 {
                TransactionStep::Succeeded
            } else {
                self.stage = TransactionStage::RollingBack;
                TransactionStep::Call(TransactionCall::Rollback)
            },
            TransactionRequest::StartRollback => if self.depth == 0 {
                TransactionStep::Succeeded
            } else {
                self.stage = TransactionStage::StartRollingBack;
                TransactionStep::Call(TransactionCall::Rollback)
            },
        }
    }

    /// Reports whether the call of the last step succeeded; the manager must be within a
    /// request.
    pub fn resume(&mut self, succeeded: bool) -> (r: TransactionStep)
        requires
            !old(self).idle(),
        ensures
            (final(self)@.stage, final(self)@.depth, r) == on_outcome(old(self)@.stage, old(self)@.depth, succeeded),
    {
        match self.stage {
            TransactionStage::Beginning => {
                self.stage = TransactionStage::Idle;
                if succeeded {
                    self.depth = 1;
                    TransactionStep::Succeeded
                } else {
                    TransactionStep::Failed(TransactionFailure::DisableAutocommit)
                }
            },
            TransactionStage::Committing => if succeeded {
                self.stage = TransactionStage::RestoringAfterCommit;
                TransactionStep::Call(TransactionCall::EnableAutocommit)
            } else {
                self.stage = TransactionStage::Idle;
                TransactionStep::Failed(TransactionFailure::Commit)
            },
            TransactionStage::RestoringAfterCommit => {
                self.stage = TransactionStage::Idle;
                if succeeded {
                    self.depth = 0;
                    TransactionStep::Succeeded
                } else {
                    TransactionStep::Failed(TransactionFailure::RestoreAfterCommit)
                }
            },
            TransactionStage::RollingBack => if succeeded {
                self.stage = TransactionStage::RestoringAfterRollback;
                TransactionStep::Call(TransactionCall::EnableAutocommit)
            } else {
                self.stage = TransactionStage::Idle;
                TransactionStep::Failed(TransactionFailure::Rollback)
            },
            TransactionStage::RestoringAfterRollback => {
                self.stage = TransactionStage::Idle;
                if succeeded {
                    self.depth = 0;
                    TransactionStep::Succeeded
                } else {
                    TransactionStep::Failed(TransactionFailure::RestoreAfterRollback)
                }
            },
            TransactionStage::StartRollingBack => if succeeded {
                self.stage = TransactionStage::StartRestoring;
                TransactionStep::Call(TransactionCall::EnableAutocommit)
            } else {
                self.stage = TransactionStage::Idle;
                TransactionStep::Succeeded
            },
            TransactionStage::StartRestoring => {
                self.stage = TransactionStage::Idle;
                self.depth = 0;
                TransactionStep::Succeeded
            },
            TransactionStage::Idle => TransactionStep::Succeeded,
        }
    }
}

/// The stage, depth and last step after a request whose calls have the given outcomes, in
/// order, until the request is done or the outcomes run out.
pub open spec fn run(depth: usize, request: TransactionRequest, outcomes: Seq<bool>) -> (TransactionStage, usize, TransactionStep) {
    run_from(on_request(depth, request), outcomes)
}

/// Feeds outcomes to a manager that is at the given stage, depth and step.
pub open spec fn run_from(at: (TransactionStage, usize, TransactionStep), outcomes: Seq<bool>) -> (TransactionStage, usize, TransactionStep)
    decreases outcomes.len(),
{
    if outcomes.len() == 0 || !(at.2 is Call) {
        at
    } else {
        run_from(on_outcome(at.0, at.1, outcomes[0]), outcomes.drop_first())
    }
}

/// Beginning outside a transaction and committing, with every call succeeding, opens and then
/// closes the transaction: the depth goes from 0 to 1 and back to 0, and both requests end
/// without error.
pub proof fn lemma_begin_then_commit()
    ensures
        run(0, TransactionRequest::Begin, seq![true]) == (TransactionStage::Idle, 1usize, TransactionStep::Succeeded),
        run(1, TransactionRequest::Commit, seq![true, true]) == (TransactionStage::Idle, 0usize, TransactionStep::Succeeded),
{
    reveal_with_fuel(run_from, 4);
    assert(seq![true].drop_first() =~= Seq::<bool>::empty());
    assert(seq![true, true].drop_first() =~= seq![true]);
}

/// Beginning and then rolling back, with every call succeeding, returns the depth to 0.
pub proof fn lemma_begin_then_rollback()
    ensures
        run(1, TransactionRequest::Rollback, seq![true, true]) == (TransactionStage::Idle, 0usize, TransactionStep::Succeeded),
        run(1, TransactionRequest::StartRollback, seq![true, true]) == (TransactionStage::Idle, 0usize, TransactionStep::Succeeded),
{
    reveal_with_fuel(run_from, 4);
    assert(seq![true, true].drop_first() =~= seq![true]);
    assert(seq![true].drop_first() =~= Seq::<bool>::empty());
}

/// A transaction cannot be begun inside another: the request fails at once, makes no call
/// and leaves the depth as it was.
pub proof fn lemma_nested_begin_refused(depth: usize)
    requires
        depth > 0,
    ensures
        on_request(depth, TransactionRequest::Begin) == (TransactionStage::Idle, depth, TransactionStep::Failed(TransactionFailure::AlreadyInTransaction)),
{
}

/// Outside a transaction, committing and rolling back do nothing and succeed.
pub proof fn lemma_finish_without_transaction(request: TransactionRequest)
    requires
        request != TransactionRequest::Begin,
    ensures
        on_request(0, request) == (TransactionStage::Idle, 0usize, TransactionStep::Succeeded),
{
}

/// A failed call never changes the depth, except while restoring autocommit after a
/// rollback on drop, which ends the transaction whatever the outcome.
pub proof fn lemma_failure_keeps_depth(stage: TransactionStage, depth: usize)
    requires
        stage != TransactionStage::StartRestoring,
    ensures
        on_outcome(stage, depth, false).1 == depth,
{
}

/// The depth is 0 or 1 after every request and outcome, starting from 0 or 1.
pub proof fn lemma_depth_bounded(stage: TransactionStage, depth: usize, request: TransactionRequest, succeeded: bool)
    requires
        depth <= 1,
    ensures
        on_request(depth, request).1 <= 1,
        on_outcome(stage, depth, succeeded).1 <= 1,
{
}

/// The manager asks for a call exactly while it is within a request: a step that ends a
/// request leaves it idle, and a step that asks for a call leaves it waiting for the outcome.
pub proof fn lemma_calls_only_within_requests(
    depth: usize,
    request: TransactionRequest,
    stage: TransactionStage,
    succeeded: bool,
)
    requires
        stage != TransactionStage::Idle,
    ensures
        (on_request(depth, request).2 is Call) <==> on_request(depth, request).0 != TransactionStage::Idle,
        (on_outcome(stage, depth, succeeded).2 is Call) <==> on_outcome(stage, depth, succeeded).0
            != TransactionStage::Idle,
{
}

/// Every request ends within two calls.
pub proof fn lemma_request_ends(depth: usize, request: TransactionRequest, outcomes: Seq<bool>)
    requires
        outcomes.len() >= 2,
    ensures
        !(run(depth, request, outcomes).2 is Call),
{
    reveal_with_fuel(run_from, 4);
    let o0 = outcomes.drop_first();
    let o1 = o0.drop_first();
    assert(o0.len() >= 1);
}

} // verus!
