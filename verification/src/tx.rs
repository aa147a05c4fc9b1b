use vstd::prelude::*;
use crate::error::Error;

verus! {

/// What the driver reported for the step just performed.
#[derive(Clone, Debug, PartialEq, Eq)]
pub enum TxEvent {
    /// The step went through.
    Done,
    /// The step failed; carries the driver's message.
    Failed(String),
}

/// Where an open transaction stands. Each state names what the caller has
/// to do on the transaction's connection before it reports back.
#[derive(Clone, Debug, PartialEq, Eq)]
pub enum TxState {
    /// Run the statement at this position.
    Running(usize),
    /// Roll back: a statement failed with this message.
    RollingBack(String),
    /// Commit: every statement went through.
    Committing,
}

/// What follows a report from the driver.
#[derive(Clone, Debug, PartialEq, Eq)]
pub enum TxStep {
    /// The transaction goes on in this state.
    Next(TxState),
    /// The transaction was committed.
    Succeeded,
    /// The transaction is over and failed with this error.
    Failed(Error),
}

/// The mathematical content of a `TxState`.
pub enum TxStateModel {
    Running(nat),
    RollingBack(Seq<char>),
    Committing,
}

/// The mathematical content of a `TxStep`; a failure is a transaction error
/// with this message.
pub enum TxStepModel {
    Next(TxStateModel),
    Succeeded,
    Failed(Seq<char>),
}

impl View for TxState {
    type V = TxStateModel;

    open spec fn view(&self) -> TxStateModel {
        match self {
            TxState::Running(i) => TxStateModel::Running(*i as nat),
            TxState::RollingBack(m) => TxStateModel::RollingBack(m@),
            TxState::Committing => TxStateModel::Committing,
        }
    }
}

impl View for TxStep {
    type V = Option<TxStepModel>;

    /// `None` for a failure that is no transaction error; `tx_step` never
    /// returns one.
    open spec fn view(&self) -> Option<TxStepModel> {
        match self {
            TxStep::Next(s) => Some(TxStepModel::Next(s@)),
            TxStep::Succeeded => Some(TxStepModel::Succeeded),
            TxStep::Failed(e) => if e is Transaction {
                Some(TxStepModel::Failed(e.detail()))
            } else {
                None
            },
        }
    }
}

/// The first state of a transaction over `count` statements, once the
/// transaction is open.
pub open spec fn opening(count: nat) -> TxStateModel {
    if count == 0 {
        TxStateModel::Committing
    } else {
        TxStateModel::Running(0)
    }
}

/// The transition of a transaction over `count` statements: from a state
/// and the driver's report on what that state asked for (`None` for
/// success, `Some` for a failure with its message) to what follows.
///
/// A statement that fails leads to a rollback and then to a transaction
/// error with the statement's message; a rollback that fails itself is
/// reported with its own message. After the last statement comes the commit,
/// and a commit that fails is reported with its message.
pub open spec fn transition(state: TxStateModel, failure: Option<Seq<char>>, count: nat) -> TxStepModel {
    match state {
        TxStateModel::Running(i) => match failure {
            Some(m) => TxStepModel::Next(TxStateModel::RollingBack(m)),
            None => if i + 1 < count {
                TxStepModel::Next(TxStateModel::Running(i + 1))
            } else {
                TxStepModel::Next(TxStateModel::Committing)
            },
        },
        TxStateModel::RollingBack(cause) => match failure {
            Some(m) => TxStepModel::Failed(m),
            None => TxStepModel::Failed(cause),
        },
        TxStateModel::Committing => match failure {
            Some(m) => TxStepModel::Failed(m),
            None => TxStepModel::Succeeded,
        },
    }
}

/// The report of an event: the message of a failure, or none.
pub open spec fn failure_of(event: TxEvent) -> Option<Seq<char>> {
    match event {
        TxEvent::Done => None,
        TxEvent::Failed(m) => Some(m@),
    }
}

/// Starts a transaction over `count` statements, once it is open.
pub fn execute_tx(count: usize) -> (start: TxState)
    ensures
        start@ == opening(count as nat),
{
    if count == 0 {
        TxState::Committing
    } else {
        TxState::Running(0)
    }
}

/// Takes the driver's report on what the state asked for and decides what
/// follows.
pub fn tx_step(state: TxState, event: TxEvent, count: usize) -> (next: TxStep)
    ensures
        next@ == Some(transition(state@, failure_of(event), count as nat)),
{
    match state {
        TxState::Running(i) => match event {
            TxEvent::Failed(m) => TxStep::Next(TxState::RollingBack(m)),
            TxEvent::Done => if count > 0 && i < count - 1 {
                TxStep::Next(TxState::Running(i + 1))
            } else {
                TxStep::Next(TxState::Committing)
            },
        },
        TxState::RollingBack(cause) => match event {
            TxEvent::Failed(m) => TxStep::Failed(Error::Transaction(m)),
            TxEvent::Done => TxStep::Failed(Error::Transaction(cause)),
        },
        TxState::Committing => match event {
            TxEvent::Failed(m) => TxStep::Failed(Error::Transaction(m)),
            TxEvent::Done => TxStep::Succeeded,
        },
    }
}

/// A commit is asked for only after every statement went through: it
/// follows success at the last statement and nothing else. After a failure
/// nothing more is run or committed, and no success is reported.
pub proof fn commit_needs_every_statement(state: TxStateModel, failure: Option<Seq<char>>, count: nat)
    ensures
        transition(state, failure, count) == TxStepModel::Next(TxStateModel::Committing) <==> (
        state is Running && failure is None && state->Running_0 + 1 >= count),
        failure is Some ==> transition(state, failure, count) is Failed || (transition(
            state,
            failure,
            count,
        ) matches TxStepModel::Next(s) && s is RollingBack),
        transition(state, failure, count) is Succeeded <==> (state is Committing && failure is None),
{
}

/// A failed statement is answered by a rollback, and the rollback by a
/// transaction error that carries the statement's message.
pub proof fn failure_rolls_back(i: nat, message: Seq<char>, count: nat)
    requires
        i < count,
    ensures
        transition(TxStateModel::Running(i), Some(message), count) == TxStepModel::Next(
            TxStateModel::RollingBack(message),
        ),
        transition(TxStateModel::RollingBack(message), None, count) == TxStepModel::Failed(message),
{
}

} // verus!
