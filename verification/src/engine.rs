//! The storage engine's side of one operation on the collection: what to ask
//! of the store next, given what it has answered so far.
//!
//! Every operation runs in a transaction of its own: acquire it, make the one
//! request, commit. The engine does none of this itself. It tells the host
//! what to do and takes the store's answer back, and it releases a result
//! only once the store has confirmed the commit.

use crate::codec::{
    all_decodable, assigned_id, decode_rows, decoded_rows, number_in, rows_view, FieldView,
    ValueView, WireRecord, WireValue,
};
use crate::record::{records_view, DomRecord, RecordView};
use crate::store::{
    access_of, classified, classify_failure, Access, Operation, Stage, StoreError,
};
use vstd::prelude::*;

verus! {

/// What the store answered to a request.
#[derive(Debug, PartialEq, Eq)]
pub enum Reply {
    /// Nothing but that it is done.
    Nothing,
    /// The primary key of the record it has written.
    Key(WireValue),
    /// The rows of a scan, in the order of the scan.
    Rows(Vec<WireRecord>),
    /// A number of records.
    Count(u32),
}

/// What came of the step that the host was told to take.
#[derive(Debug, PartialEq, Eq)]
pub enum Event {
    /// The store did it, and answered this.
    Done(Reply),
    /// The store failed, and reported the failure under this name (empty
    /// where it gave none).
    Failed(String),
}

/// What an operation returns.
#[derive(Debug, PartialEq, Eq)]
pub enum Value {
    /// The primary key that the store assigned to the inserted record.
    Inserted(u32),
    /// Every record of the collection, in the order of the scan.
    Fetched(Vec<DomRecord>),
    /// The number of records counted.
    Counted(u32),
    /// The collection is empty.
    Cleared,
}

/// What the host is to do next.
#[derive(Debug, PartialEq, Eq)]
pub enum Command {
    /// Acquire a transaction on the collection with this access.
    Acquire(Access),
    /// Make the request of this operation inside the transaction.
    Perform(Operation),
    /// Commit the transaction.
    Commit,
    /// Abort the transaction.
    Abort,
    /// Hand this result to the caller: the operation is over.
    Finish(Result<Value, StoreError>),
}

/// How far an operation has come.
#[derive(Debug, PartialEq, Eq)]
pub enum Progress {
    /// The host is acquiring the transaction.
    Acquiring,
    /// The host is making the request.
    Performing,
    /// The host is committing; this is the result once it has.
    Committing(Value),
    /// The host is aborting; this is the error once it has.
    Aborting(StoreError),
    /// The operation is over.
    Finished,
}

/// A reply as mathematical values.
pub enum ReplyView {
    Nothing,
    Key(ValueView),
    Rows(Seq<Seq<FieldView>>),
    Count(u32),
}

/// An event as mathematical values.
pub enum EventView {
    Done(ReplyView),
    Failed(Seq<char>),
}

/// An operation's result as mathematical values.
pub enum OutcomeView {
    Inserted(u32),
    Fetched(Seq<RecordView>),
    Counted(u32),
    Cleared,
}

/// A command as mathematical values.
pub enum CommandView {
    Acquire(Access),
    Perform(Operation),
    Commit,
    Abort,
    Finish(Result<OutcomeView, StoreError>),
}

/// An operation's progress as mathematical values.
pub enum ProgressView {
    Acquiring,
    Performing,
    Committing(OutcomeView),
    Aborting(StoreError),
    Finished,
}

/// A transaction as mathematical values.
pub struct TransactionView {
    pub operation: Operation,
    pub progress: ProgressView,
}

impl View for Reply {
    type V = ReplyView;

    open spec fn view(&self) -> ReplyView {
        match self {
            Reply::Nothing => ReplyView::Nothing,
            Reply::Key(key) => ReplyView::Key(key@),
            Reply::Rows(rows) => ReplyView::Rows(rows_view(rows@)),
            Reply::Count(n) => ReplyView::Count(*n),
        }
    }
}

impl View for Event {
    type V = EventView;

    open spec fn view(&self) -> EventView {
        match self {
            Event::Done(reply) => EventView::Done(reply@),
            Event::Failed(exception) => EventView::Failed(exception@),
        }
    }
}

impl View for Value {
    type V = OutcomeView;

    open spec fn view(&self) -> OutcomeView {
        match self {
            Value::Inserted(id) => OutcomeView::Inserted(*id),
            Value::Fetched(records) => OutcomeView::Fetched(records_view(records@)),
            Value::Counted(n) => OutcomeView::Counted(*n),
            Value::Cleared => OutcomeView::Cleared,
        }
    }
}

impl View for Command {
    type V = CommandView;

    open spec fn view(&self) -> CommandView {
        match self {
            Command::Acquire(access) => CommandView::Acquire(*access),
            Command::Perform(operation) => CommandView::Perform(*operation),
            Command::Commit => CommandView::Commit,
            Command::Abort => CommandView::Abort,
            Command::Finish(Ok(value)) => CommandView::Finish(Ok(value@)),
            Command::Finish(Err(e)) => CommandView::Finish(Err(*e)),
        }
    }
}

impl View for Progress {
    type V = ProgressView;

    open spec fn view(&self) -> ProgressView {
        match self {
            Progress::Acquiring => ProgressView::Acquiring,
            Progress::Performing => ProgressView::Performing,
            Progress::Committing(value) => ProgressView::Committing(value@),
            Progress::Aborting(e) => ProgressView::Aborting(*e),
            Progress::Finished => ProgressView::Finished,
        }
    }
}

/// The result that a reply to the request of `operation` amounts to. There is
/// none where the reply is not of the kind that the operation's request is
/// answered with, where the key of an inserted record is no whole number of
/// the right width, or where a row of a scan holds no record.
pub open spec fn accepted(operation: Operation, reply: ReplyView) -> Option<OutcomeView> {
    match (operation, reply) {
        (Operation::Insert, ReplyView::Key(key)) => match number_in(key) {
            Some(id) => Some(OutcomeView::Inserted(id)),
            None => None,
        },
        (Operation::FetchAll(_), ReplyView::Rows(rows)) => if all_decodable(rows) {
            Some(OutcomeView::Fetched(decoded_rows(rows)))
        } else {
            None
        },
        (Operation::Count, ReplyView::Count(n)) => Some(OutcomeView::Counted(n)),
        (Operation::Clear, ReplyView::Nothing) => Some(OutcomeView::Cleared),
        _ => None,
    }
}

/// The progress of a transaction after `event`.
pub open spec fn after_event(pre: TransactionView, event: EventView) -> ProgressView {
    match (pre.progress, event) {
        (ProgressView::Acquiring, EventView::Done(_)) => ProgressView::Performing,
        (ProgressView::Performing, EventView::Done(reply)) => match accepted(
            pre.operation,
            reply,
        ) {
            Some(outcome) => ProgressView::Committing(outcome),
            None => ProgressView::Aborting(StoreError::SerializationError),
        },
        _ => ProgressView::Finished,
    }
}

/// What the host is told after `event`.
pub open spec fn command_after(pre: TransactionView, event: EventView) -> CommandView {
    match (pre.progress, event) {
        (ProgressView::Acquiring, EventView::Done(_)) => CommandView::Perform(pre.operation),
        (ProgressView::Acquiring, EventView::Failed(exception)) => CommandView::Finish(
            Err(classified(Stage::Acquire, exception)),
        ),
        (ProgressView::Performing, EventView::Done(reply)) => match accepted(
            pre.operation,
            reply,
        ) {
            Some(_) => CommandView::Commit,
            None => CommandView::Abort,
        },
        (ProgressView::Performing, EventView::Failed(exception)) => CommandView::Finish(
            Err(classified(Stage::Request, exception)),
        ),
        (ProgressView::Committing(outcome), EventView::Done(_)) => CommandView::Finish(
            Ok(outcome),
        ),
        (ProgressView::Committing(_), EventView::Failed(exception)) => CommandView::Finish(
            Err(classified(Stage::Commit, exception)),
        ),
        (ProgressView::Aborting(e), _) => CommandView::Finish(Err(e)),
        (ProgressView::Finished, _) => CommandView::Finish(Err(StoreError::TransactionError)),
    }
}

/// Whether a result is of the kind that `operation` returns.
pub open spec fn answers(operation: Operation, outcome: OutcomeView) -> bool {
    match (operation, outcome) {
        (Operation::Insert, OutcomeView::Inserted(_)) => true,
        (Operation::FetchAll(_), OutcomeView::Fetched(_)) => true,
        (Operation::Count, OutcomeView::Counted(_)) => true,
        (Operation::Clear, OutcomeView::Cleared) => true,
        _ => false,
    }
}

/// Whether a transaction is in a state that the engine can bring it to: a
/// result that awaits its commit is of the kind that the operation returns.
pub open spec fn coherent(transaction: TransactionView) -> bool {
    transaction.progress matches ProgressView::Committing(outcome) ==> answers(
        transaction.operation,
        outcome,
    )
}

/// A result is released only for a confirmed commit, and is then the result
/// that the store's reply amounted to; every failure that the store reports
/// ends the operation with the error it is classified as.
pub proof fn lemma_result_only_after_commit(pre: TransactionView, event: EventView)
    requires
        coherent(pre),
    ensures
        coherent(TransactionView { operation: pre.operation, progress: after_event(pre, event) }),
        command_after(pre, event) matches CommandView::Finish(Ok(outcome)) ==> pre.progress
            == ProgressView::Committing(outcome) && event is Done && answers(
            pre.operation,
            outcome,
        ),
        event is Failed ==> after_event(pre, event) is Finished && (command_after(
            pre,
            event,
        ) matches CommandView::Finish(Err(_))),
        pre.progress is Performing && (event matches EventView::Done(reply) && accepted(
            pre.operation,
            reply,
        ) is None) ==> command_after(pre, event) is Abort,
{
}

/// An operation whose every step the store performs ends with the result that
/// the store's reply amounts to, whatever went before it: the transaction is
/// acquired, the request is made, the commit is asked for, and only then is the
/// result handed out.
pub proof fn lemma_clean_run(
    operation: Operation,
    acquired: ReplyView,
    reply: ReplyView,
    committed: ReplyView,
)
    requires
        accepted(operation, reply) is Some,
    ensures
        ({
            let begun = TransactionView { operation, progress: ProgressView::Acquiring };
            let performing = TransactionView {
                operation,
                progress: after_event(begun, EventView::Done(acquired)),
            };
            let committing = TransactionView {
                operation,
                progress: after_event(performing, EventView::Done(reply)),
            };
            &&& command_after(begun, EventView::Done(acquired)) == CommandView::Perform(operation)
            &&& command_after(performing, EventView::Done(reply)) == CommandView::Commit
            &&& command_after(committing, EventView::Done(committed)) == CommandView::Finish(
                Ok(accepted(operation, reply)->0),
            )
            &&& after_event(committing, EventView::Done(committed)) == ProgressView::Finished
        }),
{
}

/// One operation on the collection, in its own transaction.
#[derive(Debug)]
pub struct Transaction {
    operation: Operation,
    progress: Progress,
}

impl View for Transaction {
    type V = TransactionView;

    closed spec fn view(&self) -> TransactionView {
        TransactionView { operation: self.operation, progress: self.progress@ }
    }
}

impl Transaction {
    /// Starts `operation`: the host is to acquire a transaction with the
    /// access that the operation needs.
    pub fn begin(operation: Operation) -> (started: (Transaction, Command))
        ensures
            started.0@ == (TransactionView { operation, progress: ProgressView::Acquiring }),
            started.1@ == CommandView::Acquire(access_of(operation)),
    {
        (
            Transaction { operation, progress: Progress::Acquiring },
            Command::Acquire(operation.access()),
        )
    }

    /// The operation.
    pub fn operation(&self) -> (operation: Operation)
        ensures
            operation == self@.operation,
    {
        self.operation
    }

    /// How far the operation has come.
    pub fn progress(&self) -> (progress: &Progress)
        ensures
            progress@ == self@.progress,
    {
        &self.progress
    }

    /// Takes what came of the step that the host was last told to take, and
    /// tells it the next.
    pub fn advance(&mut self, event: Event) -> (command: Command)
        ensures
            final(self)@.operation == old(self)@.operation,
            final(self)@.progress == after_event(old(self)@, event@),
            command@ == command_after(old(self)@, event@),
    {
        let mut progress = Progress::Finished;
        core::mem::swap(&mut self.progress, &mut progress);
        match progress {
            Progress::Acquiring => match event {
                Event::Done(_) => {
                    self.progress = Progress::Performing;
                    Command::Perform(self.operation)
                },
                Event::Failed(exception) => Command::Finish(
                    Err(classify_failure(Stage::Acquire, exception.as_str())),
                ),
            },
            Progress::Performing => match event {
                Event::Done(reply) => match accept(self.operation, reply) {
                    Ok(value) => {
                        self.progress = Progress::Committing(value);
                        Command::Commit
                    },
                    Err(e) => {
                        self.progress = Progress::Aborting(e);
                        Command::Abort
                    },
                },
                Event::Failed(exception) => Command::Finish(
                    Err(classify_failure(Stage::Request, exception.as_str())),
                ),
            },
            Progress::Committing(value) => match event {
                Event::Done(_) => Command::Finish(Ok(value)),
                Event::Failed(exception) => Command::Finish(
                    Err(classify_failure(Stage::Commit, exception.as_str())),
                ),
            },
            Progress::Aborting(e) => Command::Finish(Err(e)),
            Progress::Finished => Command::Finish(Err(StoreError::TransactionError)),
        }
    }
}

/// Reads the store's reply to the request of `operation`.
pub fn accept(operation: Operation, reply: Reply) -> (r: Result<Value, StoreError>)
    ensures
        match r {
            Ok(value) => accepted(operation, reply@) == Some(value@),
            Err(e) => e == StoreError::SerializationError && accepted(operation, reply@) is None,
        },
{
    match operation {
        Operation::Insert => match reply {
            Reply::Key(key) => match assigned_id(&key) {
                Ok(id) => Ok(Value::Inserted(id)),
                Err(e) => Err(e),
            },
            _ => Err(StoreError::SerializationError),
        },
        Operation::FetchAll(_) => match reply {
            Reply::Rows(rows) => match decode_rows(&rows) {
                Ok(records) => Ok(Value::Fetched(records)),
                Err(e) => Err(e),
            },
            _ => Err(StoreError::SerializationError),
        },
        Operation::Count => match reply {
            Reply::Count(n) => Ok(Value::Counted(n)),
            _ => Err(StoreError::SerializationError),
        },
        Operation::Clear => match reply {
            Reply::Nothing => Ok(Value::Cleared),
            _ => Err(StoreError::SerializationError),
        },
    }
}

/// What an operation ended with, as mathematical values.
pub open spec fn result_view(result: Result<Value, StoreError>) -> Result<
    OutcomeView,
    StoreError,
> {
    match result {
        Ok(value) => Ok(value@),
        Err(e) => Err(e),
    }
}

/// The primary key that an insert ended with. A result of another kind is no
/// answer to an insert, and counts as a failed transaction.
pub open spec fn inserted_of(result: Result<OutcomeView, StoreError>) -> Result<u32, StoreError> {
    match result {
        Ok(OutcomeView::Inserted(id)) => Ok(id),
        Ok(_) => Err(StoreError::TransactionError),
        Err(e) => Err(e),
    }
}

/// The records that a scan ended with.
pub open spec fn fetched_of(result: Result<OutcomeView, StoreError>) -> Result<
    Seq<RecordView>,
    StoreError,
> {
    match result {
        Ok(OutcomeView::Fetched(records)) => Ok(records),
        Ok(_) => Err(StoreError::TransactionError),
        Err(e) => Err(e),
    }
}

/// The number that a count ended with.
pub open spec fn counted_of(result: Result<OutcomeView, StoreError>) -> Result<u32, StoreError> {
    match result {
        Ok(OutcomeView::Counted(n)) => Ok(n),
        Ok(_) => Err(StoreError::TransactionError),
        Err(e) => Err(e),
    }
}

/// Whether clearing the collection succeeded.
pub open spec fn cleared_of(result: Result<OutcomeView, StoreError>) -> Result<(), StoreError> {
    match result {
        Ok(OutcomeView::Cleared) => Ok(()),
        Ok(_) => Err(StoreError::TransactionError),
        Err(e) => Err(e),
    }
}

/// The primary key that an insert ended with.
pub fn inserted(result: Result<Value, StoreError>) -> (r: Result<u32, StoreError>)
    ensures
        r == inserted_of(result_view(result)),
{
    match result {
        Ok(Value::Inserted(id)) => Ok(id),
        Ok(_) => Err(StoreError::TransactionError),
        Err(e) => Err(e),
    }
}

/// The records that a scan ended with.
pub fn fetched(result: Result<Value, StoreError>) -> (r: Result<Vec<DomRecord>, StoreError>)
    ensures
        match r {
            Ok(records) => fetched_of(result_view(result)) == Ok::<Seq<RecordView>, StoreError>(
                records_view(records@),
            ),
            Err(e) => fetched_of(result_view(result)) == Err::<Seq<RecordView>, StoreError>(e),
        },
{
    match result {
        Ok(Value::Fetched(records)) => Ok(records),
        Ok(_) => Err(StoreError::TransactionError),
        Err(e) => Err(e),
    }
}

/// The number that a count ended with.
pub fn counted(result: Result<Value, StoreError>) -> (r: Result<u32, StoreError>)
    ensures
        r == counted_of(result_view(result)),
{
    match result {
        Ok(Value::Counted(n)) => Ok(n),
        Ok(_) => Err(StoreError::TransactionError),
        Err(e) => Err(e),
    }
}

/// Whether clearing the collection succeeded.
pub fn cleared(result: Result<Value, StoreError>) -> (r: Result<(), StoreError>)
    ensures
        r == cleared_of(result_view(result)),
{
    match result {
        Ok(Value::Cleared) => Ok(()),
        Ok(_) => Err(StoreError::TransactionError),
        Err(e) => Err(e),
    }
}

} // verus!
