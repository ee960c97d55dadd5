//! The store's fixed schema, the ways its operations fail, and what each
//! operation asks of a transaction.

use vstd::prelude::*;

verus! {

/// How an operation on the store can fail.
#[derive(Clone, Copy, Debug, PartialEq, Eq, Structural)]
pub enum StoreError {
    /// The collection or its index does not match the fixed schema.
    SchemaError,
    /// A transaction could not be acquired or committed.
    TransactionError,
    /// Another record already holds the identity.
    UniquenessViolation,
    /// A stored value lacks a field or holds one of the wrong type.
    SerializationError,
}

/// The step of an operation at which the store reported a failure.
#[derive(Clone, Copy, Debug, PartialEq, Eq, Structural)]
pub enum Stage {
    /// Opening the database and putting its schema in place.
    Open,
    /// Acquiring a transaction on the collection.
    Acquire,
    /// A read or write inside the transaction.
    Request,
    /// Committing the transaction.
    Commit,
}

/// The name under which the store reports a breach of a uniqueness
/// constraint.
pub open spec fn constraint_name() -> Seq<char> {
    "ConstraintError"@
}

/// The error that a failure at `stage`, reported under the name `exception`,
/// amounts to.
pub open spec fn classified(stage: Stage, exception: Seq<char>) -> StoreError {
    if stage == Stage::Open {
        StoreError::SchemaError
    } else if (stage == Stage::Request || stage == Stage::Commit) && exception
        == constraint_name() {
        StoreError::UniquenessViolation
    } else {
        StoreError::TransactionError
    }
}

/// Classifies a failure that the store reported at `stage` under the name
/// `exception` (empty where the store gave none).
pub fn classify_failure(stage: Stage, exception: &str) -> (error: StoreError)
    ensures
        error == classified(stage, exception@),
{
    match stage {
        Stage::Open => StoreError::SchemaError,
        Stage::Acquire => StoreError::TransactionError,
        Stage::Request | Stage::Commit => {
            if exception.to_owned() == "ConstraintError".to_owned() {
                StoreError::UniquenessViolation
            } else {
                StoreError::TransactionError
            }
        },
    }
}

/// The name of the field that holds the primary key.
pub open spec fn id_name() -> Seq<char> {
    "id"@
}

/// The name of the field that holds the identity.
pub open spec fn uuid_name() -> Seq<char> {
    "uuid"@
}

/// The name of the field that holds the tag.
pub open spec fn tag_name() -> Seq<char> {
    "tag"@
}

/// The name of the field that holds the text.
pub open spec fn text_name() -> Seq<char> {
    "text"@
}

/// The name of the field that holds the order hint.
pub open spec fn order_name() -> Seq<char> {
    "order"@
}

/// The secondary index of the collection.
#[derive(Debug, PartialEq, Eq)]
pub struct IndexSchema {
    pub name: &'static str,
    pub key_path: &'static str,
    pub unique: bool,
}

/// The schema of the database: one collection, keyed by a number that the
/// store assigns, with one index.
#[derive(Debug, PartialEq, Eq)]
pub struct Schema {
    pub database: &'static str,
    pub version: u32,
    pub collection: &'static str,
    pub key_path: &'static str,
    pub auto_increment: bool,
    pub index: IndexSchema,
}

/// The fixed schema: the collection `domnodes`, whose primary key the store
/// assigns and writes into the field `id`, and a unique index on the
/// identity.
pub fn dom_db() -> (schema: Schema)
    ensures
        schema.database@ == "domdb"@,
        schema.version == 1,
        schema.collection@ == "domnodes"@,
        schema.key_path@ == id_name(),
        schema.auto_increment,
        schema.index.name@ == uuid_name(),
        schema.index.key_path@ == uuid_name(),
        schema.index.unique,
{
    Schema {
        database: "domdb",
        version: 1,
        collection: "domnodes",
        key_path: "id",
        auto_increment: true,
        index: IndexSchema { name: "uuid", key_path: "uuid", unique: true },
    }
}

/// The direction of a scan by primary key.
#[derive(Clone, Copy, Debug, PartialEq, Eq, Structural)]
pub enum Direction {
    Ascending,
    Descending,
}

/// The operations on the collection.
#[derive(Clone, Copy, Debug, PartialEq, Eq, Structural)]
pub enum Operation {
    /// Write one new record.
    Insert,
    /// Read every record, by primary key in this direction.
    FetchAll(Direction),
    /// Count the records.
    Count,
    /// Delete every record.
    Clear,
}

/// What a transaction is allowed to do.
#[derive(Clone, Copy, Debug, PartialEq, Eq, Structural)]
pub enum Access {
    ReadOnly,
    ReadWrite,
}

impl Default for Direction {
    /// A scan ascends unless told otherwise.
    fn default() -> (direction: Direction)
        ensures
            direction == Direction::Ascending,
    {
        Direction::Ascending
    }
}

/// The access that an operation's transaction needs: writing for the two
/// that change the collection, reading for the two that do not.
pub open spec fn access_of(operation: Operation) -> Access {
    match operation {
        Operation::Insert | Operation::Clear => Access::ReadWrite,
        Operation::FetchAll(_) | Operation::Count => Access::ReadOnly,
    }
}

impl Operation {
    /// The access that the operation's transaction needs.
    pub fn access(self) -> (access: Access)
        ensures
            access == access_of(self),
    {
        match self {
            Operation::Insert => Access::ReadWrite,
            Operation::FetchAll(_) => Access::ReadOnly,
            Operation::Count => Access::ReadOnly,
            Operation::Clear => Access::ReadWrite,
        }
    }
}

} // verus!
