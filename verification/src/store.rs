//! What goes to the store and what comes back: statements with their parameters, and
//! replies. The store itself is reached by the caller: an operation hands out the next
//! statement, the caller runs it and hands the reply to the operation's next step.

use vstd::prelude::*;
use crate::db::model_notification::{
    GroupNotification,
    GroupNotificationView,
    Notification,
    NotificationView,
};
use crate::db::model_task::{Task, TaskView};
use crate::error::Error;
use crate::field::texts;
use crate::id::Id;

verus! {

/// A value bound to a `?` of a statement.
#[derive(Clone, Debug, PartialEq, Eq)]
pub enum Value {
    Id(Id),
    TinyInt(i8),
    SmallInt(i16),
    Int(i32),
    BigInt(i64),
    Text(String),
    Bytes(Vec<u8>),
    Ids(Vec<Id>),
}

/// A bound value, as a mathematical value. A list of identities counts as their set.
pub enum ValueView {
    Id(Id),
    TinyInt(i8),
    SmallInt(i16),
    Int(i32),
    BigInt(i64),
    Text(Seq<char>),
    Bytes(Seq<u8>),
    Ids(Set<Id>),
}

impl View for Value {
    type V = ValueView;

    open spec fn view(&self) -> ValueView {
        match self {
            Value::Id(x) => ValueView::Id(*x),
            Value::TinyInt(x) => ValueView::TinyInt(*x),
            Value::SmallInt(x) => ValueView::SmallInt(*x),
            Value::Int(x) => ValueView::Int(*x),
            Value::BigInt(x) => ValueView::BigInt(*x),
            Value::Text(x) => ValueView::Text(x@),
            Value::Bytes(x) => ValueView::Bytes(x@),
            Value::Ids(x) => ValueView::Ids(x@.to_set()),
        }
    }
}

/// The views of the values in `v`.
pub open spec fn values(v: Seq<Value>) -> Seq<ValueView> {
    v.map_values(|x: Value| x@)
}

/// The three tables.
#[derive(Clone, Copy, Debug, PartialEq, Eq, Structural)]
pub enum Table {
    Task,
    Notification,
    GroupNotification,
}

/// How a statement is run, and with what the caller answers it.
#[derive(Clone, Copy, Debug, PartialEq, Eq, Structural)]
pub enum Fetch {
    /// A conditional write: the answer is [`Reply::Applied`].
    Applied,
    /// An unconditional write: the answer is [`Reply::Done`].
    Nothing,
    /// A read of one row: the answer is the row, or [`Reply::NotFound`].
    One(Table),
    /// A read of one page of rows.
    Page(Table),
    /// A read of all rows, page after page.
    All(Table),
}

/// A statement for the store.
///
/// `fields` names the columns of the rows that come back, in their order; `page_size`
/// is the size of a page for a read of many rows and 0 otherwise.
#[derive(Clone, Debug)]
pub struct Query {
    pub cql: String,
    pub params: Vec<Value>,
    pub fields: Vec<String>,
    pub fetch: Fetch,
    pub page_size: i32,
}

/// A statement, as mathematical values.
pub struct QueryView {
    pub cql: Seq<char>,
    pub params: Seq<ValueView>,
    pub fields: Seq<Seq<char>>,
    pub fetch: Fetch,
    pub page_size: i32,
}

impl View for Query {
    type V = QueryView;

    open spec fn view(&self) -> QueryView {
        QueryView {
            cql: self.cql@,
            params: values(self.params@),
            fields: texts(self.fields@),
            fetch: self.fetch,
            page_size: self.page_size,
        }
    }
}

/// What the store answered.
#[derive(Debug)]
pub enum Reply {
    /// Nothing was asked yet: what the first step of an operation is given.
    Start,
    /// Whether a conditional write was applied.
    Applied(bool),
    /// An unconditional write went through.
    Done,
    Task(Task),
    Tasks(Vec<Task>),
    Notification(Notification),
    Notifications(Vec<Notification>),
    GroupNotification(GroupNotification),
    GroupNotifications(Vec<GroupNotification>),
    /// A read of one row found none.
    NotFound,
    /// The store failed; the text is what it said.
    Failed(String),
}

/// A reply, as mathematical values.
pub enum ReplyView {
    Start,
    Applied(bool),
    Done,
    Task(TaskView),
    Tasks(Seq<TaskView>),
    Notification(NotificationView),
    Notifications(Seq<NotificationView>),
    GroupNotification(GroupNotificationView),
    GroupNotifications(Seq<GroupNotificationView>),
    NotFound,
    Failed(String),
}

impl View for Reply {
    type V = ReplyView;

    open spec fn view(&self) -> ReplyView {
        match self {
            Reply::Start => ReplyView::Start,
            Reply::Applied(b) => ReplyView::Applied(*b),
            Reply::Done => ReplyView::Done,
            Reply::Task(t) => ReplyView::Task(t@),
            Reply::Tasks(v) => ReplyView::Tasks(v@.map_values(|t: Task| t@)),
            Reply::Notification(n) => ReplyView::Notification(n@),
            Reply::Notifications(v) => ReplyView::Notifications(v@.map_values(|n: Notification| n@)),
            Reply::GroupNotification(n) => ReplyView::GroupNotification(n@),
            Reply::GroupNotifications(v) => ReplyView::GroupNotifications(
                v@.map_values(|n: GroupNotification| n@),
            ),
            Reply::NotFound => ReplyView::NotFound,
            Reply::Failed(m) => ReplyView::Failed(*m),
        }
    }
}

impl ReplyView {
    /// The error that a reply stands for where a row or an answer was expected and the
    /// reply is neither: a missing row, a failure of the store, or a reply of the wrong
    /// kind.
    pub open spec fn fault(self) -> Error {
        match self {
            ReplyView::NotFound => Error::NotFound,
            ReplyView::Failed(m) => Error::Store(m),
            _ => Error::BadReply,
        }
    }
}

impl Reply {
    /// The error that the reply stands for: see [`ReplyView::fault`].
    pub fn into_fault(self) -> (e: Error)
        ensures
            e == self@.fault(),
    {
        match self {
            Reply::NotFound => Error::NotFound,
            Reply::Failed(m) => Error::Store(m),
            _ => Error::BadReply,
        }
    }
}

/// The two stages of an operation that asks the store once.
#[derive(Clone, Copy, Debug, PartialEq, Eq, Structural)]
pub enum Trip {
    /// Nothing was asked yet.
    Ask,
    /// The statement was issued; the reply is its answer.
    Answer,
}

/// A column to set, by name, and its new value.
#[derive(Clone, Debug)]
pub struct Change {
    pub field: String,
    pub value: Value,
}

/// What the caller of an operation does next.
#[derive(Debug)]
pub enum Next<S, T> {
    /// Run the statement, then call the operation again with the stage and the reply.
    Run(Query, S),
    /// The operation has ended with this result.
    Done(Result<T, Error>),
}

} // verus!
