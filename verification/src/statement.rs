//! The statements of the store protocol: conditional insert, conditional update on the
//! version token or on existence, set merge, delete, and paged scan. Each is given as a
//! mathematical value with its text and parameters, and built by a function that is
//! proved to produce exactly those.

use vstd::prelude::*;
use crate::db::model_notification::{
    group_notification_labels,
    notification_labels,
    GroupNotification,
    GroupNotificationView,
    Notification,
    NotificationView,
};
use crate::db::model_task::{every_field, Task, TaskView};
use crate::error::Vote;
use crate::field::{texts, Field};
use crate::id::Id;
use crate::error::Error;
use crate::store::{values, Fetch, Next, Query, QueryView, Table, Value, ValueView};

verus! {

/// What a statement asks of the store.
#[allow(inconsistent_fields)]
pub enum Statement {
    /// One task, the named columns of it.
    TaskGet { uid: Id, id: Id, fields: Seq<Seq<char>> },
    /// A new task, unless one with its key is there.
    TaskInsert { row: TaskView },
    /// New scalars and a new version token, if the stored token is `expected`.
    TaskUpdate {
        uid: Id,
        id: Id,
        expected: i64,
        updated_at: i64,
        duedate: Option<i64>,
        message: Option<Seq<char>>,
    },
    /// `ids` into the assignees (`add`) or out of them, and a new version token, if the
    /// stored token is `expected`.
    TaskAssignees { uid: Id, id: Id, expected: i64, updated_at: i64, ids: Seq<Id>, add: bool },
    /// The voter into the set of the vote and out of the other set, if the task is there.
    TaskVote { uid: Id, id: Id, voter: Id, vote: Vote },
    /// A new status, if the task is there.
    TaskSetStatus { uid: Id, id: Id, status: i8 },
    /// The task away.
    TaskDelete { uid: Id, id: Id },
    /// All tasks of an owner away, or those of one status.
    TaskPurge { uid: Id, status: Option<i8> },
    /// A page of the tasks of an owner, below `page_token` where one is given.
    TaskList {
        uid: Id,
        fields: Seq<Seq<char>>,
        page_size: u16,
        page_token: Option<Id>,
        status: Option<i8>,
    },
    /// One notification.
    NotificationGet { uid: Id, tid: Id, sender: Id },
    /// A new notification, unless one with its key is there.
    NotificationInsert { row: NotificationView },
    /// The recipient's acknowledgement, if the notification is there.
    NotificationUpdate { uid: Id, tid: Id, sender: Id, status: i8, message: Seq<char> },
    /// The notification away.
    NotificationDelete { uid: Id, tid: Id, sender: Id },
    /// The keys of notifications of a task, at most 1000.
    NotificationScan { tid: Id },
    /// All notifications of a recipient away, or those of one status.
    NotificationPurge { uid: Id, status: Option<i8> },
    /// A page of the notifications of a recipient, below `page_token` where one is given.
    NotificationList { uid: Id, page_size: u16, page_token: Option<Id>, status: Option<i8> },
    /// One group notification.
    GroupNotificationGet { gid: Id, tid: Id, sender: Id },
    /// A new group notification, unless one with its key is there.
    GroupNotificationInsert { row: GroupNotificationView },
    /// The group notification away.
    GroupNotificationDelete { gid: Id, tid: Id, sender: Id },
    /// A page of the notifications of a group, below `page_token` where one is given.
    GroupNotificationList { gid: Id, page_size: u16, page_token: Option<Id>, role: Option<i8> },
}

/// What an operation does next, the statement as a mathematical value.
pub enum Move<S, T> {
    /// It issues the statement and goes on at the stage.
    Run(Statement, S),
    /// It ends with the result.
    Done(Result<T, Error>),
}

/// Whether `next` is the move `mv`: the same result, or the same stage with a query
/// that is exactly the statement's.
pub open spec fn plays<S, T>(next: Next<S, T>, mv: Move<S, T>) -> bool {
    match next {
        Next::Run(q, s) => mv matches Move::Run(stmt, stage) && q@ == stmt.query() && s == stage,
        Next::Done(r) => mv matches Move::Done(res) && r == res,
    }
}

/// The parts in their order, with `sep` between each two.
pub open spec fn joined(parts: Seq<Seq<char>>, sep: Seq<char>) -> Seq<char>
    decreases parts.len(),
{
    if parts.len() == 0 {
        Seq::empty()
    } else if parts.len() == 1 {
        parts[0]
    } else {
        joined(parts.drop_last(), sep) + sep + parts.last()
    }
}

/// `n` question marks with commas between them.
pub open spec fn marks(n: nat) -> Seq<char>
    decreases n,
{
    if n == 0 {
        Seq::empty()
    } else if n == 1 {
        "?"@
    } else {
        marks((n - 1) as nat) + ",?"@
    }
}

/// Each identity as a bound value.
pub open spec fn id_values(ids: Seq<Id>) -> Seq<ValueView> {
    ids.map_values(|x: Id| ValueView::Id(x))
}

/// The text of a scan: what is selected, the table, the partition column, the filter
/// column where `filtered`, the cursor column where `below`.
pub open spec fn scan_text(
    fields: Seq<Seq<char>>,
    head: Seq<char>,
    filter: Seq<char>,
    cursor: Seq<char>,
    filtered: bool,
    below: bool,
) -> Seq<char> {
    let a = "SELECT "@ + joined(fields, ","@) + head;
    let b = if filtered {
        a + filter
    } else {
        a
    };
    let c = if below {
        b + cursor
    } else {
        b
    };
    c + " LIMIT ? BYPASS CACHE USING TIMEOUT 3s"@
}

/// The parameters of a scan, in the order of its question marks.
pub open spec fn scan_params(
    key: Id,
    filter: Option<i8>,
    page_token: Option<Id>,
    page_size: u16,
) -> Seq<ValueView> {
    let a = seq![ValueView::Id(key)];
    let b = match filter {
        Some(x) => a.push(ValueView::TinyInt(x)),
        None => a,
    };
    let c = match page_token {
        Some(t) => b.push(ValueView::Id(t)),
        None => b,
    };
    c.push(ValueView::Int(page_size as i32))
}

/// The parameters of a purge.
pub open spec fn purge_params(key: Id, filter: Option<i8>) -> Seq<ValueView> {
    match filter {
        Some(x) => seq![ValueView::Id(key), ValueView::TinyInt(x)],
        None => seq![ValueView::Id(key)],
    }
}

impl Statement {
    /// The text of the statement.
    pub open spec fn cql(self) -> Seq<char> {
        match self {
            Statement::TaskGet { fields, .. } => "SELECT "@ + joined(fields, ","@)
                + " FROM task WHERE uid=? AND id=? LIMIT 1"@,
            Statement::TaskInsert { .. } => "INSERT INTO task ("@ + joined(
                Field::labels(every_field()),
                ","@,
            ) + ") VALUES ("@ + marks(15) + ") IF NOT EXISTS"@,
            Statement::TaskUpdate { duedate, message, .. } => {
                let a = "UPDATE task SET updated_at=?"@;
                let b = if duedate is Some {
                    a + ",duedate=?"@
                } else {
                    a
                };
                let c = if message is Some {
                    b + ",message=?"@
                } else {
                    b
                };
                c + " WHERE uid=? AND id=? IF updated_at=?"@
            },
            Statement::TaskAssignees { ids, add, .. } => (if add {
                "UPDATE task SET assignees=assignees+{ "@
            } else {
                "UPDATE task SET assignees=assignees-{ "@
            }) + marks(ids.len()) + " }, updated_at=? WHERE uid=? AND id=? IF updated_at=?"@,
            Statement::TaskVote { vote, .. } => match vote {
                Vote::Resolve =>
                    "UPDATE task SET rejected=rejected-{?}, resolved=resolved+{?} WHERE uid=? AND id=? IF EXISTS"@,
                Vote::Reject =>
                    "UPDATE task SET resolved=resolved-{?}, rejected=rejected+{?} WHERE uid=? AND id=? IF EXISTS"@,
            },
            Statement::TaskSetStatus { .. } => "UPDATE task SET status=? WHERE uid=? AND id=? IF EXISTS"@,
            Statement::TaskDelete { .. } => "DELETE FROM task WHERE uid=? AND id=?"@,
            Statement::TaskPurge { status, .. } => if status is Some {
                "DELETE FROM task WHERE uid=? AND status=?"@
            } else {
                "DELETE FROM task WHERE uid=?"@
            },
            Statement::TaskList { fields, page_token, status, .. } => scan_text(
                fields,
                " FROM task WHERE uid=?"@,
                " AND status=?"@,
                " AND id<?"@,
                status is Some,
                page_token is Some,
            ),
            Statement::NotificationGet { .. } => "SELECT "@ + joined(notification_labels(), ","@)
                + " FROM notification WHERE uid=? AND tid=? AND sender=? LIMIT 1"@,
            Statement::NotificationInsert { .. } => "INSERT INTO notification ("@ + joined(
                notification_labels(),
                ","@,
            ) + ") VALUES ("@ + marks(5) + ") IF NOT EXISTS"@,
            Statement::NotificationUpdate { .. } =>
                "UPDATE notification SET status=?,message=? WHERE uid=? AND tid=? AND sender=? IF EXISTS"@,
            Statement::NotificationDelete { .. } =>
                "DELETE FROM notification WHERE uid=? AND tid=? AND sender=?"@,
            Statement::NotificationScan { .. } =>
                "SELECT uid,tid,sender FROM notification WHERE tid=? LIMIT ? BYPASS CACHE USING TIMEOUT 3s"@,
            Statement::NotificationPurge { status, .. } => if status is Some {
                "DELETE FROM notification WHERE uid=? AND status=?"@
            } else {
                "DELETE FROM notification WHERE uid=?"@
            },
            Statement::NotificationList { page_token, status, .. } => scan_text(
                notification_labels(),
                " FROM notification WHERE uid=?"@,
                " AND status=?"@,
                " AND tid<?"@,
                status is Some,
                page_token is Some,
            ),
            Statement::GroupNotificationGet { .. } => "SELECT "@ + joined(
                group_notification_labels(),
                ","@,
            ) + " FROM group_notification WHERE gid=? AND tid=? AND sender=? LIMIT 1"@,
            Statement::GroupNotificationInsert { .. } => "INSERT INTO group_notification ("@ + joined(
                group_notification_labels(),
                ","@,
            ) + ") VALUES ("@ + marks(4) + ") IF NOT EXISTS"@,
            Statement::GroupNotificationDelete { .. } =>
                "DELETE FROM group_notification WHERE gid=? AND tid=? AND sender=?"@,
            Statement::GroupNotificationList { page_token, role, .. } => scan_text(
                group_notification_labels(),
                " FROM group_notification WHERE gid=?"@,
                " AND role=?"@,
                " AND tid<?"@,
                role is Some,
                page_token is Some,
            ),
        }
    }

    /// The values bound to the question marks of the text, in their order.
    pub open spec fn params(self) -> Seq<ValueView> {
        match self {
            Statement::TaskGet { uid, id, .. } => seq![ValueView::Id(uid), ValueView::Id(id)],
            Statement::TaskInsert { row } => seq![
                ValueView::Id(row.uid),
                ValueView::Id(row.id),
                ValueView::Id(row.gid),
                ValueView::TinyInt(row.status),
                ValueView::Text(row.kind),
                ValueView::BigInt(row.created_at),
                ValueView::BigInt(row.updated_at),
                ValueView::BigInt(row.duedate),
                ValueView::SmallInt(row.threshold),
                ValueView::Ids(row.approvers),
                ValueView::Ids(row.assignees),
                ValueView::Ids(row.resolved),
                ValueView::Ids(row.rejected),
                ValueView::Text(row.message),
                ValueView::Bytes(row.payload),
            ],
            Statement::TaskUpdate { uid, id, expected, updated_at, duedate, message } => {
                let a = seq![ValueView::BigInt(updated_at)];
                let b = match duedate {
                    Some(d) => a.push(ValueView::BigInt(d)),
                    None => a,
                };
                let c = match message {
                    Some(m) => b.push(ValueView::Text(m)),
                    None => b,
                };
                c.push(ValueView::Id(uid)).push(ValueView::Id(id)).push(ValueView::BigInt(expected))
            },
            Statement::TaskAssignees { uid, id, expected, updated_at, ids, .. } => id_values(ids).push(
                ValueView::BigInt(updated_at),
            ).push(ValueView::Id(uid)).push(ValueView::Id(id)).push(ValueView::BigInt(expected)),
            Statement::TaskVote { uid, id, voter, .. } => seq![
                ValueView::Id(voter),
                ValueView::Id(voter),
                ValueView::Id(uid),
                ValueView::Id(id),
            ],
            Statement::TaskSetStatus { uid, id, status } => seq![
                ValueView::TinyInt(status),
                ValueView::Id(uid),
                ValueView::Id(id),
            ],
            Statement::TaskDelete { uid, id } => seq![ValueView::Id(uid), ValueView::Id(id)],
            Statement::TaskPurge { uid, status } => purge_params(uid, status),
            Statement::TaskList { uid, page_size, page_token, status, .. } => scan_params(
                uid,
                status,
                page_token,
                page_size,
            ),
            Statement::NotificationGet { uid, tid, sender } => seq![
                ValueView::Id(uid),
                ValueView::Id(tid),
                ValueView::Id(sender),
            ],
            Statement::NotificationInsert { row } => seq![
                ValueView::Id(row.uid),
                ValueView::Id(row.tid),
                ValueView::Id(row.sender),
                ValueView::TinyInt(row.status),
                ValueView::Text(row.message),
            ],
            Statement::NotificationUpdate { uid, tid, sender, status, message } => seq![
                ValueView::TinyInt(status),
                ValueView::Text(message),
                ValueView::Id(uid),
                ValueView::Id(tid),
                ValueView::Id(sender),
            ],
            Statement::NotificationDelete { uid, tid, sender } => seq![
                ValueView::Id(uid),
                ValueView::Id(tid),
                ValueView::Id(sender),
            ],
            Statement::NotificationScan { tid } => seq![ValueView::Id(tid), ValueView::Int(1000)],
            Statement::NotificationPurge { uid, status } => purge_params(uid, status),
            Statement::NotificationList { uid, page_size, page_token, status } => scan_params(
                uid,
                status,
                page_token,
                page_size,
            ),
            Statement::GroupNotificationGet { gid, tid, sender } => seq![
                ValueView::Id(gid),
                ValueView::Id(tid),
                ValueView::Id(sender),
            ],
            Statement::GroupNotificationInsert { row } => seq![
                ValueView::Id(row.gid),
                ValueView::Id(row.tid),
                ValueView::Id(row.sender),
                ValueView::TinyInt(row.role),
            ],
            Statement::GroupNotificationDelete { gid, tid, sender } => seq![
                ValueView::Id(gid),
                ValueView::Id(tid),
                ValueView::Id(sender),
            ],
            Statement::GroupNotificationList { gid, page_size, page_token, role } => scan_params(
                gid,
                role,
                page_token,
                page_size,
            ),
        }
    }

    /// The columns of the rows that come back, for a read; nothing for a write.
    pub open spec fn fields(self) -> Seq<Seq<char>> {
        match self {
            Statement::TaskGet { fields, .. } => fields,
            Statement::TaskList { fields, .. } => fields,
            Statement::NotificationGet { .. } => notification_labels(),
            Statement::NotificationList { .. } => notification_labels(),
            Statement::NotificationScan { .. } => seq!["uid"@, "tid"@, "sender"@],
            Statement::GroupNotificationGet { .. } => group_notification_labels(),
            Statement::GroupNotificationList { .. } => group_notification_labels(),
            _ => Seq::empty(),
        }
    }

    /// How the statement is run. A scan with a cursor fetches one page; one without
    /// walks all pages.
    pub open spec fn fetch(self) -> Fetch {
        match self {
            Statement::TaskGet { .. } => Fetch::One(Table::Task),
            Statement::TaskInsert { .. } => Fetch::Applied,
            Statement::TaskUpdate { .. } => Fetch::Applied,
            Statement::TaskAssignees { .. } => Fetch::Applied,
            Statement::TaskVote { .. } => Fetch::Applied,
            Statement::TaskSetStatus { .. } => Fetch::Applied,
            Statement::TaskDelete { .. } => Fetch::Nothing,
            Statement::TaskPurge { .. } => Fetch::Nothing,
            Statement::TaskList { page_token, .. } => if page_token is Some {
                Fetch::Page(Table::Task)
            } else {
                Fetch::All(Table::Task)
            },
            Statement::NotificationGet { .. } => Fetch::One(Table::Notification),
            Statement::NotificationInsert { .. } => Fetch::Applied,
            Statement::NotificationUpdate { .. } => Fetch::Applied,
            Statement::NotificationDelete { .. } => Fetch::Nothing,
            Statement::NotificationScan { .. } => Fetch::All(Table::Notification),
            Statement::NotificationPurge { .. } => Fetch::Nothing,
            Statement::NotificationList { page_token, .. } => if page_token is Some {
                Fetch::Page(Table::Notification)
            } else {
                Fetch::All(Table::Notification)
            },
            Statement::GroupNotificationGet { .. } => Fetch::One(Table::GroupNotification),
            Statement::GroupNotificationInsert { .. } => Fetch::Applied,
            Statement::GroupNotificationDelete { .. } => Fetch::Nothing,
            Statement::GroupNotificationList { page_token, .. } => if page_token is Some {
                Fetch::Page(Table::GroupNotification)
            } else {
                Fetch::All(Table::GroupNotification)
            },
        }
    }

    /// The size of a page, for a scan; 0 otherwise.
    pub open spec fn page_size(self) -> i32 {
        match self {
            Statement::TaskList { page_size, .. } => page_size as i32,
            Statement::NotificationList { page_size, .. } => page_size as i32,
            Statement::GroupNotificationList { page_size, .. } => page_size as i32,
            Statement::NotificationScan { .. } => 1000,
            _ => 0,
        }
    }

    /// The statement as it goes to the store.
    pub open spec fn query(self) -> QueryView {
        QueryView {
            cql: self.cql(),
            params: self.params(),
            fields: self.fields(),
            fetch: self.fetch(),
            page_size: self.page_size(),
        }
    }
}

/// The parts in their order, with `sep` between each two.
pub fn join(parts: &Vec<String>, sep: &str) -> (s: String)
    ensures
        s@ == joined(texts(parts@), sep@),
{
    let mut s = String::new();
    let ghost all = texts(parts@);
    let mut i: usize = 0;
    while i < parts.len()
        invariant
            i <= parts.len(),
            all == texts(parts@),
            s@ == joined(all.take(i as int), sep@),
        decreases parts.len() - i,
    {
        proof {
            let next = all.take(i + 1);
            assert(next.drop_last() == all.take(i as int));
            assert(next.last() == parts@[i as int]@);
            if i > 0 {
                assert(joined(next, sep@) == joined(all.take(i as int), sep@) + sep@ + parts@[i as int]@);
            } else {
                assert(joined(next, sep@) == parts@[i as int]@);
                assert(s@ + parts@[i as int]@ =~= parts@[i as int]@);
            }
        }
        if i > 0 {
            s.append(sep);
        }
        s.append(parts[i].as_str());
        i += 1;
    }
    assert(all.take(parts.len() as int) == all);
    s
}

/// `n` question marks with commas between them.
pub fn question_marks(n: usize) -> (s: String)
    ensures
        s@ == marks(n as nat),
{
    let mut s = String::new();
    let mut i: usize = 0;
    while i < n
        invariant
            i <= n,
            s@ == marks(i as nat),
        decreases n - i,
    {
        proof {
            if i == 0 {
                assert(s@ + "?"@ =~= "?"@);
            }
        }
        if i > 0 {
            s.append(",?");
        } else {
            s.append("?");
        }
        i += 1;
    }
    s
}

/// Binds one more value.
fn bind(params: &mut Vec<Value>, v: Value)
    ensures
        values(final(params)@) == values(old(params)@).push(v@),
{
    params.push(v);
    assert(values(params@) =~= values(old(params)@).push(v@));
}

/// Binds each identity of `ids`, in their order.
fn bind_ids(params: &mut Vec<Value>, ids: &Vec<Id>)
    ensures
        values(final(params)@) == values(old(params)@) + id_values(ids@),
{
    let mut i: usize = 0;
    assert(values(params@) =~= values(old(params)@) + id_values(ids@.take(0)));
    while i < ids.len()
        invariant
            i <= ids.len(),
            values(params@) == values(old(params)@) + id_values(ids@.take(i as int)),
        decreases ids.len() - i,
    {
        let ghost before = values(params@);
        bind(params, Value::Id(ids[i]));
        assert(values(params@) =~= values(old(params)@) + id_values(ids@.take(i + 1))) by {
            assert(ids@.take(i + 1) == ids@.take(i as int).push(ids@[i as int]));
            assert(id_values(ids@.take(i + 1)) =~= id_values(ids@.take(i as int)).push(
                ValueView::Id(ids@[i as int]),
            ));
        }
        i += 1;
    }
    assert(ids@.take(ids.len() as int) == ids@);
}

/// No values bound yet.
fn no_params() -> (params: Vec<Value>)
    ensures
        values(params@) == Seq::<ValueView>::empty(),
{
    let params: Vec<Value> = Vec::new();
    assert(values(params@) =~= Seq::<ValueView>::empty());
    params
}

/// No column comes back.
fn no_fields() -> (fields: Vec<String>)
    ensures
        texts(fields@) == Seq::<Seq<char>>::empty(),
{
    let fields: Vec<String> = Vec::new();
    assert(texts(fields@) =~= Seq::<Seq<char>>::empty());
    fields
}

/// A copy of the text.
fn text_value(s: &String) -> (v: Value)
    ensures
        v@ == ValueView::Text(s@),
{
    Value::Text(s.clone())
}

/// The members of a set, as a bound value.
fn ids_value(s: &crate::idset::IdSet) -> (v: Value)
    ensures
        v@ == ValueView::Ids(s@),
{
    Value::Ids(s.to_vec())
}

/// A scan of one partition: see [`scan_text`] and [`scan_params`].
fn scan(
    fields: Vec<String>,
    head: &str,
    filter: &str,
    cursor: &str,
    table: Table,
    key: Id,
    filter_value: Option<i8>,
    page_token: Option<Id>,
    page_size: u16,
) -> (q: Query)
    ensures
        q@ == (QueryView {
            cql: scan_text(texts(fields@), head@, filter@, cursor@, filter_value is Some, page_token is Some),
            params: scan_params(key, filter_value, page_token, page_size),
            fields: texts(fields@),
            fetch: if page_token is Some {
                Fetch::Page(table)
            } else {
                Fetch::All(table)
            },
            page_size: page_size as i32,
        }),
{
    let mut cql = String::from_str("SELECT ");
    let list = join(&fields, ",");
    cql.append(list.as_str());
    cql.append(head);
    let mut params = no_params();
    bind(&mut params, Value::Id(key));
    assert(values(params@) =~= seq![ValueView::Id(key)]);
    match filter_value {
        Some(x) => {
            cql.append(filter);
            bind(&mut params, Value::TinyInt(x));
        },
        None => {},
    }
    let fetch = match page_token {
        Some(t) => {
            cql.append(cursor);
            bind(&mut params, Value::Id(t));
            Fetch::Page(table)
        },
        None => Fetch::All(table),
    };
    cql.append(" LIMIT ? BYPASS CACHE USING TIMEOUT 3s");
    bind(&mut params, Value::Int(page_size as i32));
    Query { cql, params, fields, fetch, page_size: page_size as i32 }
}

/// A delete of one partition, or of its rows with one value in the filter column.
fn purge(all: &str, some: &str, key: Id, filter_value: Option<i8>) -> (q: Query)
    ensures
        q@ == (QueryView {
            cql: if filter_value is Some {
                some@
            } else {
                all@
            },
            params: purge_params(key, filter_value),
            fields: Seq::empty(),
            fetch: Fetch::Nothing,
            page_size: 0,
        }),
{
    let mut params = no_params();
    bind(&mut params, Value::Id(key));
    let cql = match filter_value {
        Some(x) => {
            bind(&mut params, Value::TinyInt(x));
            assert(values(params@) =~= purge_params(key, filter_value));
            String::from_str(some)
        },
        None => {
            assert(values(params@) =~= purge_params(key, filter_value));
            String::from_str(all)
        },
    };
    Query { cql, params, fields: no_fields(), fetch: Fetch::Nothing, page_size: 0 }
}

/// A statement with a fixed text on a key of three identities, after `first` values.
fn keyed(text: &str, first: Vec<Value>, a: Id, b: Id, c: Id, fetch: Fetch) -> (q: Query)
    ensures
        q@ == (QueryView {
            cql: text@,
            params: values(first@).push(ValueView::Id(a)).push(ValueView::Id(b)).push(ValueView::Id(c)),
            fields: Seq::empty(),
            fetch,
            page_size: 0,
        }),
{
    let mut params = first;
    bind(&mut params, Value::Id(a));
    bind(&mut params, Value::Id(b));
    bind(&mut params, Value::Id(c));
    Query { cql: String::from_str(text), params, fields: no_fields(), fetch, page_size: 0 }
}

/// A statement with a fixed text on the key of a task, after `first` values.
fn on_task(text: &str, first: Vec<Value>, uid: Id, id: Id, fetch: Fetch) -> (q: Query)
    ensures
        q@ == (QueryView {
            cql: text@,
            params: values(first@).push(ValueView::Id(uid)).push(ValueView::Id(id)),
            fields: Seq::empty(),
            fetch,
            page_size: 0,
        }),
{
    let mut params = first;
    bind(&mut params, Value::Id(uid));
    bind(&mut params, Value::Id(id));
    Query { cql: String::from_str(text), params, fields: no_fields(), fetch, page_size: 0 }
}

/// Reads the columns `fields` of one task.
pub fn task_get(uid: Id, id: Id, fields: Vec<String>) -> (q: Query)
    ensures
        q@ == (Statement::TaskGet { uid, id, fields: texts(fields@) }).query(),
{
    let mut cql = String::from_str("SELECT ");
    let list = join(&fields, ",");
    cql.append(list.as_str());
    cql.append(" FROM task WHERE uid=? AND id=? LIMIT 1");
    let mut params = no_params();
    bind(&mut params, Value::Id(uid));
    bind(&mut params, Value::Id(id));
    assert(values(params@) =~= seq![ValueView::Id(uid), ValueView::Id(id)]);
    Query { cql, params, fields, fetch: Fetch::One(Table::Task), page_size: 0 }
}

/// Inserts the task unless one with its key is there.
pub fn task_insert(row: &Task) -> (q: Query)
    ensures
        q@ == (Statement::TaskInsert { row: row@ }).query(),
{
    let mut cql = String::from_str("INSERT INTO task (");
    let names = Task::fields();
    let list = join(&names, ",");
    cql.append(list.as_str());
    cql.append(") VALUES (");
    let qs = question_marks(15);
    cql.append(qs.as_str());
    cql.append(") IF NOT EXISTS");
    let mut params = no_params();
    bind(&mut params, Value::Id(row.uid));
    bind(&mut params, Value::Id(row.id));
    bind(&mut params, Value::Id(row.gid));
    bind(&mut params, Value::TinyInt(row.status));
    bind(&mut params, text_value(&row.kind));
    bind(&mut params, Value::BigInt(row.created_at));
    bind(&mut params, Value::BigInt(row.updated_at));
    bind(&mut params, Value::BigInt(row.duedate));
    bind(&mut params, Value::SmallInt(row.threshold));
    bind(&mut params, ids_value(&row.approvers));
    bind(&mut params, ids_value(&row.assignees));
    bind(&mut params, ids_value(&row.resolved));
    bind(&mut params, ids_value(&row.rejected));
    bind(&mut params, text_value(&row.message));
    let payload = row.payload.clone();
    assert(payload@ =~= row.payload@);
    bind(&mut params, Value::Bytes(payload));
    assert(values(params@) =~= (Statement::TaskInsert { row: row@ }).params());
    Query { cql, params, fields: no_fields(), fetch: Fetch::Applied, page_size: 0 }
}

/// Sets scalars and a new version token if the stored token is `expected`.
pub fn task_update(
    uid: Id,
    id: Id,
    expected: i64,
    updated_at: i64,
    duedate: Option<i64>,
    message: Option<String>,
) -> (q: Query)
    ensures
        q@ == (Statement::TaskUpdate {
            uid,
            id,
            expected,
            updated_at,
            duedate,
            message: match message {
                Some(m) => Some(m@),
                None => None,
            },
        }).query(),
{
    let mut cql = String::from_str("UPDATE task SET updated_at=?");
    let mut params = no_params();
    bind(&mut params, Value::BigInt(updated_at));
    assert(values(params@) =~= seq![ValueView::BigInt(updated_at)]);
    match duedate {
        Some(d) => {
            cql.append(",duedate=?");
            bind(&mut params, Value::BigInt(d));
        },
        None => {},
    }
    match message {
        Some(m) => {
            cql.append(",message=?");
            bind(&mut params, Value::Text(m));
        },
        None => {},
    }
    cql.append(" WHERE uid=? AND id=? IF updated_at=?");
    bind(&mut params, Value::Id(uid));
    bind(&mut params, Value::Id(id));
    bind(&mut params, Value::BigInt(expected));
    Query { cql, params, fields: no_fields(), fetch: Fetch::Applied, page_size: 0 }
}

/// Merges `ids` into the assignees (`add`) or out of them, with a new version token, if
/// the stored token is `expected`.
pub fn task_assignees(uid: Id, id: Id, expected: i64, updated_at: i64, ids: &Vec<Id>, add: bool) -> (q:
    Query)
    ensures
        q@ == (Statement::TaskAssignees { uid, id, expected, updated_at, ids: ids@, add }).query(),
{
    let mut cql = if add {
        String::from_str("UPDATE task SET assignees=assignees+{ ")
    } else {
        String::from_str("UPDATE task SET assignees=assignees-{ ")
    };
    let qs = question_marks(ids.len());
    cql.append(qs.as_str());
    cql.append(" }, updated_at=? WHERE uid=? AND id=? IF updated_at=?");
    let mut params = no_params();
    bind_ids(&mut params, ids);
    assert(values(params@) =~= id_values(ids@));
    bind(&mut params, Value::BigInt(updated_at));
    bind(&mut params, Value::Id(uid));
    bind(&mut params, Value::Id(id));
    bind(&mut params, Value::BigInt(expected));
    Query { cql, params, fields: no_fields(), fetch: Fetch::Applied, page_size: 0 }
}

/// Records a vote: the voter into the set of the vote and out of the other, if the task
/// is there.
pub fn task_vote(uid: Id, id: Id, voter: Id, vote: Vote) -> (q: Query)
    ensures
        q@ == (Statement::TaskVote { uid, id, voter, vote }).query(),
{
    let mut first = no_params();
    bind(&mut first, Value::Id(voter));
    bind(&mut first, Value::Id(voter));
    let q = match vote {
        Vote::Resolve => on_task(
            "UPDATE task SET rejected=rejected-{?}, resolved=resolved+{?} WHERE uid=? AND id=? IF EXISTS",
            first,
            uid,
            id,
            Fetch::Applied,
        ),
        Vote::Reject => on_task(
            "UPDATE task SET resolved=resolved-{?}, rejected=rejected+{?} WHERE uid=? AND id=? IF EXISTS",
            first,
            uid,
            id,
            Fetch::Applied,
        ),
    };
    assert(q@.params =~= (Statement::TaskVote { uid, id, voter, vote }).params());
    q
}

/// Sets the status if the task is there.
pub fn task_set_status(uid: Id, id: Id, status: i8) -> (q: Query)
    ensures
        q@ == (Statement::TaskSetStatus { uid, id, status }).query(),
{
    let mut first = no_params();
    bind(&mut first, Value::TinyInt(status));
    let q = on_task("UPDATE task SET status=? WHERE uid=? AND id=? IF EXISTS", first, uid, id, Fetch::Applied);
    assert(q@.params =~= (Statement::TaskSetStatus { uid, id, status }).params());
    q
}

/// Deletes the task.
pub fn task_delete(uid: Id, id: Id) -> (q: Query)
    ensures
        q@ == (Statement::TaskDelete { uid, id }).query(),
{
    let q = on_task("DELETE FROM task WHERE uid=? AND id=?", no_params(), uid, id, Fetch::Nothing);
    assert(q@.params =~= (Statement::TaskDelete { uid, id }).params());
    q
}

/// Deletes all tasks of an owner, or those of one status.
pub fn task_purge(uid: Id, status: Option<i8>) -> (q: Query)
    ensures
        q@ == (Statement::TaskPurge { uid, status }).query(),
{
    purge("DELETE FROM task WHERE uid=?", "DELETE FROM task WHERE uid=? AND status=?", uid, status)
}

/// Reads a page of the tasks of an owner.
pub fn task_list(
    uid: Id,
    fields: Vec<String>,
    page_size: u16,
    page_token: Option<Id>,
    status: Option<i8>,
) -> (q: Query)
    ensures
        q@ == (Statement::TaskList { uid, fields: texts(fields@), page_size, page_token, status }).query(),
{
    scan(
        fields,
        " FROM task WHERE uid=?",
        " AND status=?",
        " AND id<?",
        Table::Task,
        uid,
        status,
        page_token,
        page_size,
    )
}

/// Reads one notification.
pub fn notification_get(uid: Id, tid: Id, sender: Id) -> (q: Query)
    ensures
        q@ == (Statement::NotificationGet { uid, tid, sender }).query(),
{
    let mut cql = String::from_str("SELECT ");
    let fields = Notification::fields();
    let list = join(&fields, ",");
    cql.append(list.as_str());
    cql.append(" FROM notification WHERE uid=? AND tid=? AND sender=? LIMIT 1");
    let mut params = no_params();
    bind(&mut params, Value::Id(uid));
    bind(&mut params, Value::Id(tid));
    bind(&mut params, Value::Id(sender));
    assert(values(params@) =~= (Statement::NotificationGet { uid, tid, sender }).params());
    Query { cql, params, fields, fetch: Fetch::One(Table::Notification), page_size: 0 }
}

/// Inserts the notification unless one with its key is there.
pub fn notification_insert(row: &Notification) -> (q: Query)
    ensures
        q@ == (Statement::NotificationInsert { row: row@ }).query(),
{
    let mut cql = String::from_str("INSERT INTO notification (");
    let names = Notification::fields();
    let list = join(&names, ",");
    cql.append(list.as_str());
    cql.append(") VALUES (");
    let qs = question_marks(5);
    cql.append(qs.as_str());
    cql.append(") IF NOT EXISTS");
    let mut params = no_params();
    bind(&mut params, Value::Id(row.uid));
    bind(&mut params, Value::Id(row.tid));
    bind(&mut params, Value::Id(row.sender));
    bind(&mut params, Value::TinyInt(row.status));
    bind(&mut params, text_value(&row.message));
    assert(values(params@) =~= (Statement::NotificationInsert { row: row@ }).params());
    Query { cql, params, fields: no_fields(), fetch: Fetch::Applied, page_size: 0 }
}

/// Sets the recipient's acknowledgement if the notification is there.
pub fn notification_update(uid: Id, tid: Id, sender: Id, status: i8, message: &String) -> (q: Query)
    ensures
        q@ == (Statement::NotificationUpdate { uid, tid, sender, status, message: message@ }).query(),
{
    let mut first = no_params();
    bind(&mut first, Value::TinyInt(status));
    bind(&mut first, text_value(message));
    let q = keyed(
        "UPDATE notification SET status=?,message=? WHERE uid=? AND tid=? AND sender=? IF EXISTS",
        first,
        uid,
        tid,
        sender,
        Fetch::Applied,
    );
    assert(q@.params =~= (Statement::NotificationUpdate {
        uid,
        tid,
        sender,
        status,
        message: message@,
    }).params());
    q
}

/// Deletes the notification.
pub fn notification_delete(uid: Id, tid: Id, sender: Id) -> (q: Query)
    ensures
        q@ == (Statement::NotificationDelete { uid, tid, sender }).query(),
{
    let q = keyed(
        "DELETE FROM notification WHERE uid=? AND tid=? AND sender=?",
        no_params(),
        uid,
        tid,
        sender,
        Fetch::Nothing,
    );
    assert(q@.params =~= (Statement::NotificationDelete { uid, tid, sender }).params());
    q
}

/// Reads the keys of up to 1000 notifications of a task.
pub fn notification_scan(tid: Id) -> (q: Query)
    ensures
        q@ == (Statement::NotificationScan { tid }).query(),
{
    let mut params = no_params();
    bind(&mut params, Value::Id(tid));
    bind(&mut params, Value::Int(1000));
    assert(values(params@) =~= (Statement::NotificationScan { tid }).params());
    let mut fields: Vec<String> = Vec::new();
    fields.push(String::from_str("uid"));
    fields.push(String::from_str("tid"));
    fields.push(String::from_str("sender"));
    assert(texts(fields@) =~= seq!["uid"@, "tid"@, "sender"@]);
    Query {
        cql: String::from_str(
            "SELECT uid,tid,sender FROM notification WHERE tid=? LIMIT ? BYPASS CACHE USING TIMEOUT 3s",
        ),
        params,
        fields,
        fetch: Fetch::All(Table::Notification),
        page_size: 1000,
    }
}

/// Deletes all notifications of a recipient, or those of one status.
pub fn notification_purge(uid: Id, status: Option<i8>) -> (q: Query)
    ensures
        q@ == (Statement::NotificationPurge { uid, status }).query(),
{
    purge(
        "DELETE FROM notification WHERE uid=?",
        "DELETE FROM notification WHERE uid=? AND status=?",
        uid,
        status,
    )
}

/// Reads a page of the notifications of a recipient.
pub fn notification_list(uid: Id, page_size: u16, page_token: Option<Id>, status: Option<i8>) -> (q:
    Query)
    ensures
        q@ == (Statement::NotificationList { uid, page_size, page_token, status }).query(),
{
    scan(
        Notification::fields(),
        " FROM notification WHERE uid=?",
        " AND status=?",
        " AND tid<?",
        Table::Notification,
        uid,
        status,
        page_token,
        page_size,
    )
}

/// Reads one group notification.
pub fn group_notification_get(gid: Id, tid: Id, sender: Id) -> (q: Query)
    ensures
        q@ == (Statement::GroupNotificationGet { gid, tid, sender }).query(),
{
    let mut cql = String::from_str("SELECT ");
    let fields = GroupNotification::fields();
    let list = join(&fields, ",");
    cql.append(list.as_str());
    cql.append(" FROM group_notification WHERE gid=? AND tid=? AND sender=? LIMIT 1");
    let mut params = no_params();
    bind(&mut params, Value::Id(gid));
    bind(&mut params, Value::Id(tid));
    bind(&mut params, Value::Id(sender));
    assert(values(params@) =~= (Statement::GroupNotificationGet { gid, tid, sender }).params());
    Query { cql, params, fields, fetch: Fetch::One(Table::GroupNotification), page_size: 0 }
}

/// Inserts the group notification unless one with its key is there.
pub fn group_notification_insert(row: &GroupNotification) -> (q: Query)
    ensures
        q@ == (Statement::GroupNotificationInsert { row: row@ }).query(),
{
    let mut cql = String::from_str("INSERT INTO group_notification (");
    let names = GroupNotification::fields();
    let list = join(&names, ",");
    cql.append(list.as_str());
    cql.append(") VALUES (");
    let qs = question_marks(4);
    cql.append(qs.as_str());
    cql.append(") IF NOT EXISTS");
    let mut params = no_params();
    bind(&mut params, Value::Id(row.gid));
    bind(&mut params, Value::Id(row.tid));
    bind(&mut params, Value::Id(row.sender));
    bind(&mut params, Value::TinyInt(row.role));
    assert(values(params@) =~= (Statement::GroupNotificationInsert { row: row@ }).params());
    Query { cql, params, fields: no_fields(), fetch: Fetch::Applied, page_size: 0 }
}

/// Deletes the group notification.
pub fn group_notification_delete(gid: Id, tid: Id, sender: Id) -> (q: Query)
    ensures
        q@ == (Statement::GroupNotificationDelete { gid, tid, sender }).query(),
{
    let q = keyed(
        "DELETE FROM group_notification WHERE gid=? AND tid=? AND sender=?",
        no_params(),
        gid,
        tid,
        sender,
        Fetch::Nothing,
    );
    assert(q@.params =~= (Statement::GroupNotificationDelete { gid, tid, sender }).params());
    q
}

/// Reads a page of the notifications of a group.
pub fn group_notification_list(gid: Id, page_size: u16, page_token: Option<Id>, role: Option<i8>) -> (q:
    Query)
    ensures
        q@ == (Statement::GroupNotificationList { gid, page_size, page_token, role }).query(),
{
    scan(
        GroupNotification::fields(),
        " FROM group_notification WHERE gid=?",
        " AND role=?",
        " AND tid<?",
        Table::GroupNotification,
        gid,
        role,
        page_token,
        page_size,
    )
}

} // verus!
