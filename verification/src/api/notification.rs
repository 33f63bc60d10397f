//! Requests on notifications: delete one, delete many, list.

use vstd::prelude::*;
use crate::api::task::Shown;
use crate::api::{cursor_after, next_page_token, page_size, page_size_of, Page, Pagination};
use crate::api::task::fields_of;
use crate::db::model_notification::{
    notification_delete_step,
    notification_labels,
    notification_purge_step,
    notification_views,
    Notification,
    NotificationView,
};
use crate::db::model_task::{copy_names, get_step, Task, TaskView};
use crate::error::{Error, Required};
use crate::id::Id;
use crate::statement::{plays, Move, Statement};
use crate::store::{Next, Reply, ReplyView, Trip};

verus! {

/// A task as one of its recipients sees it: the task, and the recipient's own
/// acknowledgement beside its status.
#[derive(Clone, Debug, PartialEq, Eq)]
pub struct NotificationOutput {
    pub sender: Id,
    pub tid: Id,
    pub gid: Id,
    pub status: i8,
    pub ack_status: i8,
    pub kind: String,
    pub created_at: Option<i64>,
    pub updated_at: Option<i64>,
    pub duedate: Option<i64>,
    pub threshold: Option<i16>,
    pub approvers: Option<Vec<Id>>,
    pub assignees: Option<Vec<Id>>,
    pub resolved: Option<Vec<Id>>,
    pub rejected: Option<Vec<Id>>,
    pub message: Option<String>,
    pub payload: Option<Vec<u8>>,
}

impl NotificationOutput {
    /// Whether this is the task `val` as a recipient with the acknowledgement
    /// `ack_status` sees it.
    pub open spec fn shows(self, val: Task, ack_status: i8) -> bool {
        &&& self.sender == val.uid
        &&& self.tid == val.id
        &&& self.gid == val.gid
        &&& self.status == val.status
        &&& self.ack_status == ack_status
        &&& self.kind@ == val.kind@
        &&& (Shown {
            created_at: self.created_at,
            updated_at: self.updated_at,
            duedate: self.duedate,
            threshold: self.threshold,
            approvers: self.approvers,
            assignees: self.assignees,
            resolved: self.resolved,
            rejected: self.rejected,
            message: self.message,
            payload: self.payload,
        }).of_task(val)
    }

    /// The task as a recipient sees it: the owner as sender, the task id, group, status
    /// and kind, the recipient's own acknowledgement, and each other column exactly
    /// where `_fields` names it.
    pub fn from(val: &Task, ack_status: i8) -> (out: NotificationOutput)
        ensures
            out.shows(*val, ack_status),
    {
        let shown = Shown::from(val);
        NotificationOutput {
            sender: val.uid,
            tid: val.id,
            gid: val.gid,
            status: val.status,
            ack_status,
            kind: val.kind.clone(),
            created_at: shown.created_at,
            updated_at: shown.updated_at,
            duedate: shown.duedate,
            threshold: shown.threshold,
            approvers: shown.approvers,
            assignees: shown.assignees,
            resolved: shown.resolved,
            rejected: shown.rejected,
            message: shown.message,
            payload: shown.payload,
        }
    }
}

/// A request to delete notifications of the recipient `uid`: one, by task and owner, or
/// many, by status.
#[derive(Clone, Debug)]
pub struct DeleteNotificationInput {
    pub uid: Id,
    pub tid: Option<Id>,
    pub sender: Option<Id>,
    pub status: Option<i8>,
}

/// The move `mv` of an operation without a result, as one that ends with `Ok(true)`.
pub open spec fn confirmed(mv: Move<Trip, ()>) -> Move<Trip, bool> {
    match mv {
        Move::Run(stmt, s) => Move::Run(stmt, s),
        Move::Done(Err(e)) => Move::Done(Err(e)),
        Move::Done(Ok(_)) => Move::Done(Ok(true)),
    }
}

fn confirm(done: Next<Trip, ()>) -> (next: Next<Trip, bool>)
    ensures
        forall|mv: Move<Trip, ()>| #[trigger] plays(done, mv) ==> plays(next, confirmed(mv)),
{
    match done {
        Next::Run(q, s) => Next::Run(q, s),
        Next::Done(Err(e)) => Next::Done(Err(e)),
        Next::Done(Ok(_)) => Next::Done(Ok(true)),
    }
}

/// One step of deleting one notification: the move.
///
/// A request without the task id, or else without the owner of the task, is refused.
/// Otherwise the notification is deleted, whether it was there or not, and the result
/// is `Ok(true)`.
pub open spec fn delete_step(uid: Id, tid: Option<Id>, sender: Option<Id>, stage: Trip, reply: ReplyView) -> Move<
    Trip,
    bool,
> {
    match (tid, sender) {
        (None, _) => Move::Done(Err(Error::MissingField(Required::Tid))),
        (Some(_), None) => Move::Done(Err(Error::MissingField(Required::Sender))),
        (Some(tid), Some(sender)) => confirmed(
            notification_delete_step(NotificationView::keyed(uid, tid, sender), stage, reply),
        ),
    }
}

/// One step of deleting one notification: see [`delete_step`].
pub fn delete(input: &DeleteNotificationInput, stage: Trip, reply: Reply) -> (next: Next<Trip, bool>)
    ensures
        plays(next, delete_step(input.uid, input.tid, input.sender, stage, reply@)),
{
    let tid = match input.tid {
        Some(tid) => tid,
        None => {
            return Next::Done(Err(Error::MissingField(Required::Tid)));
        },
    };
    let sender = match input.sender {
        Some(sender) => sender,
        None => {
            return Next::Done(Err(Error::MissingField(Required::Sender)));
        },
    };
    let doc = Notification::with_pk(input.uid, tid, sender);
    confirm(doc.delete(stage, reply))
}

/// One step of deleting the notifications of a recipient, all of them or those with
/// the status of the request: the steps of [`notification_purge_step`], ending with
/// `Ok(true)`.
pub fn batch_delete(input: &DeleteNotificationInput, stage: Trip, reply: Reply) -> (next: Next<Trip, bool>)
    ensures
        plays(next, confirmed(notification_purge_step(input.uid, input.status, stage, reply@))),
{
    confirm(Notification::batch_delete_by_uid(input.uid, input.status, stage, reply))
}

/// How far the reading of a recipient's page has come: what was asked of the store
/// last.
#[derive(Clone, Copy, Debug, PartialEq, Eq, Structural)]
pub enum FeedStage {
    /// Nothing yet.
    Begin,
    /// The page of notifications.
    Listed,
    /// The task of the notification `next` of the page.
    Joining { next: usize },
}

/// The rows of a page as the records that are worked on: each with the names of its
/// columns.
pub open spec fn labelled(rows: Seq<NotificationView>) -> Seq<NotificationView> {
    rows.map_values(|r: NotificationView| NotificationView { fields: notification_labels(), ..r })
}

/// What reading a recipient's page does from the notification `k` of the page on.
///
/// Where there is such a notification, its task is asked for with the columns of the
/// request, `task` being the record of that read; a name of no column ends the reading
/// with the error. Where there is none left, the reading ends with what was collected,
/// and with the task id of the last notification as cursor where the page is full.
pub open spec fn joins(
    next: Next<FeedStage, Page<NotificationOutput>>,
    rows: Seq<NotificationView>,
    task: TaskView,
    fields: Seq<String>,
    k: int,
    collected: Seq<NotificationOutput>,
    output: Seq<NotificationOutput>,
    size: u16,
) -> bool {
    if 0 <= k < rows.len() {
        let (t, mv) = get_step(TaskView::keyed(rows[k].sender, rows[k].tid), fields, Trip::Ask, ReplyView::Start);
        match mv {
            Move::Run(stmt, _) => {
                &&& next matches Next::Run(q, s)
                &&& q@ == stmt.query()
                &&& s == (FeedStage::Joining { next: k as usize })
                &&& task == t
                &&& output == collected
            },
            Move::Done(Err(e)) => next matches Next::Done(Err(err)) && err == e,
            Move::Done(Ok(_)) => true,
        }
    } else {
        &&& next matches Next::Done(Ok(page))
        &&& page.result@ == collected
        &&& page.next_page_token == if rows.len() > 0 {
            cursor_after(rows.len(), size, rows.last().tid)
        } else {
            None
        }
    }
}

fn join_from(
    input: &Pagination,
    rows: &Vec<Notification>,
    task: &mut Task,
    output: &mut Vec<NotificationOutput>,
    k: usize,
) -> (next: Next<FeedStage, Page<NotificationOutput>>)
    ensures
        joins(
            next,
            notification_views(rows@),
            final(task)@,
            fields_of(input.fields),
            k as int,
            old(output)@,
            final(output)@,
            page_size_of(input.page_size),
        ),
{
    if k < rows.len() {
        let fields = match &input.fields {
            Some(v) => copy_names(v),
            None => Vec::new(),
        };
        *task = Task::with_pk(rows[k].sender, rows[k].tid);
        match task.get_one(fields, Trip::Ask, Reply::Start) {
            Next::Run(q, _) => Next::Run(q, FeedStage::Joining { next: k }),
            Next::Done(Err(e)) => Next::Done(Err(e)),
            Next::Done(Ok(_)) => Next::Done(Err(Error::BadReply)),
        }
    } else {
        let token = if rows.len() > 0 {
            next_page_token(rows.len(), page_size(input), rows[rows.len() - 1].tid)
        } else {
            None
        };
        let mut result: Vec<NotificationOutput> = Vec::new();
        core::mem::swap(output, &mut result);
        Next::Done(Ok(Page { next_page_token: token, result }))
    }
}

/// One step of reading a page of a recipient's notifications, each with its task.
/// `rows`, `task` and `output` are what the steps work on; the steps set them up.
///
/// The first step issues the scan of [`Notification::list`], with the page size of the
/// request or 10. The page that comes back is kept in `rows`. Then the task of each
/// notification is read in turn, with the columns of the request, as [`get_step`] says;
/// a task that cannot be read ends the reading with the error. Each task that was read
/// goes to `output` as the recipient sees it, with the status of the notification as
/// the recipient's acknowledgement. See [`joins`] for the end.
pub fn list(
    input: &Pagination,
    rows: &mut Vec<Notification>,
    task: &mut Task,
    output: &mut Vec<NotificationOutput>,
    stage: FeedStage,
    reply: Reply,
) -> (next: Next<FeedStage, Page<NotificationOutput>>)
    ensures
        stage == FeedStage::Begin ==> {
            &&& next matches Next::Run(q, FeedStage::Listed)
            &&& q@ == (Statement::NotificationList {
                uid: input.uid,
                page_size: page_size_of(input.page_size),
                page_token: input.page_token,
                status: input.status,
            }).query()
        },
        stage == FeedStage::Listed ==> match reply@ {
            ReplyView::Notifications(found) => {
                &&& notification_views(final(rows)@) == labelled(found)
                &&& joins(
                    next,
                    labelled(found),
                    final(task)@,
                    fields_of(input.fields),
                    0,
                    Seq::empty(),
                    final(output)@,
                    page_size_of(input.page_size),
                )
            },
            _ => next matches Next::Done(Err(err)) && err == reply@.fault(),
        },
        stage matches FeedStage::Joining { next: k } ==> {
            &&& *final(rows) == *old(rows)
            &&& if k < old(rows)@.len() {
                match get_step(old(task)@, fields_of(input.fields), Trip::Answer, reply@) {
                    (t, Move::Done(Ok(_))) => exists|doc: Task, out: NotificationOutput|
                        {
                            &&& doc@ == t
                            &&& #[trigger] out.shows(doc, old(rows)@[k as int].status)
                            &&& joins(
                                next,
                                notification_views(old(rows)@),
                                final(task)@,
                                fields_of(input.fields),
                                k + 1,
                                old(output)@.push(out),
                                final(output)@,
                                page_size_of(input.page_size),
                            )
                        },
                    (_, Move::Done(Err(e))) => next matches Next::Done(Err(err)) && err == e,
                    _ => true,
                }
            } else {
                next matches Next::Done(Err(Error::BadReply))
            }
        },
{
    match stage {
        FeedStage::Begin => {
            match Notification::list(
                input.uid,
                page_size(input),
                input.page_token,
                input.status,
                Trip::Ask,
                reply,
            ) {
                Next::Run(q, _) => Next::Run(q, FeedStage::Listed),
                Next::Done(Err(e)) => Next::Done(Err(e)),
                Next::Done(Ok(_)) => Next::Done(Err(Error::BadReply)),
            }
        },
        FeedStage::Listed => {
            let ghost answer = reply@;
            match Notification::list(
                input.uid,
                page_size(input),
                input.page_token,
                input.status,
                Trip::Answer,
                reply,
            ) {
                Next::Run(_, _) => Next::Done(Err(Error::BadReply)),
                Next::Done(Err(e)) => Next::Done(Err(e)),
                Next::Done(Ok(docs)) => {
                    *rows = docs;
                    *output = Vec::new();
                    assert(notification_views(rows@) =~= labelled(answer->Notifications_0));
                    join_from(input, rows, task, output, 0)
                },
            }
        },
        FeedStage::Joining { next } => {
            if next >= rows.len() {
                return Next::Done(Err(Error::BadReply));
            }
            let fields = match &input.fields {
                Some(v) => copy_names(v),
                None => Vec::new(),
            };
            match task.get_one(fields, Trip::Answer, reply) {
                Next::Run(_, _) => Next::Done(Err(Error::BadReply)),
                Next::Done(Err(e)) => Next::Done(Err(e)),
                Next::Done(Ok(_)) => {
                    let out = NotificationOutput::from(task, rows[next].status);
                    let ghost doc = *task;
                    let ghost before = output@;
                    output.push(out);
                    let done = join_from(input, rows, task, output, next + 1);
                    proof {
                        let o = output@;
                        assert(before.push(out) == old(output)@.push(out));
                        assert(out.shows(doc, old(rows)@[next as int].status));
                    }
                    done
                },
            }
        },
    }
}

} // verus!
