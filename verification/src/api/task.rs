//! Requests on tasks: read one, create, acknowledge, delete, list.

use vstd::prelude::*;
use crate::api::{cursor_after, next_page_token, page_size, page_size_of, Page, Pagination};
use crate::columns::Columns;
use crate::db::model_notification::{
    applied,
    group_notification_labels,
    notification_labels,
    notification_views,
    sweep_step,
    GroupNotification,
    GroupNotificationView,
    Notification,
    NotificationView,
    SweepStage,
};
use crate::db::model_task::{
    copy_names,
    delete_step,
    every_field,
    get_step,
    listed,
    save_step,
    selected,
    vote_step,
    DeleteStage,
    Task,
    TaskView,
    VoteStage,
};
use crate::field::Field;
use crate::error::{Error, Limit, Required, Vote, Write};
use crate::field::texts;
use crate::id::{new_id, Id};
use crate::idset::IdSet;
use crate::statement::{plays, Move, Statement};
use crate::store::{Next, Reply, ReplyView, Trip};

verus! {

/// A task as a reader sees it: identity, status and kind always, and of the other
/// columns those that were read.
#[derive(Clone, Debug, PartialEq, Eq)]
pub struct TaskOutput {
    pub uid: Id,
    pub id: Id,
    pub gid: Id,
    pub status: i8,
    pub kind: String,
    pub created_at: Option<i64>,
    pub updated_at: Option<i64>,
    pub duedate: Option<i64>,
    pub threshold: Option<i16>,
    pub approvers: Option<Vec<Id>>,
    pub assignees: Option<Vec<Id>>,
    pub resolved: Option<Vec<Id>>,
    pub rejected: Option<Vec<Id>>,
    pub message: Option<String>,
    pub payload: Option<Vec<u8>>,
}

/// The columns of a task that a reader sees only where they were read.
#[derive(Debug)]
pub struct Shown {
    pub created_at: Option<i64>,
    pub updated_at: Option<i64>,
    pub duedate: Option<i64>,
    pub threshold: Option<i16>,
    pub approvers: Option<Vec<Id>>,
    pub assignees: Option<Vec<Id>>,
    pub resolved: Option<Vec<Id>>,
    pub rejected: Option<Vec<Id>>,
    pub message: Option<String>,
    pub payload: Option<Vec<u8>>,
}

/// Whether `out` shows the set `s` where `on`, and nothing where not: the members each
/// once, in the order of the set.
pub open spec fn shows_set(out: Option<Vec<Id>>, on: bool, s: IdSet) -> bool {
    match out {
        Some(v) => on && v@ == s.order() && IdSet::lists(v@, s@),
        None => !on,
    }
}

/// Whether `out` shows the text `s` where `on`, and nothing where not.
pub open spec fn shows_text(out: Option<String>, on: bool, s: Seq<char>) -> bool {
    match out {
        Some(m) => on && m@ == s,
        None => !on,
    }
}

/// Whether `out` shows the bytes `s` where `on`, and nothing where not.
pub open spec fn shows_bytes(out: Option<Vec<u8>>, on: bool, s: Seq<u8>) -> bool {
    match out {
        Some(m) => on && m@ == s,
        None => !on,
    }
}

impl Shown {
    /// Whether these are the columns of `val` that its `_fields` names, and no others.
    pub open spec fn of_task(self, val: Task) -> bool {
        let cols = Columns::picked(texts(val._fields@));
        &&& self.created_at == if cols.created_at {
            Some(val.created_at)
        } else {
            None
        }
        &&& self.updated_at == if cols.updated_at {
            Some(val.updated_at)
        } else {
            None
        }
        &&& self.duedate == if cols.duedate {
            Some(val.duedate)
        } else {
            None
        }
        &&& self.threshold == if cols.threshold {
            Some(val.threshold)
        } else {
            None
        }
        &&& shows_set(self.approvers, cols.approvers, val.approvers)
        &&& shows_set(self.assignees, cols.assignees, val.assignees)
        &&& shows_set(self.resolved, cols.resolved, val.resolved)
        &&& shows_set(self.rejected, cols.rejected, val.rejected)
        &&& shows_text(self.message, cols.message, val.message@)
        &&& shows_bytes(self.payload, cols.payload, val.payload@)
    }

    /// The columns of `val` that its `_fields` names.
    pub fn from(val: &Task) -> (out: Shown)
        ensures
            out.of_task(*val),
    {
        let cols = Columns::of(&val._fields);
        let sets = Shown::sets(val, cols);
        let message = if cols.message {
            Some(val.message.clone())
        } else {
            None
        };
        let payload = if cols.payload {
            let p = val.payload.clone();
            assert(p@ =~= val.payload@);
            Some(p)
        } else {
            None
        };
        Shown {
            created_at: if cols.created_at {
                Some(val.created_at)
            } else {
                None
            },
            updated_at: if cols.updated_at {
                Some(val.updated_at)
            } else {
                None
            },
            duedate: if cols.duedate {
                Some(val.duedate)
            } else {
                None
            },
            threshold: if cols.threshold {
                Some(val.threshold)
            } else {
                None
            },
            approvers: sets.0,
            assignees: sets.1,
            resolved: sets.2,
            rejected: sets.3,
            message,
            payload,
        }
    }

    fn sets(val: &Task, cols: Columns) -> (out: (
        Option<Vec<Id>>,
        Option<Vec<Id>>,
        Option<Vec<Id>>,
        Option<Vec<Id>>,
    ))
        ensures
            shows_set(out.0, cols.approvers, val.approvers),
            shows_set(out.1, cols.assignees, val.assignees),
            shows_set(out.2, cols.resolved, val.resolved),
            shows_set(out.3, cols.rejected, val.rejected),
    {
        (
            Shown::set(&val.approvers, cols.approvers),
            Shown::set(&val.assignees, cols.assignees),
            Shown::set(&val.resolved, cols.resolved),
            Shown::set(&val.rejected, cols.rejected),
        )
    }

    fn set(s: &IdSet, on: bool) -> (out: Option<Vec<Id>>)
        ensures
            shows_set(out, on, *s),
    {
        if on {
            Some(s.to_vec())
        } else {
            None
        }
    }
}

impl TaskOutput {
    /// Whether this is the task `val` as a reader sees it.
    pub open spec fn shows(self, val: Task) -> bool {
        &&& self.uid == val.uid
        &&& self.id == val.id
        &&& self.gid == val.gid
        &&& self.status == val.status
        &&& self.kind@ == val.kind@
        &&& (Shown {
            created_at: self.created_at,
            updated_at: self.updated_at,
            duedate: self.duedate,
            threshold: self.threshold,
            approvers: self.approvers,
            assignees: self.assignees,
            resolved: self.resolved,
            rejected: self.rejected,
            message: self.message,
            payload: self.payload,
        }).of_task(val)
    }

    /// The task as a reader sees it: owner, id, group, status and kind, and each other
    /// column exactly where `_fields` names it.
    pub fn from(val: &Task) -> (out: TaskOutput)
        ensures
            out.shows(*val),
    {
        let shown = Shown::from(val);
        TaskOutput {
            uid: val.uid,
            id: val.id,
            gid: val.gid,
            status: val.status,
            kind: val.kind.clone(),
            created_at: shown.created_at,
            updated_at: shown.updated_at,
            duedate: shown.duedate,
            threshold: shown.threshold,
            approvers: shown.approvers,
            assignees: shown.assignees,
            resolved: shown.resolved,
            rejected: shown.rejected,
            message: shown.message,
            payload: shown.payload,
        }
    }
}

/// A request to read one task, and which columns of it.
#[derive(Clone, Debug)]
pub struct QueryTask {
    pub uid: Id,
    pub id: Id,
    pub fields: Vec<String>,
}

/// One step of reading one task for a reader. `doc` is the record that the steps work
/// on; the first step sets it up. The steps are those of [`get_step`] on the blank
/// record of the task; a read that succeeds ends with the task as the reader sees it.
pub fn get(input: &QueryTask, doc: &mut Task, stage: Trip, reply: Reply) -> (next: Next<Trip, TaskOutput>)
    ensures
        ({
            let start = if stage == Trip::Ask {
                TaskView::keyed(input.uid, input.id)
            } else {
                old(doc)@
            };
            let (after, mv) = get_step(start, input.fields@, stage, reply@);
            &&& final(doc)@ == after
            &&& match mv {
                Move::Run(stmt, s) => next matches Next::Run(q, t) && q@ == stmt.query() && t == s,
                Move::Done(Err(e)) => next matches Next::Done(Err(err)) && err == e,
                Move::Done(Ok(_)) => next matches Next::Done(Ok(out)) && out.shows(*final(doc)),
            }
        }),
{
    if stage == Trip::Ask {
        *doc = Task::with_pk(input.uid, input.id);
    }
    let fields = copy_names(&input.fields);
    match doc.get_one(fields, stage, reply) {
        Next::Run(q, s) => Next::Run(q, s),
        Next::Done(Err(e)) => Next::Done(Err(e)),
        Next::Done(Ok(_)) => Next::Done(Ok(TaskOutput::from(doc))),
    }
}

/// What a new task is made of.
#[derive(Clone, Debug)]
pub struct CreateTaskInput {
    pub uid: Id,
    pub gid: Id,
    pub kind: String,
    pub threshold: i16,
    pub approvers: Vec<Id>,
    pub assignees: Vec<Id>,
    pub message: String,
    pub payload: Vec<u8>,
    pub group_role: Option<i8>,
}

impl CreateTaskInput {
    /// The first limit that the input breaks, in the order threshold (`0..=256`),
    /// approvers (at most 4), assignees (at most 256), group role (`-1..=2`); none
    /// where it keeps them all.
    pub open spec fn fault(self) -> Option<Limit> {
        if !(0 <= self.threshold <= 256) {
            Some(Limit::Threshold)
        } else if self.approvers@.len() > 4 {
            Some(Limit::Approvers)
        } else if self.assignees@.len() > 256 {
            Some(Limit::Assignees)
        } else if self.group_role matches Some(r) && !(-1 <= r <= 2) {
            Some(Limit::GroupRole)
        } else {
            None
        }
    }

    /// Holds the input against its limits: see [`CreateTaskInput::fault`].
    pub fn validate(&self) -> (r: Result<(), Error>)
        ensures
            r == match self.fault() {
                Some(l) => Err::<(), Error>(Error::OutOfRange(l)),
                None => Ok::<(), Error>(()),
            },
    {
        if self.threshold < 0 || self.threshold > 256 {
            return Err(Error::OutOfRange(Limit::Threshold));
        }
        if self.approvers.len() > 4 {
            return Err(Error::OutOfRange(Limit::Approvers));
        }
        if self.assignees.len() > 256 {
            return Err(Error::OutOfRange(Limit::Assignees));
        }
        match self.group_role {
            Some(r) => {
                if r < -1 || r > 2 {
                    return Err(Error::OutOfRange(Limit::GroupRole));
                }
            },
            None => {},
        }
        Ok(())
    }

    /// The task that the input makes under the identity `id` at the time `now`:
    /// pending, created and updated at `now`, with nobody having voted.
    pub open spec fn composed(self, id: Id, now: i64) -> TaskView {
        TaskView {
            uid: self.uid,
            id,
            gid: self.gid,
            status: 0,
            kind: self.kind@,
            created_at: now,
            updated_at: now,
            duedate: 0,
            threshold: self.threshold,
            approvers: self.approvers@.to_set(),
            assignees: self.assignees@.to_set(),
            resolved: Set::empty(),
            rejected: Set::empty(),
            message: self.message@,
            payload: self.payload@,
            fields: Seq::empty(),
        }
    }

    /// The task that the input makes: see [`CreateTaskInput::composed`].
    pub fn compose(&self, id: Id, now: i64) -> (doc: Task)
        ensures
            doc@ == self.composed(id, now),
    {
        let mut doc = Task::with_pk(self.uid, id);
        doc.gid = self.gid;
        doc.status = 0;
        doc.kind = self.kind.clone();
        doc.created_at = now;
        doc.updated_at = now;
        doc.threshold = self.threshold;
        doc.approvers = IdSet::from_ids(&self.approvers);
        doc.assignees = IdSet::from_ids(&self.assignees);
        doc.resolved = IdSet::new();
        doc.rejected = IdSet::new();
        doc.message = self.message.clone();
        doc.payload = self.payload.clone();
        assert(doc.payload@ =~= self.payload@);
        doc
    }
}

/// How far the creation of a task has come: what was asked of the store last.
#[derive(Clone, Copy, Debug, PartialEq, Eq, Structural)]
pub enum CreateStage {
    /// Nothing yet.
    Begin,
    /// The insert of the task.
    Saved,
    /// The insert of the group notification.
    Group,
    /// The insert of a notification for an approver; `next` approvers are dealt with.
    Approver { next: usize },
    /// The insert of a notification for an assignee; `next` assignees are dealt with.
    Assignee { next: usize },
}

/// The notification that tells `uid` of the task `doc`.
pub open spec fn notice(doc: Task, uid: Id) -> Statement {
    Statement::NotificationInsert {
        row: NotificationView { fields: notification_labels(), ..NotificationView::keyed(uid, doc.id, doc.uid) },
    }
}

/// The fan-out from the assignee `j` on: a notification for that assignee, or the end
/// where there is none left. `Ok(())` stands for the end with the task as output.
pub open spec fn fan_assignees(doc: Task, j: int) -> Move<CreateStage, ()> {
    if 0 <= j < doc.assignees.order().len() {
        Move::Run(notice(doc, doc.assignees.order()[j]), CreateStage::Assignee { next: (j + 1) as usize })
    } else {
        Move::Done(Ok(()))
    }
}

/// The fan-out from the approver `i` on: a notification for that approver, or the
/// assignees where there is none left.
pub open spec fn fan_approvers(doc: Task, i: int) -> Move<CreateStage, ()> {
    if 0 <= i < doc.approvers.order().len() {
        Move::Run(notice(doc, doc.approvers.order()[i]), CreateStage::Approver { next: (i + 1) as usize })
    } else {
        fan_assignees(doc, 0)
    }
}

/// The whole fan-out after the task was inserted: the group notification where the
/// input gives a role for the group, then one notification for each approver, then one
/// for each assignee, in the order of the sets.
pub open spec fn fan_out(doc: Task, group_role: Option<i8>) -> Move<CreateStage, ()> {
    match group_role {
        Some(role) => Move::Run(
            Statement::GroupNotificationInsert {
                row: GroupNotificationView {
                    gid: doc.gid,
                    tid: doc.id,
                    sender: doc.uid,
                    role,
                    fields: group_notification_labels(),
                },
            },
            CreateStage::Group,
        ),
        None => fan_approvers(doc, 0),
    }
}

/// One step of creating a task, from the second step on: the steps after the record
/// was made.
///
/// Where the insert of the task was not applied, or failed, the creation ends with the
/// error. After it the notifications go out one by one; what the store answers to them
/// is not looked at: a notification that could not be written does not fail the
/// creation.
pub open spec fn create_step(doc: Task, group_role: Option<i8>, now: i64, stage: CreateStage, reply: ReplyView) -> Move<
    CreateStage,
    (),
> {
    match stage {
        CreateStage::Begin => Move::Run(Statement::TaskInsert { row: doc@ }, CreateStage::Saved),
        CreateStage::Saved => match save_step(doc@, now, Trip::Answer, reply).1 {
            Move::Done(Ok(_)) => fan_out(doc, group_role),
            Move::Done(Err(e)) => Move::Done(Err(e)),
            Move::Run(_, _) => Move::Done(Err(Error::BadReply)),
        },
        CreateStage::Group => fan_approvers(doc, 0),
        CreateStage::Approver { next } => fan_approvers(doc, next as int),
        CreateStage::Assignee { next } => fan_assignees(doc, next as int),
    }
}

/// Whether `next` is the move `mv` of a creation, with the task `doc` as the output of
/// its end.
pub open spec fn creates(next: Next<CreateStage, TaskOutput>, mv: Move<CreateStage, ()>, doc: Task) -> bool {
    match mv {
        Move::Run(stmt, s) => next matches Next::Run(q, t) && q@ == stmt.query() && t == s,
        Move::Done(Err(e)) => next matches Next::Done(Err(err)) && err == e,
        Move::Done(Ok(_)) => next matches Next::Done(Ok(out)) && out.shows(doc),
    }
}

fn fan_assignees_from(doc: &Task, j: usize) -> (next: Next<CreateStage, TaskOutput>)
    ensures
        creates(next, fan_assignees(*doc, j as int), *doc),
{
    let people = doc.assignees.to_vec();
    if j < people.len() {
        let mut n = Notification::with_pk(people[j], doc.id, doc.uid);
        match n.save(Trip::Ask, Reply::Start) {
            Next::Run(q, _) => Next::Run(q, CreateStage::Assignee { next: j + 1 }),
            Next::Done(_) => Next::Done(Err(Error::BadReply)),
        }
    } else {
        Next::Done(Ok(TaskOutput::from(doc)))
    }
}

fn fan_approvers_from(doc: &Task, i: usize) -> (next: Next<CreateStage, TaskOutput>)
    ensures
        creates(next, fan_approvers(*doc, i as int), *doc),
{
    let people = doc.approvers.to_vec();
    if i < people.len() {
        let mut n = Notification::with_pk(people[i], doc.id, doc.uid);
        match n.save(Trip::Ask, Reply::Start) {
            Next::Run(q, _) => Next::Run(q, CreateStage::Approver { next: i + 1 }),
            Next::Done(_) => Next::Done(Err(Error::BadReply)),
        }
    } else {
        fan_assignees_from(doc, 0)
    }
}

fn fan_out_from(doc: &Task, group_role: Option<i8>) -> (next: Next<CreateStage, TaskOutput>)
    ensures
        creates(next, fan_out(*doc, group_role), *doc),
{
    match group_role {
        Some(role) => {
            let mut n = GroupNotification::with_pk(doc.gid, doc.id, doc.uid);
            n.role = role;
            match n.save(Trip::Ask, Reply::Start) {
                Next::Run(q, _) => Next::Run(q, CreateStage::Group),
                Next::Done(_) => Next::Done(Err(Error::BadReply)),
            }
        },
        None => fan_approvers_from(doc, 0),
    }
}

/// One step of creating a task. `doc` is the record that the steps work on.
///
/// The first step holds the input against its limits and refuses it beyond them; then
/// it draws a fresh identity, makes the record of [`CreateTaskInput::composed`] at the
/// time `now`, and issues its insert. The later steps are those of [`create_step`]; the
/// creation ends with the task as a reader of all columns sees it.
pub fn create(input: &CreateTaskInput, doc: &mut Task, now: i64, stage: CreateStage, reply: Reply) -> (next:
    Next<CreateStage, TaskOutput>)
    ensures
        stage == CreateStage::Begin ==> match input.fault() {
            Some(l) => next matches Next::Done(Err(e)) && e == Error::OutOfRange(l) && *final(doc) == *old(doc),
            None => {
                &&& final(doc)@ == (TaskView {
                    fields: Field::labels(every_field()),
                    ..input.composed(final(doc).id, now)
                })
                &&& creates(next, create_step(*final(doc), input.group_role, now, stage, reply@), *final(doc))
            },
        },
        stage != CreateStage::Begin ==> {
            &&& *final(doc) == *old(doc)
            &&& creates(next, create_step(*old(doc), input.group_role, now, stage, reply@), *old(doc))
        },
{
    match stage {
        CreateStage::Begin => {
            match input.validate() {
                Err(e) => {
                    return Next::Done(Err(e));
                },
                Ok(_) => {},
            }
            *doc = input.compose(new_id(), now);
            match doc.save(now, Trip::Ask, reply) {
                Next::Run(q, _) => Next::Run(q, CreateStage::Saved),
                Next::Done(_) => Next::Done(Err(Error::BadReply)),
            }
        },
        CreateStage::Saved => {
            let saved = Task::saved(reply);
            match saved {
                Ok(_) => fan_out_from(doc, input.group_role),
                Err(e) => Next::Done(Err(e)),
            }
        },
        CreateStage::Group => fan_approvers_from(doc, 0),
        CreateStage::Approver { next } => fan_approvers_from(doc, next),
        CreateStage::Assignee { next } => fan_assignees_from(doc, next),
    }
}

/// A recipient's acknowledgement of a task: `status` is `1` to resolve, `-1` to reject.
#[derive(Clone, Debug)]
pub struct AckTaskInput {
    pub uid: Id,
    pub tid: Id,
    pub sender: Id,
    pub status: i8,
    pub message: String,
}

/// How far an acknowledgement has come: what was asked of the store last.
#[derive(Clone, Copy, Debug, PartialEq, Eq, Structural)]
pub enum AckStage {
    /// Nothing yet.
    Begin,
    /// The recipient's notification.
    Loaded,
    /// A statement of the vote, which has come to the stage inside.
    Voting(VoteStage),
    /// The write of the acknowledgement to the notification.
    Saved,
}

/// The move of a vote inside an acknowledgement of the notification `doc`: the vote's
/// statements go on as the acknowledgement's; its failure ends the acknowledgement; and
/// once it has succeeded the notification takes the new status and message, and is
/// written.
pub open spec fn ack_vote(doc: NotificationView, status: i8, message: Seq<char>, mv: Move<VoteStage, bool>) -> (
    NotificationView,
    Move<AckStage, bool>,
) {
    match mv {
        Move::Run(stmt, s) => (doc, Move::Run(stmt, AckStage::Voting(s))),
        Move::Done(Err(e)) => (doc, Move::Done(Err(e))),
        Move::Done(Ok(_)) => {
            let acked = NotificationView { status, message, ..doc };
            (
                acked,
                Move::Run(
                    Statement::NotificationUpdate {
                        uid: acked.uid,
                        tid: acked.tid,
                        sender: acked.sender,
                        status,
                        message,
                    },
                    AckStage::Saved,
                ),
            )
        },
    }
}

/// One step of an acknowledgement: the notification and the task afterwards, and the
/// move.
///
/// A status that is no vote is refused. The recipient's notification is read; a missing
/// one ends the acknowledgement with [`Error::NotFound`]. Where it holds the status of
/// the request already, the acknowledgement ends with `Ok(false)` and nothing is
/// written: no vote, no update. Otherwise the recipient's vote is cast on the task of
/// the notification, as [`vote_step`] says, and only after the vote has succeeded the
/// notification is written, if it is still there; the result is then `Ok(true)`.
pub open spec fn ack_step(
    doc: NotificationView,
    task: TaskView,
    uid: Id,
    tid: Id,
    sender: Id,
    status: i8,
    message: Seq<char>,
    stage: AckStage,
    reply: ReplyView,
) -> (NotificationView, TaskView, Move<AckStage, bool>) {
    match Vote::spec_of_status(status) {
        None => (doc, task, Move::Done(Err(Error::InvalidStatus(status)))),
        Some(vote) => match stage {
            AckStage::Begin => (
                NotificationView {
                    fields: notification_labels(),
                    ..NotificationView::keyed(uid, tid, sender)
                },
                task,
                Move::Run(Statement::NotificationGet { uid, tid, sender }, AckStage::Loaded),
            ),
            AckStage::Loaded => match reply {
                ReplyView::Notification(row) => {
                    let held = doc.absorb(row);
                    if held.status == status {
                        (held, task, Move::Done(Ok(false)))
                    } else {
                        let (t1, mv) = vote_step(
                            TaskView::keyed(held.sender, held.tid),
                            held.uid,
                            vote,
                            VoteStage::Begin,
                            ReplyView::Start,
                        );
                        let (d1, m1) = ack_vote(held, status, message, mv);
                        (d1, t1, m1)
                    }
                },
                _ => (doc, task, Move::Done(Err(reply.fault()))),
            },
            AckStage::Voting(vs) => {
                let (t1, mv) = vote_step(task, doc.uid, vote, vs, reply);
                let (d1, m1) = ack_vote(doc, status, message, mv);
                (d1, t1, m1)
            },
            AckStage::Saved => (doc, task, applied(reply, Write::NotificationUpdate)),
        },
    }
}

fn ack_vote_from(doc: &mut Notification, input: &AckTaskInput, voted: Next<VoteStage, bool>) -> (next: Next<
    AckStage,
    bool,
>)
    ensures
        forall|mv: Move<VoteStage, bool>| #[trigger]
            plays(voted, mv) ==> {
                &&& final(doc)@ == ack_vote(old(doc)@, input.status, input.message@, mv).0
                &&& plays(next, ack_vote(old(doc)@, input.status, input.message@, mv).1)
            },
{
    match voted {
        Next::Run(q, s) => Next::Run(q, AckStage::Voting(s)),
        Next::Done(Err(e)) => Next::Done(Err(e)),
        Next::Done(Ok(_)) => {
            doc.status = input.status;
            doc.message = input.message.clone();
            match doc.update(Trip::Ask, Reply::Start) {
                Next::Run(q, _) => Next::Run(q, AckStage::Saved),
                Next::Done(r) => Next::Done(r),
            }
        },
    }
}

/// One step of an acknowledgement: see [`ack_step`]. `doc` and `task` are the records
/// that the steps work on; the steps set them up.
pub fn ack(input: &AckTaskInput, doc: &mut Notification, task: &mut Task, stage: AckStage, reply: Reply) -> (next:
    Next<AckStage, bool>)
    ensures
        ({
            let (d, t, mv) = ack_step(
                old(doc)@,
                old(task)@,
                input.uid,
                input.tid,
                input.sender,
                input.status,
                input.message@,
                stage,
                reply@,
            );
            &&& final(doc)@ == d
            &&& final(task)@ == t
            &&& plays(next, mv)
        }),
{
    let vote = match Vote::of_status(input.status) {
        Some(v) => v,
        None => {
            return Next::Done(Err(Error::InvalidStatus(input.status)));
        },
    };
    match stage {
        AckStage::Begin => {
            *doc = Notification::with_pk(input.uid, input.tid, input.sender);
            match doc.get_one(Trip::Ask, reply) {
                Next::Run(q, _) => Next::Run(q, AckStage::Loaded),
                Next::Done(Err(e)) => Next::Done(Err(e)),
                Next::Done(Ok(_)) => Next::Done(Err(Error::BadReply)),
            }
        },
        AckStage::Loaded => match reply {
            Reply::Notification(row) => {
                doc.fill(&row);
                if doc.status == input.status {
                    Next::Done(Ok(false))
                } else {
                    *task = Task::with_pk(doc.sender, doc.tid);
                    let voted = task.cast_vote(doc.uid, vote, VoteStage::Begin, Reply::Start);
                    ack_vote_from(doc, input, voted)
                }
            },
            other => Next::Done(Err(other.into_fault())),
        },
        AckStage::Voting(vs) => {
            let voted = task.cast_vote(doc.uid, vote, vs, reply);
            ack_vote_from(doc, input, voted)
        },
        AckStage::Saved => crate::db::model_notification::finish_applied(reply, Write::NotificationUpdate),
    }
}

/// A request to delete one task of the owner `uid`.
#[derive(Clone, Debug)]
pub struct DeleteTaskInput {
    pub uid: Id,
    pub id: Option<Id>,
    pub status: Option<i8>,
}

/// How far the teardown of a task has come: what was asked of the store last.
#[derive(Clone, Copy, Debug, PartialEq, Eq, Structural)]
pub enum TeardownStage {
    /// Nothing yet.
    Begin,
    /// The group of the task.
    Probe,
    /// A statement of the task's deletion, which has come to the stage inside.
    Removing(DeleteStage),
    /// The delete of the group notification.
    Group,
    /// A statement of the deletion of the notifications, at the stage inside.
    Sweeping(SweepStage),
}

/// The columns read first in a teardown: the group, and with it status and kind.
pub open spec fn probe_fields() -> Seq<Seq<char>> {
    Field::labels(seq![Field::Gid, Field::Status, Field::Kind])
}

/// The move of the task's deletion inside a teardown of the task `doc`: its statements
/// go on as the teardown's, its failure ends the teardown, and after it the group
/// notification of the task is deleted.
pub open spec fn teardown_removing(doc: TaskView, mv: Move<DeleteStage, bool>) -> Move<TeardownStage, bool> {
    match mv {
        Move::Run(stmt, s) => Move::Run(stmt, TeardownStage::Removing(s)),
        Move::Done(Err(e)) => Move::Done(Err(e)),
        Move::Done(Ok(_)) => Move::Run(
            Statement::GroupNotificationDelete { gid: doc.gid, tid: doc.id, sender: doc.uid },
            TeardownStage::Group,
        ),
    }
}

/// The move of the deletion of the notifications inside a teardown: its statements go
/// on as the teardown's, and its end is the teardown's, with `Ok(true)` for success.
pub open spec fn teardown_sweeping(mv: Move<SweepStage, ()>) -> Move<TeardownStage, bool> {
    match mv {
        Move::Run(stmt, s) => Move::Run(stmt, TeardownStage::Sweeping(s)),
        Move::Done(Err(e)) => Move::Done(Err(e)),
        Move::Done(Ok(_)) => Move::Done(Ok(true)),
    }
}

/// One step of the teardown of a task: the record and the notifications found
/// afterwards, and the move.
///
/// A request without a task id is refused. The task is looked for first; where no row
/// comes back, for whatever reason, the task counts as gone and the result is
/// `Ok(false)`. Otherwise the task is deleted as [`delete_step`] says, then its group
/// notification, whatever the store answers to that, then its notifications as
/// [`sweep_step`] says. Nothing is undone where a later step fails.
pub open spec fn teardown_step(
    doc: TaskView,
    found: Seq<NotificationView>,
    uid: Id,
    id: Option<Id>,
    stage: TeardownStage,
    reply: ReplyView,
) -> (TaskView, Seq<NotificationView>, Move<TeardownStage, bool>) {
    match id {
        None => (doc, found, Move::Done(Err(Error::MissingField(Required::Id)))),
        Some(id) => match stage {
            TeardownStage::Begin => (
                TaskView { fields: probe_fields(), ..TaskView::keyed(uid, id) },
                found,
                Move::Run(Statement::TaskGet { uid, id, fields: probe_fields() }, TeardownStage::Probe),
            ),
            TeardownStage::Probe => match reply {
                ReplyView::Task(row) => {
                    let d1 = doc.absorb(row, Columns::picked(doc.fields));
                    let (d2, mv) = delete_step(d1, DeleteStage::Begin, ReplyView::Start);
                    (d2, found, teardown_removing(d2, mv))
                },
                _ => (doc, found, Move::Done(Ok(false))),
            },
            TeardownStage::Removing(ds) => {
                let (d1, mv) = delete_step(doc, ds, reply);
                (d1, found, teardown_removing(d1, mv))
            },
            TeardownStage::Group => {
                let (f1, mv) = sweep_step(doc.id, found, SweepStage::Begin, ReplyView::Start);
                (doc, f1, teardown_sweeping(mv))
            },
            TeardownStage::Sweeping(ss) => {
                let (f1, mv) = sweep_step(doc.id, found, ss, reply);
                (doc, f1, teardown_sweeping(mv))
            },
        },
    }
}

/// The names of the columns read first in a teardown.
fn probe_names() -> (v: Vec<String>)
    ensures
        texts(v@) == probe_fields(),
{
    let mut v: Vec<String> = Vec::new();
    v.push(Field::Gid.name());
    v.push(Field::Status.name());
    v.push(Field::Kind.name());
    assert(texts(v@) =~= probe_fields());
    v
}

fn removing_from(doc: &Task, removed: Next<DeleteStage, bool>) -> (next: Next<TeardownStage, bool>)
    ensures
        forall|mv: Move<DeleteStage, bool>| #[trigger]
            plays(removed, mv) ==> plays(next, teardown_removing(doc@, mv)),
{
    match removed {
        Next::Run(q, s) => Next::Run(q, TeardownStage::Removing(s)),
        Next::Done(Err(e)) => Next::Done(Err(e)),
        Next::Done(Ok(_)) => {
            let notify = GroupNotification::with_pk(doc.gid, doc.id, doc.uid);
            match notify.delete(Trip::Ask, Reply::Start) {
                Next::Run(q, _) => Next::Run(q, TeardownStage::Group),
                Next::Done(_) => Next::Done(Err(Error::BadReply)),
            }
        },
    }
}

fn sweeping_from(swept: Next<SweepStage, ()>) -> (next: Next<TeardownStage, bool>)
    ensures
        forall|mv: Move<SweepStage, ()>| #[trigger] plays(swept, mv) ==> plays(next, teardown_sweeping(mv)),
{
    match swept {
        Next::Run(q, s) => Next::Run(q, TeardownStage::Sweeping(s)),
        Next::Done(Err(e)) => Next::Done(Err(e)),
        Next::Done(Ok(_)) => Next::Done(Ok(true)),
    }
}

/// One step of the teardown of a task: see [`teardown_step`]. `doc` and `found` are
/// what the steps work on; the steps set them up.
pub fn delete(
    input: &DeleteTaskInput,
    doc: &mut Task,
    found: &mut Vec<Notification>,
    stage: TeardownStage,
    reply: Reply,
) -> (next: Next<TeardownStage, bool>)
    ensures
        ({
            let (d, f, mv) = teardown_step(
                old(doc)@,
                notification_views(old(found)@),
                input.uid,
                input.id,
                stage,
                reply@,
            );
            &&& final(doc)@ == d
            &&& notification_views(final(found)@) == f
            &&& plays(next, mv)
        }),
{
    let id = match input.id {
        Some(id) => id,
        None => {
            return Next::Done(Err(Error::MissingField(Required::Id)));
        },
    };
    match stage {
        TeardownStage::Begin => {
            *doc = Task::with_pk(input.uid, id);
            doc._fields = probe_names();
            Next::Run(crate::statement::task_get(input.uid, id, probe_names()), TeardownStage::Probe)
        },
        TeardownStage::Probe => match reply {
            Reply::Task(row) => {
                let names = copy_names(&doc._fields);
                doc.fill(&row, &names);
                let removed = doc.delete(DeleteStage::Begin, Reply::Start);
                removing_from(doc, removed)
            },
            _ => Next::Done(Ok(false)),
        },
        TeardownStage::Removing(ds) => {
            let removed = doc.delete(ds, reply);
            removing_from(doc, removed)
        },
        TeardownStage::Group => {
            let swept = Notification::batch_delete_by_tid(doc.id, found, SweepStage::Begin, Reply::Start);
            sweeping_from(swept)
        },
        TeardownStage::Sweeping(ss) => {
            let swept = Notification::batch_delete_by_tid(doc.id, found, ss, reply);
            sweeping_from(swept)
        },
    }
}

/// Whether `out` is what a reader sees of a row of a page that was read with `fields`.
pub open spec fn shows_row(out: TaskOutput, row: TaskView, fields: Seq<Seq<char>>) -> bool {
    exists|doc: Task| doc@ == listed(row, fields) && #[trigger] out.shows(doc)
}

/// The fields that a page of tasks is read with: those of the request, or all.
pub open spec fn fields_of(fields: Option<Vec<String>>) -> Seq<String> {
    match fields {
        Some(v) => v@,
        None => Seq::empty(),
    }
}

/// One step of reading a page of the tasks of an owner for a reader.
///
/// The page has the size that the request gives, or 10. The first step issues the scan
/// of [`Task::list`]; the second hands out each row as the reader sees it, in the order
/// of the reply, with the cursor of [`cursor_after`]: the id of the last task where the
/// page is full. A name of no column in the request ends either step with the error.
pub fn list(input: &Pagination, stage: Trip, reply: Reply) -> (next: Next<Trip, Page<TaskOutput>>)
    ensures
        match selected(fields_of(input.fields), true) {
            Err(e) => next matches Next::Done(Err(err)) && err == e,
            Ok(fields) => match stage {
                Trip::Ask => next matches Next::Run(q, Trip::Answer) && q@ == (Statement::TaskList {
                    uid: input.uid,
                    fields,
                    page_size: page_size_of(input.page_size),
                    page_token: input.page_token,
                    status: input.status,
                }).query(),
                Trip::Answer => match reply@ {
                    ReplyView::Tasks(rows) => {
                        &&& next matches Next::Done(Ok(page))
                        &&& page.result@.len() == rows.len()
                        &&& forall|i: int|
                            0 <= i < rows.len() ==> shows_row(#[trigger] page.result@[i], rows[i], fields)
                        &&& page.next_page_token == if rows.len() > 0 {
                            cursor_after(
                                rows.len(),
                                page_size_of(input.page_size),
                                listed(rows.last(), fields).id,
                            )
                        } else {
                            None
                        }
                    },
                    _ => next matches Next::Done(Err(err)) && err == reply@.fault(),
                },
            },
        },
{
    let fields = match &input.fields {
        Some(v) => copy_names(v),
        None => Vec::new(),
    };
    let size: u16 = page_size(input);
    let ghost answer = reply@;
    let ghost names = selected(fields_of(input.fields), true);
    match Task::list(input.uid, fields, size, input.page_token, input.status, stage, reply) {
        Next::Run(q, s) => Next::Run(q, s),
        Next::Done(Err(e)) => Next::Done(Err(e)),
        Next::Done(Ok(docs)) => {
            let token = if docs.len() > 0 {
                next_page_token(docs.len(), size, docs[docs.len() - 1].id)
            } else {
                None
            };
            let mut result: Vec<TaskOutput> = Vec::new();
            let mut i: usize = 0;
            while i < docs.len()
                invariant
                    i <= docs.len(),
                    result@.len() == i,
                    forall|j: int| 0 <= j < i ==> (#[trigger] result@[j]).shows(docs@[j]),
                decreases docs.len() - i,
            {
                result.push(TaskOutput::from(&docs[i]));
                i += 1;
            }
            proof {
                let cols = names->Ok_0;
                let rows = answer->Tasks_0;
                assert forall|k: int| 0 <= k < rows.len() implies shows_row(
                    #[trigger] result@[k],
                    rows[k],
                    cols,
                ) by {
                    let d = docs@[k];
                    assert(d@ == listed(rows[k], cols) && result@[k].shows(d));
                }
                if rows.len() > 0 {
                    assert(docs@[rows.len() - 1]@ == listed(rows.last(), cols));
                }
            }
            Next::Done(Ok(Page { next_page_token: token, result }))
        },
    }
}

} // verus!
