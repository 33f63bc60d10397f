//! The notification records: one row for each recipient of a task, and one for a group.

use vstd::prelude::*;
use crate::error::{Error, Write};
use crate::field::texts;
use crate::id::Id;
use crate::statement::{
    group_notification_delete,
    group_notification_get,
    group_notification_insert,
    group_notification_list,
    notification_delete,
    notification_get,
    notification_insert,
    notification_list,
    notification_purge,
    notification_scan,
    notification_update,
    plays,
    Move,
    Statement,
};
use crate::store::{Next, Reply, ReplyView, Trip};

verus! {

/// Tells a whole group of a task; `role` says in which role the group sees it.
#[derive(Clone, Debug)]
pub struct GroupNotification {
    pub gid: Id,
    pub tid: Id,
    pub sender: Id,
    pub role: i8,
    pub _fields: Vec<String>,
}

/// Tells one recipient (`uid`) of the task `tid` of the owner `sender`, and keeps the
/// recipient's own acknowledgement: `status` is `-1`, `0` (none yet) or `1`.
#[derive(Clone, Debug)]
pub struct Notification {
    pub uid: Id,
    pub tid: Id,
    pub sender: Id,
    pub status: i8,
    pub message: String,
    pub _fields: Vec<String>,
}

/// What a group notification holds, as mathematical values.
pub struct GroupNotificationView {
    pub gid: Id,
    pub tid: Id,
    pub sender: Id,
    pub role: i8,
    pub fields: Seq<Seq<char>>,
}

/// What a notification holds, as mathematical values.
pub struct NotificationView {
    pub uid: Id,
    pub tid: Id,
    pub sender: Id,
    pub status: i8,
    pub message: Seq<char>,
    pub fields: Seq<Seq<char>>,
}

impl View for GroupNotification {
    type V = GroupNotificationView;

    open spec fn view(&self) -> GroupNotificationView {
        GroupNotificationView {
            gid: self.gid,
            tid: self.tid,
            sender: self.sender,
            role: self.role,
            fields: texts(self._fields@),
        }
    }
}

impl View for Notification {
    type V = NotificationView;

    open spec fn view(&self) -> NotificationView {
        NotificationView {
            uid: self.uid,
            tid: self.tid,
            sender: self.sender,
            status: self.status,
            message: self.message@,
            fields: texts(self._fields@),
        }
    }
}

impl GroupNotificationView {
    /// The blank record with the given key.
    pub open spec fn keyed(gid: Id, tid: Id, sender: Id) -> GroupNotificationView {
        GroupNotificationView { gid, tid, sender, role: 0, fields: Seq::empty() }
    }

    /// The record as a row of the store: no list of fields goes with it.
    pub open spec fn row(self) -> GroupNotificationView {
        GroupNotificationView { fields: Seq::empty(), ..self }
    }

    /// This record with the four columns of `row`. `fields` stays.
    pub open spec fn absorb(self, row: GroupNotificationView) -> GroupNotificationView {
        GroupNotificationView { fields: self.fields, ..row }
    }
}

impl NotificationView {
    /// The blank record with the given key: no acknowledgement yet.
    pub open spec fn keyed(uid: Id, tid: Id, sender: Id) -> NotificationView {
        NotificationView { uid, tid, sender, status: 0, message: Seq::empty(), fields: Seq::empty() }
    }

    /// The record as a row of the store: no list of fields goes with it.
    pub open spec fn row(self) -> NotificationView {
        NotificationView { fields: Seq::empty(), ..self }
    }

    /// This record with the five columns of `row`. `fields` stays.
    pub open spec fn absorb(self, row: NotificationView) -> NotificationView {
        NotificationView { fields: self.fields, ..row }
    }
}

/// The names of the columns of a group notification.
pub open spec fn group_notification_labels() -> Seq<Seq<char>> {
    seq!["gid"@, "tid"@, "sender"@, "role"@]
}

/// The names of the columns of a notification.
pub open spec fn notification_labels() -> Seq<Seq<char>> {
    seq!["uid"@, "tid"@, "sender"@, "status"@, "message"@]
}

impl GroupNotification {
    /// The blank record with the given key.
    pub fn with_pk(gid: Id, tid: Id, sender: Id) -> (n: GroupNotification)
        ensures
            n@ == GroupNotificationView::keyed(gid, tid, sender),
    {
        let n = GroupNotification { gid, tid, sender, role: 0, _fields: Vec::new() };
        assert(texts(n._fields@) =~= Seq::<Seq<char>>::empty());
        n
    }

    /// The names of all columns, in the order of the record.
    pub fn fields() -> (v: Vec<String>)
        ensures
            texts(v@) == group_notification_labels(),
    {
        let mut v: Vec<String> = Vec::new();
        v.push(String::from_str("gid"));
        v.push(String::from_str("tid"));
        v.push(String::from_str("sender"));
        v.push(String::from_str("role"));
        assert(texts(v@) =~= group_notification_labels());
        v
    }

    /// Takes the four columns from `row`.
    pub fn fill(&mut self, row: &GroupNotification)
        ensures
            final(self)@ == old(self)@.absorb(row@),
    {
        self.gid = row.gid;
        self.tid = row.tid;
        self.sender = row.sender;
        self.role = row.role;
    }
}

impl Default for GroupNotification {
    fn default() -> (n: GroupNotification)
        ensures
            n@ == GroupNotificationView::keyed(Id::nil(), Id::nil(), Id::nil()),
    {
        GroupNotification::with_pk(Id::zero(), Id::zero(), Id::zero())
    }
}

impl Notification {
    /// The blank record with the given key: no acknowledgement yet.
    pub fn with_pk(uid: Id, tid: Id, sender: Id) -> (n: Notification)
        ensures
            n@ == NotificationView::keyed(uid, tid, sender),
    {
        let n = Notification {
            uid,
            tid,
            sender,
            status: 0,
            message: String::new(),
            _fields: Vec::new(),
        };
        assert(texts(n._fields@) =~= Seq::<Seq<char>>::empty());
        n
    }

    /// The names of all columns, in the order of the record.
    pub fn fields() -> (v: Vec<String>)
        ensures
            texts(v@) == notification_labels(),
    {
        let mut v: Vec<String> = Vec::new();
        v.push(String::from_str("uid"));
        v.push(String::from_str("tid"));
        v.push(String::from_str("sender"));
        v.push(String::from_str("status"));
        v.push(String::from_str("message"));
        assert(texts(v@) =~= notification_labels());
        v
    }

    /// Takes the five columns from `row`.
    pub fn fill(&mut self, row: &Notification)
        ensures
            final(self)@ == old(self)@.absorb(row@),
    {
        self.uid = row.uid;
        self.tid = row.tid;
        self.sender = row.sender;
        self.status = row.status;
        self.message = row.message.clone();
    }
}

impl Default for Notification {
    fn default() -> (n: Notification)
        ensures
            n@ == NotificationView::keyed(Id::nil(), Id::nil(), Id::nil()),
    {
        Notification::with_pk(Id::zero(), Id::zero(), Id::zero())
    }
}

/// The move of an operation that ends with the answer to its one conditional write:
/// `Ok(true)` where the store applied it, a conflict on `write` where it did not.
pub open spec fn applied<S>(reply: ReplyView, write: Write) -> Move<S, bool> {
    match reply {
        ReplyView::Applied(true) => Move::Done(Ok(true)),
        ReplyView::Applied(false) => Move::Done(Err(Error::Conflict(write))),
        _ => Move::Done(Err(reply.fault())),
    }
}

/// The move of an operation that ends with the answer to its one unconditional write.
pub open spec fn done<S>(reply: ReplyView) -> Move<S, ()> {
    match reply {
        ReplyView::Done => Move::Done(Ok(())),
        _ => Move::Done(Err(reply.fault())),
    }
}

/// One step of reading the group notification `n`: the record afterwards and the move.
pub open spec fn group_get_step(n: GroupNotificationView, stage: Trip, reply: ReplyView) -> (
    GroupNotificationView,
    Move<Trip, ()>,
) {
    match stage {
        Trip::Ask => (
            GroupNotificationView { fields: group_notification_labels(), ..n },
            Move::Run(
                Statement::GroupNotificationGet { gid: n.gid, tid: n.tid, sender: n.sender },
                Trip::Answer,
            ),
        ),
        Trip::Answer => match reply {
            ReplyView::GroupNotification(row) => (n.absorb(row), Move::Done(Ok(()))),
            _ => (n, Move::Done(Err(reply.fault()))),
        },
    }
}

/// One step of inserting the group notification `n`: the record afterwards and the
/// move. The insert is refused with a conflict where one with the same key is there.
pub open spec fn group_save_step(n: GroupNotificationView, stage: Trip, reply: ReplyView) -> (
    GroupNotificationView,
    Move<Trip, bool>,
) {
    match stage {
        Trip::Ask => {
            let n1 = GroupNotificationView { fields: group_notification_labels(), ..n };
            (n1, Move::Run(Statement::GroupNotificationInsert { row: n1 }, Trip::Answer))
        },
        Trip::Answer => (n, applied(reply, Write::GroupNotificationSave)),
    }
}

/// One step of deleting the group notification `n`.
pub open spec fn group_delete_step(n: GroupNotificationView, stage: Trip, reply: ReplyView) -> Move<Trip, ()> {
    match stage {
        Trip::Ask => Move::Run(
            Statement::GroupNotificationDelete { gid: n.gid, tid: n.tid, sender: n.sender },
            Trip::Answer,
        ),
        Trip::Answer => done(reply),
    }
}

/// One step of reading the notification `n`: the record afterwards and the move.
pub open spec fn notification_get_step(n: NotificationView, stage: Trip, reply: ReplyView) -> (
    NotificationView,
    Move<Trip, ()>,
) {
    match stage {
        Trip::Ask => (
            NotificationView { fields: notification_labels(), ..n },
            Move::Run(Statement::NotificationGet { uid: n.uid, tid: n.tid, sender: n.sender }, Trip::Answer),
        ),
        Trip::Answer => match reply {
            ReplyView::Notification(row) => (n.absorb(row), Move::Done(Ok(()))),
            _ => (n, Move::Done(Err(reply.fault()))),
        },
    }
}

/// One step of inserting the notification `n`: the record afterwards and the move. The
/// insert is refused with a conflict where one with the same key is there.
pub open spec fn notification_save_step(n: NotificationView, stage: Trip, reply: ReplyView) -> (
    NotificationView,
    Move<Trip, bool>,
) {
    match stage {
        Trip::Ask => {
            let n1 = NotificationView { fields: notification_labels(), ..n };
            (n1, Move::Run(Statement::NotificationInsert { row: n1 }, Trip::Answer))
        },
        Trip::Answer => (n, applied(reply, Write::NotificationSave)),
    }
}

/// One step of writing the acknowledgement that the notification `n` holds: its status
/// and message go to the row if the row is there, whatever the row held; a missing row
/// is a conflict.
pub open spec fn notification_update_step(n: NotificationView, stage: Trip, reply: ReplyView) -> Move<
    Trip,
    bool,
> {
    match stage {
        Trip::Ask => Move::Run(
            Statement::NotificationUpdate {
                uid: n.uid,
                tid: n.tid,
                sender: n.sender,
                status: n.status,
                message: n.message,
            },
            Trip::Answer,
        ),
        Trip::Answer => applied(reply, Write::NotificationUpdate),
    }
}

/// One step of deleting the notification `n`.
pub open spec fn notification_delete_step(n: NotificationView, stage: Trip, reply: ReplyView) -> Move<
    Trip,
    (),
> {
    match stage {
        Trip::Ask => Move::Run(
            Statement::NotificationDelete { uid: n.uid, tid: n.tid, sender: n.sender },
            Trip::Answer,
        ),
        Trip::Answer => done(reply),
    }
}

/// One step of deleting the notifications of the recipient `uid`, all of them or those
/// of one status.
pub open spec fn notification_purge_step(uid: Id, status: Option<i8>, stage: Trip, reply: ReplyView) -> Move<
    Trip,
    (),
> {
    match stage {
        Trip::Ask => Move::Run(Statement::NotificationPurge { uid, status }, Trip::Answer),
        Trip::Answer => done(reply),
    }
}

/// How far the deletion of the notifications of a task has come: what was asked of the
/// store last.
#[derive(Clone, Copy, Debug, PartialEq, Eq, Structural)]
pub enum SweepStage {
    /// Nothing yet.
    Begin,
    /// A scan for notifications of the task.
    Scanned,
    /// The delete of one of the rows found; `next` rows of the last scan are dealt with.
    Deleting { next: usize },
}

/// One step of deleting every notification of the task `tid`: the rows of the last scan
/// afterwards, and the move.
///
/// A scan finds up to 1000 rows. Each is deleted in turn, whether or not the delete
/// before it went through; then the scan is repeated. The operation ends with the first
/// scan that finds nothing, or fails.
pub open spec fn sweep_step(tid: Id, found: Seq<NotificationView>, stage: SweepStage, reply: ReplyView) -> (
    Seq<NotificationView>,
    Move<SweepStage, ()>,
) {
    match stage {
        SweepStage::Begin => (found, Move::Run(Statement::NotificationScan { tid }, SweepStage::Scanned)),
        SweepStage::Scanned => match reply {
            ReplyView::Notifications(rows) => if rows.len() == 0 {
                (rows, Move::Done(Ok(())))
            } else {
                (
                    rows,
                    Move::Run(
                        Statement::NotificationDelete {
                            uid: rows[0].uid,
                            tid: rows[0].tid,
                            sender: rows[0].sender,
                        },
                        SweepStage::Deleting { next: 1 },
                    ),
                )
            },
            _ => (found, Move::Done(Err(reply.fault()))),
        },
        SweepStage::Deleting { next } => if next < found.len() {
            (
                found,
                Move::Run(
                    Statement::NotificationDelete {
                        uid: found[next as int].uid,
                        tid: found[next as int].tid,
                        sender: found[next as int].sender,
                    },
                    SweepStage::Deleting { next: (next + 1) as usize },
                ),
            )
        } else {
            (found, Move::Run(Statement::NotificationScan { tid }, SweepStage::Scanned))
        },
    }
}

/// The views of the notifications in `v`.
pub open spec fn notification_views(v: Seq<Notification>) -> Seq<NotificationView> {
    v.map_values(|n: Notification| n@)
}

/// The end of an operation with one conditional write: see [`applied`].
pub fn finish_applied<S>(reply: Reply, write: Write) -> (next: Next<S, bool>)
    ensures
        plays(next, applied::<S>(reply@, write)),
{
    match reply {
        Reply::Applied(true) => Next::Done(Ok(true)),
        Reply::Applied(false) => Next::Done(Err(Error::Conflict(write))),
        other => Next::Done(Err(other.into_fault())),
    }
}

/// The end of an operation with one unconditional write: see [`done`].
pub fn finish_done<S>(reply: Reply) -> (next: Next<S, ()>)
    ensures
        plays(next, done::<S>(reply@)),
{
    match reply {
        Reply::Done => Next::Done(Ok(())),
        other => Next::Done(Err(other.into_fault())),
    }
}

impl GroupNotification {
    /// One step of reading the group notification: see [`group_get_step`].
    pub fn get_one(&mut self, stage: Trip, reply: Reply) -> (next: Next<Trip, ()>)
        ensures
            final(self)@ == group_get_step(old(self)@, stage, reply@).0,
            plays(next, group_get_step(old(self)@, stage, reply@).1),
    {
        match stage {
            Trip::Ask => {
                self._fields = GroupNotification::fields();
                Next::Run(group_notification_get(self.gid, self.tid, self.sender), Trip::Answer)
            },
            Trip::Answer => match reply {
                Reply::GroupNotification(row) => {
                    self.fill(&row);
                    Next::Done(Ok(()))
                },
                other => Next::Done(Err(other.into_fault())),
            },
        }
    }

    /// One step of inserting the group notification: see [`group_save_step`].
    pub fn save(&mut self, stage: Trip, reply: Reply) -> (next: Next<Trip, bool>)
        ensures
            final(self)@ == group_save_step(old(self)@, stage, reply@).0,
            plays(next, group_save_step(old(self)@, stage, reply@).1),
    {
        match stage {
            Trip::Ask => {
                self._fields = GroupNotification::fields();
                Next::Run(group_notification_insert(self), Trip::Answer)
            },
            Trip::Answer => finish_applied(reply, Write::GroupNotificationSave),
        }
    }

    /// One step of deleting the group notification: see [`group_delete_step`].
    pub fn delete(&self, stage: Trip, reply: Reply) -> (next: Next<Trip, ()>)
        ensures
            plays(next, group_delete_step(self@, stage, reply@)),
    {
        match stage {
            Trip::Ask => Next::Run(group_notification_delete(self.gid, self.tid, self.sender), Trip::Answer),
            Trip::Answer => finish_done(reply),
        }
    }

    /// One step of reading a page of the notifications of the group `gid`.
    ///
    /// The statement asks for at most `page_size` rows, of the role `role` where one is
    /// given, with a task id below `page_token` where one is given. The rows that come
    /// back are handed out in their order, each with the names of its columns.
    pub fn list(
        gid: Id,
        page_size: u16,
        page_token: Option<Id>,
        role: Option<i8>,
        stage: Trip,
        reply: Reply,
    ) -> (next: Next<Trip, Vec<GroupNotification>>)
        ensures
            match stage {
                Trip::Ask => next matches Next::Run(q, Trip::Answer) && q@ == (Statement::GroupNotificationList {
                    gid,
                    page_size,
                    page_token,
                    role,
                }).query(),
                Trip::Answer => match reply@ {
                    ReplyView::GroupNotifications(rows) => {
                        &&& next matches Next::Done(Ok(docs))
                        &&& docs@.len() == rows.len()
                        &&& forall|i: int|
                            0 <= i < rows.len() ==> (#[trigger] docs@[i])@ == (GroupNotificationView {
                                fields: group_notification_labels(),
                                ..rows[i]
                            })
                    },
                    _ => next matches Next::Done(Err(err)) && err == reply@.fault(),
                },
            },
    {
        match stage {
            Trip::Ask => Next::Run(group_notification_list(gid, page_size, page_token, role), Trip::Answer),
            Trip::Answer => match reply {
                Reply::GroupNotifications(rows) => {
                    let mut docs: Vec<GroupNotification> = Vec::new();
                    let mut i: usize = 0;
                    while i < rows.len()
                        invariant
                            i <= rows.len(),
                            docs@.len() == i,
                            forall|j: int|
                                0 <= j < i ==> (#[trigger] docs@[j])@ == (GroupNotificationView {
                                    fields: group_notification_labels(),
                                    ..rows@[j]@
                                }),
                        decreases rows.len() - i,
                    {
                        let mut doc = GroupNotification::with_pk(rows[i].gid, rows[i].tid, rows[i].sender);
                        doc.role = rows[i].role;
                        doc._fields = GroupNotification::fields();
                        docs.push(doc);
                        i += 1;
                    }
                    Next::Done(Ok(docs))
                },
                other => Next::Done(Err(other.into_fault())),
            },
        }
    }
}

impl Notification {
    /// One step of reading the notification: see [`notification_get_step`].
    pub fn get_one(&mut self, stage: Trip, reply: Reply) -> (next: Next<Trip, ()>)
        ensures
            final(self)@ == notification_get_step(old(self)@, stage, reply@).0,
            plays(next, notification_get_step(old(self)@, stage, reply@).1),
    {
        match stage {
            Trip::Ask => {
                self._fields = Notification::fields();
                Next::Run(notification_get(self.uid, self.tid, self.sender), Trip::Answer)
            },
            Trip::Answer => match reply {
                Reply::Notification(row) => {
                    self.fill(&row);
                    Next::Done(Ok(()))
                },
                other => Next::Done(Err(other.into_fault())),
            },
        }
    }

    /// One step of inserting the notification: see [`notification_save_step`].
    pub fn save(&mut self, stage: Trip, reply: Reply) -> (next: Next<Trip, bool>)
        ensures
            final(self)@ == notification_save_step(old(self)@, stage, reply@).0,
            plays(next, notification_save_step(old(self)@, stage, reply@).1),
    {
        match stage {
            Trip::Ask => {
                self._fields = Notification::fields();
                Next::Run(notification_insert(self), Trip::Answer)
            },
            Trip::Answer => finish_applied(reply, Write::NotificationSave),
        }
    }

    /// One step of writing the acknowledgement: see [`notification_update_step`].
    pub fn update(&self, stage: Trip, reply: Reply) -> (next: Next<Trip, bool>)
        ensures
            plays(next, notification_update_step(self@, stage, reply@)),
    {
        match stage {
            Trip::Ask => Next::Run(
                notification_update(self.uid, self.tid, self.sender, self.status, &self.message),
                Trip::Answer,
            ),
            Trip::Answer => finish_applied(reply, Write::NotificationUpdate),
        }
    }

    /// One step of deleting the notification: see [`notification_delete_step`].
    pub fn delete(&self, stage: Trip, reply: Reply) -> (next: Next<Trip, ()>)
        ensures
            plays(next, notification_delete_step(self@, stage, reply@)),
    {
        match stage {
            Trip::Ask => Next::Run(notification_delete(self.uid, self.tid, self.sender), Trip::Answer),
            Trip::Answer => finish_done(reply),
        }
    }

    /// One step of deleting every notification of the task `tid`: see [`sweep_step`].
    /// `found` holds the rows of the last scan between the steps.
    pub fn batch_delete_by_tid(tid: Id, found: &mut Vec<Notification>, stage: SweepStage, reply: Reply) -> (next:
        Next<SweepStage, ()>)
        ensures
            notification_views(final(found)@) == sweep_step(
                tid,
                notification_views(old(found)@),
                stage,
                reply@,
            ).0,
            plays(next, sweep_step(tid, notification_views(old(found)@), stage, reply@).1),
    {
        match stage {
            SweepStage::Begin => Next::Run(notification_scan(tid), SweepStage::Scanned),
            SweepStage::Scanned => match reply {
                Reply::Notifications(rows) => {
                    *found = rows;
                    if found.len() == 0 {
                        Next::Done(Ok(()))
                    } else {
                        Next::Run(
                            notification_delete(found[0].uid, found[0].tid, found[0].sender),
                            SweepStage::Deleting { next: 1 },
                        )
                    }
                },
                other => Next::Done(Err(other.into_fault())),
            },
            SweepStage::Deleting { next } => {
                if next < found.len() {
                    Next::Run(
                        notification_delete(found[next].uid, found[next].tid, found[next].sender),
                        SweepStage::Deleting { next: next + 1 },
                    )
                } else {
                    Next::Run(notification_scan(tid), SweepStage::Scanned)
                }
            },
        }
    }

    /// One step of deleting the notifications of a recipient: see
    /// [`notification_purge_step`].
    pub fn batch_delete_by_uid(uid: Id, status: Option<i8>, stage: Trip, reply: Reply) -> (next: Next<
        Trip,
        (),
    >)
        ensures
            plays(next, notification_purge_step(uid, status, stage, reply@)),
    {
        match stage {
            Trip::Ask => Next::Run(notification_purge(uid, status), Trip::Answer),
            Trip::Answer => finish_done(reply),
        }
    }

    /// One step of reading a page of the notifications of the recipient `uid`.
    ///
    /// The statement asks for at most `page_size` rows, of the status `status` where one
    /// is given, with a task id below `page_token` where one is given. The rows that
    /// come back are handed out in their order, each with the names of its columns.
    pub fn list(
        uid: Id,
        page_size: u16,
        page_token: Option<Id>,
        status: Option<i8>,
        stage: Trip,
        reply: Reply,
    ) -> (next: Next<Trip, Vec<Notification>>)
        ensures
            match stage {
                Trip::Ask => next matches Next::Run(q, Trip::Answer) && q@ == (Statement::NotificationList {
                    uid,
                    page_size,
                    page_token,
                    status,
                }).query(),
                Trip::Answer => match reply@ {
                    ReplyView::Notifications(rows) => {
                        &&& next matches Next::Done(Ok(docs))
                        &&& docs@.len() == rows.len()
                        &&& forall|i: int|
                            0 <= i < rows.len() ==> (#[trigger] docs@[i])@ == (NotificationView {
                                fields: notification_labels(),
                                ..rows[i]
                            })
                    },
                    _ => next matches Next::Done(Err(err)) && err == reply@.fault(),
                },
            },
    {
        match stage {
            Trip::Ask => Next::Run(notification_list(uid, page_size, page_token, status), Trip::Answer),
            Trip::Answer => match reply {
                Reply::Notifications(rows) => {
                    let mut docs: Vec<Notification> = Vec::new();
                    let mut i: usize = 0;
                    while i < rows.len()
                        invariant
                            i <= rows.len(),
                            docs@.len() == i,
                            forall|j: int|
                                0 <= j < i ==> (#[trigger] docs@[j])@ == (NotificationView {
                                    fields: notification_labels(),
                                    ..rows@[j]@
                                }),
                        decreases rows.len() - i,
                    {
                        let mut doc = Notification::with_pk(rows[i].uid, rows[i].tid, rows[i].sender);
                        doc.status = rows[i].status;
                        doc.message = rows[i].message.clone();
                        doc._fields = Notification::fields();
                        docs.push(doc);
                        i += 1;
                    }
                    Next::Done(Ok(docs))
                },
                other => Next::Done(Err(other.into_fault())),
            },
        }
    }
}

} // verus!
