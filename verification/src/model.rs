//! A model of the store: three tables of rows, and what each statement does to them and
//! answers when it runs alone. A conditional statement tests and writes in one step;
//! nothing else is atomic.

use vstd::prelude::*;
use crate::columns::Columns;
use crate::db::model_notification::{GroupNotificationView, NotificationView};
use crate::db::model_task::TaskView;
use crate::error::Vote;
use crate::id::Id;
use crate::statement::Statement;
use crate::store::ReplyView;

verus! {

/// The rows of the three tables, each under its key.
pub struct Store {
    /// Tasks, by owner and task id.
    pub tasks: Map<(Id, Id), TaskView>,
    /// Notifications, by recipient, task id and task owner.
    pub notifications: Map<(Id, Id, Id), NotificationView>,
    /// Group notifications, by group, task id and task owner.
    pub group_notifications: Map<(Id, Id, Id), GroupNotificationView>,
}

impl TaskView {
    /// The row after a vote of `voter` was merged in: the voter is in the set of the
    /// vote and not in the other one; nobody else moves.
    pub open spec fn voted(self, voter: Id, vote: Vote) -> TaskView {
        match vote {
            Vote::Resolve => TaskView {
                rejected: self.rejected.remove(voter),
                resolved: self.resolved.insert(voter),
                ..self
            },
            Vote::Reject => TaskView {
                resolved: self.resolved.remove(voter),
                rejected: self.rejected.insert(voter),
                ..self
            },
        }
    }

    /// The row after a scalar update.
    pub open spec fn patched(
        self,
        updated_at: i64,
        duedate: Option<i64>,
        message: Option<Seq<char>>,
    ) -> TaskView {
        TaskView {
            updated_at,
            duedate: match duedate {
                Some(d) => d,
                None => self.duedate,
            },
            message: match message {
                Some(m) => m,
                None => self.message,
            },
            ..self
        }
    }

    /// The row after `ids` were merged into the assignees (`add`) or out of them.
    pub open spec fn assigned(self, updated_at: i64, ids: Seq<Id>, add: bool) -> TaskView {
        TaskView {
            updated_at,
            assignees: if add {
                self.assignees.union(ids.to_set())
            } else {
                self.assignees.difference(ids.to_set())
            },
            ..self
        }
    }
}

impl Store {
    /// Whether every row lies under its own key.
    pub open spec fn sound(self) -> bool {
        &&& forall|k: (Id, Id)| #[trigger]
            self.tasks.contains_key(k) ==> self.tasks[k].uid == k.0 && self.tasks[k].id == k.1
        &&& forall|k: (Id, Id, Id)| #[trigger]
            self.notifications.contains_key(k) ==> {
                &&& self.notifications[k].uid == k.0
                &&& self.notifications[k].tid == k.1
                &&& self.notifications[k].sender == k.2
            }
        &&& forall|k: (Id, Id, Id)| #[trigger]
            self.group_notifications.contains_key(k) ==> {
                &&& self.group_notifications[k].gid == k.0
                &&& self.group_notifications[k].tid == k.1
                &&& self.group_notifications[k].sender == k.2
            }
    }

    /// Whether `rows` can be the answer to a scan of tasks: each row is the asked
    /// columns of a stored task of the owner that passes the filter and sorts below the
    /// cursor; the rows come in falling order of their task ids, at most a page of them.
    pub open spec fn task_page(
        self,
        uid: Id,
        fields: Seq<Seq<char>>,
        page_size: u16,
        page_token: Option<Id>,
        status: Option<i8>,
        rows: Seq<TaskView>,
        keys: Seq<Id>,
    ) -> bool {
        &&& rows.len() == keys.len()
        &&& rows.len() <= page_size
        &&& forall|i: int|
            0 <= i < keys.len() ==> {
                &&& self.tasks.contains_key((uid, #[trigger] keys[i]))
                &&& rows[i] == self.tasks[(uid, keys[i])].only(Columns::picked(fields))
                &&& (status matches Some(s) ==> self.tasks[(uid, keys[i])].status == s)
                &&& (page_token matches Some(t) ==> keys[i].below(t))
            }
        &&& forall|i: int, j: int| 0 <= i < j < keys.len() ==> (#[trigger] keys[j]).below(#[trigger] keys[i])
    }

    /// Whether `rows` can be the answer to a scan of tasks, under some keys.
    pub open spec fn task_rows(
        self,
        uid: Id,
        fields: Seq<Seq<char>>,
        page_size: u16,
        page_token: Option<Id>,
        status: Option<i8>,
        rows: Seq<TaskView>,
    ) -> bool {
        exists|keys: Seq<Id>| #[trigger]
            self.task_page(uid, fields, page_size, page_token, status, rows, keys)
    }

    /// Whether `rows` can be the answer to a scan of the notifications of a recipient:
    /// each row is a stored notification of the recipient that passes the filter and
    /// whose task id sorts below the cursor; the rows come in falling order of their
    /// task ids, at most a page of them.
    pub open spec fn notification_page(
        self,
        uid: Id,
        page_size: u16,
        page_token: Option<Id>,
        status: Option<i8>,
        rows: Seq<NotificationView>,
    ) -> bool {
        &&& rows.len() <= page_size
        &&& forall|i: int|
            0 <= i < rows.len() ==> {
                let k = (uid, (#[trigger] rows[i]).tid, rows[i].sender);
                &&& self.notifications.contains_key(k)
                &&& rows[i] == self.notifications[k]
                &&& (status matches Some(s) ==> rows[i].status == s)
                &&& (page_token matches Some(t) ==> rows[i].tid.below(t))
            }
        &&& forall|i: int, j: int|
            0 <= i < j < rows.len() ==> {
                ||| (#[trigger] rows[j]).tid == (#[trigger] rows[i]).tid
                ||| rows[j].tid.below(rows[i].tid)
            }
    }

    /// Whether `rows` can be the answer to a scan of the notifications of a task: keys
    /// of stored notifications of that task, at most 1000, and none only if there is
    /// none left.
    pub open spec fn notification_keys(self, tid: Id, rows: Seq<NotificationView>) -> bool {
        &&& rows.len() <= 1000
        &&& forall|i: int|
            0 <= i < rows.len() ==> {
                &&& (#[trigger] rows[i]).tid == tid
                &&& self.notifications.contains_key((rows[i].uid, tid, rows[i].sender))
                &&& rows[i] == NotificationView::keyed(rows[i].uid, tid, rows[i].sender)
            }
        &&& rows.len() == 0 ==> forall|k: (Id, Id, Id)| #[trigger]
            self.notifications.contains_key(k) ==> k.1 != tid
    }

    /// Whether `rows` can be the answer to a scan of the notifications of a group: each
    /// row is a stored notification of the group that passes the filter and whose task
    /// id sorts below the cursor; the rows come in falling order of their task ids, at
    /// most a page of them.
    pub open spec fn group_notification_page(
        self,
        gid: Id,
        page_size: u16,
        page_token: Option<Id>,
        role: Option<i8>,
        rows: Seq<GroupNotificationView>,
    ) -> bool {
        &&& rows.len() <= page_size
        &&& forall|i: int|
            0 <= i < rows.len() ==> {
                let k = (gid, (#[trigger] rows[i]).tid, rows[i].sender);
                &&& self.group_notifications.contains_key(k)
                &&& rows[i] == self.group_notifications[k]
                &&& (role matches Some(r) ==> rows[i].role == r)
                &&& (page_token matches Some(t) ==> rows[i].tid.below(t))
            }
        &&& forall|i: int, j: int|
            0 <= i < j < rows.len() ==> {
                ||| (#[trigger] rows[j]).tid == (#[trigger] rows[i]).tid
                ||| rows[j].tid.below(rows[i].tid)
            }
    }

    /// What the store answers to a statement: the one answer of a statement on one row,
    /// and for a scan some page that the store can give.
    pub open spec fn reply(self, stmt: Statement) -> ReplyView {
        match stmt {
            Statement::TaskGet { uid, id, fields } => if self.tasks.contains_key((uid, id)) {
                ReplyView::Task(self.tasks[(uid, id)].only(Columns::picked(fields)))
            } else {
                ReplyView::NotFound
            },
            Statement::TaskInsert { row } => ReplyView::Applied(!self.tasks.contains_key((row.uid, row.id))),
            Statement::TaskUpdate { uid, id, expected, .. } => ReplyView::Applied(
                self.tasks.contains_key((uid, id)) && self.tasks[(uid, id)].updated_at == expected,
            ),
            Statement::TaskAssignees { uid, id, expected, .. } => ReplyView::Applied(
                self.tasks.contains_key((uid, id)) && self.tasks[(uid, id)].updated_at == expected,
            ),
            Statement::TaskVote { uid, id, .. } => ReplyView::Applied(self.tasks.contains_key((uid, id))),
            Statement::TaskSetStatus { uid, id, .. } => ReplyView::Applied(
                self.tasks.contains_key((uid, id)),
            ),
            Statement::TaskDelete { .. } => ReplyView::Done,
            Statement::TaskPurge { .. } => ReplyView::Done,
            Statement::TaskList { uid, fields, page_size, page_token, status } => ReplyView::Tasks(
                choose|rows: Seq<TaskView>|
                    self.task_rows(uid, fields, page_size, page_token, status, rows),
            ),
            Statement::NotificationGet { uid, tid, sender } => if self.notifications.contains_key(
                (uid, tid, sender),
            ) {
                ReplyView::Notification(self.notifications[(uid, tid, sender)])
            } else {
                ReplyView::NotFound
            },
            Statement::NotificationInsert { row } => ReplyView::Applied(
                !self.notifications.contains_key((row.uid, row.tid, row.sender)),
            ),
            Statement::NotificationUpdate { uid, tid, sender, .. } => ReplyView::Applied(
                self.notifications.contains_key((uid, tid, sender)),
            ),
            Statement::NotificationDelete { .. } => ReplyView::Done,
            Statement::NotificationScan { tid } => ReplyView::Notifications(
                choose|rows: Seq<NotificationView>| self.notification_keys(tid, rows),
            ),
            Statement::NotificationPurge { .. } => ReplyView::Done,
            Statement::NotificationList { uid, page_size, page_token, status } => ReplyView::Notifications(
                choose|rows: Seq<NotificationView>|
                    self.notification_page(uid, page_size, page_token, status, rows),
            ),
            Statement::GroupNotificationGet { gid, tid, sender } => if self.group_notifications.contains_key(
                (gid, tid, sender),
            ) {
                ReplyView::GroupNotification(self.group_notifications[(gid, tid, sender)])
            } else {
                ReplyView::NotFound
            },
            Statement::GroupNotificationInsert { row } => ReplyView::Applied(
                !self.group_notifications.contains_key((row.gid, row.tid, row.sender)),
            ),
            Statement::GroupNotificationDelete { .. } => ReplyView::Done,
            Statement::GroupNotificationList { gid, page_size, page_token, role } => ReplyView::GroupNotifications(
                choose|rows: Seq<GroupNotificationView>|
                    self.group_notification_page(gid, page_size, page_token, role, rows),
            ),
        }
    }

    /// The tasks after a statement.
    pub open spec fn tasks_after(self, stmt: Statement) -> Map<(Id, Id), TaskView> {
        match stmt {
            Statement::TaskInsert { row } => if self.tasks.contains_key((row.uid, row.id)) {
                self.tasks
            } else {
                self.tasks.insert((row.uid, row.id), row.row())
            },
            Statement::TaskUpdate { uid, id, expected, updated_at, duedate, message } => if self.tasks.contains_key(
                (uid, id),
            ) && self.tasks[(uid, id)].updated_at == expected {
                self.tasks.insert((uid, id), self.tasks[(uid, id)].patched(updated_at, duedate, message))
            } else {
                self.tasks
            },
            Statement::TaskAssignees { uid, id, expected, updated_at, ids, add } => if self.tasks.contains_key(
                (uid, id),
            ) && self.tasks[(uid, id)].updated_at == expected {
                self.tasks.insert((uid, id), self.tasks[(uid, id)].assigned(updated_at, ids, add))
            } else {
                self.tasks
            },
            Statement::TaskVote { uid, id, voter, vote } => if self.tasks.contains_key((uid, id)) {
                self.tasks.insert((uid, id), self.tasks[(uid, id)].voted(voter, vote))
            } else {
                self.tasks
            },
            Statement::TaskSetStatus { uid, id, status } => if self.tasks.contains_key((uid, id)) {
                self.tasks.insert((uid, id), TaskView { status, ..self.tasks[(uid, id)] })
            } else {
                self.tasks
            },
            Statement::TaskDelete { uid, id } => self.tasks.remove((uid, id)),
            Statement::TaskPurge { uid, status } => self.tasks.remove_keys(
                Set::new(
                    |k: (Id, Id)|
                        k.0 == uid && self.tasks.contains_key(k) && (status matches Some(s)
                            ==> self.tasks[k].status == s),
                ),
            ),
            _ => self.tasks,
        }
    }

    /// The notifications after a statement.
    pub open spec fn notifications_after(self, stmt: Statement) -> Map<(Id, Id, Id), NotificationView> {
        match stmt {
            Statement::NotificationInsert { row } => if self.notifications.contains_key(
                (row.uid, row.tid, row.sender),
            ) {
                self.notifications
            } else {
                self.notifications.insert((row.uid, row.tid, row.sender), row.row())
            },
            Statement::NotificationUpdate { uid, tid, sender, status, message } => if self.notifications.contains_key(
                (uid, tid, sender),
            ) {
                self.notifications.insert(
                    (uid, tid, sender),
                    NotificationView { status, message, ..self.notifications[(uid, tid, sender)] },
                )
            } else {
                self.notifications
            },
            Statement::NotificationDelete { uid, tid, sender } => self.notifications.remove(
                (uid, tid, sender),
            ),
            Statement::NotificationPurge { uid, status } => self.notifications.remove_keys(
                Set::new(
                    |k: (Id, Id, Id)|
                        k.0 == uid && self.notifications.contains_key(k) && (status matches Some(s)
                            ==> self.notifications[k].status == s),
                ),
            ),
            _ => self.notifications,
        }
    }

    /// The group notifications after a statement.
    pub open spec fn group_notifications_after(self, stmt: Statement) -> Map<
        (Id, Id, Id),
        GroupNotificationView,
    > {
        match stmt {
            Statement::GroupNotificationInsert { row } => if self.group_notifications.contains_key(
                (row.gid, row.tid, row.sender),
            ) {
                self.group_notifications
            } else {
                self.group_notifications.insert((row.gid, row.tid, row.sender), row.row())
            },
            Statement::GroupNotificationDelete { gid, tid, sender } => self.group_notifications.remove(
                (gid, tid, sender),
            ),
            _ => self.group_notifications,
        }
    }

    /// The store after a statement.
    pub open spec fn after(self, stmt: Statement) -> Store {
        Store {
            tasks: self.tasks_after(stmt),
            notifications: self.notifications_after(stmt),
            group_notifications: self.group_notifications_after(stmt),
        }
    }
}

} // verus!
